use mastodon_exporter::config::{
    normalize_instance_url, parse_timeline, resolve_token, short_instance_url, starts_with,
    trim_start_matches, Args, ConfigError, Endpoint,
};
use mastodon_exporter::consumer::{apply_event, Action, Consumer, Mode, Phase, Signal, StreamEvent};
use mastodon_exporter::identity::parse;
use mastodon_exporter::scrape::respond;
use mastodon_exporter::store::{Metrics, MetricsError};

fn store() -> Metrics {
    Metrics::create("mastodon", "example.social".to_string()).unwrap()
}

fn text(m: &Metrics) -> String {
    String::from_utf8(m.encode().unwrap()).unwrap()
}

fn line(domain: &str, user: &str, value: i64) -> String {
    format!("mastodon_statuses_total{{domain=\"{}\",user=\"{}\"}} {}\n", domain, user, value)
}

fn series_count(m: &Metrics) -> usize {
    text(m).lines().filter(|l| !l.starts_with('#')).count()
}

fn has_series(m: &Metrics, domain: &str, user: &str) -> bool {
    text(m).contains(&format!("{{domain=\"{}\",user=\"{}\"}}", domain, user))
}

fn update(acct: &str, count: i64) -> StreamEvent {
    StreamEvent::Update { acct: acct.to_string(), statuses_count: count }
}

#[test]
fn parse_without_domain_uses_default() {
    let id = parse("alice", "example.social");
    assert_eq!(id.localpart, "alice");
    assert_eq!(id.domain, "example.social");
}

#[test]
fn parse_with_domain() {
    let id = parse("bob@other.social", "example.social");
    assert_eq!(id.localpart, "bob");
    assert_eq!(id.domain, "other.social");
}

#[test]
fn parse_empty_handle() {
    let id = parse("", "example.social");
    assert_eq!(id.localpart, "");
    assert_eq!(id.domain, "example.social");
}

#[test]
fn parse_splits_on_first_at_only() {
    let id = parse("a@b@c", "d");
    assert_eq!(id.localpart, "a");
    assert_eq!(id.domain, "b@c");
    let id = parse("@x", "d");
    assert_eq!(id.localpart, "");
    assert_eq!(id.domain, "x");
}

#[test]
fn create_refuses_bad_namespace() {
    assert_eq!(Metrics::create("bad-ns", "d".to_string()).err(), Some(MetricsError::Init));
    assert_eq!(Metrics::create("9lives", "d".to_string()).err(), Some(MetricsError::Init));
    assert!(Metrics::create("", "d".to_string()).is_ok());
    assert!(Metrics::create("ns:sub_1", "d".to_string()).is_ok());
}

#[test]
fn create_twice_gives_independent_stores() {
    let mut a = store();
    let b = store();
    a.increment("alice").unwrap();
    assert!(text(&a).contains(&line("example.social", "alice", 1)));
    assert!(!has_series(&b, "example.social", "alice"));
    assert_eq!(series_count(&b), 0);
}

#[test]
fn increments_count_exactly() {
    let mut m = store();
    for i in 0..7 {
        m.increment("alice").unwrap();
        if i % 2 == 0 {
            m.increment("bob@other.social").unwrap();
        }
    }
    assert!(text(&m).contains(&line("example.social", "alice", 7)));
    assert!(text(&m).contains(&line("other.social", "bob", 4)));
    assert_eq!(series_count(&m), 2);
}

#[test]
fn set_keeps_last_value() {
    let mut m = store();
    m.set("alice", 10).unwrap();
    m.set("bob", 3).unwrap();
    m.set("alice", 4).unwrap();
    m.set("alice", 12).unwrap();
    assert!(text(&m).contains(&line("example.social", "alice", 12)));
    assert!(text(&m).contains(&line("example.social", "bob", 3)));
    assert_eq!(series_count(&m), 2);
}

#[test]
fn increment_saturates_at_max() {
    let mut m = store();
    m.set("alice", i64::MAX - 1).unwrap();
    let below = text(&m);
    m.increment("alice").unwrap();
    let at_max = text(&m);
    m.increment("alice").unwrap();
    assert_eq!(text(&m), at_max);
    m.set("alice", i64::MAX - 1).unwrap();
    assert_eq!(text(&m), below);
}

#[test]
fn folding_lowercases_handles() {
    let mut m = store();
    m.set("ALICE@Other.Social", 5).unwrap();
    assert!(text(&m).contains(&line("other.social", "alice", 5)));
    assert!(!has_series(&m, "Other.Social", "ALICE"));
}

#[test]
fn no_folding_keeps_case() {
    let mut m = Metrics::create_with_folding("mastodon", "example.social".to_string(), false).unwrap();
    m.set("ALICE@Other.Social", 5).unwrap();
    assert!(text(&m).contains(&line("Other.Social", "ALICE", 5)));
    assert!(!has_series(&m, "other.social", "alice"));
}

#[test]
fn snapshot_reports_increment_count() {
    let mut m = store();
    for _ in 0..3 {
        m.increment("alice").unwrap();
    }
    let text = String::from_utf8(m.encode().unwrap()).unwrap();
    assert!(text.contains("# TYPE mastodon_statuses_total gauge"));
    assert!(text.contains("mastodon_statuses_total{domain=\"example.social\",user=\"alice\"} 3"));
}

#[test]
fn empty_store_encodes_to_nothing() {
    let m = store();
    assert_eq!(m.encode(), Ok(Vec::new()));
}

#[test]
fn joined_label_values_share_a_series() {
    let mut m = Metrics::create_with_folding("mastodon", "d".to_string(), false).unwrap();
    m.set("c@ab", 1).unwrap();
    m.set("bc@a", 2).unwrap();
    assert_eq!(series_count(&m), 1);
    assert!(text(&m).contains(&line("ab", "c", 2)));
}

#[test]
fn repeated_set_changes_nothing() {
    let mut m = store();
    m.set("alice", 4).unwrap();
    let before = text(&m);
    m.set("alice", 4).unwrap();
    assert_eq!(text(&m), before);
}

#[test]
fn respond_ok_is_200() {
    let r = respond(Ok(b"abc".to_vec()));
    assert_eq!(r.status, 200);
    assert_eq!(r.content_length, 3);
    assert_eq!(r.body, b"abc".to_vec());
}

#[test]
fn respond_error_is_500() {
    let r = respond(Err(MetricsError::Encode));
    assert_eq!(r.status, 500);
    assert_eq!(r.body, b"failed to encode metrics".to_vec());
    assert_eq!(r.content_length, 24);
}

#[test]
fn error_descriptions() {
    assert_eq!(MetricsError::Init.describe(), "metrics initialization failed");
    assert_eq!(MetricsError::Lookup.describe(), "failed to get metric for label values");
    assert_eq!(
        ConfigError::UnknownTimeline.describe(),
        "timeline must be one of: [local, federated, user]"
    );
}

#[test]
fn instance_url_gets_https() {
    assert_eq!(normalize_instance_url("mastodon.social"), "https://mastodon.social");
    assert_eq!(normalize_instance_url("http://a.b"), "http://a.b");
    assert_eq!(normalize_instance_url("https://a.b"), "https://a.b");
    assert_eq!(normalize_instance_url(""), "https://");
}

#[test]
fn short_url_drops_protocols() {
    assert_eq!(short_instance_url("https://mastodon.social"), "mastodon.social");
    assert_eq!(short_instance_url("http://a.b"), "a.b");
    assert_eq!(short_instance_url("https://https://a.b"), "a.b");
    assert_eq!(short_instance_url("a.b"), "a.b");
}

#[test]
fn prefix_helpers() {
    assert!(starts_with("https://x", "https://"));
    assert!(!starts_with("http", "https://"));
    assert!(starts_with("x", ""));
    assert_eq!(trim_start_matches("ababc", "ab"), "c");
    assert_eq!(trim_start_matches("abc", ""), "abc");
}

#[test]
fn timeline_selectors() {
    assert_eq!(parse_timeline("local"), Ok(Endpoint::Local));
    assert_eq!(parse_timeline("federated"), Ok(Endpoint::Federated));
    assert_eq!(parse_timeline("user"), Ok(Endpoint::User));
    assert_eq!(parse_timeline("public"), Err(ConfigError::UnknownTimeline));
}

#[test]
fn token_falls_back_on_environment() {
    assert_eq!(resolve_token(Some("a".to_string()), Some("b".to_string())), Ok("a".to_string()));
    assert_eq!(resolve_token(None, Some("b".to_string())), Ok("b".to_string()));
    assert_eq!(resolve_token(None, None), Err(ConfigError::MissingToken));
}

#[test]
fn args_from_options() {
    let a = Args::from_options("a.b", None, Some("t".to_string()), "127.0.0.1".to_string(), 9000, "user", "ns".to_string())
        .unwrap();
    assert_eq!(a.instance_url, "https://a.b");
    assert_eq!(a.access_token, "t");
    assert_eq!(a.port, 9000);
    assert_eq!(a.endpoint, Endpoint::User);
    let e = Args::from_options("a.b", None, None, "h".to_string(), 1, "nope", "ns".to_string());
    assert_eq!(e.err().map(|e| e.describe()), Some(ConfigError::MissingToken.describe()));
    let e = Args::from_options("a.b", Some("t".to_string()), None, "h".to_string(), 1, "nope", "ns".to_string());
    assert_eq!(e.err().map(|e| e.describe()), Some(ConfigError::UnknownTimeline.describe()));
}

#[test]
fn other_events_change_nothing() {
    let mut m = store();
    m.set("alice", 2).unwrap();
    assert_eq!(apply_event(&mut m, StreamEvent::Other, Mode::Gauge), Ok(()));
    let mut c = Consumer::new(Mode::Counter, true);
    assert_eq!(c.on_signal(&mut m, Signal::Opened), Action::AwaitEvent);
    let before = text(&m);
    assert_eq!(c.on_signal(&mut m, Signal::Received(StreamEvent::Other)), Action::AwaitEvent);
    assert_eq!(text(&m), before);
    assert_eq!(c.phase(), Phase::Streaming);
    assert!(text(&m).contains(&line("example.social", "alice", 2)));
    assert_eq!(series_count(&m), 1);
}

#[test]
fn reconnect_keeps_every_update() {
    let events = ["a", "b@x.y", "a", "c", "a", "b@x.y"];
    let mut straight = store();
    let mut c = Consumer::new(Mode::Counter, true);
    assert_eq!(c.start(), Action::Connect);
    c.on_signal(&mut straight, Signal::Opened);
    for e in events.iter() {
        c.on_signal(&mut straight, Signal::Received(update(e, 0)));
    }

    let mut broken = store();
    let mut c = Consumer::new(Mode::Counter, true);
    c.on_signal(&mut broken, Signal::Opened);
    for e in events[..3].iter() {
        c.on_signal(&mut broken, Signal::Received(update(e, 0)));
    }
    assert_eq!(c.on_signal(&mut broken, Signal::Failed), Action::Wait(5));
    assert_eq!(c.phase(), Phase::BackingOff);
    assert_eq!(c.on_signal(&mut broken, Signal::DelayElapsed), Action::Connect);
    assert_eq!(c.on_signal(&mut broken, Signal::OpenFailed), Action::Wait(5));
    assert_eq!(c.on_signal(&mut broken, Signal::DelayElapsed), Action::Connect);
    assert_eq!(c.on_signal(&mut broken, Signal::Opened), Action::AwaitEvent);
    for e in events[3..].iter() {
        c.on_signal(&mut broken, Signal::Received(update(e, 0)));
    }

    assert_eq!(text(&broken), text(&straight));
    assert!(text(&broken).contains(&line("example.social", "a", 3)));
    assert!(text(&broken).contains(&line("x.y", "b", 2)));
}

#[test]
fn scrape_answers_while_backing_off() {
    let mut m = store();
    let mut c = Consumer::new(Mode::Gauge, true);
    c.on_signal(&mut m, Signal::Opened);
    c.on_signal(&mut m, Signal::Received(update("alice", 42)));
    let last_known = text(&m);
    c.on_signal(&mut m, Signal::Failed);
    assert_eq!(c.phase(), Phase::BackingOff);
    assert_eq!(c.on_signal(&mut m, Signal::Received(update("alice", 1))), Action::Ignore);
    let r = respond(m.encode());
    assert_eq!(r.status, 200);
    assert_eq!(r.body, last_known.as_bytes().to_vec());
    let text = String::from_utf8(r.body).unwrap();
    assert!(text.contains("mastodon_statuses_total{domain=\"example.social\",user=\"alice\"} 42"));
}

#[test]
fn without_retry_a_failure_stops() {
    let mut m = store();
    let mut c = Consumer::new(Mode::Gauge, false);
    assert_eq!(c.on_signal(&mut m, Signal::OpenFailed), Action::Stop);
    assert_eq!(c.phase(), Phase::Stopped);
    assert_eq!(c.on_signal(&mut m, Signal::DelayElapsed), Action::Stop);
}
