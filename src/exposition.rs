use vstd::prelude::*;

verus! {

#[verifier::external_type_specification]
#[verifier::external_body]
pub struct ExError(prometheus::Error);

/// An integer gauge family of the prometheus crate, registered alone in a
/// registry of its own, with the text encoder that renders that registry.
#[verifier::external_body]
pub struct GaugeFamily {
    vec: prometheus::IntGaugeVec,
    registry: prometheus::Registry,
    encoder: prometheus::TextEncoder,
}

/// The key under which prometheus files a series: a hash of its label values
/// written one after the other, with nothing between them. Label tuples whose
/// values run together alike, such as ("ab", "c") and ("a", "bc"), share a key.
pub uninterp spec fn series_key(label_values: Seq<Seq<char>>) -> u64;

/// What a family holds: for each series key, the label values the series was
/// created with, and its current value.
pub uninterp spec fn series_of(f: GaugeFamily) -> Map<u64, (Seq<Seq<char>>, int)>;

/// A family's descriptor: its full name, help text and variable label names.
pub uninterp spec fn desc_of(f: GaugeFamily) -> (Seq<char>, Seq<char>, Seq<Seq<char>>);

/// The exposition text of a family with the given descriptor and series; a
/// family without series renders to nothing.
pub uninterp spec fn rendered(desc: (Seq<char>, Seq<char>, Seq<Seq<char>>), series: Map<u64, (Seq<Seq<char>>, int)>) -> Seq<u8>;

/// The views of a list of label values.
pub open spec fn views_of(labels: Seq<&str>) -> Seq<Seq<char>> {
    labels.map_values(|l: &str| l@)
}

/// A character that may start a metric name when `colon` holds, or a label name
/// when it does not.
pub open spec fn ident_start(c: char, colon: bool) -> bool {
    ('a' <= c <= 'z') || ('A' <= c <= 'Z') || c == '_' || (colon && c == ':')
}

/// A name made of one starting character followed by starting characters or digits.
pub open spec fn valid_ident(s: Seq<char>, colon: bool) -> bool {
    &&& s.len() > 0
    &&& ident_start(s[0], colon)
    &&& forall|i: int| 1 <= i < s.len() ==> ident_start(s[i], colon) || ('0' <= s[i] <= '9')
}

/// The fully qualified name of a family: the name, prefixed by the namespace and
/// `_` when the namespace is not empty.
pub open spec fn full_name(namespace: Seq<char>, name: Seq<char>) -> Seq<char> {
    if name.len() == 0 {
        Seq::empty()
    } else if namespace.len() == 0 {
        name
    } else {
        namespace + seq!['_'] + name
    }
}

/// The descriptor checks that a family must pass to be created: a help text, a
/// valid full name, and valid, distinct label names.
pub open spec fn family_accepted(
    namespace: Seq<char>,
    name: Seq<char>,
    help: Seq<char>,
    labels: Seq<Seq<char>>,
) -> bool {
    &&& help.len() > 0
    &&& valid_ident(full_name(namespace, name), true)
    &&& forall|i: int| 0 <= i < labels.len() ==> valid_ident(#[trigger] labels[i], false)
    &&& forall|i: int, j: int| 0 <= i < j < labels.len() ==> labels[i] != labels[j]
}

/// Relies on prometheus's `IntGaugeVec::new` (through `Opts::new` and
/// `Opts::namespace`), which succeeds exactly when the descriptor checks pass,
/// and on `Registry::new`, `Registry::register` and `TextEncoder::new`: a fresh
/// registry accepts its first collector. The new family holds no series.
#[verifier::external_body]
pub(crate) fn new_gauge_family(namespace: &str, name: &str, help: &str, labels: &[&str]) -> (r:
    Result<GaugeFamily, prometheus::Error>)
    ensures
        r is Ok <==> family_accepted(namespace@, name@, help@, views_of(labels@)),
        r is Ok ==> series_of(r->Ok_0).dom() == Set::<u64>::empty(),
        r is Ok ==> desc_of(r->Ok_0).0 == full_name(namespace@, name@),
        r is Ok ==> desc_of(r->Ok_0).1 == help@,
        r is Ok ==> desc_of(r->Ok_0).2 == views_of(labels@),
{
    let opts = prometheus::Opts::new(name, help).namespace(namespace);
    let vec = prometheus::IntGaugeVec::new(opts, labels)?;
    let registry = prometheus::Registry::new();
    registry.register(Box::new(vec.clone()))?;
    Ok(GaugeFamily { vec, registry, encoder: prometheus::TextEncoder::new() })
}

/// The series after looking up `labels`: an absent series is created at zero
/// with these label values.
pub open spec fn looked_up(series: Map<u64, (Seq<Seq<char>>, int)>, labels: Seq<Seq<char>>) -> Map<u64, (Seq<Seq<char>>, int)> {
    if series.contains_key(series_key(labels)) {
        series
    } else {
        series.insert(series_key(labels), (labels, 0))
    }
}

/// Relies on prometheus's `get_metric_with_label_values`, which finds or
/// creates the series and fails only on a wrong number of label values, and on
/// `IntGauge::get`.
#[verifier::external_body]
pub(crate) fn gauge_value(family: &mut GaugeFamily, labels: &[&str]) -> (r: Result<i64, prometheus::Error>)
    ensures
        desc_of(*final(family)) == desc_of(*old(family)),
        labels@.len() == desc_of(*old(family)).2.len() ==> r is Ok,
        r is Ok ==> series_of(*final(family)) == looked_up(series_of(*old(family)), views_of(labels@)),
        r is Ok ==> r->Ok_0 as int == series_of(*final(family))[series_key(views_of(labels@))].1,
        r is Err ==> series_of(*final(family)) == series_of(*old(family)),
{
    family.vec.get_metric_with_label_values(labels).map(|g| g.get())
}

/// Relies on prometheus's `get_metric_with_label_values`, as above, and on
/// `IntGauge::set` on the series found.
#[verifier::external_body]
pub(crate) fn set_gauge(family: &mut GaugeFamily, labels: &[&str], value: i64) -> (r: Result<(), prometheus::Error>)
    ensures
        desc_of(*final(family)) == desc_of(*old(family)),
        labels@.len() == desc_of(*old(family)).2.len() ==> r is Ok,
        r is Ok ==> series_of(*final(family)) == {
            let s = looked_up(series_of(*old(family)), views_of(labels@));
            let k = series_key(views_of(labels@));
            s.insert(k, (s[k].0, value as int))
        },
        r is Err ==> series_of(*final(family)) == series_of(*old(family)),
{
    family.vec.get_metric_with_label_values(labels).map(|g| g.set(value))
}

/// Relies on prometheus's `Registry::gather`, which leaves out families without
/// series, and `TextEncoder::encode` into a buffer, which fails only on a
/// family without series or without a name.
#[verifier::external_body]
pub(crate) fn render(family: &GaugeFamily) -> (r: Result<Vec<u8>, prometheus::Error>)
    ensures
        desc_of(*family).0.len() > 0 ==> r is Ok,
        r is Ok ==> r->Ok_0@ == rendered(desc_of(*family), series_of(*family)),
        r is Ok && series_of(*family).dom() == Set::<u64>::empty() ==> r->Ok_0@.len() == 0,
{
    let mut buffer = Vec::new();
    prometheus::Encoder::encode(&family.encoder, &family.registry.gather(), &mut buffer).map(|_| buffer)
}

} // verus!
