use vstd::prelude::*;

verus! {

/// Why the settings were refused.
#[derive(Debug, PartialEq, Eq, Structural)]
pub enum ConfigError {
    /// No access token was given, by flag or by environment.
    MissingToken,
    /// The timeline selector is not one of `local`, `federated`, `user`.
    UnknownTimeline,
}

impl ConfigError {
    /// A one-line description of the error.
    pub fn describe(&self) -> (r: String)
        ensures
            r@ == config_error_text(*self),
    {
        match self {
            ConfigError::MissingToken => String::from_str(
                "please specify an access token with `--token`, or by setting the `MASTODON_ACCESS_TOKEN` environment variable",
            ),
            ConfigError::UnknownTimeline => String::from_str(
                "timeline must be one of: [local, federated, user]",
            ),
        }
    }
}

/// The description of each configuration error.
pub open spec fn config_error_text(e: ConfigError) -> Seq<char> {
    match e {
        ConfigError::MissingToken =>
            "please specify an access token with `--token`, or by setting the `MASTODON_ACCESS_TOKEN` environment variable"@,
        ConfigError::UnknownTimeline => "timeline must be one of: [local, federated, user]"@,
    }
}

/// Which timeline the stream is opened on.
#[derive(Clone, Copy, Debug, PartialEq, Eq, Structural)]
pub enum Endpoint {
    Local,
    Federated,
    User,
}

/// `s` begins with `p`.
pub open spec fn has_prefix(s: Seq<char>, p: Seq<char>) -> bool {
    p.len() <= s.len() && s.subrange(0, p.len() as int) == p
}

/// `s` with every leading repetition of a non-empty `p` removed.
pub open spec fn trim_leading(s: Seq<char>, p: Seq<char>) -> Seq<char>
    decreases s.len(),
{
    if p.len() > 0 && has_prefix(s, p) {
        trim_leading(s.subrange(p.len() as int, s.len() as int), p)
    } else {
        s
    }
}

/// The instance URL as given, or with `https://` in front when it names neither
/// `http://` nor `https://`.
pub open spec fn normalized_url(url: Seq<char>) -> Seq<char> {
    if has_prefix(url, "http://"@) || has_prefix(url, "https://"@) {
        url
    } else {
        "https://"@ + url
    }
}

/// The instance URL without its leading `https://` and `http://` markers: the
/// default domain of handles that name none.
pub open spec fn short_url(url: Seq<char>) -> Seq<char> {
    trim_leading(trim_leading(url, "https://"@), "http://"@)
}

/// The timeline that a selector names, if any.
pub open spec fn timeline_of(s: Seq<char>) -> Option<Endpoint> {
    if s == "local"@ {
        Some(Endpoint::Local)
    } else if s == "federated"@ {
        Some(Endpoint::Federated)
    } else if s == "user"@ {
        Some(Endpoint::User)
    } else {
        None
    }
}

/// Whether `s` begins with `p`.
pub fn starts_with(s: &str, p: &str) -> (r: bool)
    ensures
        r == has_prefix(s@, p@),
{
    let n = s.unicode_len();
    let m = p.unicode_len();
    if m > n {
        return false;
    }
    let mut i: usize = 0;
    while i < m
        invariant
            m <= n,
            n == s@.len(),
            m == p@.len(),
            i <= m,
            forall|j: int| 0 <= j < i ==> s@[j] == p@[j],
        decreases m - i,
    {
        if s.get_char(i) != p.get_char(i) {
            assert(s@.subrange(0, m as int)[i as int] != p@[i as int]);
            return false;
        }
        i = i + 1;
    }
    assert(s@.subrange(0, m as int) =~= p@);
    true
}

/// Removes every leading repetition of `p` from `s`.
pub fn trim_start_matches(s: &str, p: &str) -> (r: String)
    ensures
        r@ == trim_leading(s@, p@),
{
    let m = p.unicode_len();
    if m == 0 {
        return s.to_string();
    }
    let mut rest: &str = s;
    while starts_with(rest, p)
        invariant
            m == p@.len(),
            m > 0,
            trim_leading(rest@, p@) == trim_leading(s@, p@),
        decreases rest@.len(),
    {
        let n = rest.unicode_len();
        rest = rest.substring_char(m, n);
    }
    rest.to_string()
}

/// The instance URL to connect to: `https://` is assumed when no protocol is given.
pub fn normalize_instance_url(url: &str) -> (r: String)
    ensures
        r@ == normalized_url(url@),
{
    if starts_with(url, "http://") || starts_with(url, "https://") {
        url.to_string()
    } else {
        String::from_str("https://").concat(url)
    }
}

/// The instance URL stripped of its protocol markers.
pub fn short_instance_url(url: &str) -> (r: String)
    ensures
        r@ == short_url(url@),
{
    let once = trim_start_matches(url, "https://");
    trim_start_matches(once.as_str(), "http://")
}

/// Reads a timeline selector.
pub fn parse_timeline(s: &str) -> (r: Result<Endpoint, ConfigError>)
    ensures
        timeline_of(s@) is Some ==> r == Ok::<Endpoint, ConfigError>(timeline_of(s@)->0),
        timeline_of(s@) is None ==> r == Err::<Endpoint, ConfigError>(ConfigError::UnknownTimeline),
{
    let t = s.to_string();
    if t == String::from_str("local") {
        Ok(Endpoint::Local)
    } else if t == String::from_str("federated") {
        Ok(Endpoint::Federated)
    } else if t == String::from_str("user") {
        Ok(Endpoint::User)
    } else {
        Err(ConfigError::UnknownTimeline)
    }
}

/// The access token: the one given by flag, else the one from the environment.
pub fn resolve_token(flag: Option<String>, env: Option<String>) -> (r: Result<String, ConfigError>)
    ensures
        flag is Some ==> r is Ok && r->Ok_0@ == flag->0@,
        flag is None && env is Some ==> r is Ok && r->Ok_0@ == env->0@,
        flag is None && env is None ==> r == Err::<String, ConfigError>(ConfigError::MissingToken),
{
    match flag {
        Some(t) => Ok(t),
        None => match env {
            Some(t) => Ok(t),
            None => Err(ConfigError::MissingToken),
        },
    }
}

/// The settings the exporter runs with.
pub struct Args {
    pub instance_url: String,
    pub access_token: String,
    pub bind: String,
    pub port: u16,
    pub endpoint: Endpoint,
    pub namespace: String,
}

impl Args {
    /// Settles the options as given: the URL gets a protocol, the token falls
    /// back on the environment's, and the timeline selector is read.
    pub fn from_options(
        instance_url: &str,
        token: Option<String>,
        env_token: Option<String>,
        bind: String,
        port: u16,
        timeline: &str,
        namespace: String,
    ) -> (r: Result<Args, ConfigError>)
        ensures
            token is None && env_token is None ==> r == Err::<Args, ConfigError>(ConfigError::MissingToken),
            (token is Some || env_token is Some) && timeline_of(timeline@) is None ==> r == Err::<
                Args,
                ConfigError,
            >(ConfigError::UnknownTimeline),
            r is Ok <==> (token is Some || env_token is Some) && timeline_of(timeline@) is Some,
            r is Ok ==> {
                let a = r->Ok_0;
                &&& a.instance_url@ == normalized_url(instance_url@)
                &&& a.access_token@ == (if token is Some { token->0@ } else { env_token->0@ })
                &&& a.bind@ == bind@
                &&& a.port == port
                &&& a.endpoint == timeline_of(timeline@)->0
                &&& a.namespace@ == namespace@
            },
    {
        let instance_url = normalize_instance_url(instance_url);
        let access_token = match resolve_token(token, env_token) {
            Ok(t) => t,
            Err(e) => {
                return Err(e);
            },
        };
        let endpoint = match parse_timeline(timeline) {
            Ok(e) => e,
            Err(e) => {
                return Err(e);
            },
        };
        Ok(Args { instance_url, access_token, bind, port, endpoint, namespace })
    }
}

} // verus!
