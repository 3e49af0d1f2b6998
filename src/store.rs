use vstd::prelude::*;
use crate::exposition::{
    desc_of, family_accepted, full_name, gauge_value, new_gauge_family, render, rendered,
    series_key, series_of, set_gauge, views_of, GaugeFamily,
};
use crate::identity::{domain_of, localpart_of, lower_of, lowercase, parse};

verus! {

/// The key of a series: what prometheus files its label values under.
pub type SeriesKey = u64;

/// The series of a family, by key: label values and current value.
pub type Series = Map<u64, (Seq<Seq<char>>, int)>;

/// Why a store operation failed.
#[derive(Debug, PartialEq, Eq, Structural)]
pub enum MetricsError {
    /// The metric family was refused at creation.
    Init,
    /// The exporter could not find or create the series for a label tuple.
    Lookup,
    /// The snapshot could not be rendered.
    Encode,
}

impl MetricsError {
    /// A one-line description of the error.
    pub fn describe(&self) -> (r: String)
        ensures
            r@ == error_text(*self),
    {
        match self {
            MetricsError::Init => String::from_str("metrics initialization failed"),
            MetricsError::Lookup => String::from_str("failed to get metric for label values"),
            MetricsError::Encode => String::from_str("failed to encode metrics"),
        }
    }
}

/// The description of each error.
pub open spec fn error_text(e: MetricsError) -> Seq<char> {
    match e {
        MetricsError::Init => "metrics initialization failed"@,
        MetricsError::Lookup => "failed to get metric for label values"@,
        MetricsError::Encode => "failed to encode metrics"@,
    }
}

/// The label values, (domain, user), that a handle is counted under.
pub open spec fn handle_labels(handle: Seq<char>, fold_case: bool, default_domain: Seq<char>) -> Seq<Seq<char>> {
    let h = if fold_case { lower_of(handle) } else { handle };
    seq![domain_of(h, default_domain), localpart_of(h)]
}

/// The key of the series that a handle is counted under.
pub open spec fn handle_key(handle: Seq<char>, fold_case: bool, default_domain: Seq<char>) -> SeriesKey {
    series_key(handle_labels(handle, fold_case, default_domain))
}

/// The value of each series.
pub open spec fn values_of(series: Series) -> Map<SeriesKey, int> {
    series.map_values(|p: (Seq<Seq<char>>, int)| p.1)
}

/// The store after one increment of `k`: a new key starts at one, and a value
/// already at `i64::MAX` stays there.
pub open spec fn incremented(m: Map<SeriesKey, int>, k: SeriesKey) -> Map<SeriesKey, int> {
    if m.contains_key(k) {
        m.insert(k, if m[k] < i64::MAX { m[k] + 1 } else { m[k] })
    } else {
        m.insert(k, 1)
    }
}

/// The metric family's name.
pub open spec fn family_name() -> Seq<char> {
    "statuses_total"@
}

/// The metric family's help text.
pub open spec fn family_help() -> Seq<char> {
    "Number of statuses posted"@
}

/// The metric family's variable labels, in order.
pub open spec fn family_labels() -> Seq<Seq<char>> {
    seq!["domain"@, "user"@]
}

/// A namespace that a family can be created under.
pub open spec fn namespace_accepted(namespace: Seq<char>) -> bool {
    family_accepted(namespace, family_name(), family_help(), family_labels())
}

/// The store's family descriptor under `namespace`.
pub open spec fn family_desc(namespace: Seq<char>) -> (Seq<char>, Seq<char>, Seq<Seq<char>>) {
    (full_name(namespace, family_name()), family_help(), family_labels())
}

/// The metric store: a prometheus gauge family with one series per label tuple
/// observed, labelled (domain, user).
pub struct Metrics {
    gauges: GaugeFamily,
    namespace: String,
    default_domain: String,
    fold_case: bool,
}

impl View for Metrics {
    type V = Map<SeriesKey, int>;

    open spec fn view(&self) -> Map<SeriesKey, int> {
        values_of(self.series())
    }
}

/// What creating a store under `namespace` gives: an empty, well-formed store
/// with the given settings when the namespace is accepted, `Init` otherwise.
pub open spec fn created(
    namespace: Seq<char>,
    default_domain: Seq<char>,
    fold_case: bool,
    r: Result<Metrics, MetricsError>,
) -> bool {
    &&& r is Ok <==> namespace_accepted(namespace)
    &&& r is Err ==> r == Err::<Metrics, MetricsError>(MetricsError::Init)
    &&& r is Ok ==> {
        let m = r->Ok_0;
        &&& m.wf()
        &&& m@ == Map::<SeriesKey, int>::empty()
        &&& m.series().dom() == Set::<SeriesKey>::empty()
        &&& m.namespace_spec() == namespace
        &&& m.default_domain_spec() == default_domain
        &&& m.folds_case() == fold_case
    }
}

impl Metrics {
    /// The family was created under the store's namespace, with the store's
    /// name, help text and labels.
    pub open spec fn wf(&self) -> bool {
        &&& namespace_accepted(self.namespace_spec())
        &&& self.desc() == family_desc(self.namespace_spec())
    }

    /// The family's descriptor: full name, help text and label names.
    pub closed spec fn desc(&self) -> (Seq<char>, Seq<char>, Seq<Seq<char>>) {
        desc_of(self.gauges)
    }

    /// The series of the family, with their label values.
    pub closed spec fn series(&self) -> Series {
        series_of(self.gauges)
    }

    pub closed spec fn namespace_spec(&self) -> Seq<char> {
        self.namespace@
    }

    pub closed spec fn default_domain_spec(&self) -> Seq<char> {
        self.default_domain@
    }

    pub closed spec fn folds_case(&self) -> bool {
        self.fold_case
    }

    /// The store's exposition text.
    pub open spec fn exposition(&self) -> Seq<u8> {
        rendered(family_desc(self.namespace_spec()), self.series())
    }

    /// Creates a store that lower-cases handles before splitting them.
    pub fn create(namespace: &str, default_domain: String) -> (r: Result<Metrics, MetricsError>)
        ensures
            created(namespace@, default_domain@, true, r),
    {
        Metrics::create_with_folding(namespace, default_domain, true)
    }

    /// Creates a store; `fold_case` says whether handles are lower-cased before
    /// they are split.
    pub fn create_with_folding(namespace: &str, default_domain: String, fold_case: bool) -> (r:
        Result<Metrics, MetricsError>)
        ensures
            created(namespace@, default_domain@, fold_case, r),
    {
        let labels: [&str; 2] = ["domain", "user"];
        proof {
            reveal_strlit("domain");
            reveal_strlit("user");
            reveal_strlit("statuses_total");
            reveal_strlit("Number of statuses posted");
            assert(views_of(labels@) =~= family_labels());
        }
        let gauges = match new_gauge_family(
            namespace,
            "statuses_total",
            "Number of statuses posted",
            labels.as_slice(),
        ) {
            Ok(g) => g,
            Err(_) => {
                return Err(MetricsError::Init);
            },
        };
        let m = Metrics { gauges, namespace: namespace.to_string(), default_domain, fold_case };
        assert(m@ =~= Map::<SeriesKey, int>::empty());
        Ok(m)
    }

    /// The label values of `username`: lower-cased first when the store folds
    /// case, then split on the first `@`, as (domain, user).
    fn labels_of(&self, username: &str) -> (r: (String, String))
        ensures
            seq![r.0@, r.1@] == handle_labels(username@, self.folds_case(), self.default_domain_spec()),
    {
        let handle = if self.fold_case {
            lowercase(username)
        } else {
            username.to_string()
        };
        let id = parse(handle.as_str(), self.default_domain.as_str());
        (id.domain, id.localpart)
    }

    /// Sets the series for `username` to `status_count`, creating the series if
    /// it is new.
    pub fn set(&mut self, username: &str, status_count: i64) -> (r: Result<(), MetricsError>)
        requires
            old(self).wf(),
        ensures
            r is Ok,
            final(self).wf(),
            final(self).namespace_spec() == old(self).namespace_spec(),
            final(self).default_domain_spec() == old(self).default_domain_spec(),
            final(self).folds_case() == old(self).folds_case(),
            final(self)@ == old(self)@.insert(
                handle_key(username@, old(self).folds_case(), old(self).default_domain_spec()),
                status_count as int,
            ),
            final(self).series().dom() == old(self).series().dom().insert(
                handle_key(username@, old(self).folds_case(), old(self).default_domain_spec()),
            ),
            forall|k: SeriesKey| #[trigger] old(self).series().contains_key(k) ==> final(self).series()[k].0 == old(self).series()[k].0,
            !old(self).series().contains_key(handle_key(username@, old(self).folds_case(), old(self).default_domain_spec()))
                ==> final(self).series()[handle_key(username@, old(self).folds_case(), old(self).default_domain_spec())].0
                == handle_labels(username@, old(self).folds_case(), old(self).default_domain_spec()),
    {
        let (domain, user) = self.labels_of(username);
        let labels: [&str; 2] = [domain.as_str(), user.as_str()];
        proof {
            assert(views_of(labels@) =~= seq![domain@, user@]);
            reveal_strlit("domain");
            reveal_strlit("user");
        }
        let r = set_gauge(&mut self.gauges, labels.as_slice(), status_count);
        let ghost k = series_key(views_of(labels@));
        assert(self@ =~= old(self)@.insert(k, status_count as int));
        assert(self.series().dom() =~= old(self).series().dom().insert(k));
        match r {
            Ok(()) => Ok(()),
            Err(_) => Err(MetricsError::Lookup),
        }
    }

    /// Adds one to the series for `username`, creating it at one if it is new;
    /// a series at `i64::MAX` stays there.
    pub fn increment(&mut self, username: &str) -> (r: Result<(), MetricsError>)
        requires
            old(self).wf(),
        ensures
            r is Ok,
            final(self).wf(),
            final(self).namespace_spec() == old(self).namespace_spec(),
            final(self).default_domain_spec() == old(self).default_domain_spec(),
            final(self).folds_case() == old(self).folds_case(),
            final(self)@ == incremented(
                old(self)@,
                handle_key(username@, old(self).folds_case(), old(self).default_domain_spec()),
            ),
            final(self).series().dom() == old(self).series().dom().insert(
                handle_key(username@, old(self).folds_case(), old(self).default_domain_spec()),
            ),
            forall|k: SeriesKey| #[trigger] old(self).series().contains_key(k) ==> final(self).series()[k].0 == old(self).series()[k].0,
            !old(self).series().contains_key(handle_key(username@, old(self).folds_case(), old(self).default_domain_spec()))
                ==> final(self).series()[handle_key(username@, old(self).folds_case(), old(self).default_domain_spec())].0
                == handle_labels(username@, old(self).folds_case(), old(self).default_domain_spec()),
    {
        let (domain, user) = self.labels_of(username);
        let labels: [&str; 2] = [domain.as_str(), user.as_str()];
        proof {
            assert(views_of(labels@) =~= seq![domain@, user@]);
            reveal_strlit("domain");
            reveal_strlit("user");
        }
        let ghost k = series_key(views_of(labels@));
        let current = match gauge_value(&mut self.gauges, labels.as_slice()) {
            Ok(v) => v,
            Err(_) => {
                return Err(MetricsError::Lookup);
            },
        };
        let next: i64 = if current < i64::MAX {
            current + 1
        } else {
            current
        };
        let r = set_gauge(&mut self.gauges, labels.as_slice(), next);
        assert(self@ =~= incremented(old(self)@, k));
        assert(self.series().dom() =~= old(self).series().dom().insert(k));
        match r {
            Ok(()) => Ok(()),
            Err(_) => Err(MetricsError::Lookup),
        }
    }

    /// Renders every series in the text exposition format; the store is not
    /// changed.
    pub fn encode(&self) -> (r: Result<Vec<u8>, MetricsError>)
        requires
            self.wf(),
        ensures
            r is Ok,
            r->Ok_0@ == self.exposition(),
            self.series().dom() == Set::<SeriesKey>::empty() ==> r->Ok_0@.len() == 0,
    {
        proof { reveal_strlit("statuses_total"); }
        match render(&self.gauges) {
            Ok(buffer) => Ok(buffer),
            Err(_) => Err(MetricsError::Encode),
        }
    }
}

} // verus!
