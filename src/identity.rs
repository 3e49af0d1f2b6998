use vstd::prelude::*;

verus! {

/// A user identity: the part of a handle before its first `@`, and a domain.
pub struct Identity {
    pub localpart: String,
    pub domain: String,
}

/// `k` is the position of the first `@` in `s`.
pub open spec fn first_at(s: Seq<char>, k: int) -> bool {
    &&& 0 <= k < s.len()
    &&& s[k] == '@'
    &&& forall|j: int| 0 <= j < k ==> s[j] != '@'
}

/// `s` holds an `@` somewhere.
pub open spec fn has_at(s: Seq<char>) -> bool {
    exists|k: int| first_at(s, k)
}

/// The local part of `handle`: everything before its first `@`, or the whole handle.
pub open spec fn localpart_of(handle: Seq<char>) -> Seq<char> {
    if has_at(handle) {
        let k = choose|k: int| first_at(handle, k);
        handle.subrange(0, k)
    } else {
        handle
    }
}

/// The domain of `handle`: everything after its first `@`, or `default_domain`
/// when it holds none.
pub open spec fn domain_of(handle: Seq<char>, default_domain: Seq<char>) -> Seq<char> {
    if has_at(handle) {
        let k = choose|k: int| first_at(handle, k);
        handle.subrange(k + 1, handle.len() as int)
    } else {
        default_domain
    }
}

/// There is at most one first `@`.
pub proof fn lemma_first_at_unique(s: Seq<char>, a: int, b: int)
    requires
        first_at(s, a),
        first_at(s, b),
    ensures
        a == b,
{
    if a < b {
        assert(s[a] != '@');
    } else if b < a {
        assert(s[b] != '@');
    }
}

/// Where the first `@` of a handle stands, the handle splits there.
pub proof fn lemma_split_at(handle: Seq<char>, default_domain: Seq<char>, k: int)
    requires
        first_at(handle, k),
    ensures
        localpart_of(handle) == handle.subrange(0, k),
        domain_of(handle, default_domain) == handle.subrange(k + 1, handle.len() as int),
{
    let c = choose|c: int| first_at(handle, c);
    lemma_first_at_unique(handle, k, c);
}

/// Splits `handle` on its first `@`; without one, the domain is `default_domain`.
pub fn parse(handle: &str, default_domain: &str) -> (id: Identity)
    ensures
        id.localpart@ == localpart_of(handle@),
        id.domain@ == domain_of(handle@, default_domain@),
{
    let n = handle.unicode_len();
    let mut i: usize = 0;
    while i < n
        invariant
            n == handle@.len(),
            i <= n,
            forall|j: int| 0 <= j < i ==> handle@[j] != '@',
        decreases n - i,
    {
        if handle.get_char(i) == '@' {
            let localpart = handle.substring_char(0, i).to_string();
            let domain = handle.substring_char(i + 1, n).to_string();
            proof {
                assert(first_at(handle@, i as int));
                lemma_split_at(handle@, default_domain@, i as int);
            }
            return Identity { localpart, domain };
        }
        i = i + 1;
    }
    proof {
        if has_at(handle@) {
            let k = choose|k: int| first_at(handle@, k);
            assert(handle@[k] == '@');
        }
    }
    Identity { localpart: handle.to_string(), domain: default_domain.to_string() }
}

/// What `str::to_lowercase` makes of a string.
pub uninterp spec fn lower_of(s: Seq<char>) -> Seq<char>;

/// Relies on `str::to_lowercase`: its result depends on the characters alone, and
/// the empty string stays empty.
#[verifier::external_body]
pub(crate) fn lowercase(s: &str) -> (r: String)
    ensures
        r@ == lower_of(s@),
        s@.len() == 0 ==> r@.len() == 0,
{
    s.to_lowercase()
}

} // verus!
