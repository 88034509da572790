//! Filters over lists of endpoints.

use crate::text::{chars_of, contains, contains_text};
use crate::types::Endpoint;
use vstd::prelude::*;

verus! {

/// Some endpoint of `s` has the key `key`.
pub open spec fn key_seen(s: Seq<Endpoint>, key: (Seq<char>, Option<Seq<char>>)) -> bool {
    exists|j: int| 0 <= j < s.len() && (#[trigger] s[j])@.key() == key
}

/// `s` without the endpoints whose URL and method an earlier endpoint of
/// `s` has already.
pub open spec fn distinct(s: Seq<Endpoint>) -> Seq<Endpoint>
    decreases s.len(),
{
    if s.len() == 0 {
        Seq::empty()
    } else {
        let head = distinct(s.drop_last());
        if key_seen(head, s.last()@.key()) {
            head
        } else {
            head.push(s.last())
        }
    }
}

/// No two endpoints share their URL and method.
pub open spec fn keys_unique(s: Seq<Endpoint>) -> bool {
    forall|i: int, j: int|
        0 <= i < j < s.len() ==> (#[trigger] s[i])@.key() != (#[trigger] s[j])@.key()
}

/// After de-duplication no two endpoints share their URL and method.
pub proof fn lemma_distinct_unique(s: Seq<Endpoint>)
    ensures
        keys_unique(distinct(s)),
    decreases s.len(),
{
    if s.len() > 0 {
        lemma_distinct_unique(s.drop_last());
    }
}

/// De-duplication loses no URL and method, and invents none.
pub proof fn lemma_distinct_keys(s: Seq<Endpoint>, key: (Seq<char>, Option<Seq<char>>))
    ensures
        key_seen(distinct(s), key) <==> key_seen(s, key),
    decreases s.len(),
{
    if s.len() > 0 {
        let init = s.drop_last();
        let head = distinct(init);
        lemma_distinct_keys(init, key);
        if key_seen(s, key) {
            let j = choose|j: int| 0 <= j < s.len() && (#[trigger] s[j])@.key() == key;
            if j < init.len() {
                assert(init[j] == s[j]);
            }
        }
        if key_seen(init, key) {
            let j = choose|j: int| 0 <= j < init.len() && (#[trigger] init[j])@.key() == key;
            assert(s[j] == init[j]);
        }
        if key_seen(head, key) {
            let j = choose|j: int| 0 <= j < head.len() && (#[trigger] head[j])@.key() == key;
            assert(distinct(s)[j] == head[j]);
        }
        if key_seen(distinct(s), key) && !key_seen(head, key) {
            let j = choose|j: int|
                0 <= j < distinct(s).len() && (#[trigger] distinct(s)[j])@.key() == key;
            if j < head.len() {
                assert(head[j] == distinct(s)[j]);
            }
            assert(s[s.len() - 1] == s.last());
        }
        if s.last()@.key() == key && !key_seen(head, key) {
            assert(distinct(s)[head.len() as int] == s.last());
        }
    }
}

/// Whether two endpoints have the same URL and method.
pub fn same_key(a: &Endpoint, b: &Endpoint) -> (r: bool)
    ensures
        r == (a@.key() == b@.key()),
{
    let same_url = a.url == b.url;
    if !same_url {
        return false;
    }
    match &a.method {
        Some(x) => match &b.method {
            Some(y) => {
                let same = *x == *y;
                same
            },
            None => false,
        },
        None => b.method.is_none(),
    }
}

/// Whether some endpoint of the list has the URL and method of `e`.
pub fn holds_key(list: &Vec<Endpoint>, e: &Endpoint) -> (r: bool)
    ensures
        r == key_seen(list@, e@.key()),
{
    let mut j: usize = 0;
    while j < list.len()
        invariant
            j <= list.len(),
            forall|k: int| 0 <= k < j ==> (#[trigger] list@[k])@.key() != e@.key(),
        decreases list.len() - j,
    {
        if same_key(&list[j], e) {
            return true;
        }
        j += 1;
    }
    false
}

/// Filters for endpoint results.
#[derive(Debug, Clone, Copy)]
pub struct EndpointFilter;

impl EndpointFilter {
    pub fn new() -> (r: Self) {
        EndpointFilter
    }

    /// Whether the URL holds the pattern as a substring.
    pub fn matches(&self, url: &str, pattern: &str) -> (r: bool)
        ensures
            r == contains_text(url@, pattern@),
    {
        contains(&chars_of(url), pattern)
    }

    /// Removes every endpoint whose URL and method an earlier endpoint of
    /// the list has already; what stays keeps its order.
    pub fn deduplicate(&self, endpoints: &mut Vec<Endpoint>)
        ensures
            final(endpoints)@ == distinct(old(endpoints)@),
            keys_unique(final(endpoints)@),
    {
        let ghost input = endpoints@;
        let mut rest: Vec<Endpoint> = Vec::new();
        std::mem::swap(endpoints, &mut rest);
        for e in it: rest
            invariant
                it.seq() == input,
                endpoints@ == distinct(input.take(it.index())),
        {
            proof {
                let next = input.take(it.index() + 1);
                assert(next.drop_last() == input.take(it.index()));
            }
            if !holds_key(endpoints, &e) {
                endpoints.push(e);
            }
        }
        proof {
            assert(input.take(input.len() as int) == input);
            lemma_distinct_unique(input);
        }
    }
}

impl Default for EndpointFilter {
    fn default() -> Self {
        EndpointFilter::new()
    }
}

} // verus!
