//! The record of the URLs that a crawl has taken up.

use dashmap::DashSet;
use vstd::prelude::*;

verus! {

/// `dashmap::DashSet`, a hash set; what it holds is known by name only.
#[verifier::external_type_specification]
#[verifier::external_body]
#[verifier::reject_recursive_types(K)]
#[verifier::reject_recursive_types(S)]
pub struct ExDashSet<K, S>(DashSet<K, S>);

/// The URLs that the set holds.
pub uninterp spec fn held_urls(set: DashSet<String>) -> Set<Seq<char>>;

/// `dashmap::DashSet::new`: a set that holds nothing.
#[verifier::external_body]
fn empty_set() -> (r: DashSet<String>)
    ensures
        held_urls(r) == Set::<Seq<char>>::empty(),
{
    DashSet::new()
}

/// `dashmap::DashSet::contains`: whether the set holds the URL.
#[verifier::external_body]
fn set_holds(set: &DashSet<String>, url: &str) -> (r: bool)
    ensures
        r == held_urls(*set).contains(url@),
{
    set.contains(url)
}

/// `dashmap::DashSet::insert`: puts the URL into the set, and says
/// whether the set did not hold it before.
#[verifier::external_body]
fn set_insert(set: &mut DashSet<String>, url: String) -> (r: bool)
    ensures
        held_urls(*final(set)) == held_urls(*old(set)).insert(url@),
        r == !held_urls(*old(set)).contains(url@),
{
    set.insert(url)
}

/// The URLs that one crawl has taken up. A URL is only ever added.
pub struct VisitedSet {
    urls: DashSet<String>,
}

impl View for VisitedSet {
    type V = Set<Seq<char>>;

    closed spec fn view(&self) -> Set<Seq<char>> {
        held_urls(self.urls)
    }
}

impl VisitedSet {
    /// A set without URLs.
    pub fn new() -> (r: Self)
        ensures
            r@ == Set::<Seq<char>>::empty(),
    {
        VisitedSet { urls: empty_set() }
    }

    /// Whether the URL was taken up before.
    pub fn contains(&self, url: &str) -> (r: bool)
        ensures
            r == self@.contains(url@),
    {
        set_holds(&self.urls, url)
    }

    /// Takes the URL up, and says whether it was not taken up before.
    pub fn insert(&mut self, url: &str) -> (fresh: bool)
        ensures
            final(self)@ == old(self)@.insert(url@),
            fresh == !old(self)@.contains(url@),
    {
        set_insert(&mut self.urls, url.to_owned())
    }
}

} // verus!
