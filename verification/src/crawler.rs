//! The crawl: which pages are fetched, and which scripts a page links.

pub mod address;
pub mod client;
pub mod visited;

use crate::config::ScanConfig;
use crate::crawler::address::{join_url, joined, url_string, url_text};
use crate::crawler::visited::VisitedSet;
use crate::engine::{
    all_captures, capture_all, captures_view, compile, pattern_accepted, pattern_text, Capture,
};
use crate::error::Error;
use crate::types::{lemma_texts_push, texts};
use vstd::prelude::*;

verus! {

/// A script element with its `src` attribute; the attribute's value is
/// the first capture group.
pub const SCRIPT_PATTERN: &'static str = r#"<script[^>]+src=["']([^"']+)["']"#;

/// The absolute URLs of the script references among `caps`, resolved
/// against `base`, in order. A reference that resolves to no URL gives
/// none.
pub open spec fn script_links(caps: Seq<Option<(nat, Seq<char>)>>, base: Seq<char>) -> Seq<
    Seq<char>,
>
    decreases caps.len(),
{
    if caps.len() == 0 {
        Seq::empty()
    } else {
        let head = script_links(caps.drop_last(), base);
        match caps.last() {
            Some(c) => match joined(base, c.1) {
                Some(link) => head.push(link),
                None => head,
            },
            None => head,
        }
    }
}

/// The absolute URLs of the scripts that a page links.
pub open spec fn page_scripts(html: Seq<char>, base: Seq<char>) -> Seq<Seq<char>> {
    script_links(all_captures(SCRIPT_PATTERN@, html, 1), base)
}

/// The absolute URLs of the script references among the captures.
pub fn links_of_captures(caps: &Vec<Option<Capture>>, base_url: &url::Url) -> (r: Vec<String>)
    ensures
        texts(r@) == script_links(captures_view(caps@), url_text(*base_url)),
{
    let ghost all = captures_view(caps@);
    let ghost base = url_text(*base_url);
    let mut out: Vec<String> = Vec::new();
    let mut k: usize = 0;
    while k < caps.len()
        invariant
            k <= caps.len(),
            all == captures_view(caps@),
            base == url_text(*base_url),
            texts(out@) == script_links(all.take(k as int), base),
        decreases caps.len() - k,
    {
        proof {
            let next = all.take(k + 1);
            assert(next.drop_last() == all.take(k as int));
        }
        match &caps[k] {
            Some(c) => match join_url(base_url, c.1.as_str()) {
                Some(link) => {
                    let s = url_string(&link);
                    proof {
                        lemma_texts_push(out@, s);
                    }
                    out.push(s);
                },
                None => {},
            },
            None => {},
        }
        k += 1;
    }
    assert(all.take(caps@.len() as int) == all);
    out
}

/// The compiled script pattern.
struct ScriptRule {
    rule: regex::Regex,
}

impl ScriptRule {
    #[verifier::type_invariant]
    spec fn well_formed(&self) -> bool {
        pattern_text(self.rule) == SCRIPT_PATTERN@
    }

    /// Compiles the script pattern, where the engine accepts it.
    fn new() -> (r: Option<Self>)
        ensures
            r is Some <==> pattern_accepted(SCRIPT_PATTERN@),
    {
        match compile(SCRIPT_PATTERN) {
            Some(rule) => Some(ScriptRule { rule }),
            None => None,
        }
    }

    /// What the `src` attributes of the script elements of a page hold.
    fn references(&self, html: &str) -> (r: Vec<Option<Capture>>)
        ensures
            captures_view(r@) == all_captures(SCRIPT_PATTERN@, html@, 1),
    {
        proof {
            use_type_invariant(self);
        }
        capture_all(&self.rule, html, 1)
    }
}

/// The crawler of one scan: it records which URLs were taken up, and
/// finds the scripts of a page.
pub struct Crawler {
    respect_robots_txt: bool,
    visited: VisitedSet,
    script_rule: ScriptRule,
}

impl Crawler {
    /// The URLs taken up so far.
    pub closed spec fn visited(&self) -> Set<Seq<char>> {
        self.visited@
    }

    /// Whether robots.txt is consulted before the crawl.
    pub closed spec fn respects_robots(&self) -> bool {
        self.respect_robots_txt
    }

    /// A crawler that has taken up no URL yet. It fails exactly when the
    /// engine refuses the script pattern.
    pub fn new(config: &ScanConfig) -> (r: Result<Self, Error>)
        ensures
            r is Ok <==> pattern_accepted(SCRIPT_PATTERN@),
            r matches Ok(c) ==> c.visited() == Set::<Seq<char>>::empty() && c.respects_robots()
                == config.respect_robots_txt,
            r matches Err(e) ==> e is ParserError,
    {
        match ScriptRule::new() {
            Some(script_rule) => Ok(
                Crawler {
                    respect_robots_txt: config.respect_robots_txt,
                    visited: VisitedSet::new(),
                    script_rule,
                },
            ),
            None => Err(Error::ParserError("script pattern refused".to_owned())),
        }
    }

    /// Whether robots.txt is consulted before the crawl.
    pub fn robots_respected(&self) -> (r: bool)
        ensures
            r == self.respects_robots(),
    {
        self.respect_robots_txt
    }

    /// Whether the URL was taken up before.
    pub fn is_visited(&self, url: &str) -> (r: bool)
        ensures
            r == self.visited().contains(url@),
    {
        self.visited.contains(url)
    }

    /// Takes a URL up for fetching. The answer is whether it is to be
    /// fetched: it is unless it was taken up before. Nothing else
    /// changes, and no URL is ever dropped.
    pub fn claim(&mut self, url: &str) -> (fresh: bool)
        ensures
            fresh == !old(self).visited().contains(url@),
            final(self).visited() == old(self).visited().insert(url@),
            final(self).respects_robots() == old(self).respects_robots(),
    {
        self.visited.insert(url)
    }

    /// The absolute URLs of the scripts that the page links, in the
    /// order of the script elements.
    pub fn extract_scripts(&self, html: &str, base_url: &url::Url) -> (r: Vec<String>)
        ensures
            texts(r@) == page_scripts(html@, url_text(*base_url)),
    {
        let caps = self.script_rule.references(html);
        links_of_captures(&caps, base_url)
    }
}

} // verus!
