//! Source maps: where a script points to one, and which sources one
//! lists.

use crate::error::Error;
use crate::text::{
    chars_of, contains_text, find_text, first_index, lines, lines_of, rows, slice_of, string_of,
    trim, trimmed, Trim,
};
use crate::types::{texts, views, Endpoint, EndpointType, EndpointView};
use vstd::prelude::*;

verus! {

/// `sourcemap::SourceMap`, a source map that was read; what it holds is
/// known by name only.
#[verifier::external_type_specification]
#[verifier::external_body]
pub struct ExSourceMap(sourcemap::SourceMap);

/// The names of the sources that a source map lists, in order.
pub uninterp spec fn map_sources(map: sourcemap::SourceMap) -> Seq<Seq<char>>;

/// The names of the sources that a text lists when it is read as a
/// source map, or nothing where it is no regular source map.
pub uninterp spec fn sourcemap_sources(content: Seq<char>) -> Option<Seq<Seq<char>>>;

/// `sourcemap::SourceMap::from_reader`: reads a regular source map from
/// JSON text, or refuses the text. The result depends on the text alone.
#[verifier::external_body]
fn read_map(content: &str) -> (r: Option<sourcemap::SourceMap>)
    ensures
        match r {
            Some(map) => sourcemap_sources(content@) == Some(map_sources(map)),
            None => sourcemap_sources(content@) is None,
        },
{
    sourcemap::SourceMap::from_reader(content.as_bytes()).ok()
}

/// `sourcemap::SourceMap::get_source`: the name of the source at an
/// index, or nothing where the index is past the last source.
#[verifier::external_body]
fn source_name<'a>(map: &'a sourcemap::SourceMap, index: u32) -> (r: Option<&'a str>)
    ensures
        r.deep_view() == if index < map_sources(*map).len() {
            Some(map_sources(*map)[index as int])
        } else {
            None
        },
{
    map.get_source(index)
}

/// How many sources of a map are looked at.
pub const MAX_SOURCES: u32 = u32::MAX;

/// The sources that are looked at: all of them, up to `MAX_SOURCES`.
pub open spec fn listed(sources: Seq<Seq<char>>) -> Seq<Seq<char>> {
    if sources.len() <= MAX_SOURCES {
        sources
    } else {
        sources.take(MAX_SOURCES as int)
    }
}

/// The names of the sources of a map.
fn list_sources(map: &sourcemap::SourceMap) -> (r: Vec<String>)
    ensures
        texts(r@) == listed(map_sources(*map)),
{
    let ghost sources = map_sources(*map);
    let mut out: Vec<String> = Vec::new();
    let mut i: u32 = 0;
    while i < MAX_SOURCES
        invariant
            sources == map_sources(*map),
            i <= sources.len(),
            out@.len() == i,
            forall|k: int| 0 <= k < i ==> (#[trigger] out@[k])@ == sources[k],
        decreases MAX_SOURCES - i,
    {
        match source_name(map, i) {
            Some(name) => {
                out.push(name.to_owned());
            },
            None => {
                assert(texts(out@) =~= listed(sources));
                return out;
            },
        }
        i += 1;
    }
    assert(texts(out@) =~= listed(sources));
    out
}

/// The comment marker that introduces the URL of a source map.
pub open spec fn marker() -> Seq<char> {
    "sourceMappingURL="@
}

/// What follows the first marker of a line, without the white space
/// around it.
pub open spec fn mapping_url(line: Seq<char>) -> Seq<char> {
    trimmed(line.skip(first_index(line, marker()) + marker().len()), Trim::Whitespace)
}

/// The source map URL of the last line that holds the marker.
pub open spec fn last_mapping_url(ls: Seq<Seq<char>>) -> Option<Seq<char>>
    decreases ls.len(),
{
    if ls.len() == 0 {
        None
    } else if contains_text(ls.last(), marker()) {
        Some(mapping_url(ls.last()))
    } else {
        last_mapping_url(ls.drop_last())
    }
}

/// The endpoint that a listed source stands for.
pub open spec fn source_finding(name: Seq<char>) -> EndpointView {
    EndpointView { source: Some("sourcemap"@), ..EndpointView::bare(name, EndpointType::Unknown) }
}

/// The endpoints of a list of sources: one for each, in order.
pub open spec fn source_findings(names: Seq<Seq<char>>) -> Seq<EndpointView> {
    Seq::new(names.len(), |i: int| source_finding(names[i]))
}

/// What a text gives when read as a source map: one endpoint for each
/// source it lists, or none where it is no source map.
pub open spec fn sourcemap_findings(content: Seq<char>) -> Seq<EndpointView> {
    match sourcemap_sources(content) {
        Some(sources) => source_findings(listed(sources)),
        None => Seq::empty(),
    }
}

/// The endpoints of a list of source names: one for each name, in
/// order, with the URL the name, the type unknown, and `sourcemap` as its
/// source.
pub fn endpoints_of_sources(names: &Vec<String>) -> (r: Vec<Endpoint>)
    ensures
        views(r@) == source_findings(texts(names@)),
{
    let mut out: Vec<Endpoint> = Vec::new();
    let mut k: usize = 0;
    while k < names.len()
        invariant
            k <= names.len(),
            out@.len() == k,
            forall|i: int| 0 <= i < k ==> (#[trigger] out@[i])@ == source_finding(names@[i]@),
        decreases names.len() - k,
    {
        let endpoint = Endpoint::new(names[k].clone(), EndpointType::Unknown).with_source(
            "sourcemap",
        );
        out.push(endpoint);
        k += 1;
    }
    assert(views(out@) =~= source_findings(texts(names@)));
    out
}

/// Sourcemap extractor and resolver.
#[derive(Debug, Clone, Copy)]
pub struct SourceMapExtractor;

impl SourceMapExtractor {
    pub fn new() -> (r: Self) {
        SourceMapExtractor
    }

    /// The URL of the source map that script text points to: what follows
    /// the marker on the last line that holds it.
    pub fn extract_sourcemap_url(&self, content: &str) -> (r: Option<String>)
        ensures
            r.deep_view() == last_mapping_url(lines(content@)),
    {
        let ls = lines_of(&chars_of(content));
        let needle = chars_of("sourceMappingURL=");
        let ghost all = rows(ls@);
        let mut k: usize = ls.len();
        assert(all.take(k as int) == all);
        while k > 0
            invariant
                k <= ls.len(),
                all == rows(ls@),
                all == lines(content@),
                needle@ == marker(),
                last_mapping_url(all) == last_mapping_url(all.take(k as int)),
            decreases k,
        {
            proof {
                let here = all.take(k as int);
                assert(here.drop_last() == all.take(k - 1));
            }
            let line = &ls[k - 1];
            match find_text(line, &needle) {
                Some(at) => {
                    let end = line.len();
                    let rest = slice_of(line, at + needle.len(), end);
                    let url = string_of(&trim(&rest, Trim::Whitespace));
                    return Some(url);
                },
                None => {},
            }
            k -= 1;
        }
        None
    }

    /// The endpoints that a source map lists: one for each source it
    /// names, whether or not it embeds the source's content. A text that
    /// is no source map gives none; this never fails.
    pub fn parse_sourcemap(&self, content: &str) -> (r: Result<Vec<Endpoint>, Error>)
        ensures
            r is Ok,
            views(r.unwrap()@) == sourcemap_findings(content@),
    {
        match read_map(content) {
            Some(map) => Ok(endpoints_of_sources(&list_sources(&map))),
            None => {
                let out: Vec<Endpoint> = Vec::new();
                Ok(out)
            },
        }
    }
}

impl Default for SourceMapExtractor {
    fn default() -> Self {
        SourceMapExtractor::new()
    }
}

} // verus!
