//! Extraction of endpoints from the text of web assets.

pub mod filters;
pub mod js_parser;
pub mod patterns;
pub mod sourcemap;

use crate::engine::all_captures;
use crate::error::Error;
use crate::parser::js_parser::{
    graphql_findings, graphql_lines, lemma_line_findings_nonempty, JsParser,
};
use crate::parser::patterns::{
    api_findings, api_patterns, classify, label, rules_accepted,
    url_list, url_type, urls_nonempty, valid_url, PatternMatcher, URL_PATTERN,
};
use crate::text::{
    chars_of, index_of, next_index_of, rows, slice_of, split, split_on, string_of,
};
use crate::types::{
    lemma_texts_push, lemma_views_add, lemma_views_push, texts, views, Endpoint, EndpointView,
};
use vstd::prelude::*;

verus! {

/// The name of a query parameter: what stands before the first `=` of a
/// component of the query string.
pub open spec fn key_of(component: Seq<char>) -> Seq<char> {
    component.take(index_of(component, '=') as int)
}

/// The names of the components that are not empty, in order.
pub open spec fn keys_of(components: Seq<Seq<char>>) -> Seq<Seq<char>>
    decreases components.len(),
{
    if components.len() == 0 {
        Seq::empty()
    } else {
        let head = keys_of(components.drop_last());
        if components.last().len() > 0 {
            head.push(key_of(components.last()))
        } else {
            head
        }
    }
}

/// The names of the query parameters of a URL: what follows the first
/// `?` is split at each `&`. A URL without `?`, or without a component
/// that is not empty, has none.
pub open spec fn param_keys(url: Seq<char>) -> Option<Seq<Seq<char>>> {
    let q = index_of(url, '?');
    if q >= url.len() {
        None
    } else {
        let keys = keys_of(split(url.skip(q as int + 1), '&'));
        if keys.len() == 0 {
            None
        } else {
            Some(keys)
        }
    }
}

/// The endpoint that a URL found by the URL pattern stands for.
pub open spec fn url_finding(url: Seq<char>, source: Option<Seq<char>>) -> EndpointView {
    EndpointView {
        url,
        method: None,
        endpoint_type: url_type(url),
        source,
        line: None,
        params: param_keys(url),
        metadata: None,
    }
}

/// The endpoints of a list of URLs, one for one.
pub open spec fn url_findings(urls: Seq<Seq<char>>, source: Option<Seq<char>>) -> Seq<
    EndpointView,
> {
    Seq::new(urls.len(), |i: int| url_finding(urls[i], source))
}

/// Everything the rules find in a text: the URLs of the URL pattern,
/// then the matches of the API-signature patterns, then the lines of the
/// GraphQL line rule. Each rule is applied on its own, so that the same
/// URL may be found more than once and with different classifications.
pub open spec fn findings(content: Seq<char>, source: Option<Seq<char>>) -> Seq<EndpointView> {
    url_findings(url_list(all_captures(URL_PATTERN@, content, 0)), source) + api_findings(
        content,
        source,
        api_patterns().len(),
    ) + graphql_findings(content, source)
}

/// Main parser for extracting endpoints from web assets.
pub struct Parser {
    js_parser: JsParser,
    pattern_matcher: PatternMatcher,
}

impl Parser {
    /// A parser with its rule table compiled. It fails exactly when the
    /// rule table cannot be compiled.
    pub fn new() -> (r: Result<Self, Error>)
        ensures
            r is Ok <==> rules_accepted(),
            r matches Err(e) ==> e is ParserError,
    {
        let js_parser = match JsParser::new() {
            Ok(p) => p,
            Err(e) => {
                return Err(e);
            },
        };
        match PatternMatcher::new() {
            Ok(pattern_matcher) => Ok(Parser { js_parser, pattern_matcher }),
            Err(e) => Err(e),
        }
    }

    /// Extracts the endpoints from script text. It never fails. Every
    /// endpoint carries the source label where one is given and has a URL
    /// of at least one character; those of the URL pattern, which come
    /// first, are valid URLs.
    pub fn parse_js(&self, content: &str, source: Option<&str>) -> (r: Result<Vec<Endpoint>, Error>)
        ensures
            r is Ok,
            views(r.unwrap()@) == findings(content@, label(source)),
            urls_nonempty(views(r.unwrap()@)),
            forall|i: int|
                0 <= i < url_list(all_captures(URL_PATTERN@, content@, 0)).len() ==> valid_url(
                    (#[trigger] views(r.unwrap()@)[i]).url,
                ),
            forall|i: int|
                0 <= i < r.unwrap()@.len() ==> (#[trigger] r.unwrap()@[i]).metadata is None,
    {
        let urls = self.pattern_matcher.find_urls(content);
        let ghost list = texts(urls@);
        let ghost src = label(source);
        assert forall|i: int| 0 <= i < list.len() implies valid_url(#[trigger] list[i]) by {
            assert(list[i] == urls@[i]@);
        }
        let mut out: Vec<Endpoint> = Vec::new();
        for url in it: urls
            invariant
                texts(it.seq()) == list,
                src == label(source),
                views(out@) == url_findings(list.take(it.index()), src),
                forall|i: int| 0 <= i < out@.len() ==> (#[trigger] out@[i]).metadata is None,
        {
            let chars = chars_of(url.as_str());
            let endpoint_type = classify(&chars);
            let params = param_names(&chars);
            let mut endpoint = Endpoint::new(url, endpoint_type);
            match source {
                Some(s) => {
                    endpoint = endpoint.with_source(s);
                },
                None => {},
            }
            match params {
                Some(p) => {
                    endpoint = endpoint.with_params(p);
                },
                None => {},
            }
            proof {
                assert(list[it.index()] == url@);
                lemma_views_push(out@, endpoint);
                assert(views(out@.push(endpoint)) =~= url_findings(
                    list.take(it.index() + 1),
                    src,
                ));
            }
            out.push(endpoint);
        }
        assert(list.take(list.len() as int) == list);
        let ghost first = views(out@);
        let mut api = self.pattern_matcher.find_api_endpoints(content, source);
        let ghost second = views(api@);
        proof {
            lemma_views_add(out@, api@);
        }
        out.append(&mut api);
        let mut lines = graphql_lines(&chars_of(content), source);
        let ghost third = views(lines@);
        proof {
            lemma_views_add(out@, lines@);
            if crate::parser::js_parser::has_graphql_marker(content@) {
                lemma_line_findings_nonempty(crate::text::lines(content@), src);
            }
        }
        out.append(&mut lines);
        proof {
            let all = views(out@);
            assert(all == first + second + third);
            assert forall|i: int| 0 <= i < all.len() implies (#[trigger] all[i]).url.len() > 0 by {
                if i < first.len() {
                    assert(all[i] == first[i]);
                    assert(valid_url(list[i]));
                } else if i < first.len() + second.len() {
                    assert(all[i] == second[i - first.len()]);
                } else {
                    assert(all[i] == third[i - first.len() - second.len()]);
                }
            }
            assert forall|i: int| 0 <= i < list.len() implies valid_url(
                (#[trigger] all[i]).url,
            ) by {
                assert(all[i] == first[i]);
                assert(valid_url(list[i]));
            }
        }
        Ok(out)
    }

    /// The classification of a URL that the URL pattern found.
    pub fn determine_endpoint_type(&self, url: &str) -> (r: crate::types::EndpointType)
        ensures
            r == url_type(url@),
    {
        classify(&chars_of(url))
    }

    /// The names of the query parameters of a URL.
    pub fn extract_params(&self, url: &str) -> (r: Option<Vec<String>>)
        ensures
            match r {
                Some(p) => param_keys(url@) == Some(texts(p@)),
                None => param_keys(url@) is None,
            },
    {
        param_names(&chars_of(url))
    }
}

/// The names of the query parameters of a URL.
pub fn param_names(url: &Vec<char>) -> (r: Option<Vec<String>>)
    ensures
        match r {
            Some(p) => param_keys(url@) == Some(texts(p@)),
            None => param_keys(url@) is None,
        },
{
    assert(url@.skip(0) == url@);
    let q = next_index_of(url, '?', 0);
    if q >= url.len() {
        return None;
    }
    let query = slice_of(url, q + 1, url.len());
    let components = split_on(&query, '&');
    let ghost all = rows(components@);
    let mut keys: Vec<String> = Vec::new();
    let mut k: usize = 0;
    while k < components.len()
        invariant
            k <= components.len(),
            all == rows(components@),
            texts(keys@) == keys_of(all.take(k as int)),
        decreases components.len() - k,
    {
        proof {
            let next = all.take(k + 1);
            assert(next.drop_last() == all.take(k as int));
        }
        let component = &components[k];
        if component.len() > 0 {
            assert(component@.skip(0) == component@);
            let eq = next_index_of(component, '=', 0);
            let key = string_of(&slice_of(component, 0, eq));
            proof {
                lemma_texts_push(keys@, key);
            }
            keys.push(key);
        }
        k += 1;
    }
    assert(all.take(components@.len() as int) == all);
    if keys.len() == 0 {
        None
    } else {
        Some(keys)
    }
}

} // verus!
