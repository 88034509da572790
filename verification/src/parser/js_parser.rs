//! Line-oriented rules for script text.

use crate::engine::all_captures;
use crate::error::Error;
use crate::parser::patterns::{classify, label, url_list, url_type, PatternMatcher, URL_PATTERN};
use crate::text::{
    chars_of, contains, contains_text, lemma_trimmed_nonempty, lines, lines_of, occurs_at, rows,
    string_of, trim, trimmed, Trim,
};
use crate::types::{
    lemma_views_add, lemma_views_push, texts, views, Endpoint, EndpointType, EndpointView,
};
use vstd::prelude::*;
use vstd::utf8::encode_utf8;

verus! {

/// The text holds a GraphQL query template.
pub open spec fn has_graphql_marker(content: Seq<char>) -> bool {
    contains_text(content, "gql`"@) || contains_text(content, "query {"@)
}

/// The line names a GraphQL endpoint path.
pub open spec fn names_graphql(line: Seq<char>) -> bool {
    contains_text(line, "/graphql"@) || contains_text(line, "/v1/query"@)
}

/// The endpoint that a line which names a GraphQL path stands for.
pub open spec fn line_finding(line: Seq<char>, source: Option<Seq<char>>) -> EndpointView {
    EndpointView {
        url: trimmed(line, Trim::Whitespace),
        method: None,
        endpoint_type: EndpointType::GraphQL,
        source,
        line: None,
        params: None,
        metadata: None,
    }
}

/// The endpoints of the lines that name a GraphQL path, line by line.
pub open spec fn line_findings(ls: Seq<Seq<char>>, source: Option<Seq<char>>) -> Seq<EndpointView>
    decreases ls.len(),
{
    if ls.len() == 0 {
        Seq::empty()
    } else {
        let head = line_findings(ls.drop_last(), source);
        if names_graphql(ls.last()) {
            head.push(line_finding(ls.last(), source))
        } else {
            head
        }
    }
}

/// What the GraphQL line rule finds: nothing unless the text holds a
/// query template, else the lines that name a GraphQL path.
pub open spec fn graphql_findings(content: Seq<char>, source: Option<Seq<char>>) -> Seq<
    EndpointView,
> {
    if has_graphql_marker(content) {
        line_findings(lines(content), source)
    } else {
        Seq::empty()
    }
}

/// The endpoints of URLs of which only the classification is known.
pub open spec fn bare_findings(urls: Seq<Seq<char>>) -> Seq<EndpointView> {
    Seq::new(urls.len(), |i: int| EndpointView::bare(urls[i], url_type(urls[i])))
}

/// Script text counts as minified when it is at least 100 bytes long and
/// either its lines are longer than 200 bytes on average or it has fewer
/// than 5 lines.
pub open spec fn minified(content: Seq<char>) -> bool {
    let size = encode_utf8(content).len();
    let n = lines(content).len();
    size >= 100 && (size / n > 200 || n < 5)
}

/// A line that names a GraphQL path does not trim to nothing.
pub proof fn lemma_line_finding_nonempty(line: Seq<char>)
    requires
        names_graphql(line),
    ensures
        trimmed(line, Trim::Whitespace).len() > 0,
{
    reveal_strlit("/graphql");
    reveal_strlit("/v1/query");
    let needle = if contains_text(line, "/graphql"@) {
        "/graphql"@
    } else {
        "/v1/query"@
    };
    let i = choose|i: int| occurs_at(line, needle, i);
    assert(line.subrange(i, i + needle.len())[0] == needle[0]);
    lemma_trimmed_nonempty(line, Trim::Whitespace, i);
}

/// The GraphQL line rule never gives an endpoint without a URL.
pub proof fn lemma_line_findings_nonempty(ls: Seq<Seq<char>>, source: Option<Seq<char>>)
    ensures
        forall|i: int|
            0 <= i < line_findings(ls, source).len() ==> (#[trigger] line_findings(
                ls,
                source,
            )[i]).url.len() > 0,
    decreases ls.len(),
{
    if ls.len() > 0 {
        lemma_line_findings_nonempty(ls.drop_last(), source);
        if names_graphql(ls.last()) {
            lemma_line_finding_nonempty(ls.last());
        }
    }
}

/// What the GraphQL line rule finds in the content.
pub fn graphql_lines(content: &Vec<char>, source: Option<&str>) -> (r: Vec<Endpoint>)
    ensures
        views(r@) == graphql_findings(content@, label(source)),
        forall|i: int| 0 <= i < r@.len() ==> (#[trigger] r@[i]).metadata is None,
{
    let mut out: Vec<Endpoint> = Vec::new();
    if !(contains(content, "gql`") || contains(content, "query {")) {
        return out;
    }
    let ls = lines_of(content);
    let ghost all = rows(ls@);
    let mut k: usize = 0;
    while k < ls.len()
        invariant
            k <= ls.len(),
            all == rows(ls@),
            views(out@) == line_findings(all.take(k as int), label(source)),
            forall|i: int| 0 <= i < out@.len() ==> (#[trigger] out@[i]).metadata is None,
        decreases ls.len() - k,
    {
        proof {
            let next = all.take(k + 1);
            assert(next.drop_last() == all.take(k as int));
        }
        let line = &ls[k];
        if contains(line, "/graphql") || contains(line, "/v1/query") {
            let url = string_of(&trim(line, Trim::Whitespace));
            let mut endpoint = Endpoint::new(url, EndpointType::GraphQL);
            match source {
                Some(src) => {
                    endpoint = endpoint.with_source(src);
                },
                None => {},
            }
            proof {
                lemma_views_push(out@, endpoint);
            }
            out.push(endpoint);
        }
        k += 1;
    }
    assert(all.take(ls@.len() as int) == all);
    out
}

/// The line-oriented parser for script text.
pub struct JsParser {
    pattern_matcher: PatternMatcher,
}

impl JsParser {
    /// A parser with its rule table compiled. It fails exactly when the
    /// rule table cannot be compiled.
    pub fn new() -> (r: Result<Self, Error>)
        ensures
            r is Ok <==> crate::parser::patterns::rules_accepted(),
            r matches Err(e) ==> e is ParserError,
    {
        match PatternMatcher::new() {
            Ok(pattern_matcher) => Ok(JsParser { pattern_matcher }),
            Err(e) => Err(e),
        }
    }

    /// The endpoints in script text: each URL that the URL pattern finds,
    /// classified, and then what the GraphQL line rule finds.
    pub fn parse(&self, content: &str) -> (r: Vec<Endpoint>)
        ensures
            views(r@) == bare_findings(url_list(all_captures(URL_PATTERN@, content@, 0)))
                + graphql_findings(content@, None),
            forall|i: int| 0 <= i < r@.len() ==> (#[trigger] r@[i]).metadata is None,
    {
        let urls = self.pattern_matcher.find_urls(content);
        let ghost list = texts(urls@);
        let mut out: Vec<Endpoint> = Vec::new();
        for url in it: urls
            invariant
                texts(it.seq()) == list,
                views(out@) == bare_findings(list.take(it.index())),
                forall|i: int| 0 <= i < out@.len() ==> (#[trigger] out@[i]).metadata is None,
        {
            let endpoint_type = classify(&chars_of(url.as_str()));
            let endpoint = Endpoint::new(url, endpoint_type);
            proof {
                lemma_views_push(out@, endpoint);
            }
            out.push(endpoint);
        }
        let chars = chars_of(content);
        let mut found = graphql_lines(&chars, None);
        proof {
            lemma_views_add(out@, found@);
        }
        out.append(&mut found);
        out
    }

    /// Whether the content looks minified.
    pub fn is_minified(&self, content: &str) -> (r: bool)
        ensures
            r == minified(content@),
    {
        let size = content.as_bytes().len();
        if size < 100 {
            return false;
        }
        let n = lines_of(&chars_of(content)).len();
        assert(n == lines(content@).len());
        size / n > 200 || n < 5
    }
}

} // verus!
