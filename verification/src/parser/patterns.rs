//! The rule table: the patterns that recognise URL-like text, and what is
//! made of their matches.

use crate::engine::{
    all_captures, capture_all, capture_first, captures_view, compile, first_capture,
    pattern_accepted, pattern_text, Capture,
};
use crate::error::{prefixed, Error};
use crate::text::{
    char_index, chars_before, chars_of, contains, contains_text, ends_with, ends_with_text,
    insert_sorted, lemma_sorted_unique, rows, slice_of, starts_with, starts_with_text,
    seek, strictly_sorted, string_of, to_uppercase, trim, trimmed, uppercase, Cursor, Trim,
};
use crate::types::{
    lemma_texts_push, lemma_views_push, texts, views, Endpoint, EndpointType, EndpointView,
};
use vstd::prelude::*;

verus! {

/// Absolute and protocol-relative URLs, and paths rooted at `/api`, a
/// version segment or `/graphql`.
pub const URL_PATTERN: &'static str =
    r#"(?:https?://|//)[^\s"'<>{}|\\\^`\[\]]+|/(?:api|v\d+|graphql)[^\s"'<>]*"#;

/// Quoted REST paths.
pub const REST_PATTERN: &'static str = r#"['"`]/(api|rest|v\d+)/[^'"`\s]+"#;

/// Quoted paths of user and session management.
pub const AUTH_PATTERN: &'static str =
    r#"['"`]/[^'"`\s]*/(users?|auth|login|logout|register)[^'"`\s]*"#;

/// Quoted text that names GraphQL.
pub const GRAPHQL_PATTERN: &'static str = r#"['"`][^'"`\s]*graphql[^'"`\s]*"#;

/// Named GraphQL operations.
pub const OPERATION_PATTERN: &'static str = r#"mutation\s+\w+|query\s+\w+"#;

/// WebSocket URLs.
pub const WEBSOCKET_PATTERN: &'static str = r#"wss?://[^\s"'<>{}|\\\^`\[\]]+"#;

/// Quoted paths that begin with a verb of data access.
pub const VERB_PATTERN: &'static str =
    r#"['"`]/(data|fetch|submit|update|delete|create|get)[^'"`\s]*"#;

/// An HTTP method name, in any case, followed by a separator.
pub const METHOD_PATTERN: &'static str =
    r#"(?i)(GET|POST|PUT|DELETE|PATCH|HEAD|OPTIONS)\s*[,\(\s]"#;

/// The API-signature patterns, in the order in which they are applied.
pub open spec fn api_patterns() -> Seq<Seq<char>> {
    seq![
        REST_PATTERN@,
        AUTH_PATTERN@,
        GRAPHQL_PATTERN@,
        OPERATION_PATTERN@,
        WEBSOCKET_PATTERN@,
        VERB_PATTERN@,
    ]
}

/// The engine accepts every pattern of the rule table.
pub open spec fn rules_accepted() -> bool {
    &&& pattern_accepted(URL_PATTERN@)
    &&& forall|i: int|
        0 <= i < api_patterns().len() ==> pattern_accepted(#[trigger] api_patterns()[i])
    &&& pattern_accepted(METHOD_PATTERN@)
}

/// `u` ends in the extension of a static asset.
pub open spec fn has_asset_extension(u: Seq<char>) -> bool {
    ||| ends_with_text(u, ".jpg"@)
    ||| ends_with_text(u, ".png"@)
    ||| ends_with_text(u, ".gif"@)
    ||| ends_with_text(u, ".css"@)
    ||| ends_with_text(u, ".woff"@)
    ||| ends_with_text(u, ".ttf"@)
    ||| ends_with_text(u, ".ico"@)
}

/// A candidate that is long enough to be a URL and is no static asset.
pub open spec fn valid_url(u: Seq<char>) -> bool {
    u.len() >= 4 && !has_asset_extension(u)
}

/// `u` is what some match among `caps` gives once its quotes are cut, and
/// is a valid URL.
pub open spec fn url_candidate(caps: Seq<Option<(nat, Seq<char>)>>, u: Seq<char>) -> bool {
    exists|i: int|
        0 <= i < caps.len() && (#[trigger] caps[i]) is Some && u == trimmed(
            caps[i].unwrap().1,
            Trim::Quotes,
        ) && valid_url(u)
}

/// `urls` is the list of the URL candidates among `caps`: in dictionary
/// order, each once.
pub open spec fn lists(urls: Seq<Seq<char>>, caps: Seq<Option<(nat, Seq<char>)>>) -> bool {
    strictly_sorted(urls) && forall|u: Seq<char>| urls.contains(u) <==> url_candidate(caps, u)
}

/// The list of the URL candidates among `caps`.
pub open spec fn url_list(caps: Seq<Option<(nat, Seq<char>)>>) -> Seq<Seq<char>> {
    choose|urls: Seq<Seq<char>>| lists(urls, caps)
}

/// A list of the URL candidates is the list of them: there is no other.
pub proof fn lemma_url_list(urls: Seq<Seq<char>>, caps: Seq<Option<(nat, Seq<char>)>>)
    requires
        lists(urls, caps),
    ensures
        urls == url_list(caps),
{
    lemma_sorted_unique(urls, url_list(caps));
}

/// The classification of a URL that the URL pattern found.
pub open spec fn url_type(url: Seq<char>) -> EndpointType {
    if contains_text(url, "graphql"@) || contains_text(url, "/gql"@) {
        EndpointType::GraphQL
    } else if starts_with_text(url, "ws://"@) || starts_with_text(url, "wss://"@) {
        EndpointType::WebSocket
    } else if contains_text(url, "/api/"@) || contains_text(url, "/v1/"@) || contains_text(
        url,
        "/v2/"@,
    ) {
        EndpointType::Rest
    } else {
        EndpointType::Unknown
    }
}

/// Classifies a URL that the URL pattern found.
pub fn classify(url: &Vec<char>) -> (r: EndpointType)
    ensures
        r == url_type(url@),
{
    if contains(url, "graphql") || contains(url, "/gql") {
        EndpointType::GraphQL
    } else if starts_with(url, "ws://") || starts_with(url, "wss://") {
        EndpointType::WebSocket
    } else if contains(url, "/api/") || contains(url, "/v1/") || contains(url, "/v2/") {
        EndpointType::Rest
    } else {
        EndpointType::Unknown
    }
}

/// Whether the characters are a valid URL candidate.
pub fn valid_chars(u: &Vec<char>) -> (r: bool)
    ensures
        r == valid_url(u@),
{
    if u.len() < 4 {
        return false;
    }
    !(ends_with(u, ".jpg") || ends_with(u, ".png") || ends_with(u, ".gif") || ends_with(u, ".css")
        || ends_with(u, ".woff") || ends_with(u, ".ttf") || ends_with(u, ".ico"))
}

/// The strings that hold the given character vectors.
pub fn strings_of(items: &Vec<Vec<char>>) -> (r: Vec<String>)
    ensures
        texts(r@) == rows(items@),
{
    let mut out: Vec<String> = Vec::new();
    let mut i: usize = 0;
    while i < items.len()
        invariant
            i <= items.len(),
            texts(out@) == rows(items@).take(i as int),
        decreases items.len() - i,
    {
        let s = string_of(&items[i]);
        proof {
            lemma_texts_push(out@, s);
        }
        out.push(s);
        i += 1;
    }
    out
}

/// The URLs among the matches of the URL pattern: each match is cut of
/// its quotes, kept if it is a valid URL, and the result is put in
/// dictionary order with each URL once.
pub fn select_urls(caps: &Vec<Option<Capture>>) -> (r: Vec<String>)
    ensures
        lists(texts(r@), captures_view(caps@)),
        texts(r@) == url_list(captures_view(caps@)),
{
    let ghost all = captures_view(caps@);
    let mut out: Vec<Vec<char>> = Vec::new();
    let mut k: usize = 0;
    while k < caps.len()
        invariant
            k <= caps.len(),
            all == captures_view(caps@),
            strictly_sorted(rows(out@)),
            forall|u: Seq<char>| rows(out@).contains(u) <==> url_candidate(all.take(k as int), u),
        decreases caps.len() - k,
    {
        let ghost prev = all.take(k as int);
        let ghost next = all.take(k + 1);
        assert(next == prev.push(all[k as int]));
        match &caps[k] {
            Some(c) => {
                let u = trim(&chars_of(c.1.as_str()), Trim::Quotes);
                if valid_chars(&u) {
                    insert_sorted(&mut out, u);
                }
            },
            None => {},
        }
        assert forall|w: Seq<char>| rows(out@).contains(w) <==> url_candidate(next, w) by {
            lemma_candidate_step(prev, all[k as int], w);
        }
        k += 1;
    }
    assert(all.take(caps@.len() as int) == all);
    proof {
        lemma_url_list(rows(out@), all);
    }
    strings_of(&out)
}

/// What one more match adds to the candidates.
pub proof fn lemma_candidate_step(
    prev: Seq<Option<(nat, Seq<char>)>>,
    c: Option<(nat, Seq<char>)>,
    u: Seq<char>,
)
    ensures
        url_candidate(prev.push(c), u) <==> (url_candidate(prev, u) || (c is Some && u == trimmed(
            c.unwrap().1,
            Trim::Quotes,
        ) && valid_url(u))),
{
    let next = prev.push(c);
    if url_candidate(next, u) {
        let i = choose|i: int|
            0 <= i < next.len() && (#[trigger] next[i]) is Some && u == trimmed(
                next[i].unwrap().1,
                Trim::Quotes,
            ) && valid_url(u);
        if i < prev.len() {
            assert(prev[i] == next[i]);
        }
    }
    if url_candidate(prev, u) {
        let i = choose|i: int|
            0 <= i < prev.len() && (#[trigger] prev[i]) is Some && u == trimmed(
                prev[i].unwrap().1,
                Trim::Quotes,
            ) && valid_url(u);
        assert(next[i] == prev[i]);
    }
    if c is Some && u == trimmed(c.unwrap().1, Trim::Quotes) && valid_url(u) {
        assert(next[prev.len() as int] == c);
    }
}

/// How many characters on each side of a match are searched for an HTTP
/// method.
pub const METHOD_WINDOW: usize = 100;

/// The text in which the method of a match is looked for, where the match
/// begins at character `at` of `content`.
pub open spec fn method_window(content: Seq<char>, at: int) -> Seq<char> {
    content.subrange(
        if at >= METHOD_WINDOW {
            at - METHOD_WINDOW
        } else {
            0
        },
        if at + METHOD_WINDOW <= content.len() {
            at + METHOD_WINDOW
        } else {
            content.len() as int
        },
    )
}

/// The HTTP method of a match that begins at character `at`: the first
/// method name in the window around it, in upper case.
pub open spec fn method_at(content: Seq<char>, at: int) -> Option<Seq<char>> {
    match first_capture(METHOD_PATTERN@, method_window(content, at), 1) {
        Some(token) => Some(uppercase(token)),
        None => None,
    }
}

/// The HTTP method of a match that begins at byte offset `pos`.
pub open spec fn method_near(content: Seq<char>, pos: int) -> Option<Seq<char>> {
    method_at(content, chars_before(content, pos) as int)
}

/// The classification of an API-signature match.
pub open spec fn api_type(url: Seq<char>) -> EndpointType {
    if contains_text(url, "graphql"@) {
        EndpointType::GraphQL
    } else if starts_with_text(url, "ws"@) {
        EndpointType::WebSocket
    } else {
        EndpointType::Rest
    }
}

/// The text a source label holds.
pub open spec fn label(source: Option<&str>) -> Option<Seq<char>> {
    match source {
        Some(s) => Some(s@),
        None => None,
    }
}

/// The endpoint that one API-signature match stands for.
pub open spec fn api_finding(
    content: Seq<char>,
    cap: (nat, Seq<char>),
    source: Option<Seq<char>>,
) -> EndpointView {
    let url = trimmed(cap.1, Trim::Quotes);
    EndpointView {
        url,
        method: method_near(content, cap.0 as int),
        endpoint_type: api_type(url),
        source,
        line: None,
        params: None,
        metadata: None,
    }
}

/// The endpoints that the matches of one API-signature pattern stand for,
/// in the order of the matches. A match of which nothing is left once its
/// quotes are cut gives none.
pub open spec fn rule_findings(
    caps: Seq<Option<(nat, Seq<char>)>>,
    content: Seq<char>,
    source: Option<Seq<char>>,
) -> Seq<EndpointView>
    decreases caps.len(),
{
    if caps.len() == 0 {
        Seq::empty()
    } else {
        let head = rule_findings(caps.drop_last(), content, source);
        match caps.last() {
            Some(c) => if trimmed(c.1, Trim::Quotes).len() > 0 {
                head.push(api_finding(content, c, source))
            } else {
                head
            },
            None => head,
        }
    }
}

/// The endpoints that the first `n` API-signature patterns find in
/// `content`, pattern by pattern.
pub open spec fn api_findings(content: Seq<char>, source: Option<Seq<char>>, n: nat) -> Seq<
    EndpointView,
>
    decreases n,
{
    if n == 0 {
        Seq::empty()
    } else {
        api_findings(content, source, (n - 1) as nat) + rule_findings(
            all_captures(api_patterns()[n - 1], content, 0),
            content,
            source,
        )
    }
}

/// Every endpoint has a URL of at least one character.
pub open spec fn urls_nonempty(endpoints: Seq<EndpointView>) -> bool {
    forall|i: int| 0 <= i < endpoints.len() ==> (#[trigger] endpoints[i]).url.len() > 0
}

/// The matches of one pattern never give an endpoint without a URL.
pub proof fn lemma_rule_findings_nonempty(
    caps: Seq<Option<(nat, Seq<char>)>>,
    content: Seq<char>,
    source: Option<Seq<char>>,
)
    ensures
        urls_nonempty(rule_findings(caps, content, source)),
    decreases caps.len(),
{
    if caps.len() > 0 {
        lemma_rule_findings_nonempty(caps.drop_last(), content, source);
    }
}

/// The API-signature patterns never give an endpoint without a URL.
pub proof fn lemma_api_findings_nonempty(content: Seq<char>, source: Option<Seq<char>>, n: nat)
    ensures
        urls_nonempty(api_findings(content, source, n)),
    decreases n,
{
    if n > 0 {
        lemma_api_findings_nonempty(content, source, (n - 1) as nat);
        lemma_rule_findings_nonempty(
            all_captures(api_patterns()[n - 1], content, 0),
            content,
            source,
        );
    }
}

/// Compiles one pattern of the rule table.
fn rule(pattern: &str) -> (r: Result<regex::Regex, Error>)
    ensures
        r is Ok <==> pattern_accepted(pattern@),
        r matches Ok(re) ==> pattern_text(re) == pattern@,
        r matches Err(e) ==> e == Error::ParserError(e->ParserError_0) && e->ParserError_0@
            == "pattern refused: "@ + pattern@,
{
    match compile(pattern) {
        Some(re) => Ok(re),
        None => Err(Error::ParserError(prefixed("pattern refused: ", &pattern.to_owned()))),
    }
}

/// Pattern matcher for extracting endpoints from code.
pub struct PatternMatcher {
    url_rule: regex::Regex,
    api_rules: Vec<regex::Regex>,
    method_rule: regex::Regex,
}

impl PatternMatcher {
    /// Each compiled expression is the one of its place in the table.
    #[verifier::type_invariant]
    spec fn well_formed(&self) -> bool {
        &&& pattern_text(self.url_rule) == URL_PATTERN@
        &&& self.api_rules@.len() == api_patterns().len()
        &&& forall|i: int|
            0 <= i < self.api_rules@.len() ==> pattern_text(#[trigger] self.api_rules@[i])
                == api_patterns()[i]
        &&& pattern_text(self.method_rule) == METHOD_PATTERN@
    }

    /// Compiles the rule table. It fails with `ParserError` exactly when
    /// the engine refuses one of the patterns.
    pub fn new() -> (r: Result<Self, Error>)
        ensures
            r is Ok <==> rules_accepted(),
            r matches Err(e) ==> e is ParserError,
    {
        let url_rule = match rule(URL_PATTERN) {
            Ok(re) => re,
            Err(e) => {
                return Err(e);
            },
        };
        let method_rule = match rule(METHOD_PATTERN) {
            Ok(re) => re,
            Err(e) => {
                return Err(e);
            },
        };
        let patterns: [&'static str; 6] = [
            REST_PATTERN,
            AUTH_PATTERN,
            GRAPHQL_PATTERN,
            OPERATION_PATTERN,
            WEBSOCKET_PATTERN,
            VERB_PATTERN,
        ];
        let mut api_rules: Vec<regex::Regex> = Vec::new();
        let mut k: usize = 0;
        while k < 6
            invariant
                k <= 6,
                api_rules@.len() == k,
                Seq::new(6, |i: int| patterns@[i]@) == api_patterns(),
                forall|i: int|
                    0 <= i < k ==> pattern_text(#[trigger] api_rules@[i]) == api_patterns()[i],
                forall|i: int| 0 <= i < k ==> pattern_accepted(#[trigger] api_patterns()[i]),
            decreases 6 - k,
        {
            match rule(patterns[k]) {
                Ok(re) => {
                    api_rules.push(re);
                },
                Err(e) => {
                    return Err(e);
                },
            }
            k += 1;
        }
        Ok(PatternMatcher { url_rule, api_rules, method_rule })
    }

    /// Whether `url` is long enough to be a URL and is no static asset.
    pub fn is_valid_url(&self, url: &str) -> (r: bool)
        ensures
            r == valid_url(url@),
    {
        valid_chars(&chars_of(url))
    }

    /// All URLs in the content: the matches of the URL pattern that are
    /// valid URLs, in dictionary order, each once.
    pub fn find_urls(&self, content: &str) -> (r: Vec<String>)
        ensures
            lists(texts(r@), all_captures(URL_PATTERN@, content@, 0)),
            texts(r@) == url_list(all_captures(URL_PATTERN@, content@, 0)),
            forall|i: int| 0 <= i < r@.len() ==> valid_url(#[trigger] r@[i]@),
    {
        proof {
            use_type_invariant(self);
        }
        let caps = capture_all(&self.url_rule, content, 0);
        let r = select_urls(&caps);
        assert forall|i: int| 0 <= i < r@.len() implies valid_url(#[trigger] r@[i]@) by {
            assert(texts(r@)[i] == r@[i]@);
            assert(texts(r@).contains(r@[i]@));
        }
        r
    }

    /// The HTTP method near the match that begins at character `at` of
    /// `content`.
    fn method_in(&self, content: &Vec<char>, at: usize) -> (r: Option<String>)
        requires
            at <= content.len(),
        ensures
            r.deep_view() == method_at(content@, at as int),
    {
        proof {
            use_type_invariant(self);
        }
        let from: usize = if at >= METHOD_WINDOW {
            at - METHOD_WINDOW
        } else {
            0
        };
        let to: usize = if content.len() - at >= METHOD_WINDOW {
            at + METHOD_WINDOW
        } else {
            content.len()
        };
        let window = string_of(&slice_of(content, from, to));
        match capture_first(&self.method_rule, window.as_str(), 1) {
            Some(token) => Some(to_uppercase(token.as_str())),
            None => None,
        }
    }

    /// The HTTP method near byte offset `pos` of `content`: the first
    /// method name within `METHOD_WINDOW` characters on either side, in
    /// upper case.
    pub fn find_http_method_near(&self, content: &str, pos: usize) -> (r: Option<String>)
        ensures
            r.deep_view() == method_near(content@, pos as int),
    {
        let chars = chars_of(content);
        let at = char_index(&chars, pos);
        self.method_in(&chars, at)
    }

    /// The endpoints that the matches of one API-signature pattern stand
    /// for.
    pub fn endpoints_of_matches(
        &self,
        caps: &Vec<Option<Capture>>,
        content: &Vec<char>,
        source: Option<&str>,
    ) -> (r: Vec<Endpoint>)
        ensures
            views(r@) == rule_findings(captures_view(caps@), content@, label(source)),
            forall|i: int| 0 <= i < r@.len() ==> (#[trigger] r@[i]).metadata is None,
    {
        let ghost all = captures_view(caps@);
        let mut out: Vec<Endpoint> = Vec::new();
        let mut k: usize = 0;
        let mut cursor = Cursor::start();
        while k < caps.len()
            invariant
                k <= caps.len(),
                all == captures_view(caps@),
                cursor.within(content@),
                views(out@) == rule_findings(all.take(k as int), content@, label(source)),
                forall|i: int| 0 <= i < out@.len() ==> (#[trigger] out@[i]).metadata is None,
            decreases caps.len() - k,
        {
            proof {
                let next = all.take(k + 1);
                assert(next.drop_last() == all.take(k as int));
            }
            match &caps[k] {
                Some(c) => {
                    let url = trim(&chars_of(c.1.as_str()), Trim::Quotes);
                    if url.len() > 0 {
                        let endpoint_type = if contains(&url, "graphql") {
                            EndpointType::GraphQL
                        } else if starts_with(&url, "ws") {
                            EndpointType::WebSocket
                        } else {
                            EndpointType::Rest
                        };
                        let mut endpoint = Endpoint::new(string_of(&url), endpoint_type);
                        let from = if cursor.offset <= c.0 {
                            cursor
                        } else {
                            Cursor::start()
                        };
                        let (at, reached) = seek(content, from, c.0);
                        cursor = reached;
                        match self.method_in(content, at) {
                            Some(method) => {
                                endpoint = endpoint.with_method(method.as_str());
                            },
                            None => {},
                        }
                        match source {
                            Some(src) => {
                                endpoint = endpoint.with_source(src);
                            },
                            None => {},
                        }
                        proof {
                            lemma_views_push(out@, endpoint);
                            assert(endpoint@ == api_finding(
                                content@,
                                all[k as int].unwrap(),
                                label(source),
                            ));
                        }
                        out.push(endpoint);
                    }
                },
                None => {},
            }
            k += 1;
        }
        assert(all.take(caps@.len() as int) == all);
        out
    }

    /// The endpoints that the API-signature patterns find in the content,
    /// pattern by pattern and match by match, each with the HTTP method
    /// found near it and with the source label.
    pub fn find_api_endpoints(&self, content: &str, source: Option<&str>) -> (r: Vec<Endpoint>)
        ensures
            views(r@) == api_findings(content@, label(source), api_patterns().len()),
            urls_nonempty(views(r@)),
            forall|i: int| 0 <= i < r@.len() ==> (#[trigger] r@[i]).metadata is None,
    {
        proof {
            use_type_invariant(self);
        }
        let chars = chars_of(content);
        let mut out: Vec<Endpoint> = Vec::new();
        let mut n: usize = 0;
        while n < self.api_rules.len()
            invariant
                n <= self.api_rules@.len() == api_patterns().len(),
                chars@ == content@,
                forall|i: int|
                    0 <= i < self.api_rules@.len() ==> pattern_text(#[trigger] self.api_rules@[i])
                        == api_patterns()[i],
                views(out@) == api_findings(content@, label(source), n as nat),
                forall|i: int| 0 <= i < out@.len() ==> (#[trigger] out@[i]).metadata is None,
            decreases self.api_rules@.len() - n,
        {
            let caps = capture_all(&self.api_rules[n], content, 0);
            let mut found = self.endpoints_of_matches(&caps, &chars, source);
            proof {
                crate::types::lemma_views_add(out@, found@);
            }
            out.append(&mut found);
            n += 1;
        }
        proof {
            lemma_api_findings_nonempty(content@, label(source), api_patterns().len());
        }
        out
    }
}

} // verus!
