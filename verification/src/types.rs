//! The endpoint record and its classification.

use std::collections::HashMap;
use vstd::prelude::*;

verus! {

/// The kind of API an endpoint belongs to.
#[derive(Debug, Clone, Copy, PartialEq, Eq, Hash, Structural)]
pub enum EndpointType {
    Rest,
    GraphQL,
    WebSocket,
    Unknown,
}

/// A discovered URL or path, with what was inferred about it.
#[derive(Debug, Clone)]
pub struct Endpoint {
    /// The URL or path of the endpoint.
    pub url: String,
    /// HTTP method, upper case, where one was found near the match.
    pub method: Option<String>,
    /// Classification of the endpoint.
    pub endpoint_type: EndpointType,
    /// The asset (URL or file path) in which the endpoint was found.
    pub source: Option<String>,
    /// Line number in the source.
    pub line: Option<usize>,
    /// Names of the query parameters, in order of appearance.
    pub params: Option<Vec<String>>,
    /// Free-form annotations.
    pub metadata: Option<HashMap<String, String>>,
}

/// The mathematical content of an [`Endpoint`]: its text fields as
/// character sequences, its annotations as a map.
pub struct EndpointView {
    pub url: Seq<char>,
    pub method: Option<Seq<char>>,
    pub endpoint_type: EndpointType,
    pub source: Option<Seq<char>>,
    pub line: Option<usize>,
    pub params: Option<Seq<Seq<char>>>,
    pub metadata: Option<Map<String, String>>,
}

impl View for Endpoint {
    type V = EndpointView;

    open spec fn view(&self) -> EndpointView {
        EndpointView {
            url: self.url@,
            method: self.method.deep_view(),
            endpoint_type: self.endpoint_type,
            source: self.source.deep_view(),
            line: self.line,
            params: match self.params {
                Some(p) => Some(texts(p@)),
                None => None,
            },
            metadata: match self.metadata {
                Some(m) => Some(m@),
                None => None,
            },
        }
    }
}

impl EndpointView {
    /// The pair by which two endpoints count as the same finding.
    pub open spec fn key(self) -> (Seq<char>, Option<Seq<char>>) {
        (self.url, self.method)
    }

    /// A bare finding: a URL and its classification, nothing else known.
    pub open spec fn bare(url: Seq<char>, endpoint_type: EndpointType) -> EndpointView {
        EndpointView {
            url,
            method: None,
            endpoint_type,
            source: None,
            line: None,
            params: None,
            metadata: None,
        }
    }
}

/// The views of a sequence of endpoints.
pub open spec fn views(endpoints: Seq<Endpoint>) -> Seq<EndpointView> {
    Seq::new(endpoints.len(), |i: int| endpoints[i]@)
}

/// The character content of a sequence of strings.
pub open spec fn texts(strings: Seq<String>) -> Seq<Seq<char>> {
    Seq::new(strings.len(), |i: int| strings[i]@)
}

/// Appending a string appends its characters.
pub proof fn lemma_texts_push(strings: Seq<String>, s: String)
    ensures
        texts(strings.push(s)) == texts(strings).push(s@),
{
}

/// Appending an endpoint appends its view.
pub proof fn lemma_views_push(endpoints: Seq<Endpoint>, e: Endpoint)
    ensures
        views(endpoints.push(e)) == views(endpoints).push(e@),
{
}

/// The views of a concatenation are the concatenation of the views.
pub proof fn lemma_views_add(a: Seq<Endpoint>, b: Seq<Endpoint>)
    ensures
        views(a + b) == views(a) + views(b),
{
}

impl Endpoint {
    /// A new endpoint with only its URL and type set.
    pub fn new(url: String, endpoint_type: EndpointType) -> (r: Self)
        ensures
            r@ == EndpointView::bare(url@, endpoint_type),
            r.url == url,
            r.metadata is None,
    {
        Endpoint {
            url,
            method: None,
            endpoint_type,
            source: None,
            line: None,
            params: None,
            metadata: None,
        }
    }

    /// The same endpoint with its HTTP method set.
    pub fn with_method(self, method: &str) -> (r: Self)
        ensures
            r@ == (EndpointView { method: Some(method@), ..self@ }),
            r.metadata == self.metadata,
    {
        let mut e = self;
        e.method = Some(method.to_owned());
        e
    }

    /// The same endpoint with its source set.
    pub fn with_source(self, source: &str) -> (r: Self)
        ensures
            r@ == (EndpointView { source: Some(source@), ..self@ }),
            r.metadata == self.metadata,
    {
        let mut e = self;
        e.source = Some(source.to_owned());
        e
    }

    /// The same endpoint with its line number set.
    pub fn with_line(self, line: usize) -> (r: Self)
        ensures
            r@ == (EndpointView { line: Some(line), ..self@ }),
            r.metadata == self.metadata,
    {
        let mut e = self;
        e.line = Some(line);
        e
    }

    /// The same endpoint with its query parameter names set.
    pub fn with_params(self, params: Vec<String>) -> (r: Self)
        ensures
            r@ == (EndpointView { params: Some(texts(params@)), ..self@ }),
            r.metadata == self.metadata,
    {
        let mut e = self;
        e.params = Some(params);
        e
    }

    /// The same endpoint with its annotations replaced.
    pub fn with_metadata(self, metadata: HashMap<String, String>) -> (r: Self)
        ensures
            r@ == (EndpointView { metadata: Some(metadata@), ..self@ }),
            r.metadata == Some(metadata),
    {
        let mut e = self;
        e.metadata = Some(metadata);
        e
    }
}

} // verus!
