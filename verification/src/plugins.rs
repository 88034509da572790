//! The boundary to extensions: what of an endpoint an extension sees,
//! and what the scan makes of an extension's answers. Calling an
//! extension is not done here; its answers arrive as plain values.

use crate::error::Error;
use crate::types::{texts, Endpoint, EndpointType, EndpointView};
use vstd::prelude::*;

verus! {

/// The fields of an endpoint as they cross the boundary. In an answer of
/// an extension a field is present where the answer held it with the
/// right type.
#[derive(Debug, Clone)]
pub struct EndpointRecord {
    pub url: Option<String>,
    pub method: Option<String>,
    /// The endpoint type by its lower-case name.
    pub endpoint_type: Option<String>,
    pub source: Option<String>,
    pub line: Option<usize>,
    pub params: Option<Vec<String>>,
}

/// The mathematical content of an [`EndpointRecord`].
pub struct RecordView {
    pub url: Option<Seq<char>>,
    pub method: Option<Seq<char>>,
    pub endpoint_type: Option<Seq<char>>,
    pub source: Option<Seq<char>>,
    pub line: Option<usize>,
    pub params: Option<Seq<Seq<char>>>,
}

impl View for EndpointRecord {
    type V = RecordView;

    open spec fn view(&self) -> RecordView {
        RecordView {
            url: self.url.deep_view(),
            method: self.method.deep_view(),
            endpoint_type: self.endpoint_type.deep_view(),
            source: self.source.deep_view(),
            line: self.line,
            params: match self.params {
                Some(p) => Some(texts(p@)),
                None => None,
            },
        }
    }
}

/// The lower-case name of an endpoint type.
pub open spec fn kind_name(t: EndpointType) -> Seq<char> {
    match t {
        EndpointType::Rest => "rest"@,
        EndpointType::GraphQL => "graphql"@,
        EndpointType::WebSocket => "websocket"@,
        EndpointType::Unknown => "unknown"@,
    }
}

/// The endpoint type that a name stands for; a name that is none of the
/// known ones, or no name, stands for `Unknown`.
pub open spec fn named_type(name: Option<Seq<char>>) -> EndpointType {
    if name == Some("rest"@) {
        EndpointType::Rest
    } else if name == Some("graphql"@) {
        EndpointType::GraphQL
    } else if name == Some("websocket"@) {
        EndpointType::WebSocket
    } else {
        EndpointType::Unknown
    }
}

/// What an extension sees of an endpoint.
pub open spec fn record_of(e: EndpointView) -> RecordView {
    RecordView {
        url: Some(e.url),
        method: e.method,
        endpoint_type: Some(kind_name(e.endpoint_type)),
        source: e.source,
        line: e.line,
        params: e.params,
    }
}

/// The endpoint that a record with a URL stands for. It has no
/// annotations: they do not cross the boundary.
pub open spec fn endpoint_of(rec: RecordView) -> EndpointView {
    EndpointView {
        url: rec.url.unwrap(),
        method: rec.method,
        endpoint_type: named_type(rec.endpoint_type),
        source: rec.source,
        line: rec.line,
        params: rec.params,
        metadata: None,
    }
}

/// The endpoint after one extension has answered a transform request:
/// the endpoint of the answer where the answer is a record with a URL,
/// else the endpoint as it was.
pub open spec fn transformed(current: EndpointView, answer: Option<RecordView>) -> EndpointView {
    match answer {
        Some(rec) => if rec.url is Some {
            endpoint_of(rec)
        } else {
            current
        },
        None => current,
    }
}

/// Whether an endpoint is kept, given what each extension said of it:
/// it is unless one of them said no. An extension that failed says
/// nothing.
pub open spec fn kept(verdicts: Seq<Option<bool>>) -> bool {
    forall|i: int| 0 <= i < verdicts.len() ==> verdicts[i] != Some(false)
}

/// The names of the types are distinct, and each stands for its type.
pub proof fn lemma_kind_name_round_trip(t: EndpointType)
    ensures
        named_type(Some(kind_name(t))) == t,
{
    reveal_strlit("rest");
    reveal_strlit("graphql");
    reveal_strlit("websocket");
    reveal_strlit("unknown");
    assert("rest"@.len() == 4 && "graphql"@.len() == 7 && "websocket"@.len() == 9
        && "unknown"@.len() == 7);
    assert("graphql"@[0] == 'g' && "unknown"@[0] == 'u');
}

/// An extension that hands an endpoint back as it got it changes nothing
/// of it but that the annotations are lost.
pub proof fn lemma_echo_changes_nothing(e: EndpointView)
    ensures
        transformed(e, Some(record_of(e))) == (EndpointView { metadata: None, ..e }),
{
    lemma_kind_name_round_trip(e.endpoint_type);
}

/// Plugin manager: the rules of the extension boundary.
#[derive(Debug, Clone, Copy)]
pub struct PluginManager;

impl PluginManager {
    /// Create a new plugin manager.
    pub fn new() -> (r: Self) {
        PluginManager
    }

    /// The lower-case name of an endpoint type.
    pub fn type_label(t: EndpointType) -> (r: &'static str)
        ensures
            r@ == kind_name(t),
    {
        match t {
            EndpointType::Rest => "rest",
            EndpointType::GraphQL => "graphql",
            EndpointType::WebSocket => "websocket",
            EndpointType::Unknown => "unknown",
        }
    }

    /// The endpoint type that a name stands for.
    pub fn type_named(name: &Option<String>) -> (r: EndpointType)
        ensures
            r == named_type(name.deep_view()),
    {
        match name {
            Some(n) => {
                if same_text(n, "rest") {
                    EndpointType::Rest
                } else if same_text(n, "graphql") {
                    EndpointType::GraphQL
                } else if same_text(n, "websocket") {
                    EndpointType::WebSocket
                } else {
                    EndpointType::Unknown
                }
            },
            None => EndpointType::Unknown,
        }
    }

    /// What an extension sees of an endpoint.
    pub fn endpoint_to_dict(&self, endpoint: &Endpoint) -> (r: EndpointRecord)
        ensures
            r@ == record_of(endpoint@),
    {
        EndpointRecord {
            url: Some(endpoint.url.clone()),
            method: copy_text(&endpoint.method),
            endpoint_type: Some(PluginManager::type_label(endpoint.endpoint_type).to_owned()),
            source: copy_text(&endpoint.source),
            line: endpoint.line,
            params: match &endpoint.params {
                Some(p) => Some(copy_texts(p)),
                None => None,
            },
        }
    }

    /// The endpoint that an answer of an extension stands for. An answer
    /// without a URL is a `PluginError`; nothing else fails.
    pub fn dict_to_endpoint(&self, record: EndpointRecord) -> (r: Result<Endpoint, Error>)
        ensures
            r is Ok <==> record@.url is Some,
            r matches Ok(e) ==> e@ == endpoint_of(record@) && e.metadata is None,
            r matches Err(e) ==> e is PluginError,
    {
        let url = match record.url {
            Some(u) => u,
            None => {
                return Err(
                    Error::PluginError("Missing url in transformed endpoint".to_owned()),
                );
            },
        };
        let endpoint_type = PluginManager::type_named(&record.endpoint_type);
        let mut endpoint = Endpoint::new(url, endpoint_type);
        match record.method {
            Some(m) => {
                endpoint = endpoint.with_method(m.as_str());
            },
            None => {},
        }
        match record.source {
            Some(s) => {
                endpoint = endpoint.with_source(s.as_str());
            },
            None => {},
        }
        match record.line {
            Some(l) => {
                endpoint = endpoint.with_line(l);
            },
            None => {},
        }
        match record.params {
            Some(p) => {
                endpoint = endpoint.with_params(p);
            },
            None => {},
        }
        Ok(endpoint)
    }

    /// Whether an endpoint is kept, given what each extension said of it.
    /// Without extensions every endpoint is kept.
    pub fn filter_endpoint(&self, verdicts: &Vec<Option<bool>>) -> (r: bool)
        ensures
            r == kept(verdicts@),
            verdicts@.len() == 0 ==> r,
    {
        let mut i: usize = 0;
        while i < verdicts.len()
            invariant
                i <= verdicts.len(),
                forall|j: int| 0 <= j < i ==> verdicts@[j] != Some(false),
            decreases verdicts.len() - i,
        {
            match verdicts[i] {
                Some(keep) => {
                    if !keep {
                        return false;
                    }
                },
                None => {},
            }
            i += 1;
        }
        true
    }

    /// The endpoint after one extension has answered a transform
    /// request. `answer` is nothing where the extension failed or did not
    /// answer with a record. Unless the answer is a record with a URL, the
    /// endpoint comes back as it was, annotations included; else it is
    /// the endpoint of the answer, which has none.
    pub fn transform_endpoint(&self, endpoint: Endpoint, answer: Option<EndpointRecord>) -> (r:
        Endpoint)
        ensures
            r@ == transformed(
                endpoint@,
                match answer {
                    Some(rec) => Some(rec@),
                    None => None,
                },
            ),
            answer is None ==> r == endpoint,
            (answer matches Some(rec) && rec.url is None) ==> r == endpoint,
            (answer matches Some(rec) && rec.url is Some) ==> r.metadata is None,
    {
        match answer {
            Some(record) => {
                if record.url.is_some() {
                    match self.dict_to_endpoint(record) {
                        Ok(e) => e,
                        Err(_) => endpoint,
                    }
                } else {
                    endpoint
                }
            },
            None => endpoint,
        }
    }
}

impl Default for PluginManager {
    fn default() -> Self {
        PluginManager::new()
    }
}

/// Whether a string holds exactly the given text.
pub fn same_text(s: &String, text: &str) -> (r: bool)
    ensures
        r == (s@ == text@),
{
    let other = text.to_owned();
    let same = *s == other;
    same
}

/// A copy of an optional string.
pub fn copy_text(s: &Option<String>) -> (r: Option<String>)
    ensures
        r.deep_view() == s.deep_view(),
{
    match s {
        Some(t) => Some(t.clone()),
        None => None,
    }
}

/// A copy of a list of strings.
pub fn copy_texts(list: &Vec<String>) -> (r: Vec<String>)
    ensures
        texts(r@) == texts(list@),
{
    let mut out: Vec<String> = Vec::new();
    let mut i: usize = 0;
    while i < list.len()
        invariant
            i <= list.len(),
            out@.len() == i,
            forall|j: int| 0 <= j < i ==> out@[j]@ == list@[j]@,
        decreases list.len() - i,
    {
        out.push(list[i].clone());
        i += 1;
    }
    out
}

} // verus!
