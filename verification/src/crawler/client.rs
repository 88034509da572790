//! What the crawl makes of the answers of the HTTP layer: which answer is
//! a failure, how a body becomes text, and what robots.txt permits.

use crate::config::ScanConfig;
use crate::crawler::address::{
    host_of, path_of, scheme_of, url_host, url_path, url_scheme, url_text,
};
use crate::error::{prefixed, Error};
use crate::text::{chars_of, contains_text, find_text};
use vstd::prelude::*;
use vstd::string::StringExecFns;

verus! {

/// How many redirects are followed where redirects are followed at all.
pub const MAX_REDIRECTS: usize = 10;

/// The longest body that is decoded.
pub const MAX_BODY_BYTES: usize = usize::MAX / 8;

/// What decoding a response body gives: the text, and whether malformed
/// sequences had to be replaced.
pub uninterp spec fn decoded(bytes: Seq<u8>) -> (Seq<char>, bool);

/// `encoding_rs::Encoding::decode` on `UTF_8`: decodes the whole body
/// with byte-order-mark sniffing, replaces what is malformed, and says
/// whether anything was. Bodies whose buffer size the decoder cannot
/// compute are left out.
#[verifier::external_body]
fn decode_utf8(bytes: &[u8]) -> (r: (String, bool))
    requires
        bytes@.len() <= MAX_BODY_BYTES,
    ensures
        (r.0@, r.1) == decoded(bytes@),
{
    let (text, _, had_errors) = encoding_rs::UTF_8.decode(bytes);
    (text.into_owned(), had_errors)
}

/// How a request failed before any answer arrived, as the HTTP layer
/// reports it.
#[derive(Debug, Clone)]
pub struct TransportFailure {
    /// The request ran out of time.
    pub timed_out: bool,
    /// No connection could be established.
    pub connect_failed: bool,
    /// The description the HTTP layer gave.
    pub message: String,
}

/// A status code of the 2xx range.
pub open spec fn is_success(status: u16) -> bool {
    200 <= status <= 299
}

/// How many redirects the HTTP layer is to follow.
pub fn redirect_limit(config: &ScanConfig) -> (r: usize)
    ensures
        r == if config.follow_redirects {
            MAX_REDIRECTS
        } else {
            0
        },
{
    if config.follow_redirects {
        MAX_REDIRECTS
    } else {
        0
    }
}

/// The error that a failed request stands for: a timeout first, then a
/// failed connection, then anything else.
pub fn classify_failure(failure: &TransportFailure) -> (r: Error)
    ensures
        failure.timed_out ==> r is TimeoutError,
        !failure.timed_out && failure.connect_failed ==> r is TlsError && r->TlsError_0@
            == "Connection error: "@ + failure.message@,
        !failure.timed_out && !failure.connect_failed ==> r is HttpError && r->status is None
            && r->message@ == failure.message@,
{
    if failure.timed_out {
        Error::TimeoutError
    } else if failure.connect_failed {
        Error::TlsError(prefixed("Connection error: ", &failure.message))
    } else {
        Error::HttpError { status: None, message: failure.message.clone() }
    }
}

/// What an answer of the server gives: outside the 2xx range an
/// `HttpError` with the status; else the decoded body with the warning
/// that something in it was malformed. A body too long to decode is an
/// `EncodingError`.
pub fn read_response(status: u16, body: &[u8]) -> (r: Result<(String, bool), Error>)
    ensures
        r is Ok <==> is_success(status) && body@.len() <= MAX_BODY_BYTES,
        r matches Ok(answer) ==> (answer.0@, answer.1) == decoded(body@),
        !is_success(status) ==> (r matches Err(e) && e is HttpError && e->status == Some(status)),
        is_success(status) && body@.len() > MAX_BODY_BYTES ==> (r matches Err(e)
            && e is EncodingError),
{
    if status < 200 || status > 299 {
        return Err(
            Error::HttpError { status: Some(status), message: "unexpected status".to_owned() },
        );
    }
    if body.len() > MAX_BODY_BYTES {
        return Err(Error::EncodingError("body too long".to_owned()));
    }
    Ok(decode_utf8(body))
}

/// The address of the robots.txt of a URL's host: the scheme and the
/// host of the URL (nothing where it has none), then `/robots.txt`.
pub open spec fn robots_address(url: Seq<char>) -> Seq<char> {
    scheme_of(url) + "://"@ + match host_of(url) {
        Some(h) => h,
        None => Seq::empty(),
    } + "/robots.txt"@
}

/// Whether a robots.txt leaves a path open: it does unless it holds
/// `Disallow: ` followed by the path.
pub open spec fn robots_permits(robots_txt: Seq<char>, path: Seq<char>) -> bool {
    !contains_text(robots_txt, "Disallow: "@ + path)
}

/// Whether a URL may be crawled, given what fetching its robots.txt
/// gave: a robots.txt that could not be fetched forbids nothing.
pub open spec fn crawl_allowed(robots_txt: Option<Seq<char>>, url: Seq<char>) -> bool {
    match robots_txt {
        Some(text) => robots_permits(text, path_of(url)),
        None => true,
    }
}

/// The text of a fetched page, where it was fetched.
pub open spec fn fetched_text(outcome: Result<String, Error>) -> Option<Seq<char>> {
    match outcome {
        Ok(text) => Some(text@),
        Err(_) => None,
    }
}

/// The robots.txt check that stands before a crawl.
#[derive(Debug, Clone, Copy)]
pub struct RobotsGate;

impl RobotsGate {
    /// The address of the robots.txt that governs the URL.
    pub fn address(url: &url::Url) -> (r: String)
        ensures
            r@ == robots_address(url_text(*url)),
    {
        let scheme = url_scheme(url);
        let with_host = match url_host(url) {
            Some(host) => scheme.concat("://").concat(host.as_str()),
            None => {
                let s = scheme.concat("://");
                s
            },
        };
        with_host.concat("/robots.txt")
    }

    /// Whether the robots.txt leaves the path open.
    pub fn permits(robots_txt: &str, path: &str) -> (r: bool)
        ensures
            r == robots_permits(robots_txt@, path@),
    {
        let rule = String::from_str("Disallow: ").concat(path);
        find_text(&chars_of(robots_txt), &chars_of(rule.as_str())).is_none()
    }

    /// Whether the URL may be crawled, given the outcome of fetching its
    /// robots.txt. Whatever went wrong with the fetch, the answer is yes.
    pub fn is_allowed(outcome: &Result<String, Error>, url: &url::Url) -> (r: bool)
        ensures
            r == crawl_allowed(fetched_text(*outcome), url_text(*url)),
            outcome is Err ==> r,
    {
        match outcome {
            Ok(text) => RobotsGate::permits(text.as_str(), url_path(url).as_str()),
            Err(_) => true,
        }
    }
}

} // verus!
