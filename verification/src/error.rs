//! The failures a scan can meet.

use vstd::prelude::*;
use vstd::string::StringExecFns;

verus! {

/// Everything that can go wrong while scanning. Failures that arise
/// outside the library arrive as the text that described them.
#[derive(Debug, Clone)]
pub enum Error {
    /// The request failed, or the server answered outside the 2xx range;
    /// `status` is the answer's code where there was an answer.
    HttpError { status: Option<u16>, message: String },
    /// A local file could not be read or written.
    IoError(String),
    /// JSON rendering failed.
    JsonError(String),
    /// YAML rendering failed.
    YamlError(String),
    /// XML rendering failed.
    XmlError(String),
    /// A URL was refused by the URL parser.
    UrlParseError(String),
    /// An input was not usable.
    ValidationError(String),
    /// The extraction rules could not be set up or applied.
    ParserError(String),
    /// The rate limit was exceeded.
    RateLimitError,
    /// A request ran out of time.
    TimeoutError,
    /// The connection or its TLS session could not be established.
    TlsError(String),
    /// A response body could not be decoded.
    EncodingError(String),
    /// An extension could not be loaded or misbehaved.
    PluginError(String),
    /// robots.txt forbids the crawl.
    RobotsTxtError(String),
    /// Anything else.
    Other(String),
}

impl Error {
    /// Errors after which the same request may be tried again.
    pub open spec fn recoverable(self) -> bool {
        self is HttpError || self is TimeoutError || self is RateLimitError
    }

    /// Errors that come from the network rather than from the input.
    pub open spec fn network(self) -> bool {
        self is HttpError || self is TimeoutError || self is TlsError
    }

    /// The text that describes the error to a person.
    pub open spec fn message(self) -> Seq<char> {
        match self {
            Error::HttpError { status, message } => "HTTP request failed: "@ + message@,
            Error::IoError(m) => "IO error: "@ + m@,
            Error::JsonError(m) => "JSON serialization error: "@ + m@,
            Error::YamlError(m) => "YAML serialization error: "@ + m@,
            Error::XmlError(m) => "XML serialization error: "@ + m@,
            Error::UrlParseError(m) => "URL parse error: "@ + m@,
            Error::ValidationError(m) => "Invalid input: "@ + m@,
            Error::ParserError(m) => "Parser error: "@ + m@,
            Error::RateLimitError => "Rate limit exceeded"@,
            Error::TimeoutError => "Timeout error"@,
            Error::TlsError(m) => "TLS/SSL error: "@ + m@,
            Error::EncodingError(m) => "Encoding error: "@ + m@,
            Error::PluginError(m) => "Plugin error: "@ + m@,
            Error::RobotsTxtError(m) => "robots.txt disallows crawling: "@ + m@,
            Error::Other(m) => "Unknown error: "@ + m@,
        }
    }

    /// Check if the error is recoverable.
    pub fn is_recoverable(&self) -> (r: bool)
        ensures
            r == self.recoverable(),
    {
        match self {
            Error::HttpError { .. } => true,
            Error::TimeoutError => true,
            Error::RateLimitError => true,
            _ => false,
        }
    }

    /// Check if the error is a network error.
    pub fn is_network_error(&self) -> (r: bool)
        ensures
            r == self.network(),
    {
        match self {
            Error::HttpError { .. } => true,
            Error::TimeoutError => true,
            Error::TlsError(_) => true,
            _ => false,
        }
    }

    /// Renders the error for a person.
    pub fn describe(&self) -> (r: String)
        ensures
            r@ == self.message(),
    {
        match self {
            Error::HttpError { status, message } => prefixed("HTTP request failed: ", message),
            Error::IoError(m) => prefixed("IO error: ", m),
            Error::JsonError(m) => prefixed("JSON serialization error: ", m),
            Error::YamlError(m) => prefixed("YAML serialization error: ", m),
            Error::XmlError(m) => prefixed("XML serialization error: ", m),
            Error::UrlParseError(m) => prefixed("URL parse error: ", m),
            Error::ValidationError(m) => prefixed("Invalid input: ", m),
            Error::ParserError(m) => prefixed("Parser error: ", m),
            Error::RateLimitError => "Rate limit exceeded".to_owned(),
            Error::TimeoutError => "Timeout error".to_owned(),
            Error::TlsError(m) => prefixed("TLS/SSL error: ", m),
            Error::EncodingError(m) => prefixed("Encoding error: ", m),
            Error::PluginError(m) => prefixed("Plugin error: ", m),
            Error::RobotsTxtError(m) => prefixed("robots.txt disallows crawling: ", m),
            Error::Other(m) => prefixed("Unknown error: ", m),
        }
    }
}

/// `head` followed by `tail`.
pub fn prefixed(head: &str, tail: &String) -> (r: String)
    ensures
        r@ == head@ + tail@,
{
    String::from_str(head).concat(tail.as_str())
}

} // verus!
