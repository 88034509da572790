use endpointo::config::ScanConfig;
use endpointo::error::Error;
use endpointo::types::{Endpoint, EndpointType};
use std::collections::HashMap;
use std::path::PathBuf;

#[test]
fn new_endpoint_has_only_url_and_type() {
    let e = Endpoint::new("/x".to_string(), EndpointType::Unknown);
    assert_eq!(e.url, "/x");
    assert_eq!(e.endpoint_type, EndpointType::Unknown);
    assert!(e.method.is_none() && e.source.is_none() && e.line.is_none());
    assert!(e.params.is_none() && e.metadata.is_none());
}

#[test]
fn builders_set_one_field_each() {
    let mut notes = HashMap::new();
    notes.insert("k".to_string(), "v".to_string());
    let e = Endpoint::new("/x".to_string(), EndpointType::Rest)
        .with_params(vec!["a".to_string()])
        .with_metadata(notes.clone())
        .with_method("POST")
        .with_method("PUT");
    assert_eq!(e.url, "/x");
    assert_eq!(e.endpoint_type, EndpointType::Rest);
    assert_eq!(e.method, Some("PUT".to_string()));
    assert_eq!(e.params, Some(vec!["a".to_string()]));
    assert_eq!(e.metadata, Some(notes));
    assert_eq!(e.source, None);
    assert_eq!(e.line, None);
}

#[test]
fn default_configuration() {
    for c in [ScanConfig::default(), ScanConfig::new(String::new())] {
        assert_eq!(c.target_url, "");
        assert_eq!(c.rate_limit, 10);
        assert_eq!(c.timeout_seconds, 30);
        assert_eq!(c.max_concurrent, 10);
        assert!(c.follow_redirects);
        assert!(c.respect_robots_txt);
        assert_eq!(c.user_agent, Some("Endpointo/0.1.0".to_string()));
        assert_eq!(c.filter_pattern, None);
        assert_eq!(c.plugin_path, None);
    }
}

#[test]
fn configuration_builders_leave_the_rest_alone() {
    let c = ScanConfig::new("t".to_string())
        .with_rate_limit(None)
        .with_timeout(None)
        .with_max_concurrent(None)
        .with_redirects(false)
        .with_robots(false)
        .with_filter("api".to_string())
        .with_plugin(PathBuf::from("p.py"));
    assert_eq!(c.target_url, "t");
    assert_eq!((c.rate_limit, c.timeout_seconds, c.max_concurrent), (10, 30, 10));
    assert!(!c.follow_redirects && !c.respect_robots_txt);
    assert_eq!(c.filter_pattern, Some("api".to_string()));
    assert_eq!(c.plugin_path, Some(PathBuf::from("p.py")));
    assert_eq!(c.user_agent, Some("Endpointo/0.1.0".to_string()));
    let c = c.with_rate_limit(Some(0)).with_redirects(true);
    assert_eq!(c.rate_limit, 0);
    assert!(c.follow_redirects);
    assert_eq!(c.filter_pattern, Some("api".to_string()));
}

fn all_errors() -> Vec<Error> {
    let s = || "m".to_string();
    vec![
        Error::HttpError { status: Some(500), message: s() },
        Error::IoError(s()),
        Error::JsonError(s()),
        Error::YamlError(s()),
        Error::XmlError(s()),
        Error::UrlParseError(s()),
        Error::ValidationError(s()),
        Error::ParserError(s()),
        Error::RateLimitError,
        Error::TimeoutError,
        Error::TlsError(s()),
        Error::EncodingError(s()),
        Error::PluginError(s()),
        Error::RobotsTxtError(s()),
        Error::Other(s()),
    ]
}

#[test]
fn recoverable_and_network_errors() {
    let recoverable: Vec<bool> = all_errors().iter().map(|e| e.is_recoverable()).collect();
    let network: Vec<bool> = all_errors().iter().map(|e| e.is_network_error()).collect();
    let t = true;
    let f = false;
    assert_eq!(recoverable, vec![t, f, f, f, f, f, f, f, t, t, f, f, f, f, f]);
    assert_eq!(network, vec![t, f, f, f, f, f, f, f, f, t, t, f, f, f, f]);
}

#[test]
fn errors_describe_themselves() {
    let texts: Vec<String> = all_errors().iter().map(|e| e.describe()).collect();
    assert_eq!(
        texts,
        vec![
            "HTTP request failed: m",
            "IO error: m",
            "JSON serialization error: m",
            "YAML serialization error: m",
            "XML serialization error: m",
            "URL parse error: m",
            "Invalid input: m",
            "Parser error: m",
            "Rate limit exceeded",
            "Timeout error",
            "TLS/SSL error: m",
            "Encoding error: m",
            "Plugin error: m",
            "robots.txt disallows crawling: m",
            "Unknown error: m",
        ]
    );
}
