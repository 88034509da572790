//! Settings of one scan.

use std::path::PathBuf;
use vstd::prelude::*;

verus! {

/// `std::path::PathBuf`, carried through as it is.
#[verifier::external_type_specification]
#[verifier::external_body]
pub struct ExPathBuf(PathBuf);

/// Requests per second when nothing else is asked for.
pub const DEFAULT_RATE_LIMIT: u32 = 10;

/// Seconds before a request is given up when nothing else is asked for.
pub const DEFAULT_TIMEOUT_SECONDS: u64 = 30;

/// Requests in flight at once when nothing else is asked for.
pub const DEFAULT_MAX_CONCURRENT: usize = 10;

/// Configuration for scanning operations.
#[derive(Debug, Clone)]
pub struct ScanConfig {
    /// Target URL or input source.
    pub target_url: String,
    /// Maximum requests per second.
    pub rate_limit: u32,
    /// Timeout for HTTP requests in seconds.
    pub timeout_seconds: u64,
    /// Maximum concurrent requests.
    pub max_concurrent: usize,
    /// Follow HTTP redirects.
    pub follow_redirects: bool,
    /// Respect robots.txt.
    pub respect_robots_txt: bool,
    /// Custom User-Agent header.
    pub user_agent: Option<String>,
    /// Only endpoints whose URL contains this text are reported.
    pub filter_pattern: Option<String>,
    /// Path to an extension file.
    pub plugin_path: Option<PathBuf>,
}

impl ScanConfig {
    /// What a configuration holds when only its target is given.
    pub open spec fn is_default_for(self, target: Seq<char>) -> bool {
        &&& self.target_url@ == target
        &&& self.rate_limit == DEFAULT_RATE_LIMIT
        &&& self.timeout_seconds == DEFAULT_TIMEOUT_SECONDS
        &&& self.max_concurrent == DEFAULT_MAX_CONCURRENT
        &&& self.follow_redirects
        &&& self.respect_robots_txt
        &&& self.user_agent.deep_view() == Some("Endpointo/0.1.0"@)
        &&& self.filter_pattern is None
        &&& self.plugin_path is None
    }

    /// A configuration for one target, everything else at its default.
    pub fn new(target_url: String) -> (r: Self)
        ensures
            r.is_default_for(target_url@),
    {
        ScanConfig {
            target_url,
            rate_limit: DEFAULT_RATE_LIMIT,
            timeout_seconds: DEFAULT_TIMEOUT_SECONDS,
            max_concurrent: DEFAULT_MAX_CONCURRENT,
            follow_redirects: true,
            respect_robots_txt: true,
            user_agent: Some("Endpointo/0.1.0".to_owned()),
            filter_pattern: None,
            plugin_path: None,
        }
    }

    /// Sets the rate limit where one is given.
    pub fn with_rate_limit(self, rate: Option<u32>) -> (r: Self)
        ensures
            r == (ScanConfig {
                rate_limit: match rate {
                    Some(n) => n,
                    None => self.rate_limit,
                },
                ..self
            }),
    {
        let mut c = self;
        if let Some(n) = rate {
            c.rate_limit = n;
        }
        c
    }

    /// Sets the timeout where one is given.
    pub fn with_timeout(self, seconds: Option<u64>) -> (r: Self)
        ensures
            r == (ScanConfig {
                timeout_seconds: match seconds {
                    Some(n) => n,
                    None => self.timeout_seconds,
                },
                ..self
            }),
    {
        let mut c = self;
        if let Some(n) = seconds {
            c.timeout_seconds = n;
        }
        c
    }

    /// Sets the number of concurrent requests where one is given.
    pub fn with_max_concurrent(self, max: Option<usize>) -> (r: Self)
        ensures
            r == (ScanConfig {
                max_concurrent: match max {
                    Some(n) => n,
                    None => self.max_concurrent,
                },
                ..self
            }),
    {
        let mut c = self;
        if let Some(n) = max {
            c.max_concurrent = n;
        }
        c
    }

    /// Enables or disables following redirects.
    pub fn with_redirects(self, follow: bool) -> (r: Self)
        ensures
            r == (ScanConfig { follow_redirects: follow, ..self }),
    {
        let mut c = self;
        c.follow_redirects = follow;
        c
    }

    /// Enables or disables robots.txt compliance.
    pub fn with_robots(self, respect: bool) -> (r: Self)
        ensures
            r == (ScanConfig { respect_robots_txt: respect, ..self }),
    {
        let mut c = self;
        c.respect_robots_txt = respect;
        c
    }

    /// Sets the User-Agent header.
    pub fn with_user_agent(self, ua: &str) -> (r: Self)
        ensures
            r.user_agent.deep_view() == Some(ua@),
            r == (ScanConfig { user_agent: r.user_agent, ..self }),
    {
        let mut c = self;
        c.user_agent = Some(ua.to_owned());
        c
    }

    /// Sets the filter pattern.
    pub fn with_filter(self, pattern: String) -> (r: Self)
        ensures
            r == (ScanConfig { filter_pattern: Some(pattern), ..self }),
    {
        let mut c = self;
        c.filter_pattern = Some(pattern);
        c
    }

    /// Sets the extension file.
    pub fn with_plugin(self, path: PathBuf) -> (r: Self)
        ensures
            r == (ScanConfig { plugin_path: Some(path), ..self }),
    {
        let mut c = self;
        c.plugin_path = Some(path);
        c
    }
}

impl Default for ScanConfig {
    fn default() -> (r: Self)
        ensures
            r.is_default_for(Seq::<char>::empty()),
    {
        ScanConfig::new(String::new())
    }
}

} // verus!
