//! The scan: in which order the pages of a target are fetched, how many
//! at once, what is made of each answer, and how the findings become the
//! result. Fetching is not done here: a scan hands out the URLs that may
//! be fetched now and is told what fetching each gave.

use crate::config::ScanConfig;
use crate::crawler::address::{parse_url, parsed, url_text};
use crate::crawler::client::{crawl_allowed, fetched_text, robots_address, RobotsGate};
use crate::crawler::{page_scripts, Crawler, SCRIPT_PATTERN};
use crate::engine::pattern_accepted;
use crate::error::{prefixed, Error};
use crate::parser::filters::{distinct, keys_unique, EndpointFilter};
use crate::parser::patterns::{rules_accepted, urls_nonempty};
use crate::parser::{findings, Parser};
use crate::text::{chars_of, contains, contains_text};
use crate::types::{lemma_views_add, texts, views, Endpoint, EndpointView};
use vstd::prelude::*;

verus! {

/// What a scan is occupied with.
#[derive(Debug, Clone, Copy, PartialEq, Eq, Structural)]
pub enum Phase {
    /// The robots.txt of the target.
    Robots,
    /// The entry page, for its script references.
    Page,
    /// The scripts that the entry page links.
    Assets,
    /// The entry page, for its own endpoints.
    Entry,
    /// Nothing: the scan is over.
    Done,
}

impl Phase {
    /// How many phases follow this one.
    pub open spec fn rank(self) -> nat {
        match self {
            Phase::Robots => 4,
            Phase::Page => 3,
            Phase::Assets => 2,
            Phase::Entry => 1,
            Phase::Done => 0,
        }
    }
}

/// The state of a scan.
pub struct ScanState {
    pub phase: Phase,
    /// The target as it was given.
    pub entry: Seq<char>,
    /// The serialization of the target as a URL.
    pub base: Seq<char>,
    /// The URLs of this phase that were not handed out yet, in order.
    pub pending: Seq<Seq<char>>,
    /// The URLs taken up so far.
    pub visited: Set<Seq<char>>,
    /// How many URLs were handed out and not answered yet.
    pub in_flight: nat,
    /// How many URLs may be in flight at once.
    pub limit: nat,
    /// The endpoints found so far.
    pub found: Seq<EndpointView>,
}

/// How a scan of `entry` begins: with the robots.txt of the target where
/// it is consulted, else with the entry page.
pub open spec fn start(
    entry: Seq<char>,
    base: Seq<char>,
    respect_robots: bool,
    limit: nat,
) -> ScanState {
    ScanState {
        phase: if respect_robots {
            Phase::Robots
        } else {
            Phase::Page
        },
        entry,
        base,
        pending: if respect_robots {
            seq![robots_address(base)]
        } else {
            seq![entry]
        },
        visited: Set::empty(),
        in_flight: 0,
        limit,
        found: Seq::empty(),
    }
}

/// The URL that may be fetched now, if there is one, and the state after
/// it was handed out.
///
/// Nothing is handed out while as many URLs are in flight as the limit
/// allows. Else the pending URLs are gone through in order: one that was
/// taken up before is passed over, the first that was not is taken up and
/// handed out. The address of robots.txt is handed out without being
/// taken up. When nothing is pending and nothing is in flight, the scan
/// goes on to its next phase: from the scripts to the entry page itself,
/// and from there to its end.
pub open spec fn next_fetch(s: ScanState) -> (ScanState, Option<Seq<char>>)
    decreases s.phase.rank(), s.pending.len(),
{
    if s.in_flight >= s.limit {
        (s, None)
    } else if s.pending.len() > 0 {
        let url = s.pending[0];
        let rest = ScanState { pending: s.pending.drop_first(), ..s };
        if s.phase == Phase::Robots {
            (ScanState { in_flight: s.in_flight + 1, ..rest }, Some(url))
        } else if s.visited.contains(url) {
            next_fetch(rest)
        } else {
            (
                ScanState { visited: s.visited.insert(url), in_flight: s.in_flight + 1, ..rest },
                Some(url),
            )
        }
    } else if s.in_flight > 0 {
        (s, None)
    } else {
        match s.phase {
            Phase::Robots => next_fetch(
                ScanState { phase: Phase::Page, pending: seq![s.entry], ..s },
            ),
            Phase::Page => next_fetch(ScanState { phase: Phase::Assets, ..s }),
            Phase::Assets => next_fetch(
                ScanState { phase: Phase::Entry, pending: seq![s.entry], ..s },
            ),
            Phase::Entry => (ScanState { phase: Phase::Done, ..s }, None),
            Phase::Done => (s, None),
        }
    }
}

/// What the text of a fetched asset adds to the findings; an asset that
/// could not be fetched adds nothing.
pub open spec fn gained(fetched: Option<Seq<char>>, source: Seq<char>) -> Seq<EndpointView> {
    match fetched {
        Some(body) => findings(body, Some(source)),
        None => Seq::empty(),
    }
}

/// The state after the scan was told what fetching `url` gave (`fetched`
/// is the text, or nothing where the fetch failed).
///
/// A robots.txt that closes the target leaves the scan without scripts;
/// one that could not be fetched closes nothing. The entry page gives the
/// scripts it links, and none where it could not be fetched. What the
/// rules find in a script, and at last in the entry page itself, is added
/// to the findings with `url` as its source.
pub open spec fn deliver(s: ScanState, url: Seq<char>, fetched: Option<Seq<char>>) -> ScanState {
    let t = ScanState {
        in_flight: if s.in_flight > 0 {
            (s.in_flight - 1) as nat
        } else {
            0
        },
        ..s
    };
    match s.phase {
        Phase::Robots => if crawl_allowed(fetched, s.base) {
            ScanState { phase: Phase::Page, pending: seq![s.entry], ..t }
        } else {
            ScanState { phase: Phase::Assets, pending: Seq::empty(), ..t }
        },
        Phase::Page => ScanState {
            phase: Phase::Assets,
            pending: match fetched {
                Some(html) => page_scripts(html, s.base),
                None => Seq::empty(),
            },
            ..t
        },
        Phase::Assets => ScanState { found: s.found + gained(fetched, url), ..t },
        Phase::Entry => ScanState { found: s.found + gained(fetched, url), ..t },
        Phase::Done => s,
    }
}

/// Handing a URL out never puts more URLs in flight than the limit
/// allows.
pub proof fn lemma_in_flight_bounded(s: ScanState)
    requires
        s.in_flight <= s.limit,
    ensures
        next_fetch(s).0.in_flight <= next_fetch(s).0.limit,
        next_fetch(s).0.limit == s.limit,
    decreases s.phase.rank(), s.pending.len(),
{
    if s.in_flight < s.limit {
        if s.pending.len() > 0 {
            if s.phase != Phase::Robots && s.visited.contains(s.pending[0]) {
                lemma_in_flight_bounded(ScanState { pending: s.pending.drop_first(), ..s });
            }
        } else if s.in_flight == 0 {
            match s.phase {
                Phase::Robots => {
                    lemma_in_flight_bounded(
                        ScanState { phase: Phase::Page, pending: seq![s.entry], ..s },
                    );
                },
                Phase::Page => {
                    lemma_in_flight_bounded(ScanState { phase: Phase::Assets, ..s });
                },
                Phase::Assets => {
                    lemma_in_flight_bounded(
                        ScanState { phase: Phase::Entry, pending: seq![s.entry], ..s },
                    );
                },
                Phase::Entry => {},
                Phase::Done => {},
            }
        }
    }
}

/// An answer takes one URL out of flight, never puts one in, and leaves
/// the limit and the record of URLs as they are.
pub proof fn lemma_deliver_lands(s: ScanState, url: Seq<char>, fetched: Option<Seq<char>>)
    ensures
        deliver(s, url, fetched).in_flight <= s.in_flight,
        deliver(s, url, fetched).limit == s.limit,
        deliver(s, url, fetched).visited == s.visited,
{
}

/// No page or script is fetched twice within one scan: the record of
/// URLs taken up never shrinks, and but for the address of robots.txt a
/// URL is handed out only if it was not in the record before and is in
/// it after.
pub proof fn lemma_fetch_once(s: ScanState)
    ensures
        s.visited.subset_of(next_fetch(s).0.visited),
        next_fetch(s).1 matches Some(u) ==> (s.phase == Phase::Robots && s.pending.len() > 0) || (
        !s.visited.contains(u) && next_fetch(s).0.visited.contains(u)),
    decreases s.phase.rank(), s.pending.len(),
{
    if s.in_flight < s.limit {
        if s.pending.len() > 0 {
            if s.phase != Phase::Robots && s.visited.contains(s.pending[0]) {
                lemma_fetch_once(ScanState { pending: s.pending.drop_first(), ..s });
            }
        } else if s.in_flight == 0 {
            match s.phase {
                Phase::Robots => {
                    lemma_fetch_once(ScanState { phase: Phase::Page, pending: seq![s.entry], ..s });
                },
                Phase::Page => {
                    lemma_fetch_once(ScanState { phase: Phase::Assets, ..s });
                },
                Phase::Assets => {
                    lemma_fetch_once(ScanState { phase: Phase::Entry, pending: seq![s.entry], ..s });
                },
                Phase::Entry => {},
                Phase::Done => {},
            }
        }
    }
}

/// A scan cannot stall: where at least one URL may be in flight, a scan
/// that hands nothing out while nothing is in flight is over.
pub proof fn lemma_no_stall(s: ScanState)
    requires
        s.limit >= 1,
    ensures
        next_fetch(s).1 is None && next_fetch(s).0.in_flight == 0 ==> next_fetch(s).0.phase
            == Phase::Done,
    decreases s.phase.rank(), s.pending.len(),
{
    if s.in_flight < s.limit {
        if s.pending.len() > 0 {
            if s.phase != Phase::Robots && s.visited.contains(s.pending[0]) {
                lemma_no_stall(ScanState { pending: s.pending.drop_first(), ..s });
            }
        } else if s.in_flight == 0 {
            match s.phase {
                Phase::Robots => {
                    lemma_no_stall(ScanState { phase: Phase::Page, pending: seq![s.entry], ..s });
                },
                Phase::Page => {
                    lemma_no_stall(ScanState { phase: Phase::Assets, ..s });
                },
                Phase::Assets => {
                    lemma_no_stall(ScanState { phase: Phase::Entry, pending: seq![s.entry], ..s });
                },
                Phase::Entry => {},
                Phase::Done => {},
            }
        }
    }
}

/// Handing a URL out leaves the findings as they are.
pub proof fn lemma_next_fetch_keeps_findings(s: ScanState)
    ensures
        next_fetch(s).0.found == s.found,
    decreases s.phase.rank(), s.pending.len(),
{
    if s.in_flight < s.limit {
        if s.pending.len() > 0 {
            if s.phase != Phase::Robots && s.visited.contains(s.pending[0]) {
                lemma_next_fetch_keeps_findings(ScanState { pending: s.pending.drop_first(), ..s });
            }
        } else if s.in_flight == 0 {
            match s.phase {
                Phase::Robots => {
                    lemma_next_fetch_keeps_findings(
                        ScanState { phase: Phase::Page, pending: seq![s.entry], ..s },
                    );
                },
                Phase::Page => {
                    lemma_next_fetch_keeps_findings(ScanState { phase: Phase::Assets, ..s });
                },
                Phase::Assets => {
                    lemma_next_fetch_keeps_findings(
                        ScanState { phase: Phase::Entry, pending: seq![s.entry], ..s },
                    );
                },
                Phase::Entry => {},
                Phase::Done => {},
            }
        }
    }
}

/// The texts of a queue, last first.
pub open spec fn backwards(queue: Seq<String>) -> Seq<Seq<char>> {
    Seq::new(queue.len(), |i: int| queue[queue.len() - 1 - i]@)
}

/// A scan in progress.
pub struct Scan {
    phase: Phase,
    entry: String,
    base: url::Url,
    /// The pending URLs, the next one last.
    queue: Vec<String>,
    in_flight: usize,
    limit: usize,
    found: Vec<Endpoint>,
    crawler: Crawler,
}

impl View for Scan {
    type V = ScanState;

    closed spec fn view(&self) -> ScanState {
        ScanState {
            phase: self.phase,
            entry: self.entry@,
            base: url_text(self.base),
            pending: backwards(self.queue@),
            visited: self.crawler.visited(),
            in_flight: self.in_flight as nat,
            limit: self.limit as nat,
            found: views(self.found@),
        }
    }
}

impl Scan {
    /// Whether the scan is over.
    pub fn is_done(&self) -> (r: bool)
        ensures
            r == (self@.phase == Phase::Done),
    {
        match self.phase {
            Phase::Done => true,
            _ => false,
        }
    }

    /// How many URLs were handed out and not answered yet.
    pub fn in_flight(&self) -> (r: usize)
        ensures
            r == self@.in_flight,
    {
        self.in_flight
    }

    /// The endpoints found so far, each as the rules gave it.
    pub fn into_findings(self) -> (r: Vec<Endpoint>)
        ensures
            views(r@) == self@.found,
    {
        self.found
    }

    /// Goes on to `phase` with one pending URL, the entry page.
    fn enter_with_entry(&mut self, phase: Phase)
        ensures
            final(self)@ == (ScanState { phase, pending: seq![old(self)@.entry], ..old(self)@ }),
    {
        self.phase = phase;
        let mut queue: Vec<String> = Vec::new();
        queue.push(self.entry.clone());
        self.queue = queue;
        assert(self@.pending =~= seq![old(self)@.entry]);
    }

    /// Forgets what is pending.
    fn clear_pending(&mut self)
        ensures
            final(self)@ == (ScanState { pending: Seq::empty(), ..old(self)@ }),
    {
        self.queue = Vec::new();
        assert(self@.pending =~= Seq::<Seq<char>>::empty());
    }
}

/// The endpoints whose URL holds the pattern, in order.
pub open spec fn matching(s: Seq<Endpoint>, pattern: Seq<char>) -> Seq<Endpoint> {
    s.filter(|e: Endpoint| contains_text(e.url@, pattern))
}

/// The result of a scan: the endpoints whose URL holds the filter
/// pattern, where there is one, each URL and method once. Of the
/// endpoints with the same URL and method the first stays, and with it
/// its classification: within one asset that is the finding of the URL
/// pattern before those of the API-signature patterns, and those before
/// the lines of the GraphQL line rule.
pub open spec fn scan_result(s: Seq<Endpoint>, pattern: Option<Seq<char>>) -> Seq<Endpoint> {
    match pattern {
        Some(p) => distinct(matching(s, p)),
        None => distinct(s),
    }
}

/// Main scanner orchestrator.
pub struct Scanner {
    parser: Parser,
    config: ScanConfig,
}

impl Scanner {
    /// The configuration of the scanner.
    pub closed spec fn config(&self) -> ScanConfig {
        self.config
    }

    /// A scanner with its rules compiled. It fails exactly when the
    /// engine refuses a pattern of the rule table.
    pub fn new(config: ScanConfig) -> (r: Result<Self, Error>)
        ensures
            r is Ok <==> rules_accepted(),
            r matches Ok(s) ==> s.config() == config,
            r matches Err(e) ==> e is ParserError,
    {
        match Parser::new() {
            Ok(parser) => Ok(Scanner { parser, config }),
            Err(e) => Err(e),
        }
    }

    /// Begins the scan of a URL. A target that is no URL, or a
    /// configuration that lets no request be in flight, is a
    /// `ValidationError`.
    pub fn begin(&self, url: &str) -> (r: Result<Scan, Error>)
        ensures
            r is Ok <==> parsed(url@) is Some && self.config().max_concurrent > 0
                && pattern_accepted(SCRIPT_PATTERN@),
            r matches Ok(scan) ==> scan@ == start(
                url@,
                parsed(url@).unwrap(),
                self.config().respect_robots_txt,
                self.config().max_concurrent as nat,
            ),
            r matches Err(e) ==> (if parsed(url@) is None || self.config().max_concurrent == 0 {
                e is ValidationError
            } else {
                e is ParserError
            }),
    {
        let base = match parse_url(url) {
            Some(u) => u,
            None => {
                return Err(Error::ValidationError(prefixed("not a URL: ", &url.to_owned())));
            },
        };
        if self.config.max_concurrent == 0 {
            return Err(
                Error::ValidationError("at least one request must be allowed in flight".to_owned()),
            );
        }
        let crawler = match Crawler::new(&self.config) {
            Ok(c) => c,
            Err(e) => {
                return Err(e);
            },
        };
        let (phase, first) = if crawler.robots_respected() {
            (Phase::Robots, RobotsGate::address(&base))
        } else {
            (Phase::Page, url.to_owned())
        };
        let mut queue: Vec<String> = Vec::new();
        queue.push(first);
        let scan = Scan {
            phase,
            entry: url.to_owned(),
            base,
            queue,
            in_flight: 0,
            limit: self.config.max_concurrent,
            found: Vec::new(),
            crawler,
        };
        assert(scan@.pending =~= start(
            url@,
            parsed(url@).unwrap(),
            self.config().respect_robots_txt,
            self.config().max_concurrent as nat,
        ).pending);
        assert(scan@.found =~= Seq::<EndpointView>::empty());
        Ok(scan)
    }

    /// Hands out the URL that may be fetched now, if there is one. The
    /// driver fetches it and reports with `deliver`; it may ask for more
    /// URLs before it does.
    pub fn next_fetch(&self, scan: &mut Scan) -> (r: Option<String>)
        ensures
            (final(scan)@, r.deep_view()) == next_fetch(old(scan)@),
            final(scan)@.found == old(scan)@.found,
            old(scan)@.in_flight <= old(scan)@.limit ==> final(scan)@.in_flight
                <= final(scan)@.limit,
    {
        proof {
            lemma_next_fetch_keeps_findings(scan@);
            if scan@.in_flight <= scan@.limit {
                lemma_in_flight_bounded(scan@);
            }
        }
        loop
            invariant
                next_fetch(scan@) == next_fetch(old(scan)@),
                next_fetch(old(scan)@).0.found == old(scan)@.found,
                old(scan)@.in_flight <= old(scan)@.limit ==> next_fetch(old(scan)@).0.in_flight
                    <= next_fetch(old(scan)@).0.limit,
            decreases scan@.phase.rank(), scan@.pending.len(),
        {
            let ghost before = scan@;
            if scan.in_flight >= scan.limit {
                return None;
            }
            match scan.queue.pop() {
                Some(url) => {
                    assert(scan@.pending =~= before.pending.drop_first());
                    let robots = match scan.phase {
                        Phase::Robots => true,
                        _ => false,
                    };
                    if robots || scan.crawler.claim(url.as_str()) {
                        scan.in_flight = scan.in_flight + 1;
                        return Some(url);
                    }
                    assert(before.visited.insert(url@) =~= before.visited);
                },
                None => {
                    if scan.in_flight > 0 {
                        return None;
                    }
                    match scan.phase {
                        Phase::Robots => {
                            scan.enter_with_entry(Phase::Page);
                        },
                        Phase::Page => {
                            scan.phase = Phase::Assets;
                        },
                        Phase::Assets => {
                            scan.enter_with_entry(Phase::Entry);
                        },
                        Phase::Entry => {
                            scan.phase = Phase::Done;
                            return None;
                        },
                        Phase::Done => {
                            return None;
                        },
                    }
                },
            }
        }
    }

    /// Tells the scan what fetching a URL that it handed out gave. A
    /// failed fetch is passed over: it ends nothing.
    pub fn deliver(&self, scan: &mut Scan, url: &str, outcome: Result<String, Error>)
        ensures
            final(scan)@ == deliver(old(scan)@, url@, fetched_text(outcome)),
            urls_nonempty(old(scan)@.found) ==> urls_nonempty(final(scan)@.found),
            old(scan)@.in_flight <= old(scan)@.limit ==> final(scan)@.in_flight
                <= final(scan)@.limit,
    {
        match scan.phase {
            Phase::Done => {
                return ;
            },
            _ => {},
        }
        if scan.in_flight > 0 {
            scan.in_flight = scan.in_flight - 1;
        }
        match scan.phase {
            Phase::Robots => {
                if RobotsGate::is_allowed(&outcome, &scan.base) {
                    scan.enter_with_entry(Phase::Page);
                } else {
                    scan.phase = Phase::Assets;
                    scan.clear_pending();
                }
            },
            Phase::Page => {
                scan.phase = Phase::Assets;
                match outcome {
                    Ok(html) => {
                        let links = scan.crawler.extract_scripts(html.as_str(), &scan.base);
                        scan.queue = reversed(links);
                    },
                    Err(_) => {
                        scan.clear_pending();
                    },
                }
            },
            Phase::Assets => {
                self.gain(scan, url, outcome);
            },
            Phase::Entry => {
                self.gain(scan, url, outcome);
            },
            Phase::Done => {},
        }
    }

    /// Adds what the rules find in a fetched asset to the findings.
    fn gain(&self, scan: &mut Scan, url: &str, outcome: Result<String, Error>)
        ensures
            final(scan)@ == (ScanState {
                found: old(scan)@.found + gained(fetched_text(outcome), url@),
                ..old(scan)@
            }),
            urls_nonempty(old(scan)@.found) ==> urls_nonempty(final(scan)@.found),
    {
        match outcome {
            Ok(body) => {
                match self.parser.parse_js(body.as_str(), Some(url)) {
                    Ok(mut more) => {
                        proof {
                            lemma_views_add(scan.found@, more@);
                        }
                        scan.found.append(&mut more);
                    },
                    Err(_) => {},
                }
            },
            Err(_) => {},
        }
    }

    /// What the rules find in a local file, given what reading the file
    /// gave: its text, or the description of why it could not be read.
    /// A file that could not be read is an `IoError`; nothing else
    /// fails. Each endpoint has the file's path as its source and no
    /// annotations.
    pub fn parse_file(&self, read: Result<String, String>, path: &str) -> (r: Result<
        Vec<Endpoint>,
        Error,
    >)
        ensures
            match read {
                Ok(content) => r matches Ok(found) && views(found@) == findings(
                    content@,
                    Some(path@),
                ) && urls_nonempty(views(found@)) && forall|i: int|
                    0 <= i < found@.len() ==> (#[trigger] found@[i]).metadata is None,
                Err(reason) => r matches Err(e) && e is IoError && e->IoError_0 == reason,
            },
    {
        match read {
            Ok(content) => self.parser.parse_js(content.as_str(), Some(path)),
            Err(reason) => Err(Error::IoError(reason)),
        }
    }

    /// The result of a scan of a URL: of the endpoints that the
    /// extensions have passed, those whose URL holds the configured
    /// filter pattern, each URL and method once.
    pub fn finish_scan(&self, endpoints: Vec<Endpoint>) -> (r: Vec<Endpoint>)
        ensures
            r@ == scan_result(endpoints@, self.config().filter_pattern.deep_view()),
            keys_unique(r@),
    {
        let mut kept: Vec<Endpoint> = match &self.config.filter_pattern {
            Some(pattern) => keep_matching(endpoints, pattern.as_str()),
            None => endpoints,
        };
        EndpointFilter::new().deduplicate(&mut kept);
        kept
    }

    /// The result of parsing local files: the endpoints that the
    /// extensions have passed, each URL and method once.
    pub fn finish_parse(&self, endpoints: Vec<Endpoint>) -> (r: Vec<Endpoint>)
        ensures
            r@ == distinct(endpoints@),
            keys_unique(r@),
    {
        let mut kept = endpoints;
        EndpointFilter::new().deduplicate(&mut kept);
        kept
    }
}

/// The endpoints whose URL holds the pattern, in order.
pub fn keep_matching(endpoints: Vec<Endpoint>, pattern: &str) -> (r: Vec<Endpoint>)
    ensures
        r@ == matching(endpoints@, pattern@),
{
    let ghost input = endpoints@;
    let ghost pred = |e: Endpoint| contains_text(e.url@, pattern@);
    let mut out: Vec<Endpoint> = Vec::new();
    assert(input.take(0).filter(pred) =~= Seq::<Endpoint>::empty()) by {
        reveal(Seq::filter);
    }
    for e in it: endpoints
        invariant
            it.seq() == input,
            pred == |e: Endpoint| contains_text(e.url@, pattern@),
            out@ == input.take(it.index()).filter(pred),
    {
        proof {
            let next = input.take(it.index() + 1);
            assert(next.drop_last() == input.take(it.index()));
            reveal(Seq::filter);
        }
        if contains(&chars_of(e.url.as_str()), pattern) {
            out.push(e);
        }
    }
    assert(input.take(input.len() as int) == input);
    out
}

/// The list in the opposite order.
pub fn reversed(list: Vec<String>) -> (r: Vec<String>)
    ensures
        backwards(r@) == texts(list@),
{
    let ghost input = list@;
    let mut rest = list;
    let mut out: Vec<String> = Vec::new();
    while rest.len() > 0
        invariant
            rest@.len() + out@.len() == input.len(),
            forall|i: int| 0 <= i < rest@.len() ==> rest@[i] == input[i],
            forall|i: int| 0 <= i < out@.len() ==> out@[i] == input[input.len() - 1 - i],
        decreases rest@.len(),
    {
        match rest.pop() {
            Some(s) => {
                out.push(s);
            },
            None => {},
        }
    }
    out
}

} // verus!
