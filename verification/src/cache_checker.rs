//! The probe of one URL.
//!
//! A probe runs up to `retries + 1` attempts. Each attempt looks up the host
//! and, if that succeeds, sends one request. A response ends the probe; a
//! failure is followed by a pause and the next attempt, until the attempts
//! are used up. The lookups, requests and pauses are the caller's to perform:
//! [`Probe::step`] takes what happened and says what to do next.

use rand::rngs::StdRng;
use vstd::arithmetic::power2::{
    lemma2_to64, lemma2_to64_rest, lemma_pow2_strictly_increases, lemma_pow2_unfold, pow2,
};
use vstd::prelude::*;
use vstd::string::*;

use crate::config::{method_named, request_method, CacheInfo, CacheInfoView, Method};
use crate::dns_resolver::{host, host_of};
use crate::headers::{first_value, lookup, pair_views, position, Headers, Pair};
use crate::jitter::{is_jitter, jitter_delay};
use crate::text::{contains, str_contains, views};

verus! {

/// The pause after the first failed lookup, in milliseconds. It doubles with
/// each further one.
pub const FIRST_DNS_BACKOFF_MS: u64 = 500;

/// What came back for a request: the headers as the response lists them, and
/// the body where it could be read.
#[derive(Debug)]
pub struct HttpResponse {
    pub headers: Vec<(String, String)>,
    pub body: Option<String>,
}

/// A response as plain text.
pub struct ResponseView {
    pub headers: Seq<Pair>,
    pub body: Option<Seq<char>>,
}

impl View for HttpResponse {
    type V = ResponseView;

    open spec fn view(&self) -> ResponseView {
        ResponseView {
            headers: pair_views(self.headers@),
            body: match self.body {
                Some(text) => Some(text@),
                None => None,
            },
        }
    }
}

/// The name under which a marker in the body is recorded.
pub open spec fn body_indicator() -> Seq<char> {
    "Body-Cache-Indicator"@
}

/// Whether a body was read and holds one of the two cache markers.
pub open spec fn body_marked(body: Option<Seq<char>>) -> bool {
    match body {
        Some(text) => contains(text, "served from cache"@) || contains(text, "X-Cache: HIT"@),
        None => false,
    }
}

/// The caching signals of a response. A configured name is recorded with its
/// value where the response has a header of exactly that name. The name
/// `Body-Cache-Indicator` is recorded with the value `Detected` where the
/// body holds a marker, whatever the headers say.
pub open spec fn signals(configured: Seq<Seq<char>>, response: ResponseView) -> Map<
    Seq<char>,
    Seq<char>,
> {
    Map::new(
        |name: Seq<char>|
            (name == body_indicator() && body_marked(response.body)) || (configured.contains(name)
                && lookup(response.headers, name) is Some),
        |name: Seq<char>|
            if name == body_indicator() && body_marked(response.body) {
                "Detected"@
            } else {
                lookup(response.headers, name)->0
            },
    )
}

/// The signals of the headers alone, for the first `n` configured names.
spec fn header_signals(configured: Seq<Seq<char>>, headers: Seq<Pair>, n: int) -> Map<
    Seq<char>,
    Seq<char>,
> {
    Map::new(
        |name: Seq<char>| configured.take(n).contains(name) && lookup(headers, name) is Some,
        |name: Seq<char>| lookup(headers, name)->0,
    )
}

/// A name is among the first `n + 1` where it is among the first `n` or is
/// the one with index `n`.
proof fn lemma_take_contains(names: Seq<Seq<char>>, n: int)
    requires
        0 <= n < names.len(),
    ensures
        forall|k: Seq<char>| #[trigger]
            names.take(n + 1).contains(k) <==> (names.take(n).contains(k) || k == names[n]),
{
    let shorter = names.take(n);
    let longer = names.take(n + 1);
    assert forall|k: Seq<char>| #[trigger]
        longer.contains(k) <==> (shorter.contains(k) || k == names[n]) by {
        if shorter.contains(k) {
            let at = choose|at: int| 0 <= at < shorter.len() && shorter[at] == k;
        }
        if k == names[n] {
            assert(longer[n] == k);
        }
        if longer.contains(k) {
            let at = choose|at: int| 0 <= at < longer.len() && longer[at] == k;
            if at < n {
            }
        }
    }
}

/// Whether a body holds one of the two cache markers.
pub fn has_cache_marker(body: &str) -> (r: bool)
    ensures
        r == body_marked(Some(body@)),
{
    str_contains(body, "served from cache") || str_contains(body, "X-Cache: HIT")
}

/// The caching signals of a response.
pub fn inspect(configured: &Vec<String>, response: &HttpResponse) -> (found: Headers)
    ensures
        found.wf(),
        found@ == signals(views(configured@), response@),
{
    let ghost names = views(configured@);
    let ghost listed = response@.headers;
    let mut found = Headers::new();
    let mut i: usize = 0;
    while i < configured.len()
        invariant
            i <= configured.len(),
            names == views(configured@),
            listed == pair_views(response.headers@),
            found.wf(),
            found@ == header_signals(names, listed, i as int),
        decreases configured.len() - i,
    {
        match first_value(&response.headers, &configured[i]) {
            Some(value) => {
                found.insert(configured[i].clone(), value);
                assert(found@ =~= header_signals(names, listed, i + 1)) by {
                    lemma_take_contains(names, i as int);
                }
            },
            None => {
                assert(found@ =~= header_signals(names, listed, i + 1)) by {
                    lemma_take_contains(names, i as int);
                }
            },
        }
        i += 1;
    }
    assert(names.take(i as int) =~= names);
    let marked = match &response.body {
        Some(text) => has_cache_marker(text.as_str()),
        None => false,
    };
    if marked {
        found.insert(String::from_str("Body-Cache-Indicator"), String::from_str("Detected"));
    }
    found
}

/// The finding of a probe that got a response: a record of the signals, or
/// nothing where there is no signal.
pub open spec fn finding(
    url: Seq<char>,
    method: Seq<char>,
    configured: Seq<Seq<char>>,
    response: ResponseView,
) -> Option<CacheInfoView> {
    let found = signals(configured, response);
    if found =~= Map::<Seq<char>, Seq<char>>::empty() {
        None
    } else {
        Some(CacheInfoView { url, headers: found, method })
    }
}

/// Where a probe stands.
#[derive(Clone, Copy, Debug, PartialEq, Eq, Structural)]
pub enum Phase {
    /// An attempt is under way and waits for the lookup of the host.
    Resolving,
    /// An attempt is under way and waits for what comes of its request.
    Requesting,
    /// The lookup failed; the probe pauses before the next attempt.
    DnsFailed,
    /// The request failed; the probe pauses before the next attempt.
    RequestFailed,
    /// The request timed out; the probe pauses before the next attempt.
    TimedOut,
    /// A response came. The probe is over.
    Succeeded,
    /// The last attempt failed. The probe is over, without a finding.
    Exhausted,
}

/// The part of a probe that changes from step to step.
#[derive(Clone, Copy, Debug, PartialEq, Eq, Structural)]
pub struct ProbeState {
    pub phase: Phase,
    /// The index of the current attempt, counted from 0.
    pub attempt: usize,
    /// The pause that follows the next failed lookup, in milliseconds.
    pub dns_backoff_ms: u64,
}

/// What a probe was set up with.
pub struct ProbeSettings {
    pub url: Seq<char>,
    pub method: Seq<char>,
    pub timeout: u64,
    pub retries: usize,
    pub headers: Seq<Seq<char>>,
}

/// What happened to the action that a probe asked for last.
#[derive(Debug)]
pub enum ProbeEvent {
    /// The lookup of the host gave an address.
    DnsResolved,
    /// The lookup of the host failed.
    DnsFailed,
    /// The request was answered.
    Responded(HttpResponse),
    /// The request failed before an answer came.
    RequestFailed,
    /// No answer came within the timeout.
    TimedOut,
    /// The pause is over.
    Slept,
}

/// An event as plain text.
pub enum EventView {
    DnsResolved,
    DnsFailed,
    Responded(ResponseView),
    RequestFailed,
    TimedOut,
    Slept,
}

impl View for ProbeEvent {
    type V = EventView;

    open spec fn view(&self) -> EventView {
        match self {
            ProbeEvent::DnsResolved => EventView::DnsResolved,
            ProbeEvent::DnsFailed => EventView::DnsFailed,
            ProbeEvent::Responded(response) => EventView::Responded(response@),
            ProbeEvent::RequestFailed => EventView::RequestFailed,
            ProbeEvent::TimedOut => EventView::TimedOut,
            ProbeEvent::Slept => EventView::Slept,
        }
    }
}

/// What the caller is to do next.
#[derive(Debug)]
pub enum ProbeAction {
    /// Look up the address of `host`.
    Resolve { host: String },
    /// Send one request with `method`, and give up after `timeout` seconds.
    Send { method: Method, timeout: u64 },
    /// Wait for `millis` milliseconds.
    Sleep { millis: u64 },
    /// The probe is over, with this finding.
    Finish { result: Option<CacheInfo> },
}

/// An action as plain text.
pub enum ActionView {
    Resolve { host: Seq<char> },
    Send { method: Method, timeout: u64 },
    Sleep { millis: u64 },
    Finish { result: Option<CacheInfoView> },
}

impl View for ProbeAction {
    type V = ActionView;

    open spec fn view(&self) -> ActionView {
        match self {
            ProbeAction::Resolve { host } => ActionView::Resolve { host: host@ },
            ProbeAction::Send { method, timeout } => ActionView::Send {
                method: *method,
                timeout: *timeout,
            },
            ProbeAction::Sleep { millis } => ActionView::Sleep { millis: *millis },
            ProbeAction::Finish { result } => ActionView::Finish {
                result: match result {
                    Some(info) => Some(info@),
                    None => None,
                },
            },
        }
    }
}

/// Why a step was refused. A refused step leaves the probe as it was.
#[derive(Clone, Copy, Debug, PartialEq, Eq, Structural)]
pub enum ProbeError {
    /// The event is none that the probe waits for.
    Unexpected,
    /// The doubled pause after a failed lookup no longer fits 64 bits.
    BackoffOverflow,
}

/// What a step gives back, as plain text.
pub open spec fn outcome_view(outcome: Result<ProbeAction, ProbeError>) -> Result<
    ActionView,
    ProbeError,
> {
    match outcome {
        Ok(action) => Ok(action@),
        Err(e) => Err(e),
    }
}

/// The state in which every probe begins: the first attempt waits for its
/// lookup.
pub open spec fn initial_state() -> ProbeState {
    ProbeState { phase: Phase::Resolving, attempt: 0, dns_backoff_ms: FIRST_DNS_BACKOFF_MS }
}

/// Whether the probe pauses between two attempts.
pub open spec fn is_pause(phase: Phase) -> bool {
    phase == Phase::DnsFailed || phase == Phase::RequestFailed || phase == Phase::TimedOut
}

/// Whether the probe is over.
pub open spec fn is_over(phase: Phase) -> bool {
    phase == Phase::Succeeded || phase == Phase::Exhausted
}

/// The action that begins an attempt.
pub open spec fn resolve_action(settings: ProbeSettings) -> ActionView {
    ActionView::Resolve { host: host_of(settings.url) }
}

/// The step after a failure: a pause of `millis` milliseconds in phase
/// `pause` where a retry is left, the end of the probe where none is.
pub open spec fn after_failure(
    settings: ProbeSettings,
    state: ProbeState,
    pause: Phase,
    millis: u64,
) -> (ProbeState, Result<ActionView, ProbeError>) {
    if state.attempt < settings.retries {
        (
            ProbeState {
                phase: pause,
                attempt: state.attempt,
                dns_backoff_ms: state.dns_backoff_ms,
            },
            Ok(ActionView::Sleep { millis }),
        )
    } else {
        (
            ProbeState {
                phase: Phase::Exhausted,
                attempt: state.attempt,
                dns_backoff_ms: state.dns_backoff_ms,
            },
            Ok(ActionView::Finish { result: None }),
        )
    }
}

/// The step after a pause: the next attempt begins. `backoff` is the pause
/// that the next failed lookup will be followed by.
pub open spec fn next_attempt(settings: ProbeSettings, state: ProbeState, backoff: u64) -> (
    ProbeState,
    Result<ActionView, ProbeError>,
) {
    (
        ProbeState {
            phase: Phase::Resolving,
            attempt: (state.attempt + 1) as usize,
            dns_backoff_ms: backoff,
        },
        Ok(resolve_action(settings)),
    )
}

/// One step of a probe: the state after `event`, and the action to take or
/// the reason why the event was refused. `jitter` is the pause that follows
/// a failed or timed-out request.
///
/// A failed lookup is followed by the current backoff, which doubles when
/// that pause is over. A failed or timed-out request is followed by `jitter`
/// and leaves the backoff as it is. A response ends the probe at once.
pub open spec fn next(settings: ProbeSettings, state: ProbeState, event: EventView, jitter: u64) -> (
    ProbeState,
    Result<ActionView, ProbeError>,
) {
    match (state.phase, event) {
        (Phase::Resolving, EventView::DnsResolved) => (
            ProbeState {
                phase: Phase::Requesting,
                attempt: state.attempt,
                dns_backoff_ms: state.dns_backoff_ms,
            },
            Ok(
                ActionView::Send {
                    method: method_named(settings.method),
                    timeout: settings.timeout,
                },
            ),
        ),
        (Phase::Resolving, EventView::DnsFailed) => after_failure(
            settings,
            state,
            Phase::DnsFailed,
            state.dns_backoff_ms,
        ),
        (Phase::Requesting, EventView::Responded(response)) => (
            ProbeState {
                phase: Phase::Succeeded,
                attempt: state.attempt,
                dns_backoff_ms: state.dns_backoff_ms,
            },
            Ok(
                ActionView::Finish {
                    result: finding(settings.url, settings.method, settings.headers, response),
                },
            ),
        ),
        (Phase::Requesting, EventView::RequestFailed) => after_failure(
            settings,
            state,
            Phase::RequestFailed,
            jitter,
        ),
        (Phase::Requesting, EventView::TimedOut) => after_failure(
            settings,
            state,
            Phase::TimedOut,
            jitter,
        ),
        (Phase::DnsFailed, EventView::Slept) => if 2 * state.dns_backoff_ms <= u64::MAX {
            next_attempt(settings, state, (2 * state.dns_backoff_ms) as u64)
        } else {
            (state, Err(ProbeError::BackoffOverflow))
        },
        (Phase::RequestFailed, EventView::Slept) => next_attempt(
            settings,
            state,
            state.dns_backoff_ms,
        ),
        (Phase::TimedOut, EventView::Slept) => next_attempt(settings, state, state.dns_backoff_ms),
        _ => (state, Err(ProbeError::Unexpected)),
    }
}

/// The probe of one URL: its settings and where it stands.
pub struct Probe {
    url: String,
    method: String,
    timeout: u64,
    retries: usize,
    headers: Vec<String>,
    state: ProbeState,
}

impl Probe {
    #[verifier::type_invariant]
    spec fn attempts_in_bounds(&self) -> bool {
        &&& self.state.attempt <= self.retries
        &&& is_pause(self.state.phase) ==> self.state.attempt < self.retries
    }

    /// What the probe was set up with.
    pub closed spec fn settings(&self) -> ProbeSettings {
        ProbeSettings {
            url: self.url@,
            method: self.method@,
            timeout: self.timeout,
            retries: self.retries,
            headers: views(self.headers@),
        }
    }

    /// Where the probe stands.
    pub closed spec fn state(&self) -> ProbeState {
        self.state
    }

    /// The URL under probe.
    pub fn url(&self) -> (url: &String)
        ensures
            url@ == self.settings().url,
    {
        &self.url
    }

    /// Where the probe stands. No attempt has an index above the number of
    /// retries, and a pause is only made where a retry is left.
    pub fn current(&self) -> (state: ProbeState)
        ensures
            state == self.state(),
            state.attempt <= self.settings().retries,
            is_pause(state.phase) ==> state.attempt < self.settings().retries,
    {
        proof {
            use_type_invariant(self);
        }
        self.state
    }

    /// Whether the probe is over.
    pub fn is_finished(&self) -> (over: bool)
        ensures
            over == is_over(self.state().phase),
    {
        self.state.phase == Phase::Succeeded || self.state.phase == Phase::Exhausted
    }

    /// Moves on after a failed attempt: to a pause of `millis` milliseconds
    /// where a retry is left, to the end of the probe where none is.
    fn retry_or_give_up(&mut self, pause: Phase, millis: u64) -> (action: ProbeAction)
        requires
            is_pause(pause),
        ensures
            final(self).settings() == old(self).settings(),
            (final(self).state(), Ok::<ActionView, ProbeError>(action@)) == after_failure(
                old(self).settings(),
                old(self).state(),
                pause,
                millis,
            ),
    {
        proof {
            use_type_invariant(&*self);
        }
        let state = self.state;
        if state.attempt < self.retries {
            self.state =
            ProbeState {
                phase: pause,
                attempt: state.attempt,
                dns_backoff_ms: state.dns_backoff_ms,
            };
            ProbeAction::Sleep { millis }
        } else {
            self.state =
            ProbeState {
                phase: Phase::Exhausted,
                attempt: state.attempt,
                dns_backoff_ms: state.dns_backoff_ms,
            };
            ProbeAction::Finish { result: None }
        }
    }

    /// Moves on after a pause: to the lookup of the next attempt.
    fn begin_next_attempt(&mut self, backoff: u64) -> (action: ProbeAction)
        requires
            is_pause(old(self).state().phase),
        ensures
            final(self).settings() == old(self).settings(),
            (final(self).state(), Ok::<ActionView, ProbeError>(action@)) == next_attempt(
                old(self).settings(),
                old(self).state(),
                backoff,
            ),
    {
        proof {
            use_type_invariant(&*self);
        }
        let state = self.state;
        self.state =
        ProbeState { phase: Phase::Resolving, attempt: state.attempt + 1, dns_backoff_ms: backoff };
        ProbeAction::Resolve { host: host(self.url.as_str()) }
    }

    /// One step of the probe, with the pause to make after a failed or
    /// timed-out request given by the caller.
    pub fn step_with(&mut self, event: ProbeEvent, jitter_ms: u64) -> (outcome: Result<
        ProbeAction,
        ProbeError,
    >)
        ensures
            final(self).settings() == old(self).settings(),
            (final(self).state(), outcome_view(outcome)) == next(
                old(self).settings(),
                old(self).state(),
                event@,
                jitter_ms,
            ),
            outcome matches Ok(ProbeAction::Finish { result: Some(info) }) ==> info.headers.wf(),
    {
        proof {
            use_type_invariant(&*self);
        }
        let state = self.state;
        match event {
            ProbeEvent::DnsResolved => {
                if state.phase == Phase::Resolving {
                    self.state =
                    ProbeState {
                        phase: Phase::Requesting,
                        attempt: state.attempt,
                        dns_backoff_ms: state.dns_backoff_ms,
                    };
                    Ok(
                        ProbeAction::Send {
                            method: request_method(self.method.as_str()),
                            timeout: self.timeout,
                        },
                    )
                } else {
                    Err(ProbeError::Unexpected)
                }
            },
            ProbeEvent::DnsFailed => {
                if state.phase == Phase::Resolving {
                    Ok(self.retry_or_give_up(Phase::DnsFailed, state.dns_backoff_ms))
                } else {
                    Err(ProbeError::Unexpected)
                }
            },
            ProbeEvent::Responded(response) => {
                if state.phase == Phase::Requesting {
                    let found = inspect(&self.headers, &response);
                    self.state =
                    ProbeState {
                        phase: Phase::Succeeded,
                        attempt: state.attempt,
                        dns_backoff_ms: state.dns_backoff_ms,
                    };
                    if found.is_empty() {
                        Ok(ProbeAction::Finish { result: None })
                    } else {
                        Ok(
                            ProbeAction::Finish {
                                result: Some(
                                    CacheInfo {
                                        url: self.url.clone(),
                                        headers: found,
                                        method: self.method.clone(),
                                    },
                                ),
                            },
                        )
                    }
                } else {
                    Err(ProbeError::Unexpected)
                }
            },
            ProbeEvent::RequestFailed => {
                if state.phase == Phase::Requesting {
                    Ok(self.retry_or_give_up(Phase::RequestFailed, jitter_ms))
                } else {
                    Err(ProbeError::Unexpected)
                }
            },
            ProbeEvent::TimedOut => {
                if state.phase == Phase::Requesting {
                    Ok(self.retry_or_give_up(Phase::TimedOut, jitter_ms))
                } else {
                    Err(ProbeError::Unexpected)
                }
            },
            ProbeEvent::Slept => {
                if state.phase == Phase::DnsFailed {
                    if state.dns_backoff_ms <= u64::MAX / 2 {
                        Ok(self.begin_next_attempt(2 * state.dns_backoff_ms))
                    } else {
                        Err(ProbeError::BackoffOverflow)
                    }
                } else if state.phase == Phase::RequestFailed || state.phase == Phase::TimedOut {
                    Ok(self.begin_next_attempt(state.dns_backoff_ms))
                } else {
                    Err(ProbeError::Unexpected)
                }
            },
        }
    }

    /// Whether the next step draws a pause at random: a request failed or
    /// timed out, and a retry is left.
    fn draws_jitter(&self, event: &ProbeEvent) -> (draws: bool)
        ensures
            draws == (self.state().phase == Phase::Requesting && self.state().attempt
                < self.settings().retries && (event@ == EventView::RequestFailed || event@
                == EventView::TimedOut)),
    {
        let failed = match event {
            ProbeEvent::RequestFailed => true,
            ProbeEvent::TimedOut => true,
            _ => false,
        };
        failed && self.state.phase == Phase::Requesting && self.state.attempt < self.retries
    }

    /// One step of the probe. The pause after a failed or timed-out request
    /// is drawn from `rng`, and is at least 1000 and less than 5000
    /// milliseconds.
    pub fn step(&mut self, event: ProbeEvent, rng: &mut StdRng) -> (outcome: Result<
        ProbeAction,
        ProbeError,
    >)
        ensures
            final(self).settings() == old(self).settings(),
            exists|jitter: u64|
                is_jitter(jitter as int) && (final(self).state(), outcome_view(outcome)) == #[trigger] next(
                    old(self).settings(),
                    old(self).state(),
                    event@,
                    jitter,
                ),
            outcome matches Ok(ProbeAction::Finish { result: Some(info) }) ==> info.headers.wf(),
    {
        let jitter = if self.draws_jitter(&event) {
            jitter_delay(rng)
        } else {
            crate::jitter::JITTER_MIN_MS
        };
        self.step_with(event, jitter)
    }
}

/// Begins the probe of `url`: the probe in its first state, and its first
/// action, the lookup of the host.
pub fn check_cache_headers(
    url: &str,
    method: &str,
    timeout: u64,
    retries: usize,
    headers: Vec<String>,
) -> (started: (Probe, ProbeAction))
    ensures
        started.0.settings() == (ProbeSettings {
            url: url@,
            method: method@,
            timeout,
            retries,
            headers: views(headers@),
        }),
        started.0.state() == initial_state(),
        started.1@ == resolve_action(started.0.settings()),
{
    let probe = Probe {
        url: String::from_str(url),
        method: String::from_str(method),
        timeout,
        retries,
        headers,
        state: ProbeState {
            phase: Phase::Resolving,
            attempt: 0,
            dns_backoff_ms: FIRST_DNS_BACKOFF_MS,
        },
    };
    let first = ProbeAction::Resolve { host: host(url) };
    (probe, first)
}

/// A finding records a name exactly where the name is configured and the
/// response lists a header of that very name, or where the name is
/// `Body-Cache-Indicator` and the body holds a marker. The value recorded is
/// `Detected` for a marker, and else the value of the first header of that
/// name.
pub proof fn law_signal_recorded(configured: Seq<Seq<char>>, response: ResponseView, name: Seq<char>)
    ensures
        signals(configured, response).contains_key(name) <==> (configured.contains(name) && exists|
            i: int,
        |
            0 <= i < response.headers.len() && #[trigger] response.headers[i].0 == name) || (name
            == body_indicator() && body_marked(response.body)),
        signals(configured, response).contains_key(name) ==> signals(configured, response)[name]
            == (if name == body_indicator() && body_marked(response.body) {
            "Detected"@
        } else {
            response.headers[position(response.headers, name)].1
        }),
{
    crate::headers::lemma_position(response.headers, name);
}

/// A probe that got a response has no finding exactly where the response
/// gives no signal; a finding holds the URL, the method name and every
/// signal.
pub proof fn law_finding(
    url: Seq<char>,
    method: Seq<char>,
    configured: Seq<Seq<char>>,
    response: ResponseView,
)
    ensures
        finding(url, method, configured, response) is None <==> forall|name: Seq<char>|
            !signals(configured, response).contains_key(name),
        finding(url, method, configured, response) matches Some(info) ==> info
            == (CacheInfoView { url, headers: signals(configured, response), method }),
{
    let found = signals(configured, response);
    if found =~= Map::<Seq<char>, Seq<char>>::empty() {
        assert forall|name: Seq<char>| !found.contains_key(name) by {}
    }
}

/// The pause after the failed lookup with index `failures`, in milliseconds:
/// 500 after the first, and twice the one before after each further one.
pub open spec fn dns_backoff(failures: nat) -> nat
    decreases failures,
{
    if failures == 0 {
        FIRST_DNS_BACKOFF_MS as nat
    } else {
        2 * dns_backoff((failures - 1) as nat)
    }
}

/// The pause after the failed lookup with index `failures` is 500
/// milliseconds times two to the power of `failures`. It fits 64 bits up to
/// the index 55 and no further.
pub proof fn law_backoff_doubles(failures: nat)
    ensures
        dns_backoff(failures) == 500 * pow2(failures),
        dns_backoff(failures) <= u64::MAX <==> failures <= 55,
    decreases failures,
{
    lemma2_to64_rest();
    if failures > 0 {
        law_backoff_doubles((failures - 1) as nat);
        lemma_pow2_unfold(failures);
    } else {
        lemma2_to64();
    }
    if failures < 55 {
        lemma_pow2_strictly_increases(failures, 55);
    }
    if failures > 56 {
        lemma_pow2_strictly_increases(56, failures);
    }
}

/// The state of a probe after `rounds` attempts whose lookup failed, each
/// followed by its pause.
pub open spec fn after_failed_lookups(settings: ProbeSettings, rounds: nat, jitter: u64) -> ProbeState
    decreases rounds,
{
    if rounds == 0 {
        initial_state()
    } else {
        let before = after_failed_lookups(settings, (rounds - 1) as nat, jitter);
        let paused = next(settings, before, EventView::DnsFailed, jitter).0;
        next(settings, paused, EventView::Slept, jitter).0
    }
}

/// Where every lookup fails, a probe with `retries` retries makes
/// `retries + 1` attempts. The failure of the attempt with index `k` is
/// followed by a pause of `dns_backoff(k)` milliseconds, that is 500, 1000,
/// 2000 and so on, as long as a retry is left; the failure of the last
/// attempt ends the probe without a finding. This holds as far as the pauses
/// fit 64 bits.
pub proof fn law_failed_lookups(settings: ProbeSettings, k: nat, jitter: u64)
    requires
        k <= settings.retries,
        dns_backoff(k) <= u64::MAX,
    ensures
        after_failed_lookups(settings, k, jitter) == (ProbeState {
            phase: Phase::Resolving,
            attempt: k as usize,
            dns_backoff_ms: dns_backoff(k) as u64,
        }),
        k < settings.retries ==> next(
            settings,
            after_failed_lookups(settings, k, jitter),
            EventView::DnsFailed,
            jitter,
        ) == (
            ProbeState {
                phase: Phase::DnsFailed,
                attempt: k as usize,
                dns_backoff_ms: dns_backoff(k) as u64,
            },
            Ok::<ActionView, ProbeError>(ActionView::Sleep { millis: dns_backoff(k) as u64 }),
        ),
        k == settings.retries ==> next(
            settings,
            after_failed_lookups(settings, k, jitter),
            EventView::DnsFailed,
            jitter,
        ) == (
            ProbeState {
                phase: Phase::Exhausted,
                attempt: k as usize,
                dns_backoff_ms: dns_backoff(k) as u64,
            },
            Ok::<ActionView, ProbeError>(ActionView::Finish { result: None }),
        ),
    decreases k,
{
    if k > 0 {
        law_failed_lookups(settings, (k - 1) as nat, jitter);
    }
}

/// A probe that is over refuses every event and stays as it is: no attempt
/// follows the last one.
pub proof fn law_over_is_final(settings: ProbeSettings, state: ProbeState, event: EventView, jitter: u64)
    requires
        is_over(state.phase),
    ensures
        next(settings, state, event, jitter) == (
            state,
            Err::<ActionView, ProbeError>(ProbeError::Unexpected),
        ),
{
}

/// A step never moves a probe to an earlier attempt, and moves it to the
/// next one only at the end of a pause. A failed or timed-out request leaves
/// the backoff of the lookups as it is.
pub proof fn law_attempts_in_order(settings: ProbeSettings, state: ProbeState, event: EventView, jitter: u64)
    requires
        state.attempt <= settings.retries,
        is_pause(state.phase) ==> state.attempt < settings.retries,
    ensures
        ({
            let after = next(settings, state, event, jitter).0;
            &&& after.attempt == state.attempt || (after.attempt == state.attempt + 1 && is_pause(
                state.phase,
            ) && event == EventView::Slept)
            &&& after.attempt <= settings.retries
            &&& is_pause(after.phase) ==> after.attempt < settings.retries
            &&& state.phase != Phase::DnsFailed ==> after.dns_backoff_ms == state.dns_backoff_ms
        }),
{
}

} // verus!
