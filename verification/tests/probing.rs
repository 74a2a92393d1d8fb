use cache_scraper::cache_checker::{
    check_cache_headers, HttpResponse, Phase, Probe, ProbeAction, ProbeError, ProbeEvent,
    ProbeState,
};
use cache_scraper::config::Method;
use cache_scraper::jitter::jitter_delay;
use rand::rngs::StdRng;
use rand::SeedableRng;

fn s(text: &str) -> String {
    String::from(text)
}

fn start(retries: usize) -> Probe {
    let (probe, first) =
        check_cache_headers("https://example.com/x", "GET", 20, retries, vec![s("Cache-Control")]);
    match first {
        ProbeAction::Resolve { host } => assert_eq!(host, "example.com"),
        other => panic!("first action was {:?}", other),
    }
    probe
}

fn state(phase: Phase, attempt: usize, dns_backoff_ms: u64) -> ProbeState {
    ProbeState { phase, attempt, dns_backoff_ms }
}

fn sleep_of(action: Result<ProbeAction, ProbeError>) -> u64 {
    match action {
        Ok(ProbeAction::Sleep { millis }) => millis,
        other => panic!("expected a pause, got {:?}", other),
    }
}

fn expect_resolve(action: Result<ProbeAction, ProbeError>, expected: &str) {
    match action {
        Ok(ProbeAction::Resolve { host }) => assert_eq!(host, expected),
        other => panic!("expected a lookup, got {:?}", other),
    }
}

fn expect_no_finding(action: Result<ProbeAction, ProbeError>) {
    match action {
        Ok(ProbeAction::Finish { result: None }) => {}
        other => panic!("expected the end without a finding, got {:?}", other),
    }
}

fn expect_refused(action: Result<ProbeAction, ProbeError>, expected: ProbeError) {
    match action {
        Err(e) => assert_eq!(e, expected),
        Ok(other) => panic!("expected a refusal, got {:?}", other),
    }
}

#[test]
fn check_begins_with_the_first_attempt() {
    let probe = start(3);
    assert_eq!(probe.current(), state(Phase::Resolving, 0, 500));
    assert_eq!(probe.url(), "https://example.com/x");
    assert!(!probe.is_finished());
}

#[test]
fn failing_lookups_double_the_pause_until_retries_run_out() {
    let mut probe = start(3);
    let mut pauses = Vec::new();
    let mut lookups = 1;
    for attempt in 0..3 {
        assert_eq!(probe.current().attempt, attempt);
        pauses.push(sleep_of(probe.step_with(ProbeEvent::DnsFailed, 1234)));
        assert_eq!(probe.current().phase, Phase::DnsFailed);
        expect_resolve(probe.step_with(ProbeEvent::Slept, 1234), "example.com");
        lookups += 1;
    }
    assert_eq!(pauses, vec![500, 1000, 2000]);
    assert_eq!(probe.current(), state(Phase::Resolving, 3, 4000));
    expect_no_finding(probe.step_with(ProbeEvent::DnsFailed, 1234));
    assert_eq!(lookups, 4);
    assert_eq!(probe.current(), state(Phase::Exhausted, 3, 4000));
    assert!(probe.is_finished());
}

#[test]
fn no_retries_means_one_attempt() {
    let mut probe = start(0);
    expect_no_finding(probe.step_with(ProbeEvent::DnsFailed, 1000));
    assert_eq!(probe.current(), state(Phase::Exhausted, 0, 500));
    let mut probe = start(0);
    assert!(matches!(
        probe.step_with(ProbeEvent::DnsResolved, 1000),
        Ok(ProbeAction::Send { method: Method::Get, timeout: 20 })
    ));
    expect_no_finding(probe.step_with(ProbeEvent::TimedOut, 1000));
    assert_eq!(probe.current().phase, Phase::Exhausted);
}

#[test]
fn failed_request_is_followed_by_the_given_pause() {
    let mut probe = start(2);
    assert!(matches!(
        probe.step_with(ProbeEvent::DnsResolved, 4321),
        Ok(ProbeAction::Send { method: Method::Get, timeout: 20 })
    ));
    assert_eq!(probe.current(), state(Phase::Requesting, 0, 500));
    assert_eq!(sleep_of(probe.step_with(ProbeEvent::RequestFailed, 4321)), 4321);
    assert_eq!(probe.current(), state(Phase::RequestFailed, 0, 500));
    expect_resolve(probe.step_with(ProbeEvent::Slept, 4321), "example.com");
    assert_eq!(probe.current(), state(Phase::Resolving, 1, 500));
    probe.step_with(ProbeEvent::DnsResolved, 1).unwrap();
    assert_eq!(sleep_of(probe.step_with(ProbeEvent::TimedOut, 2222)), 2222);
    assert_eq!(probe.current(), state(Phase::TimedOut, 1, 500));
    expect_resolve(probe.step_with(ProbeEvent::Slept, 1), "example.com");
    probe.step_with(ProbeEvent::DnsResolved, 1).unwrap();
    expect_no_finding(probe.step_with(ProbeEvent::RequestFailed, 1));
    assert_eq!(probe.current(), state(Phase::Exhausted, 2, 500));
}

#[test]
fn lookup_backoff_and_request_pause_keep_apart() {
    let mut probe = start(5);
    assert_eq!(sleep_of(probe.step_with(ProbeEvent::DnsFailed, 3000)), 500);
    probe.step_with(ProbeEvent::Slept, 3000).unwrap();
    probe.step_with(ProbeEvent::DnsResolved, 3000).unwrap();
    assert_eq!(sleep_of(probe.step_with(ProbeEvent::RequestFailed, 3000)), 3000);
    probe.step_with(ProbeEvent::Slept, 3000).unwrap();
    assert_eq!(probe.current(), state(Phase::Resolving, 2, 1000));
    assert_eq!(sleep_of(probe.step_with(ProbeEvent::DnsFailed, 3000)), 1000);
    probe.step_with(ProbeEvent::Slept, 3000).unwrap();
    assert_eq!(probe.current(), state(Phase::Resolving, 3, 2000));
}

#[test]
fn drawn_pause_is_between_one_and_five_seconds() {
    let mut rng = StdRng::seed_from_u64(7);
    let mut seen = Vec::new();
    for _ in 0..200 {
        let mut probe = start(1);
        probe.step(ProbeEvent::DnsResolved, &mut rng).unwrap();
        let pause = sleep_of(probe.step(ProbeEvent::TimedOut, &mut rng));
        assert!((1000..5000).contains(&pause));
        seen.push(pause);
    }
    seen.sort();
    seen.dedup();
    assert!(seen.len() > 100);
}

#[test]
fn jitter_delay_stays_in_range_and_varies() {
    let mut rng = StdRng::seed_from_u64(1);
    let draws: Vec<u64> = (0..500).map(|_| jitter_delay(&mut rng)).collect();
    assert!(draws.iter().all(|d| (1000..5000).contains(d)));
    assert!(draws.iter().any(|d| *d != 1000));
    assert!(draws.iter().any(|d| *d != draws[0]));
    assert!(draws.iter().any(|d| *d >= 3000));
    assert!(draws.iter().any(|d| *d < 3000));
}

#[test]
fn step_draws_nothing_for_a_failed_lookup() {
    let mut rng = StdRng::seed_from_u64(3);
    let mut probe = start(2);
    assert_eq!(sleep_of(probe.step(ProbeEvent::DnsFailed, &mut rng)), 500);
    expect_resolve(probe.step(ProbeEvent::Slept, &mut rng), "example.com");
    assert_eq!(sleep_of(probe.step(ProbeEvent::DnsFailed, &mut rng)), 1000);
}

#[test]
fn response_with_a_signal_ends_the_check_with_a_finding() {
    let (mut probe, _) = check_cache_headers(
        "http://cache.example/",
        "POST",
        9,
        3,
        vec![s("Cache-Control"), s("Age")],
    );
    assert!(matches!(
        probe.step_with(ProbeEvent::DnsResolved, 1000),
        Ok(ProbeAction::Send { method: Method::Post, timeout: 9 })
    ));
    let response = HttpResponse {
        headers: vec![(s("Cache-Control"), s("no-cache")), (s("Server"), s("x"))],
        body: Some(s("hello")),
    };
    match probe.step_with(ProbeEvent::Responded(response), 1000) {
        Ok(ProbeAction::Finish { result: Some(info) }) => {
            assert_eq!(info.url, "http://cache.example/");
            assert_eq!(info.method, "POST");
            assert_eq!(info.headers.entries(), &vec![(s("Cache-Control"), s("no-cache"))]);
        }
        other => panic!("expected a finding, got {:?}", other),
    }
    assert_eq!(probe.current(), state(Phase::Succeeded, 0, 500));
    assert!(probe.is_finished());
}

#[test]
fn response_without_a_signal_ends_the_check_without_a_finding() {
    let mut probe = start(3);
    probe.step_with(ProbeEvent::DnsResolved, 1000).unwrap();
    let response = HttpResponse { headers: vec![(s("Server"), s("x"))], body: Some(s("hello")) };
    expect_no_finding(probe.step_with(ProbeEvent::Responded(response), 1000));
    assert_eq!(probe.current().phase, Phase::Succeeded);
}

#[test]
fn unknown_method_name_sends_get_and_is_recorded_as_given() {
    let (mut probe, _) = check_cache_headers("http://h/", "PUT", 1, 0, vec![s("Age")]);
    assert!(matches!(
        probe.step_with(ProbeEvent::DnsResolved, 1000),
        Ok(ProbeAction::Send { method: Method::Get, timeout: 1 })
    ));
    let response = HttpResponse { headers: vec![(s("Age"), s("1"))], body: None };
    match probe.step_with(ProbeEvent::Responded(response), 1000) {
        Ok(ProbeAction::Finish { result: Some(info) }) => assert_eq!(info.method, "PUT"),
        other => panic!("expected a finding, got {:?}", other),
    }
}

#[test]
fn success_after_a_retry() {
    let mut probe = start(1);
    probe.step_with(ProbeEvent::DnsFailed, 1000).unwrap();
    probe.step_with(ProbeEvent::Slept, 1000).unwrap();
    probe.step_with(ProbeEvent::DnsResolved, 1000).unwrap();
    let response = HttpResponse { headers: vec![], body: Some(s("X-Cache: HIT")) };
    match probe.step_with(ProbeEvent::Responded(response), 1000) {
        Ok(ProbeAction::Finish { result: Some(info) }) => {
            assert_eq!(info.headers.entries(), &vec![(s("Body-Cache-Indicator"), s("Detected"))]);
        }
        other => panic!("expected a finding, got {:?}", other),
    }
    assert_eq!(probe.current(), state(Phase::Succeeded, 1, 1000));
}

#[test]
fn events_out_of_turn_are_refused() {
    let mut probe = start(3);
    let before = probe.current();
    expect_refused(probe.step_with(ProbeEvent::Slept, 1000), ProbeError::Unexpected);
    expect_refused(probe.step_with(ProbeEvent::TimedOut, 1000), ProbeError::Unexpected);
    expect_refused(probe.step_with(ProbeEvent::RequestFailed, 1000), ProbeError::Unexpected);
    let response = HttpResponse { headers: vec![], body: None };
    expect_refused(probe.step_with(ProbeEvent::Responded(response), 1000), ProbeError::Unexpected);
    assert_eq!(probe.current(), before);
    probe.step_with(ProbeEvent::DnsResolved, 1000).unwrap();
    let before = probe.current();
    expect_refused(probe.step_with(ProbeEvent::DnsResolved, 1000), ProbeError::Unexpected);
    expect_refused(probe.step_with(ProbeEvent::DnsFailed, 1000), ProbeError::Unexpected);
    expect_refused(probe.step_with(ProbeEvent::Slept, 1000), ProbeError::Unexpected);
    assert_eq!(probe.current(), before);
    probe.step_with(ProbeEvent::RequestFailed, 1000).unwrap();
    let before = probe.current();
    expect_refused(probe.step_with(ProbeEvent::DnsFailed, 1000), ProbeError::Unexpected);
    expect_refused(probe.step_with(ProbeEvent::TimedOut, 1000), ProbeError::Unexpected);
    assert_eq!(probe.current(), before);
}

#[test]
fn finished_check_refuses_every_event() {
    let mut probe = start(0);
    probe.step_with(ProbeEvent::DnsFailed, 1000).unwrap();
    let before = probe.current();
    for event in [
        ProbeEvent::DnsResolved,
        ProbeEvent::DnsFailed,
        ProbeEvent::RequestFailed,
        ProbeEvent::TimedOut,
        ProbeEvent::Slept,
        ProbeEvent::Responded(HttpResponse { headers: vec![], body: None }),
    ] {
        expect_refused(probe.step_with(event, 1000), ProbeError::Unexpected);
    }
    assert_eq!(probe.current(), before);
}

#[test]
fn backoff_that_no_longer_fits_is_refused() {
    let mut probe = start(100);
    let mut expected: u64 = 500;
    for attempt in 0..55 {
        assert_eq!(probe.current(), state(Phase::Resolving, attempt, expected));
        assert_eq!(sleep_of(probe.step_with(ProbeEvent::DnsFailed, 1000)), expected);
        probe.step_with(ProbeEvent::Slept, 1000).unwrap();
        expected *= 2;
    }
    assert_eq!(expected, 500 * (1u64 << 55));
    assert_eq!(sleep_of(probe.step_with(ProbeEvent::DnsFailed, 1000)), expected);
    let before = probe.current();
    assert_eq!(before, state(Phase::DnsFailed, 55, expected));
    expect_refused(probe.step_with(ProbeEvent::Slept, 1000), ProbeError::BackoffOverflow);
    assert_eq!(probe.current(), before);
}
