use sidecar_supervisor::readiness::{
    client_settings, status_is_ready, timeout_ms_of_secs, ClientSettings, ProbeAction, ProbeEvent,
    ProbeStage, ReadinessProbe,
    HTTP_POLL_INTERVAL_MS, SERVER_READY_TIMEOUT_SECS, SERVER_RESTART_TIMEOUT_SECS,
};
use sidecar_supervisor::spawn::{Environment, SupervisorConfig};

const START: u64 = 90_000;

/// Runs a wait against a server that answers `status` from `ready_from` on
/// and refuses connections before, on the even schedule. Gives the outcome,
/// the time at the end, and the times at which requests were sent.
fn simulate(timeout_ms: u64, ready_from: Option<u64>, status: u16) -> (bool, u64, Vec<u64>) {
    let mut now = START;
    let mut sent = Vec::new();
    let (mut probe, mut action) =
        ReadinessProbe::begin("http://127.0.0.1:8080".to_string(), timeout_ms, true, now);
    loop {
        let event = match action {
            ProbeAction::Get => {
                sent.push(now - START);
                let answer = match ready_from {
                    Some(t) if now - START >= t => Some(status),
                    _ => None,
                };
                ProbeEvent::Response { status: answer }
            }
            ProbeAction::Sleep { ms } => {
                assert_eq!(ms, 250);
                now += ms;
                ProbeEvent::Completed
            }
            ProbeAction::Finished { ready } => return (ready, now - START, sent),
        };
        action = probe.advance(event, now);
    }
}

#[test]
fn readiness_constants() {
    assert_eq!(HTTP_POLL_INTERVAL_MS, 250);
    assert_eq!(SERVER_READY_TIMEOUT_SECS, 20);
    assert_eq!(SERVER_RESTART_TIMEOUT_SECS, 15);
    assert_eq!(timeout_ms_of_secs(20), 20_000);
    assert_eq!(timeout_ms_of_secs(0), 0);
    assert_eq!(timeout_ms_of_secs(u64::MAX), u64::MAX);
    assert_eq!(timeout_ms_of_secs(u64::MAX / 1000), u64::MAX / 1000 * 1000);
    assert_eq!(timeout_ms_of_secs(u64::MAX / 1000 + 1), u64::MAX);
}

#[test]
fn loopback_client_accepts_any_certificate() {
    assert_eq!(client_settings(), ClientSettings { accept_invalid_certs: true });
}

#[test]
fn statuses_below_500_show_the_server_ready() {
    for code in [100u16, 200, 204, 301, 302, 401, 403, 404, 418, 499] {
        assert!(status_is_ready(code), "{}", code);
    }
    for code in [500u16, 501, 502, 503, 504, 599, 999, u16::MAX] {
        assert!(!status_is_ready(code), "{}", code);
    }
    assert!(status_is_ready(0));
}

#[test]
fn default_launch_is_polled_until_the_server_answers() {
    let config = SupervisorConfig::resolve(vec![], &Environment::new());
    assert_eq!(config.host, "127.0.0.1");
    assert_eq!(config.port, 8080);
    assert_eq!(config.base_path, None);
    let url = config.url();
    assert_eq!(url, "http://127.0.0.1:8080");

    let timeout = timeout_ms_of_secs(SERVER_READY_TIMEOUT_SECS);
    let (probe, first) = ReadinessProbe::begin(url, timeout, true, START);
    assert_eq!(probe.url(), "http://127.0.0.1:8080");
    assert_eq!(first, ProbeAction::Get);

    // The child begins to answer with 200 at 1.1 s.
    let (ready, end, sent) = simulate(timeout, Some(1_100), 200);
    assert!(ready);
    assert_eq!(sent, vec![0, 250, 500, 750, 1000, 1250]);
    assert_eq!(end, 1_250);
    assert!(end - 1_100 < 250);
}

#[test]
fn server_that_answers_at_once_is_ready_at_once() {
    assert_eq!(simulate(20_000, Some(0), 200), (true, 0, vec![0]));
    assert_eq!(simulate(20_000, Some(0), 404), (true, 0, vec![0]));
    assert_eq!(simulate(1, Some(0), 200), (true, 0, vec![0]));
}

#[test]
fn ready_is_reported_within_one_interval_of_the_first_answer() {
    for ready_from in [1u64, 249, 250, 251, 1_000, 5_555, 19_500, 19_750] {
        let (ready, end, _) = simulate(20_000, Some(ready_from), 200);
        assert!(ready, "{}", ready_from);
        assert!(end >= ready_from);
        assert!(end - ready_from < 250, "{}", ready_from);
        assert!(end < 20_000);
    }
}

#[test]
fn server_that_never_answers_times_out() {
    let (ready, end, sent) = simulate(20_000, None, 200);
    assert!(!ready);
    assert_eq!(sent.len(), 80);
    assert_eq!(sent[79], 19_750);
    assert_eq!(end, 20_000);
    let (ready, end, sent) = simulate(15_000, None, 200);
    assert!(!ready);
    assert_eq!(sent.len(), 60);
    assert_eq!(end, 15_000);
}

#[test]
fn timeout_is_noticed_within_one_interval() {
    for timeout in [1u64, 100, 250, 251, 499, 500, 501, 1_234] {
        let (ready, end, sent) = simulate(timeout, None, 200);
        assert!(!ready);
        assert!(end >= timeout);
        assert!(end - timeout < 250, "{}", timeout);
        assert_eq!(sent.len() as u64, (timeout + 249) / 250);
    }
}

#[test]
fn server_errors_are_not_ready() {
    let (ready, end, sent) = simulate(1_000, Some(0), 500);
    assert!(!ready);
    assert_eq!(sent, vec![0, 250, 500, 750]);
    assert_eq!(end, 1_000);
    assert!(!simulate(1_000, Some(0), 503).0);
}

#[test]
fn server_that_answers_after_the_last_request_is_not_seen() {
    let (ready, end, sent) = simulate(20_000, Some(19_999), 200);
    assert!(!ready);
    assert_eq!(sent.len(), 80);
    assert_eq!(end, 20_000);
    assert!(!simulate(20_000, Some(19_751), 200).0);
    assert!(simulate(20_000, Some(19_750), 200).0);
    assert!(!simulate(20_000, Some(20_000), 200).0);
}

#[test]
fn zero_timeout_ends_at_once() {
    assert_eq!(simulate(0, Some(0), 200), (false, 0, vec![]));
}

#[test]
fn without_a_client_the_wait_ends_at_once() {
    let (mut probe, action) = ReadinessProbe::begin("http://h:1".to_string(), 20_000, false, 7);
    assert_eq!(action, ProbeAction::Finished { ready: false });
    assert_eq!(probe.stage, ProbeStage::Done { ready: false });
    assert_eq!(
        probe.advance(ProbeEvent::Response { status: Some(200) }, 8),
        ProbeAction::Finished { ready: false }
    );
}

#[test]
fn finished_wait_stays_finished() {
    let (mut probe, action) = ReadinessProbe::begin("http://h:1".to_string(), 1_000, true, 0);
    assert_eq!(action, ProbeAction::Get);
    assert_eq!(
        probe.advance(ProbeEvent::Response { status: Some(302) }, 3),
        ProbeAction::Finished { ready: true }
    );
    assert_eq!(probe.advance(ProbeEvent::Completed, 4), ProbeAction::Finished { ready: true });
    assert_eq!(
        probe.advance(ProbeEvent::Response { status: None }, 5_000),
        ProbeAction::Finished { ready: true }
    );
}

#[test]
fn request_without_an_outcome_counts_as_failed() {
    let (mut probe, _) = ReadinessProbe::begin("http://h:1".to_string(), 1_000, true, 0);
    assert_eq!(probe.advance(ProbeEvent::Completed, 1), ProbeAction::Sleep { ms: 250 });
    assert_eq!(probe.stage, ProbeStage::Sleeping { issued_at: 1 });
    assert_eq!(probe.advance(ProbeEvent::Completed, 999), ProbeAction::Get);
    assert_eq!(
        probe.advance(ProbeEvent::Response { status: None }, 999),
        ProbeAction::Sleep { ms: 250 }
    );
    assert_eq!(
        probe.advance(ProbeEvent::Completed, 1_000),
        ProbeAction::Finished { ready: false }
    );
}
