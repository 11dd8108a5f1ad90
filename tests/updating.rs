use dyfi_ddns::ipv4::Ipv4Address;
use dyfi_ddns::status::{ClassifyError, DdnsStatus, LogLevel};
use dyfi_ddns::update::{result_level, UpdateError, UpdateReason, UpdateWorker, Wake, WorkerAction};

/// Drives the worker over `horizon` seconds with no address change and a
/// provider that answers `body`; returns the times at which it updated.
fn refresh_times(max_interval: u64, horizon: u64, body: &str) -> Vec<u64> {
    let mut w = UpdateWorker::new(max_interval, 0);
    let mut now = 0u64;
    let mut calls = Vec::new();
    loop {
        let wait = w.wait_timeout(now);
        assert!(wait <= max_interval);
        now += wait;
        if now > horizon {
            break;
        }
        assert_eq!(w.on_wake(Wake::TimedOut), WorkerAction::Update(UpdateReason::Refresh));
        calls.push(now);
        let _ = w.on_response(Some(body), now);
    }
    calls
}

#[test]
fn refresh_keeps_the_record_alive() {
    let calls = refresh_times(5, 12, "nochg");
    assert_eq!(calls, vec![5, 10]);
}

#[test]
fn at_least_one_update_per_max_interval() {
    let calls = refresh_times(120, 1000, "nochg");
    assert_eq!(calls, vec![120, 240, 360, 480, 600, 720, 840, 960]);
    let failing = refresh_times(120, 1000, "badauth");
    assert_eq!(failing, vec![120, 240, 360, 480, 600, 720, 840, 960]);
}

#[test]
fn change_triggers_one_update_and_good_resets_deadline() {
    let mut w = UpdateWorker::new(5, 0);
    let ip = Ipv4Address::new(5, 6, 7, 8);
    assert_eq!(w.on_wake(Wake::Changed(ip)), WorkerAction::Update(UpdateReason::AddressChanged(ip)));
    let r = w.on_response(Some("good 5.6.7.8"), 3);
    assert_eq!(r, Ok(DdnsStatus::Good(ip)));
    assert_eq!(result_level(&r), LogLevel::Info);
    assert_eq!(w.deadline, 8);
    assert_eq!(w.wait_timeout(3), 5);
}

#[test]
fn badauth_is_an_error_and_not_retried_early() {
    let mut w = UpdateWorker::new(120, 0);
    let r = w.on_response(Some("badauth"), 30);
    assert_eq!(r, Ok(DdnsStatus::BadAuth));
    assert_eq!(result_level(&r), LogLevel::Error);
    assert_eq!(w.deadline, 120);
    assert_eq!(w.wait_timeout(30), 90);
}

#[test]
fn badip_is_a_warning_and_the_worker_goes_on() {
    let mut w = UpdateWorker::new(120, 0);
    let r = w.on_response(Some("badip 10.0.0.1"), 10);
    assert_eq!(r, Ok(DdnsStatus::BadIp(Ipv4Address::new(10, 0, 0, 1))));
    assert_eq!(result_level(&r), LogLevel::Warn);
    assert_eq!(w.deadline, 120);
    assert_eq!(w.on_wake(Wake::TimedOut), WorkerAction::Update(UpdateReason::Refresh));
}

#[test]
fn network_and_invalid_bodies_keep_the_deadline() {
    let mut w = UpdateWorker::new(100, 0);
    assert_eq!(w.on_response(None, 50), Err(UpdateError::Network));
    assert_eq!(w.deadline, 100);
    let r = w.on_response(Some("ok"), 60);
    assert_eq!(r, Err(UpdateError::Classify(ClassifyError::InvalidResponse("ok".to_string()))));
    assert_eq!(result_level(&r), LogLevel::Error);
    assert_eq!(result_level(&Err(UpdateError::Network)), LogLevel::Warn);
    assert_eq!(w.deadline, 100);
    let _ = w.on_response(None, 100);
    assert_eq!(w.deadline, 200);
}

#[test]
fn shutdown_and_disconnect_end_the_worker() {
    let w = UpdateWorker::new(120, 0);
    assert_eq!(w.on_wake(Wake::Shutdown), WorkerAction::Exit);
    assert_eq!(w.on_wake(Wake::Disconnected), WorkerAction::Exit);
}

#[test]
fn deadline_saturates() {
    let w = UpdateWorker::new(10, u64::MAX - 3);
    assert_eq!(w.deadline, u64::MAX);
}
