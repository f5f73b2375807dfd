use esp_visualize::manager::Credentials;
use esp_visualize::manager::StageOutcome;
use esp_visualize::manager::Wifi;
use esp_visualize::request::deadline_after;
use esp_visualize::request::read_to_end;
use esp_visualize::request::teardown_step;
use esp_visualize::request::ReadEvent;
use esp_visualize::request::RequestError;
use esp_visualize::request::TeardownStep;
use esp_visualize::request::RESPONSE_CAPACITY;

fn manager() -> Wifi {
    Wifi::new(
        Credentials { ssid: "panel-net".to_string(), psk: "hunter-two".to_string() },
        5,
        6,
        7,
        8,
    )
}

fn ok_get(w: &Wifi, events: &Vec<ReadEvent>, deadline: u64) -> Result<Vec<u8>, RequestError> {
    w.get(
        StageOutcome::Succeeded,
        StageOutcome::Succeeded,
        StageOutcome::Succeeded,
        StageOutcome::Succeeded,
        events,
        deadline,
    )
}

#[test]
fn completed_body_is_exact() {
    let w = manager();
    let events = vec![
        ReadEvent::Data { at: 1, chunk: b"hello ".to_vec() },
        ReadEvent::Tick { at: 2 },
        ReadEvent::Data { at: 3, chunk: b"world".to_vec() },
        ReadEvent::Closed { at: 4 },
    ];
    let body = ok_get(&w, &events, 100).expect("read should complete");
    assert_eq!(body, b"hello world".to_vec());
}

#[test]
fn oversized_response_is_a_capacity_error() {
    // The peer sends more than the fixed receive buffer holds, in time:
    // the call fails with the capacity error, not a truncated success.
    let w = manager();
    let events = vec![
        ReadEvent::Data { at: 1, chunk: vec![b'x'; RESPONSE_CAPACITY] },
        ReadEvent::Data { at: 2, chunk: vec![b'x'; 1] },
        ReadEvent::Closed { at: 3 },
    ];
    assert_eq!(ok_get(&w, &events, 100), Err(RequestError::BufferTooSmall));
}

#[test]
fn response_filling_the_buffer_exactly_succeeds() {
    let w = manager();
    let events = vec![
        ReadEvent::Data { at: 1, chunk: vec![b'y'; RESPONSE_CAPACITY] },
        ReadEvent::Closed { at: 2 },
    ];
    let body = ok_get(&w, &events, 100).expect("a body that just fits is not an error");
    assert_eq!(body.len(), RESPONSE_CAPACITY);
}

#[test]
fn read_abandoned_at_deadline_against_silent_peer() {
    // The peer never closes: the first observation past the deadline —
    // one scheduler tick beyond it — abandons the read.
    let w = manager();
    let events = vec![
        ReadEvent::Data { at: 10, chunk: b"partial".to_vec() },
        ReadEvent::Tick { at: 40 },
        ReadEvent::Tick { at: 51 },
        ReadEvent::Data { at: 60, chunk: b"never seen".to_vec() },
    ];
    assert_eq!(ok_get(&w, &events, 50), Err(RequestError::DeadlineExceeded));
}

#[test]
fn late_close_is_still_a_deadline_error() {
    let w = manager();
    let events = vec![
        ReadEvent::Data { at: 10, chunk: b"partial".to_vec() },
        ReadEvent::Closed { at: 99 },
    ];
    assert_eq!(ok_get(&w, &events, 50), Err(RequestError::DeadlineExceeded));
}

#[test]
fn failed_read_surfaces_as_read_error() {
    let w = manager();
    let events = vec![
        ReadEvent::Data { at: 1, chunk: b"par".to_vec() },
        ReadEvent::Failed { at: 2 },
    ];
    assert_eq!(ok_get(&w, &events, 50), Err(RequestError::ReadFailed));
}

#[test]
fn each_stage_failure_names_its_error() {
    let w = manager();
    let events = vec![ReadEvent::Closed { at: 1 }];
    let ok = StageOutcome::Succeeded;
    let bad = StageOutcome::Failed;
    assert_eq!(w.get(bad, ok, ok, ok, &events, 10), Err(RequestError::DnsFailed));
    assert_eq!(w.get(ok, bad, ok, ok, &events, 10), Err(RequestError::ConnectFailed));
    assert_eq!(w.get(ok, ok, bad, ok, &events, 10), Err(RequestError::TlsFailed));
    assert_eq!(w.get(ok, ok, ok, bad, &events, 10), Err(RequestError::SendFailed));
}

#[test]
fn consecutive_requests_share_no_buffer_state() {
    // Two calls on the same manager: the second body is exactly the second
    // trace's bytes, with no residue of the first call's much larger body.
    let w = manager();
    let first = vec![
        ReadEvent::Data { at: 1, chunk: vec![b'A'; 3000] },
        ReadEvent::Closed { at: 2 },
    ];
    let body_a = ok_get(&w, &first, 100).expect("first read should complete");
    assert_eq!(body_a, vec![b'A'; 3000]);

    let second = vec![
        ReadEvent::Data { at: 1, chunk: b"BB".to_vec() },
        ReadEvent::Closed { at: 2 },
    ];
    let body_b = ok_get(&w, &second, 100).expect("second read should complete");
    assert_eq!(body_b, b"BB".to_vec());
    assert!(!body_b.contains(&b'A'));
}

#[test]
fn teardown_never_pumps_past_its_window() {
    let close_by = deadline_after(50, 30);
    assert_eq!(close_by, 80);
    // Within the window the wait pumps on; the moment the socket closes it
    // finishes gracefully; past the window it aborts, closed or not.
    assert_eq!(teardown_step(60, close_by, false), TeardownStep::KeepPumping);
    assert_eq!(teardown_step(80, close_by, false), TeardownStep::KeepPumping);
    assert_eq!(teardown_step(70, close_by, true), TeardownStep::ClosedGracefully);
    assert_eq!(teardown_step(81, close_by, false), TeardownStep::ForcedAbort);
    assert_eq!(teardown_step(81, close_by, true), TeardownStep::ClosedGracefully);
}

#[test]
fn deadline_saturates_at_the_end_of_time() {
    assert_eq!(deadline_after(100, 25), 125);
    assert_eq!(deadline_after(u64::MAX - 5, 10), u64::MAX);
    assert_eq!(deadline_after(u64::MAX, u64::MAX), u64::MAX);
}

#[test]
fn read_to_end_sizes_to_the_given_buffer() {
    let events = vec![
        ReadEvent::Data { at: 1, chunk: b"abcd".to_vec() },
        ReadEvent::Closed { at: 2 },
    ];
    assert_eq!(read_to_end(&events, 4, 10), Ok(b"abcd".to_vec()));
    assert_eq!(read_to_end(&events, 3, 10), Err(RequestError::BufferTooSmall));
}
