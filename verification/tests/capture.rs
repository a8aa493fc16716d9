use vibeflow::capture::{
    on_send, CaptureAction, CaptureEvent, CaptureLoop, CapturePhase, ChunkAction, SendResult,
    POLL_MILLIS, SAMPLE_RATE_HZ,
};

#[test]
fn capture_constants() {
    assert_eq!(SAMPLE_RATE_HZ, 16000);
    assert_eq!(POLL_MILLIS, 30);
}

#[test]
fn capture_begins_by_opening() {
    assert_eq!(CaptureLoop::new().phase(), CapturePhase::Opening);
}

#[test]
fn failed_device_ends_the_thread() {
    let mut capture = CaptureLoop::new();
    assert_eq!(capture.step(CaptureEvent::OpenFailed), CaptureAction::Exit);
    assert_eq!(capture.phase(), CapturePhase::Exited);
}

#[test]
fn open_stream_is_played_and_polled() {
    let mut capture = CaptureLoop::new();
    assert_eq!(capture.step(CaptureEvent::Opened), CaptureAction::Play);
    assert_eq!(capture.phase(), CapturePhase::Running);
    for _ in 0..5 {
        assert_eq!(
            capture.step(CaptureEvent::Polled { recording: true }),
            CaptureAction::Publish { sleep_millis: 30 }
        );
        assert_eq!(capture.phase(), CapturePhase::Running);
    }
}

#[test]
fn cleared_flag_ends_the_thread() {
    let mut capture = CaptureLoop::new();
    capture.step(CaptureEvent::Opened);
    capture.step(CaptureEvent::Polled { recording: true });
    assert_eq!(
        capture.step(CaptureEvent::Polled { recording: false }),
        CaptureAction::Exit
    );
    assert_eq!(capture.phase(), CapturePhase::Exited);
}

#[test]
fn ended_thread_stays_ended() {
    let mut capture = CaptureLoop::new();
    capture.step(CaptureEvent::OpenFailed);
    assert_eq!(capture.step(CaptureEvent::Opened), CaptureAction::Ignore);
    assert_eq!(
        capture.step(CaptureEvent::Polled { recording: true }),
        CaptureAction::Ignore
    );
    assert_eq!(capture.step(CaptureEvent::OpenFailed), CaptureAction::Ignore);
    assert_eq!(capture.phase(), CapturePhase::Exited);
}

#[test]
fn capture_events_out_of_phase_are_ignored() {
    let mut capture = CaptureLoop::new();
    assert_eq!(
        capture.step(CaptureEvent::Polled { recording: true }),
        CaptureAction::Ignore
    );
    assert_eq!(capture.phase(), CapturePhase::Opening);
    capture.step(CaptureEvent::Opened);
    assert_eq!(capture.step(CaptureEvent::Opened), CaptureAction::Ignore);
    assert_eq!(capture.step(CaptureEvent::OpenFailed), CaptureAction::Ignore);
    assert_eq!(capture.phase(), CapturePhase::Running);
}

#[test]
fn full_channel_makes_the_capture_side_wait() {
    assert_eq!(on_send(SendResult::Accepted), ChunkAction::Proceed);
    assert_eq!(on_send(SendResult::Full), ChunkAction::Retry);
}

#[test]
fn closed_channel_takes_no_chunk() {
    assert_eq!(on_send(SendResult::Closed), ChunkAction::Discard);
}

#[test]
fn threshold_is_a_tenth_of_a_second_of_audio() {
    assert_eq!(
        vibeflow::inference::MIN_SAMPLES as u64 * 1000,
        100 * SAMPLE_RATE_HZ as u64
    );
}
