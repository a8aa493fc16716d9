//! The capture thread: open the input stream, then forward the loudness to
//! the observers for as long as the session records.

use vstd::prelude::*;

verus! {

/// The sample rate of a recording, in hertz. A recording has one channel.
pub const SAMPLE_RATE_HZ: u32 = 16_000;

/// The longest time between two looks at the recording flag, in
/// milliseconds. A stop is noticed within this time.
pub const POLL_MILLIS: u64 = 30;

/// How far the capture thread has come.
#[derive(Clone, Copy, Debug, PartialEq, Eq, Structural)]
pub enum CapturePhase {
    /// The input stream is being opened.
    Opening,
    /// The stream runs and the flag is watched.
    Running,
    /// The thread has let go of the stream and of the channel.
    Exited,
}

/// What the capture thread saw.
#[derive(Clone, Copy, Debug, PartialEq, Eq, Structural)]
pub enum CaptureEvent {
    /// The input stream is open.
    Opened,
    /// The input device could not be opened.
    OpenFailed,
    /// The recording flag was read.
    Polled { recording: bool },
}

/// What the capture thread does next.
#[derive(Clone, Copy, Debug, PartialEq, Eq, Structural)]
pub enum CaptureAction {
    /// Start the stream, then read the flag.
    Play,
    /// Forward the loudness, sleep, then read the flag again.
    Publish { sleep_millis: u64 },
    /// Drop the stream and the sending half of the channel, and end.
    Exit,
    /// The event does not belong to the phase and changed nothing.
    Ignore,
}

/// What an event makes of the capture thread, and what the thread does next.
///
/// A device that cannot be opened ends the thread at once, before any chunk
/// is sent. With the stream open the thread goes on for as long as it reads
/// the flag as set, and ends the first time it reads it as cleared.
pub open spec fn capture_next(phase: CapturePhase, event: CaptureEvent) -> (
    CapturePhase,
    CaptureAction,
) {
    match (phase, event) {
        (CapturePhase::Opening, CaptureEvent::Opened) => (
            CapturePhase::Running,
            CaptureAction::Play,
        ),
        (CapturePhase::Opening, CaptureEvent::OpenFailed) => (
            CapturePhase::Exited,
            CaptureAction::Exit,
        ),
        (CapturePhase::Running, CaptureEvent::Polled { recording }) => if recording {
            (CapturePhase::Running, CaptureAction::Publish { sleep_millis: POLL_MILLIS })
        } else {
            (CapturePhase::Exited, CaptureAction::Exit)
        },
        _ => (phase, CaptureAction::Ignore),
    }
}

/// The capture thread after `events`, taken in their order.
pub open spec fn capture_run(phase: CapturePhase, events: Seq<CaptureEvent>) -> CapturePhase
    decreases events.len(),
{
    if events.len() == 0 {
        phase
    } else {
        capture_next(capture_run(phase, events.drop_last()), events.last()).0
    }
}

/// The decisions of one capture thread.
pub struct CaptureLoop {
    phase: CapturePhase,
}

impl View for CaptureLoop {
    type V = CapturePhase;

    closed spec fn view(&self) -> CapturePhase {
        self.phase
    }
}

impl CaptureLoop {
    /// A thread that is about to open its stream.
    pub fn new() -> (capture: Self)
        ensures
            capture@ == CapturePhase::Opening,
    {
        CaptureLoop { phase: CapturePhase::Opening }
    }

    /// How far the thread has come.
    pub fn phase(&self) -> (phase: CapturePhase)
        ensures
            phase == self@,
    {
        self.phase
    }

    /// Takes in `event`, and says what to do next.
    pub fn step(&mut self, event: CaptureEvent) -> (action: CaptureAction)
        ensures
            (final(self)@, action) == capture_next(old(self)@, event),
    {
        match self.phase {
            CapturePhase::Opening => match event {
                CaptureEvent::Opened => {
                    self.phase = CapturePhase::Running;
                    CaptureAction::Play
                },
                CaptureEvent::OpenFailed => {
                    self.phase = CapturePhase::Exited;
                    CaptureAction::Exit
                },
                CaptureEvent::Polled { recording: _ } => CaptureAction::Ignore,
            },
            CapturePhase::Running => match event {
                CaptureEvent::Polled { recording } => {
                    if recording {
                        CaptureAction::Publish { sleep_millis: POLL_MILLIS }
                    } else {
                        self.phase = CapturePhase::Exited;
                        CaptureAction::Exit
                    }
                },
                _ => CaptureAction::Ignore,
            },
            CapturePhase::Exited => CaptureAction::Ignore,
        }
    }
}

/// A thread that has ended stays ended, whatever it is told.
pub proof fn lemma_exit_is_final(events: Seq<CaptureEvent>)
    ensures
        capture_run(CapturePhase::Exited, events) == CapturePhase::Exited,
    decreases events.len(),
{
    if events.len() > 0 {
        lemma_exit_is_final(events.drop_last());
    }
}

/// A stop is noticed at the next look at the flag: a running thread that has
/// read the flag as set any number of times ends the first time it reads it
/// as cleared, and between two looks it sleeps no longer than `POLL_MILLIS`.
pub proof fn lemma_stop_ends_capture(polls: nat)
    ensures
        ({
            let watching = Seq::new(polls, |i: int| CaptureEvent::Polled { recording: true });
            &&& capture_run(CapturePhase::Running, watching) == CapturePhase::Running
            &&& capture_next(CapturePhase::Running, CaptureEvent::Polled { recording: true }).1
                == (CaptureAction::Publish { sleep_millis: POLL_MILLIS })
            &&& capture_run(
                CapturePhase::Running,
                watching.push(CaptureEvent::Polled { recording: false }),
            ) == CapturePhase::Exited
        }),
    decreases polls,
{
    let watching = Seq::new(polls, |i: int| CaptureEvent::Polled { recording: true });
    if polls > 0 {
        lemma_stop_ends_capture((polls - 1) as nat);
        assert(watching.drop_last() == Seq::new(
            (polls - 1) as nat,
            |i: int| CaptureEvent::Polled { recording: true },
        ));
    }
    assert(watching.push(CaptureEvent::Polled { recording: false }).drop_last() == watching);
}

/// What became of a chunk that the capture callback offered to the channel.
#[derive(Clone, Copy, Debug, PartialEq, Eq, Structural)]
pub enum SendResult {
    /// The channel took the chunk.
    Accepted,
    /// The channel is full.
    Full,
    /// The channel is closed: the session is over.
    Closed,
}

/// What the capture callback does with the chunk next.
#[derive(Clone, Copy, Debug, PartialEq, Eq, Structural)]
pub enum ChunkAction {
    /// The chunk is on its way; go on with the next frame.
    Proceed,
    /// Wait for room and offer the same chunk again.
    Retry,
    /// Nobody will take the chunk any more; let it go.
    Discard,
}

/// The rule for a full channel: the capture side waits. A chunk is given up
/// only when the channel is closed, never because the consumer is slow.
pub open spec fn after_send(result: SendResult) -> ChunkAction {
    match result {
        SendResult::Accepted => ChunkAction::Proceed,
        SendResult::Full => ChunkAction::Retry,
        SendResult::Closed => ChunkAction::Discard,
    }
}

/// What to do with a chunk after it was offered to the channel.
pub fn on_send(result: SendResult) -> (action: ChunkAction)
    ensures
        action == after_send(result),
        action == ChunkAction::Discard <==> result == SendResult::Closed,
{
    match result {
        SendResult::Accepted => ChunkAction::Proceed,
        SendResult::Full => ChunkAction::Retry,
        SendResult::Closed => ChunkAction::Discard,
    }
}

} // verus!
