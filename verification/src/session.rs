//! The recording session: idle or recording, and who may change that.
//!
//! The controller is the one place where a session starts or stops. It holds
//! the recording flag, guards each transition, and names the effects of a
//! transition in the order in which the host performs them. The host performs
//! every effect whether or not the one before it succeeded.

use vstd::prelude::*;

verus! {

/// The pitch of the tone that confirms a start, in hertz.
pub const START_TONE_HZ: u32 = 880;

/// The pitch of the tone that confirms a stop, in hertz.
pub const STOP_TONE_HZ: u32 = 440;

/// The length of either tone, in milliseconds.
pub const TONE_MILLIS: u64 = 150;

/// The number of chunks that a session's channel holds before the capture
/// side has to wait.
pub const CHANNEL_CAPACITY: usize = 100;

/// What observers are told about the session.
#[derive(Clone, Copy, Debug, PartialEq, Eq, Structural)]
pub enum Status {
    Recording,
    Processing,
    Ready,
}

/// The name under which a status is announced.
pub open spec fn status_name(status: Status) -> Seq<char> {
    match status {
        Status::Recording => "Recording"@,
        Status::Processing => "Processing"@,
        Status::Ready => "Ready"@,
    }
}

impl Status {
    /// The name under which the status is announced.
    pub fn name(self) -> (name: &'static str)
        ensures
            name@ == status_name(self),
    {
        match self {
            Status::Recording => "Recording",
            Status::Processing => "Processing",
            Status::Ready => "Ready",
        }
    }
}

/// One thing that the host does when a session starts or stops.
#[derive(Clone, Copy, Debug, PartialEq, Eq, Structural)]
pub enum Effect {
    /// Play a short tone.
    PlayTone { hz: u32, millis: u64 },
    /// Show the surface that says that a recording is running.
    ShowIndicator,
    /// Hide that surface.
    HideIndicator,
    /// Tell the observers.
    Notify(Status),
    /// Make the session's channel and keep its sending half.
    OpenChannel { capacity: usize },
    /// Let go of the sending half.
    CloseChannel,
    /// Start the capture thread on the sending half.
    SpawnCapture,
    /// Start the transcription task on the receiving half.
    SpawnTranscription,
}

/// A controller as a mathematical value: the flag, and the number of
/// sessions started so far.
pub struct SessionState {
    pub recording: bool,
    pub sessions: nat,
}

impl SessionState {
    /// The channel whose sending half is held: that of the running session,
    /// known by the session's number.
    pub open spec fn channel(self) -> Option<nat> {
        if self.recording {
            Some(self.sessions)
        } else {
            None
        }
    }
}

/// The effects of a start, in their order.
pub open spec fn start_effects() -> Seq<Effect> {
    seq![
        Effect::PlayTone { hz: START_TONE_HZ, millis: TONE_MILLIS },
        Effect::ShowIndicator,
        Effect::Notify(Status::Recording),
        Effect::OpenChannel { capacity: CHANNEL_CAPACITY },
        Effect::SpawnCapture,
        Effect::SpawnTranscription,
    ]
}

/// The effects of a stop, in their order.
pub open spec fn stop_effects() -> Seq<Effect> {
    seq![
        Effect::CloseChannel,
        Effect::HideIndicator,
        Effect::PlayTone { hz: STOP_TONE_HZ, millis: TONE_MILLIS },
    ]
}

/// A request to start. While a session runs it changes nothing and has no
/// effect. Otherwise the flag is set, a session with a channel of its own
/// begins, and the effects of a start follow.
pub open spec fn started(s: SessionState) -> (SessionState, Seq<Effect>) {
    if s.recording {
        (s, Seq::empty())
    } else {
        (SessionState { recording: true, sessions: s.sessions + 1 }, start_effects())
    }
}

/// A request to stop. While no session runs it changes nothing and has no
/// effect. Otherwise the flag is cleared and the effects of a stop follow.
pub open spec fn stopped(s: SessionState) -> (SessionState, Seq<Effect>) {
    if s.recording {
        (SessionState { recording: false, sessions: s.sessions }, stop_effects())
    } else {
        (s, Seq::empty())
    }
}

/// A hotkey event. Only a press of the bound key counts; it stops the
/// running session, or starts one where none runs.
pub open spec fn toggled(s: SessionState, matches: bool, pressed: bool) -> (
    SessionState,
    Seq<Effect>,
) {
    if matches && pressed {
        if s.recording {
            stopped(s)
        } else {
            started(s)
        }
    } else {
        (s, Seq::empty())
    }
}

/// The authority over the recording flag.
pub struct SessionController {
    recording: bool,
    sessions: Ghost<nat>,
}

impl View for SessionController {
    type V = SessionState;

    closed spec fn view(&self) -> SessionState {
        SessionState { recording: self.recording, sessions: self.sessions@ }
    }
}

impl SessionController {
    /// A controller with no session running and none started yet.
    pub fn new() -> (controller: Self)
        ensures
            controller@ == (SessionState { recording: false, sessions: 0 }),
    {
        SessionController { recording: false, sessions: Ghost(0) }
    }

    /// Whether a session is running.
    pub fn is_recording(&self) -> (recording: bool)
        ensures
            recording == self@.recording,
    {
        self.recording
    }

    /// Starts a session unless one is running, and returns what the host has
    /// to do, in order.
    pub fn start(&mut self) -> (effects: Vec<Effect>)
        ensures
            (final(self)@, effects@) == started(old(self)@),
    {
        if self.recording {
            return Vec::new();
        }
        self.recording = true;
        proof {
            self.sessions@ = self.sessions@ + 1;
        }
        vec![
            Effect::PlayTone { hz: START_TONE_HZ, millis: TONE_MILLIS },
            Effect::ShowIndicator,
            Effect::Notify(Status::Recording),
            Effect::OpenChannel { capacity: CHANNEL_CAPACITY },
            Effect::SpawnCapture,
            Effect::SpawnTranscription,
        ]
    }

    /// Stops the running session, if there is one, and returns what the host
    /// has to do, in order.
    pub fn stop(&mut self) -> (effects: Vec<Effect>)
        ensures
            (final(self)@, effects@) == stopped(old(self)@),
    {
        if !self.recording {
            return Vec::new();
        }
        self.recording = false;
        vec![
            Effect::CloseChannel,
            Effect::HideIndicator,
            Effect::PlayTone { hz: STOP_TONE_HZ, millis: TONE_MILLIS },
        ]
    }

    /// Answers a hotkey event: `matches` says whether the event's key is the
    /// bound one, `pressed` whether the key went down.
    pub fn handle_shortcut(&mut self, matches: bool, pressed: bool) -> (effects: Vec<Effect>)
        ensures
            (final(self)@, effects@) == toggled(old(self)@, matches, pressed),
    {
        if matches && pressed {
            if self.recording {
                self.stop()
            } else {
                self.start()
            }
        } else {
            Vec::new()
        }
    }
}

/// A request that reaches the controller.
pub enum Command {
    Start,
    Stop,
    Shortcut { matches: bool, pressed: bool },
}

/// What one request makes of a controller, and its effects.
pub open spec fn apply(s: SessionState, command: Command) -> (SessionState, Seq<Effect>) {
    match command {
        Command::Start => started(s),
        Command::Stop => stopped(s),
        Command::Shortcut { matches, pressed } => toggled(s, matches, pressed),
    }
}

/// What a row of requests makes of a controller, and all their effects in
/// the order in which they come about.
pub open spec fn run(s: SessionState, commands: Seq<Command>) -> (SessionState, Seq<Effect>)
    decreases commands.len(),
{
    if commands.len() == 0 {
        (s, Seq::empty())
    } else {
        let before = run(s, commands.drop_last());
        let last = apply(before.0, commands.last());
        (last.0, before.1 + last.1)
    }
}

/// How often `effect` stands in `effects`.
pub open spec fn occurrences(effects: Seq<Effect>, effect: Effect) -> nat
    decreases effects.len(),
{
    if effects.len() == 0 {
        0
    } else {
        occurrences(effects.drop_last(), effect) + if effects.last() == effect {
            1nat
        } else {
            0nat
        }
    }
}

/// Idempotence of start: a start that follows a start changes nothing and
/// has no effect. The flag stays set and the running session keeps its
/// channel.
pub proof fn lemma_start_is_idempotent(s: SessionState)
    ensures
        started(s).0.recording,
        started(started(s).0) == (started(s).0, Seq::<Effect>::empty()),
        started(started(s).0).0.channel() == started(s).0.channel(),
{
}

/// Idempotence of stop: a stop that follows a stop changes nothing and has
/// no effect, so nothing is torn down twice.
pub proof fn lemma_stop_is_idempotent(s: SessionState)
    ensures
        !stopped(s).0.recording,
        stopped(s).0.channel() is None,
        stopped(stopped(s).0) == (stopped(s).0, Seq::<Effect>::empty()),
{
}

/// Two presses of the bound key bring an idle controller back to idle, and
/// the session between them is a new one.
pub proof fn lemma_toggle_twice(s: SessionState)
    requires
        !s.recording,
    ensures
        ({
            let down = toggled(s, true, true);
            let up = toggled(down.0, true, true);
            &&& down == started(s)
            &&& down.0.channel() == Some(s.sessions + 1)
            &&& up == stopped(down.0)
            &&& !up.0.recording
            &&& up.0.sessions == s.sessions + 1
        }),
{
}

/// The occurrences in a row of effects that is put behind another add up.
pub proof fn lemma_occurrences_add(first: Seq<Effect>, second: Seq<Effect>, effect: Effect)
    ensures
        occurrences(first + second, effect) == occurrences(first, effect) + occurrences(
            second,
            effect,
        ),
    decreases second.len(),
{
    if second.len() == 0 {
        assert(first + second == first);
    } else {
        lemma_occurrences_add(first, second.drop_last(), effect);
        assert((first + second).drop_last() == first + second.drop_last());
    }
}

proof fn lemma_occurrences_push(effects: Seq<Effect>, last: Effect, effect: Effect)
    ensures
        occurrences(effects.push(last), effect) == occurrences(effects, effect) + if last
            == effect {
            1nat
        } else {
            0nat
        },
{
    assert(effects.push(last).drop_last() == effects);
}

/// A start opens one channel and starts one capture thread and one
/// transcription task, and closes nothing.
pub proof fn lemma_start_effects_count()
    ensures
        occurrences(start_effects(), Effect::OpenChannel { capacity: CHANNEL_CAPACITY }) == 1,
        occurrences(start_effects(), Effect::SpawnCapture) == 1,
        occurrences(start_effects(), Effect::SpawnTranscription) == 1,
        occurrences(start_effects(), Effect::CloseChannel) == 0,
{
    let e0 = Seq::<Effect>::empty();
    let e1 = e0.push(Effect::PlayTone { hz: START_TONE_HZ, millis: TONE_MILLIS });
    let e2 = e1.push(Effect::ShowIndicator);
    let e3 = e2.push(Effect::Notify(Status::Recording));
    let e4 = e3.push(Effect::OpenChannel { capacity: CHANNEL_CAPACITY });
    let e5 = e4.push(Effect::SpawnCapture);
    let e6 = e5.push(Effect::SpawnTranscription);
    assert(e6 == start_effects());
    assert forall|effect: Effect|
        occurrences(e6, effect) == if e6.contains(effect) {
            1nat
        } else {
            0nat
        } by {
        lemma_occurrences_push(e0, e1.last(), effect);
        lemma_occurrences_push(e1, e2.last(), effect);
        lemma_occurrences_push(e2, e3.last(), effect);
        lemma_occurrences_push(e3, e4.last(), effect);
        lemma_occurrences_push(e4, e5.last(), effect);
        lemma_occurrences_push(e5, e6.last(), effect);
        if e6.contains(effect) {
            let i = choose|i: int| 0 <= i < e6.len() && e6[i] == effect;
            assert(e6[i] == effect);
        } else {
            assert(e6[0] != effect && e6[1] != effect && e6[2] != effect);
            assert(e6[3] != effect && e6[4] != effect && e6[5] != effect);
        }
    }
    assert(e6[3] == Effect::OpenChannel { capacity: CHANNEL_CAPACITY });
    assert(e6[4] == Effect::SpawnCapture);
    assert(e6[5] == Effect::SpawnTranscription);
    assert(!e6.contains(Effect::CloseChannel));
}

/// A stop closes one channel, and opens and starts nothing.
pub proof fn lemma_stop_effects_count()
    ensures
        occurrences(stop_effects(), Effect::CloseChannel) == 1,
        occurrences(stop_effects(), Effect::OpenChannel { capacity: CHANNEL_CAPACITY }) == 0,
        occurrences(stop_effects(), Effect::SpawnCapture) == 0,
        occurrences(stop_effects(), Effect::SpawnTranscription) == 0,
{
    let e0 = Seq::<Effect>::empty();
    let e1 = e0.push(Effect::CloseChannel);
    let e2 = e1.push(Effect::HideIndicator);
    let e3 = e2.push(Effect::PlayTone { hz: STOP_TONE_HZ, millis: TONE_MILLIS });
    assert(e3 == stop_effects());
    assert forall|effect: Effect|
        occurrences(e3, effect) == if e3.contains(effect) {
            1nat
        } else {
            0nat
        } by {
        lemma_occurrences_push(e0, e1.last(), effect);
        lemma_occurrences_push(e1, e2.last(), effect);
        lemma_occurrences_push(e2, e3.last(), effect);
        if e3.contains(effect) {
            let i = choose|i: int| 0 <= i < e3.len() && e3[i] == effect;
            assert(e3[i] == effect);
        } else {
            assert(e3[0] != effect && e3[1] != effect && e3[2] != effect);
        }
    }
    assert(e3[0] == Effect::CloseChannel);
    assert(!e3.contains(Effect::OpenChannel { capacity: CHANNEL_CAPACITY }));
    assert(!e3.contains(Effect::SpawnCapture));
    assert(!e3.contains(Effect::SpawnTranscription));
}

/// One session at a time: whatever requests arrive, in whatever order, every
/// channel that was opened has been closed again, but for the one of the
/// session that runs. Each channel has one capture thread and one
/// transcription task, and a new session never reuses a channel.
pub proof fn lemma_one_session_at_a_time(s: SessionState, commands: Seq<Command>)
    ensures
        ({
            let (after, effects) = run(s, commands);
            let opened = occurrences(effects, Effect::OpenChannel { capacity: CHANNEL_CAPACITY });
            let closed = occurrences(effects, Effect::CloseChannel);
            &&& after.sessions == s.sessions + opened
            &&& occurrences(effects, Effect::SpawnCapture) == opened
            &&& occurrences(effects, Effect::SpawnTranscription) == opened
            &&& opened + (if s.recording {
                1int
            } else {
                0int
            }) == closed + (if after.recording {
                1int
            } else {
                0int
            })
        }),
    decreases commands.len(),
{
    if commands.len() > 0 {
        let before = run(s, commands.drop_last());
        let last = apply(before.0, commands.last());
        lemma_one_session_at_a_time(s, commands.drop_last());
        lemma_start_effects_count();
        lemma_stop_effects_count();
        lemma_occurrences_add(before.1, last.1, Effect::OpenChannel { capacity: CHANNEL_CAPACITY });
        lemma_occurrences_add(before.1, last.1, Effect::CloseChannel);
        lemma_occurrences_add(before.1, last.1, Effect::SpawnCapture);
        lemma_occurrences_add(before.1, last.1, Effect::SpawnTranscription);
    }
}

/// Overlapping triggers: however many starts reach an idle controller in a
/// row, the first one starts the session and the others do nothing. One
/// channel is made, one capture thread, one transcription task.
pub proof fn lemma_repeated_starts(s: SessionState, n: nat)
    requires
        !s.recording,
        n >= 1,
    ensures
        run(s, Seq::new(n, |i: int| Command::Start)) == started(s),
    decreases n,
{
    let commands = Seq::new(n, |i: int| Command::Start);
    let fewer = Seq::new((n - 1) as nat, |i: int| Command::Start);
    assert(commands.drop_last() == fewer);
    if n == 1 {
        assert(run(s, fewer) == (s, Seq::<Effect>::empty()));
        assert(Seq::<Effect>::empty() + start_effects() == start_effects());
    } else {
        lemma_repeated_starts(s, (n - 1) as nat);
        assert(start_effects() + Seq::<Effect>::empty() == start_effects());
    }
}

} // verus!
