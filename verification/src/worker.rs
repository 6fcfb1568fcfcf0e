//! The playback worker's state machine.
//!
//! The worker is the single task that owns the audio output device.  It
//! blocks on the command channel, and for each command it decides — from its
//! current state and from the outcome of the device work the command needed —
//! the next state, the events to broadcast, the error to report to the
//! issuing caller, and the action to perform on the device.  That decision is
//! the function [`step`]; the embedding application runs the loop, performs
//! the device work and hands the outcome in as a [`WorkerInput`].

use vstd::prelude::*;
use crate::player::{PlayerError, PlayerEvent};

verus! {

/// The transport phase: whether a source is loaded, and whether it is
/// audible.
#[derive(Clone, Copy, Debug, PartialEq, Eq, Structural)]
pub enum Phase {
    /// No source is loaded.
    Idle,
    /// A source is loaded and output is suspended.
    Paused,
    /// A source is loaded and output is running.
    Playing,
}

/// The worker's own state: the transport phase, the total duration of the
/// loaded source (zero when idle), and whether the worker is still running
/// (it holds the audio device exactly as long as `live` is true).
#[derive(Clone, Copy, Debug, PartialEq, Eq, Structural)]
pub struct WorkerState {
    pub phase: Phase,
    /// Total duration of the loaded source, in whole seconds; zero when idle.
    pub duration: u64,
    /// True until a terminate command is processed (or the channel is gone).
    pub live: bool,
}

/// A command together with the outcome of the device work it required, as
/// observed by the loop that runs the worker:
/// - a load carries the decode outcome (the source's total duration, or
///   nothing if the file could not be opened or decoded);
/// - a seek carries whether the device accepted the seek (consulted only
///   when the position is in range and a source is loaded).
#[derive(Clone, Copy, Debug, PartialEq, Eq, Structural)]
pub enum WorkerInput {
    Load { decoded: Option<u64> },
    Play,
    Pause,
    Seek { position: u64, seek_supported: bool },
    Terminate,
}

/// What the worker must do on the audio device after a step.
#[derive(Clone, Copy, Debug, PartialEq, Eq, Structural)]
pub enum DeviceAction {
    /// Nothing.
    Stay,
    /// Discard any queued source, attach the newly decoded one and play it.
    BeginPlayback,
    /// Resume output.
    Resume,
    /// Suspend output.
    Suspend,
    /// Stop output and release the device.
    Release,
}

/// Everything one step decides.
pub struct StepResult {
    pub state: WorkerState,
    /// The events to broadcast, in emission order.
    pub events: Vec<PlayerEvent>,
    /// The error to report to the caller that issued the command, if any.
    pub error: Option<PlayerError>,
    pub action: DeviceAction,
}

impl WorkerState {
    /// The state of a worker that has just acquired the device: nothing
    /// loaded, duration zero.
    pub fn initial() -> (s: WorkerState)
        ensures
            s == initial_state(),
    {
        WorkerState { phase: Phase::Idle, duration: 0, live: true }
    }
}

pub open spec fn initial_state() -> WorkerState {
    WorkerState { phase: Phase::Idle, duration: 0, live: true }
}

/// Whether a seek to `position` succeeds: a source must be loaded, the
/// position must not exceed its duration, and the source must support
/// seeking.
pub open spec fn seek_accepted(s: WorkerState, position: u64, seek_supported: bool) -> bool {
    s.phase != Phase::Idle && position <= s.duration && seek_supported
}

/// The state after one step.  A worker that is no longer live changes
/// nothing: termination is terminal.
pub open spec fn step_state(s: WorkerState, inp: WorkerInput) -> WorkerState {
    if !s.live {
        s
    } else {
        match inp {
            WorkerInput::Load { decoded } => match decoded {
                Some(d) => WorkerState { phase: Phase::Playing, duration: d, live: true },
                None => s,
            },
            WorkerInput::Play => if s.phase == Phase::Idle {
                s
            } else {
                WorkerState { phase: Phase::Playing, duration: s.duration, live: true }
            },
            WorkerInput::Pause => if s.phase == Phase::Playing {
                WorkerState { phase: Phase::Paused, duration: s.duration, live: true }
            } else {
                s
            },
            WorkerInput::Seek { .. } => s,
            WorkerInput::Terminate => WorkerState { phase: Phase::Idle, duration: 0, live: false },
        }
    }
}

/// The events one step broadcasts, in emission order.
pub open spec fn step_events(s: WorkerState, inp: WorkerInput) -> Seq<PlayerEvent> {
    if !s.live {
        Seq::empty()
    } else {
        match inp {
            WorkerInput::Load { decoded } => match decoded {
                Some(d) => seq![PlayerEvent::Playing],
                None => Seq::empty(),
            },
            WorkerInput::Play => if s.phase == Phase::Idle {
                Seq::empty()
            } else {
                seq![PlayerEvent::Playing]
            },
            WorkerInput::Pause => if s.phase == Phase::Playing {
                seq![PlayerEvent::Paused]
            } else {
                Seq::empty()
            },
            WorkerInput::Seek { position, seek_supported } => if seek_accepted(
                s,
                position,
                seek_supported,
            ) {
                seq![PlayerEvent::Seeked { position }]
            } else {
                Seq::empty()
            },
            WorkerInput::Terminate => Seq::empty(),
        }
    }
}

/// The error one step reports to the issuing caller, if any.
pub open spec fn step_error(s: WorkerState, inp: WorkerInput) -> Option<PlayerError> {
    if !s.live {
        None
    } else {
        match inp {
            WorkerInput::Load { decoded } => match decoded {
                Some(d) => None,
                None => Some(PlayerError::DecodeError),
            },
            WorkerInput::Seek { position, seek_supported } => if seek_accepted(
                s,
                position,
                seek_supported,
            ) {
                None
            } else {
                Some(PlayerError::SeekError)
            },
            _ => None,
        }
    }
}

/// The device action one step requires.
pub open spec fn step_action(s: WorkerState, inp: WorkerInput) -> DeviceAction {
    if !s.live {
        DeviceAction::Stay
    } else {
        match inp {
            WorkerInput::Load { decoded } => match decoded {
                Some(d) => DeviceAction::BeginPlayback,
                None => DeviceAction::Stay,
            },
            WorkerInput::Play => if s.phase == Phase::Idle {
                DeviceAction::Stay
            } else {
                DeviceAction::Resume
            },
            WorkerInput::Pause => if s.phase == Phase::Playing {
                DeviceAction::Suspend
            } else {
                DeviceAction::Stay
            },
            WorkerInput::Seek { .. } => DeviceAction::Stay,
            WorkerInput::Terminate => DeviceAction::Release,
        }
    }
}

/// Process one command.
///
/// - A successful load replaces any previous source, records its duration,
///   moves to playing and emits `Playing`; a failed decode reports
///   `DecodeError` and changes nothing.
/// - Play resumes and emits `Playing` when a source is loaded (also when
///   already playing); with no source it is a no-op.
/// - Pause suspends and emits `Paused` when playing; otherwise a no-op.
/// - Seek emits `Seeked` and keeps the phase when a source is loaded, the
///   position is within its duration and the device accepted the seek;
///   otherwise it reports `SeekError` and changes nothing.
/// - Terminate releases the device and ends the worker; nothing is processed
///   afterwards.
pub fn step(s: &WorkerState, inp: &WorkerInput) -> (r: StepResult)
    ensures
        r.state == step_state(*s, *inp),
        r.events@ == step_events(*s, *inp),
        r.error == step_error(*s, *inp),
        r.action == step_action(*s, *inp),
{
    if !s.live {
        return StepResult {
            state: *s,
            events: Vec::new(),
            error: None,
            action: DeviceAction::Stay,
        };
    }
    match inp {
        WorkerInput::Load { decoded } => match decoded {
            Some(d) => {
                let mut events: Vec<PlayerEvent> = Vec::new();
                events.push(PlayerEvent::Playing);
                proof {
                    assert(events@ =~= step_events(*s, *inp));
                }
                StepResult {
                    state: WorkerState { phase: Phase::Playing, duration: *d, live: true },
                    events,
                    error: None,
                    action: DeviceAction::BeginPlayback,
                }
            },
            None => StepResult {
                state: *s,
                events: Vec::new(),
                error: Some(PlayerError::DecodeError),
                action: DeviceAction::Stay,
            },
        },
        WorkerInput::Play => {
            if s.phase == Phase::Idle {
                StepResult { state: *s, events: Vec::new(), error: None, action: DeviceAction::Stay }
            } else {
                let mut events: Vec<PlayerEvent> = Vec::new();
                events.push(PlayerEvent::Playing);
                proof {
                    assert(events@ =~= step_events(*s, *inp));
                }
                StepResult {
                    state: WorkerState { phase: Phase::Playing, duration: s.duration, live: true },
                    events,
                    error: None,
                    action: DeviceAction::Resume,
                }
            }
        },
        WorkerInput::Pause => {
            if s.phase == Phase::Playing {
                let mut events: Vec<PlayerEvent> = Vec::new();
                events.push(PlayerEvent::Paused);
                proof {
                    assert(events@ =~= step_events(*s, *inp));
                }
                StepResult {
                    state: WorkerState { phase: Phase::Paused, duration: s.duration, live: true },
                    events,
                    error: None,
                    action: DeviceAction::Suspend,
                }
            } else {
                StepResult { state: *s, events: Vec::new(), error: None, action: DeviceAction::Stay }
            }
        },
        WorkerInput::Seek { position, seek_supported } => {
            if s.phase != Phase::Idle && *position <= s.duration && *seek_supported {
                let mut events: Vec<PlayerEvent> = Vec::new();
                events.push(PlayerEvent::Seeked { position: *position });
                proof {
                    assert(events@ =~= step_events(*s, *inp));
                }
                StepResult { state: *s, events, error: None, action: DeviceAction::Stay }
            } else {
                StepResult {
                    state: *s,
                    events: Vec::new(),
                    error: Some(PlayerError::SeekError),
                    action: DeviceAction::Stay,
                }
            }
        },
        WorkerInput::Terminate => StepResult {
            state: WorkerState { phase: Phase::Idle, duration: 0, live: false },
            events: Vec::new(),
            error: None,
            action: DeviceAction::Release,
        },
    }
}

/// Whether a seek to `position` is within range of the loaded source.  The
/// loop that runs the worker checks this before touching the device, so that
/// an out-of-range seek is rejected without a device call.
pub fn seek_in_range(s: &WorkerState, position: u64) -> (r: bool)
    ensures
        r == (s.phase != Phase::Idle && position <= s.duration),
{
    s.phase != Phase::Idle && position <= s.duration
}

/// What the position poller emits on one tick: while the worker is live, a
/// progress sample of the device's play head and the recorded duration
/// (both zero when idle); once the worker has released the device, nothing.
pub open spec fn spec_poll(s: WorkerState, device_position: u64) -> Option<PlayerEvent> {
    if s.live {
        Some(PlayerEvent::PositionUpdate { position: device_position, duration: s.duration })
    } else {
        None
    }
}

/// One tick of the position poller.  The poller runs for the lifetime of the
/// player regardless of the transport phase; consumers must tolerate
/// progress samples while paused or idle.
pub fn poll(s: &WorkerState, device_position: u64) -> (r: Option<PlayerEvent>)
    ensures
        r == spec_poll(*s, device_position),
{
    if s.live {
        Some(PlayerEvent::PositionUpdate { position: device_position, duration: s.duration })
    } else {
        None
    }
}

/// The worker's state after processing a sequence of commands in order.
pub open spec fn run_state(s: WorkerState, inputs: Seq<WorkerInput>) -> WorkerState
    decreases inputs.len(),
{
    if inputs.len() == 0 {
        s
    } else {
        run_state(step_state(s, inputs[0]), inputs.drop_first())
    }
}

/// The events the worker broadcasts while processing a sequence of commands
/// in order: the events of each command, concatenated in command order.
pub open spec fn run_events(s: WorkerState, inputs: Seq<WorkerInput>) -> Seq<PlayerEvent>
    decreases inputs.len(),
{
    if inputs.len() == 0 {
        Seq::empty()
    } else {
        step_events(s, inputs[0]) + run_events(step_state(s, inputs[0]), inputs.drop_first())
    }
}

/// Law: the worker's event emissions follow command submission order.  The
/// events of a run over `a` followed by `b` are exactly the events of `a`,
/// then the events of `b` from the state `a` left behind — no event of a
/// later command ever precedes an event of an earlier one.
pub proof fn lemma_events_follow_command_order(
    s: WorkerState,
    a: Seq<WorkerInput>,
    b: Seq<WorkerInput>,
)
    ensures
        run_state(s, a + b) == run_state(run_state(s, a), b),
        run_events(s, a + b) == run_events(s, a) + run_events(run_state(s, a), b),
    decreases a.len(),
{
    if a.len() == 0 {
        assert(a + b =~= b);
        assert(run_events(s, a) + run_events(s, b) =~= run_events(s, b));
    } else {
        let s1 = step_state(s, a[0]);
        assert((a + b).drop_first() =~= a.drop_first() + b);
        lemma_events_follow_command_order(s1, a.drop_first(), b);
        assert(run_events(s, a + b) =~= run_events(s, a) + run_events(run_state(s, a), b));
    }
}

/// Law: a terminated worker is silent.  Once `live` is false, no sequence of
/// further commands changes the state or emits an event.
pub proof fn lemma_terminated_worker_is_silent(s: WorkerState, inputs: Seq<WorkerInput>)
    requires
        !s.live,
    ensures
        run_state(s, inputs) == s,
        run_events(s, inputs) == Seq::<PlayerEvent>::empty(),
    decreases inputs.len(),
{
    if inputs.len() == 0 {
    } else {
        lemma_terminated_worker_is_silent(s, inputs.drop_first());
        assert(run_events(s, inputs) =~= Seq::<PlayerEvent>::empty());
    }
}

/// Law: a command that reports an error is a no-op.  A failed load or seek
/// leaves the playback state untouched and broadcasts nothing; the error
/// goes only to the caller that issued the command.
pub proof fn lemma_failed_command_changes_nothing(s: WorkerState, inp: WorkerInput)
    requires
        step_error(s, inp) is Some,
    ensures
        step_state(s, inp) == s,
        step_events(s, inp) == Seq::<PlayerEvent>::empty(),
        step_action(s, inp) == DeviceAction::Stay,
{
}

/// Law: a seek beyond the loaded source's duration (or with no source
/// loaded) reports `SeekError`, emits no `Seeked` event and leaves the
/// playback phase unchanged, whatever the device would have said.
pub proof fn lemma_seek_out_of_range(s: WorkerState, position: u64, seek_supported: bool)
    requires
        s.live,
        position > s.duration || s.phase == Phase::Idle,
    ensures
        step_error(s, WorkerInput::Seek { position, seek_supported })
            == Some(PlayerError::SeekError),
        step_events(s, WorkerInput::Seek { position, seek_supported })
            == Seq::<PlayerEvent>::empty(),
        step_state(s, WorkerInput::Seek { position, seek_supported }) == s,
{
}

/// Law: a successful load followed immediately by a pause broadcasts exactly
/// `Playing` then `Paused` — never `Paused` alone, and never the two in the
/// other order.
pub proof fn lemma_load_then_pause(s: WorkerState, d: u64)
    requires
        s.live,
    ensures
        run_events(
            s,
            seq![WorkerInput::Load { decoded: Some(d) }, WorkerInput::Pause],
        ) == seq![PlayerEvent::Playing, PlayerEvent::Paused],
{
    let load = WorkerInput::Load { decoded: Some(d) };
    let pause = WorkerInput::Pause;
    let inputs = seq![load, pause];
    let s1 = step_state(s, load);
    let rest = inputs.drop_first();
    assert(inputs[0] == load);
    assert(rest.len() == 1 && rest[0] == pause);
    assert(s1 == WorkerState { phase: Phase::Playing, duration: d, live: true });
    assert(rest.drop_first().len() == 0);
    assert(run_events(step_state(s1, pause), rest.drop_first()) == Seq::<PlayerEvent>::empty());
    assert(run_events(s1, rest) =~= seq![PlayerEvent::Paused]);
    assert(run_events(s, inputs) =~= seq![PlayerEvent::Playing, PlayerEvent::Paused]);
}

/// Law: terminating the worker stops position updates.  After a terminate
/// command the poller emits nothing, and no later command produces an event.
pub proof fn lemma_terminate_stops_position_updates(
    s: WorkerState,
    later: Seq<WorkerInput>,
    device_position: u64,
)
    ensures
        !step_state(s, WorkerInput::Terminate).live,
        spec_poll(step_state(s, WorkerInput::Terminate), device_position) is None,
        run_events(step_state(s, WorkerInput::Terminate), later)
            == Seq::<PlayerEvent>::empty(),
{
    lemma_terminated_worker_is_silent(step_state(s, WorkerInput::Terminate), later);
}

/// Process a sequence of commands in order, collecting the broadcast events.
/// Returns the final state and the events in emission order.
pub fn run_steps(s: &WorkerState, inputs: &Vec<WorkerInput>) -> (r: (WorkerState, Vec<PlayerEvent>))
    ensures
        r.0 == run_state(*s, inputs@),
        r.1@ == run_events(*s, inputs@),
{
    let mut state = *s;
    let mut events: Vec<PlayerEvent> = Vec::new();
    let mut i: usize = 0;
    while i < inputs.len()
        invariant
            i <= inputs.len(),
            state == run_state(*s, inputs@.take(i as int)),
            events@ == run_events(*s, inputs@.take(i as int)),
        decreases inputs.len() - i,
    {
        let res = step(&state, &inputs[i]);
        let mut evs = res.events;
        events.append(&mut evs);
        proof {
            let pre = inputs@.take(i as int);
            let one = seq![inputs@[i as int]];
            assert(inputs@.take(i as int + 1) =~= pre + one);
            lemma_events_follow_command_order(*s, pre, one);
            assert(one[0] == inputs@[i as int]);
            assert(one.drop_first().len() == 0);
            let mid = step_state(state, inputs@[i as int]);
            assert(run_state(mid, one.drop_first()) == mid);
            assert(run_events(mid, one.drop_first()) == Seq::<PlayerEvent>::empty());
            assert(run_state(state, one) == mid);
            assert(run_events(state, one) =~= step_events(state, inputs@[i as int]));
        }
        state = res.state;
        i = i + 1;
    }
    proof {
        assert(inputs@.take(inputs@.len() as int) =~= inputs@);
    }
    (state, events)
}

} // verus!
