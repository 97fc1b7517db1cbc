//! The event loop as a transition function.
//!
//! The loop itself runs in the driver: it performs the effect it was handed,
//! reports what came of it as an event, and receives the next effect. Which
//! effect follows which event is decided here.

use vstd::prelude::*;
use crate::codec::{
    decode_event, encode_request, key_char, request_bytes, MUTE_REPORT, REPORT_LENGTH,
    REQUEST_LENGTH, VOLUME_REPORT,
};
use crate::dispatch::{action_for, dispatch, Action, Command, Feedback};
use crate::failure::{Failure, TransportError};
use crate::text::{contains_word, mentions, mute_of, parse_mute, parse_volume, volume_of};

verus! {

/// How long the read after a write waits for the keypad's answer, in
/// milliseconds.
pub const ACK_TIMEOUT_MS: i32 = 1000;

/// Where one report to the keypad stands.
#[derive(Clone, Copy, Debug, PartialEq, Eq, Structural)]
pub enum Stage {
    /// The mixer was asked; its answer is awaited.
    Query,
    /// The report was handed to the transport; the write is awaited.
    Write,
    /// The report was written; the keypad's answer is awaited.
    Acknowledge,
}

/// What the loop is waiting for.
#[derive(Clone, Copy, Debug, PartialEq, Eq)]
pub enum LoopState {
    /// A piece of mixer state is on its way to the keypad. `startup` is set
    /// while the initial state is being sent.
    Syncing { stage: Stage, feedback: Feedback, startup: bool },
    /// The next key press is awaited.
    Listening,
    /// A command is running; `then` is the state to report when it ends.
    Running { then: Option<Feedback> },
    /// The window manager was asked for its windows.
    Probing,
    /// The loop has ended.
    Halted { failure: Failure },
}

/// What came of the operation that the driver performed last.
#[derive(Clone, Debug, PartialEq, Eq)]
pub enum Event {
    /// A collaborator printed this text.
    Answer(String),
    /// The report was written.
    Written,
    /// A read returned `count` bytes in `report`.
    Read { count: usize, report: [u8; REPORT_LENGTH] },
    /// The command ended.
    Done,
    /// The operation failed.
    Failed,
}

/// The operation that the driver is to perform next.
#[derive(Clone, Copy, Debug, PartialEq, Eq)]
pub enum Effect {
    /// Ask the mixer for a piece of its state; answered by `Answer`.
    QueryMixer(Feedback),
    /// Ask the window manager for its windows; answered by `Answer`.
    ListWindows,
    /// Write these bytes to the keypad; answered by `Written`.
    Write([u8; REQUEST_LENGTH]),
    /// Read one report, waiting at most `timeout_ms` milliseconds, or
    /// without limit; answered by `Read`.
    Read { timeout_ms: Option<i32> },
    /// Run a command; answered by `Done`.
    Perform(Command),
    /// Perform nothing more.
    Stop(Failure),
}

/// An effect with its bytes as a sequence.
pub enum EffectView {
    QueryMixer(Feedback),
    ListWindows,
    Write(Seq<u8>),
    Read { timeout_ms: Option<i32> },
    Perform(Command),
    Stop(Failure),
}

impl View for Effect {
    type V = EffectView;

    open spec fn view(&self) -> EffectView {
        match *self {
            Effect::QueryMixer(feedback) => EffectView::QueryMixer(feedback),
            Effect::ListWindows => EffectView::ListWindows,
            Effect::Write(frame) => EffectView::Write(frame@),
            Effect::Read { timeout_ms } => EffectView::Read { timeout_ms },
            Effect::Perform(command) => EffectView::Perform(command),
            Effect::Stop(failure) => EffectView::Stop(failure),
        }
    }
}

/// The word by which the player's window is recognised.
pub open spec fn player_word() -> Seq<char> {
    seq!['S', 'p', 'o', 't', 'i', 'f', 'y']
}

/// The report kind under which a piece of mixer state travels.
pub open spec fn report_kind(feedback: Feedback) -> u8 {
    match feedback {
        Feedback::InputMute => MUTE_REPORT,
        Feedback::OutputVolume => VOLUME_REPORT,
    }
}

/// The value byte that the mixer's answer `text` gives a report: one or
/// zero for the mute state, the number for the volume. An answer that
/// holds no volume gives none.
pub open spec fn report_value(feedback: Feedback, text: Seq<char>) -> Option<u8> {
    match feedback {
        Feedback::InputMute => Some(if mute_of(text) { 1u8 } else { 0u8 }),
        Feedback::OutputVolume => volume_of(text),
    }
}

/// The loop ends with `failure`.
pub open spec fn halt(failure: Failure) -> (LoopState, EffectView) {
    (LoopState::Halted { failure }, EffectView::Stop(failure))
}

/// The loop waits for the next key press, without a time limit.
pub open spec fn listen() -> (LoopState, EffectView) {
    (LoopState::Listening, EffectView::Read { timeout_ms: None })
}

/// The loop sets out to report `feedback` to the keypad.
pub open spec fn report(feedback: Feedback, startup: bool) -> (LoopState, EffectView) {
    (
        LoopState::Syncing { stage: Stage::Query, feedback, startup },
        EffectView::QueryMixer(feedback),
    )
}

/// How the loop begins: by reporting the input mute state.
pub open spec fn initial() -> (LoopState, EffectView) {
    report(Feedback::InputMute, true)
}

/// What the loop does about a key press that asks for `action`.
pub open spec fn react(action: Action) -> (LoopState, EffectView) {
    match action {
        Action::NoOp => listen(),
        Action::Run(command) => (LoopState::Running { then: None }, EffectView::Perform(command)),
        Action::RunThenReport(command, feedback) => (
            LoopState::Running { then: Some(feedback) },
            EffectView::Perform(command),
        ),
        Action::ShowPlayer => (LoopState::Probing, EffectView::ListWindows),
    }
}

/// The command that shows the player, given the window manager's list.
pub open spec fn show_player(windows: Seq<char>) -> Command {
    if mentions(windows, player_word()) {
        Command::ToggleWorkspace
    } else {
        Command::LaunchPlayer
    }
}

/// The transition function: the state after `event` arrives in `state`,
/// and the effect to perform next.
pub open spec fn next(state: LoopState, event: Event) -> (LoopState, EffectView) {
    match state {
        LoopState::Halted { failure } => halt(failure),
        LoopState::Syncing { stage: Stage::Query, feedback, startup } => match event {
            Event::Answer(text) => match report_value(feedback, text@) {
                Some(value) => (
                    LoopState::Syncing { stage: Stage::Write, feedback, startup },
                    EffectView::Write(request_bytes(report_kind(feedback), value)),
                ),
                None => halt(Failure::Collaborator),
            },
            Event::Failed => halt(Failure::Collaborator),
            _ => halt(Failure::OutOfTurn),
        },
        LoopState::Syncing { stage: Stage::Write, feedback, startup } => match event {
            Event::Written => (
                LoopState::Syncing { stage: Stage::Acknowledge, feedback, startup },
                EffectView::Read { timeout_ms: Some(ACK_TIMEOUT_MS) },
            ),
            Event::Failed => halt(Failure::Transport(TransportError::Write)),
            _ => halt(Failure::OutOfTurn),
        },
        LoopState::Syncing { stage: Stage::Acknowledge, feedback, startup } => match event {
            Event::Read { count, report: _ } => if count == 0 {
                halt(Failure::Transport(TransportError::NoAcknowledgment))
            } else if startup && feedback == Feedback::InputMute {
                report(Feedback::OutputVolume, true)
            } else {
                listen()
            },
            Event::Failed => halt(Failure::Transport(TransportError::Read)),
            _ => halt(Failure::OutOfTurn),
        },
        LoopState::Listening => match event {
            Event::Read { count: _, report } => react(
                action_for(report@[0], key_char(report@[1])),
            ),
            Event::Failed => halt(Failure::Transport(TransportError::Read)),
            _ => halt(Failure::OutOfTurn),
        },
        LoopState::Running { then } => match event {
            Event::Done => match then {
                Some(feedback) => report(feedback, false),
                None => listen(),
            },
            Event::Failed => halt(Failure::Collaborator),
            _ => halt(Failure::OutOfTurn),
        },
        LoopState::Probing => match event {
            Event::Answer(text) => (
                LoopState::Running { then: None },
                EffectView::Perform(show_player(text@)),
            ),
            Event::Failed => halt(Failure::Collaborator),
            _ => halt(Failure::OutOfTurn),
        },
    }
}

/// The state that a run of events leads to.
pub open spec fn run(state: LoopState, events: Seq<Event>) -> LoopState
    decreases events.len(),
{
    if events.len() == 0 {
        state
    } else {
        run(next(state, events.first()).0, events.drop_first())
    }
}

/// The word by which the player's window is recognised.
pub fn player_window() -> (word: &'static str)
    ensures
        word@ == player_word(),
{
    let word = "Spotify";
    proof {
        reveal_strlit("Spotify");
        assert(word@ =~= player_word());
    }
    word
}

fn halted(failure: Failure) -> (out: (LoopState, Effect))
    ensures
        (out.0, out.1@) == halt(failure),
{
    (LoopState::Halted { failure }, Effect::Stop(failure))
}

fn listening() -> (out: (LoopState, Effect))
    ensures
        (out.0, out.1@) == listen(),
{
    (LoopState::Listening, Effect::Read { timeout_ms: None })
}

fn reporting(feedback: Feedback, startup: bool) -> (out: (LoopState, Effect))
    ensures
        (out.0, out.1@) == report(feedback, startup),
{
    (LoopState::Syncing { stage: Stage::Query, feedback, startup }, Effect::QueryMixer(feedback))
}

/// The first state of the loop and the first effect to perform.
pub fn start() -> (out: (LoopState, Effect))
    ensures
        (out.0, out.1@) == initial(),
{
    reporting(Feedback::InputMute, true)
}

/// Takes the loop one step: given what came of the last effect, the new
/// state and the effect to perform next.
pub fn step(state: LoopState, event: Event) -> (out: (LoopState, Effect))
    ensures
        (out.0, out.1@) == next(state, event),
{
    match state {
        LoopState::Halted { failure } => halted(failure),
        LoopState::Syncing { stage: Stage::Query, feedback, startup } => match event {
            Event::Answer(text) => {
                let value = match feedback {
                    Feedback::InputMute => Some(if parse_mute(text.as_str()) { 1u8 } else { 0u8 }),
                    Feedback::OutputVolume => parse_volume(text.as_str()),
                };
                let kind = match feedback {
                    Feedback::InputMute => MUTE_REPORT,
                    Feedback::OutputVolume => VOLUME_REPORT,
                };
                match value {
                    Some(value) => (
                        LoopState::Syncing { stage: Stage::Write, feedback, startup },
                        Effect::Write(encode_request(kind, value)),
                    ),
                    None => halted(Failure::Collaborator),
                }
            },
            Event::Failed => halted(Failure::Collaborator),
            _ => halted(Failure::OutOfTurn),
        },
        LoopState::Syncing { stage: Stage::Write, feedback, startup } => match event {
            Event::Written => (
                LoopState::Syncing { stage: Stage::Acknowledge, feedback, startup },
                Effect::Read { timeout_ms: Some(ACK_TIMEOUT_MS) },
            ),
            Event::Failed => halted(Failure::Transport(TransportError::Write)),
            _ => halted(Failure::OutOfTurn),
        },
        LoopState::Syncing { stage: Stage::Acknowledge, feedback, startup } => match event {
            Event::Read { count, report: _ } => {
                if count == 0 {
                    halted(Failure::Transport(TransportError::NoAcknowledgment))
                } else if startup && feedback == Feedback::InputMute {
                    reporting(Feedback::OutputVolume, true)
                } else {
                    listening()
                }
            },
            Event::Failed => halted(Failure::Transport(TransportError::Read)),
            _ => halted(Failure::OutOfTurn),
        },
        LoopState::Listening => match event {
            Event::Read { count: _, report } => {
                let (layer, key) = decode_event(&report);
                match dispatch(layer, key) {
                    Action::NoOp => listening(),
                    Action::Run(command) => (
                        LoopState::Running { then: None },
                        Effect::Perform(command),
                    ),
                    Action::RunThenReport(command, feedback) => (
                        LoopState::Running { then: Some(feedback) },
                        Effect::Perform(command),
                    ),
                    Action::ShowPlayer => (LoopState::Probing, Effect::ListWindows),
                }
            },
            Event::Failed => halted(Failure::Transport(TransportError::Read)),
            _ => halted(Failure::OutOfTurn),
        },
        LoopState::Running { then } => match event {
            Event::Done => match then {
                Some(feedback) => reporting(feedback, false),
                None => listening(),
            },
            Event::Failed => halted(Failure::Collaborator),
            _ => halted(Failure::OutOfTurn),
        },
        LoopState::Probing => match event {
            Event::Answer(text) => {
                let command = if contains_word(text.as_str(), player_window()) {
                    Command::ToggleWorkspace
                } else {
                    Command::LaunchPlayer
                };
                (LoopState::Running { then: None }, Effect::Perform(command))
            },
            Event::Failed => halted(Failure::Collaborator),
            _ => halted(Failure::OutOfTurn),
        },
    }
}

/// The loop starts by sending the keypad the input mute state and then the
/// output volume, in that order, each write followed by a timed read, and
/// only then waits for a key press.
pub proof fn lemma_startup_reports(mute: Event, volume: Event, ack_mute: Event, ack_volume: Event)
    requires
        mute is Answer,
        volume matches Event::Answer(text) && volume_of(text@) is Some,
        ack_mute matches Event::Read { count, .. } && count > 0,
        ack_volume matches Event::Read { count, .. } && count > 0,
    ensures
        ({
            let asked_mute = initial();
            let wrote_mute = next(asked_mute.0, mute);
            let awaited_mute = next(wrote_mute.0, Event::Written);
            let asked_volume = next(awaited_mute.0, ack_mute);
            let wrote_volume = next(asked_volume.0, volume);
            let awaited_volume = next(wrote_volume.0, Event::Written);
            &&& asked_mute.1 == EffectView::QueryMixer(Feedback::InputMute)
            &&& wrote_mute.1 == EffectView::Write(
                request_bytes(MUTE_REPORT, if mute_of(mute->Answer_0@) { 1u8 } else { 0u8 }),
            )
            &&& awaited_mute.1 == EffectView::Read { timeout_ms: Some(ACK_TIMEOUT_MS) }
            &&& asked_volume.1 == EffectView::QueryMixer(Feedback::OutputVolume)
            &&& wrote_volume.1 == EffectView::Write(
                request_bytes(VOLUME_REPORT, volume_of(volume->Answer_0@)->0),
            )
            &&& awaited_volume.1 == EffectView::Read { timeout_ms: Some(ACK_TIMEOUT_MS) }
            &&& next(awaited_volume.0, ack_volume) == listen()
        }),
{
}

/// A key that asks for a command with feedback leads to exactly that
/// command, then to one query of exactly that piece of mixer state, then to
/// one report of its kind with the value that the mixer answered, and back
/// to waiting for a key press.
pub proof fn lemma_feedback_round(
    press: Event,
    command: Command,
    feedback: Feedback,
    answer: Event,
    ack: Event,
)
    requires
        press matches Event::Read { report, .. } && action_for(report@[0], key_char(report@[1]))
            == Action::RunThenReport(command, feedback),
        answer matches Event::Answer(text) && report_value(feedback, text@) is Some,
        ack matches Event::Read { count, .. } && count > 0,
    ensures
        ({
            let ran = next(LoopState::Listening, press);
            let asked = next(ran.0, Event::Done);
            let wrote = next(asked.0, answer);
            let awaited = next(wrote.0, Event::Written);
            &&& ran.1 == EffectView::Perform(command)
            &&& asked.1 == EffectView::QueryMixer(feedback)
            &&& wrote.1 == EffectView::Write(
                request_bytes(report_kind(feedback), report_value(feedback, answer->Answer_0@)->0),
            )
            &&& awaited.1 == EffectView::Read { timeout_ms: Some(ACK_TIMEOUT_MS) }
            &&& next(awaited.0, ack) == listen()
        }),
{
}

/// The driver is told to read without a time limit exactly when the loop
/// comes to wait for a key press.
pub proof fn lemma_untimed_read_means_listening(state: LoopState, event: Event)
    ensures
        next(state, event).1 == (EffectView::Read { timeout_ms: None }) <==> next(state, event).0
            == LoopState::Listening,
        initial().0 != LoopState::Listening,
        initial().1 != (EffectView::Read { timeout_ms: None }),
{
}

/// A write or a read that fails ends the loop with a transport failure,
/// whatever the loop was sending or waiting for.
pub proof fn lemma_transport_failure_halts(state: LoopState)
    requires
        state == LoopState::Listening || (state matches LoopState::Syncing { stage, .. } && stage
            != Stage::Query),
    ensures
        next(state, Event::Failed).0 matches LoopState::Halted { failure } && failure is Transport,
        next(state, Event::Failed).1 is Stop,
{
}

/// The loop itself ends for three reasons only: the transport failed, a
/// collaborator failed, or an event came out of turn.
pub proof fn lemma_halting_failures(state: LoopState, event: Event)
    requires
        !(state is Halted),
    ensures
        next(state, event).0 matches LoopState::Halted { failure } ==> failure is Transport
            || failure == Failure::Collaborator || failure == Failure::OutOfTurn,
        next(state, event).0 is Halted <==> next(state, event).1 is Stop,
{
}

/// Once the loop has ended it stays ended: whatever events arrive, the
/// state does not change and no operation is asked for.
pub proof fn lemma_halted_is_final(failure: Failure, events: Seq<Event>)
    ensures
        run(LoopState::Halted { failure }, events) == (LoopState::Halted { failure }),
        forall|event: Event| #[trigger] next(LoopState::Halted { failure }, event) == halt(failure),
    decreases events.len(),
{
    if events.len() > 0 {
        lemma_halted_is_final(failure, events.drop_first());
    }
}

} // verus!
