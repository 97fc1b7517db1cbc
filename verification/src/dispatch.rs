//! The key table: what each key of the keypad asks the host to do.

use vstd::prelude::*;

verus! {

/// The only layer whose keys have a meaning on the host.
pub const ACTIVE_LAYER: u8 = 0;

/// The two dedicated keys that the bridge can inject.
#[derive(Clone, Copy, Debug, PartialEq, Eq, Structural)]
pub enum SyntheticKey {
    A,
    B,
}

/// A piece of mixer state that the keypad displays.
#[derive(Clone, Copy, Debug, PartialEq, Eq, Structural)]
pub enum Feedback {
    /// Whether the default input source is muted.
    InputMute,
    /// The output volume, in percent.
    OutputVolume,
}

/// One call into a collaborator that returns nothing the bridge reads.
#[derive(Clone, Copy, Debug, PartialEq, Eq, Structural)]
pub enum Command {
    /// Press and release a dedicated key.
    InjectKey(SyntheticKey),
    /// Lower the output volume by one point.
    LowerVolume,
    /// Raise the output volume by one point.
    RaiseVolume,
    /// Toggle the output mute.
    ToggleOutputMute,
    /// Toggle the mute of the default input source.
    ToggleInputMute,
    /// Ask the player's volume script to decrease.
    ScriptLower,
    /// Ask the player's volume script to increase.
    ScriptRaise,
    /// Media controller: play or pause.
    PlayPause,
    /// Media controller: next track.
    NextTrack,
    /// Media controller: previous track.
    PreviousTrack,
    /// Window manager: toggle the player's special workspace.
    ToggleWorkspace,
    /// Window manager: launch the player.
    LaunchPlayer,
}

/// What a key press asks for.
#[derive(Clone, Copy, Debug, PartialEq, Eq, Structural)]
pub enum Action {
    /// Nothing.
    NoOp,
    /// One command.
    Run(Command),
    /// One command, after which the named mixer state is read again and
    /// reported to the keypad.
    RunThenReport(Command, Feedback),
    /// Show the player: toggle its workspace if it has a window, launch it
    /// otherwise.
    ShowPlayer,
}

/// The keys that the table gives a meaning.
pub open spec fn table_keys() -> Seq<char> {
    seq!['M', 'N', 'T', 'U', 'V', 'P', 'Q', 'R', 'W', 'B', 'Y', 'C', 'X', 'A', 'D']
}

/// The key table of the active layer.
pub open spec fn key_action(key: char) -> Action {
    if key == 'M' {
        Action::Run(Command::InjectKey(SyntheticKey::A))
    } else if key == 'N' {
        Action::Run(Command::InjectKey(SyntheticKey::B))
    } else if key == 'T' {
        Action::RunThenReport(Command::LowerVolume, Feedback::OutputVolume)
    } else if key == 'U' {
        Action::RunThenReport(Command::ToggleOutputMute, Feedback::OutputVolume)
    } else if key == 'V' {
        Action::RunThenReport(Command::RaiseVolume, Feedback::OutputVolume)
    } else if key == 'P' {
        Action::RunThenReport(Command::ToggleInputMute, Feedback::InputMute)
    } else if key == 'Q' {
        Action::Run(Command::ScriptLower)
    } else if key == 'R' {
        Action::Run(Command::ScriptRaise)
    } else if key == 'W' || key == 'B' {
        Action::Run(Command::PlayPause)
    } else if key == 'Y' || key == 'C' {
        Action::Run(Command::NextTrack)
    } else if key == 'X' || key == 'A' {
        Action::Run(Command::PreviousTrack)
    } else if key == 'D' {
        Action::ShowPlayer
    } else {
        Action::NoOp
    }
}

/// What the press of `key` on `layer` asks for.
pub open spec fn action_for(layer: u8, key: char) -> Action {
    if layer == ACTIVE_LAYER {
        key_action(key)
    } else {
        Action::NoOp
    }
}

/// Maps a decoded key press to its action.
pub fn dispatch(layer: u8, key: char) -> (action: Action)
    ensures
        action == action_for(layer, key),
{
    if layer != ACTIVE_LAYER {
        return Action::NoOp;
    }
    match key {
        'M' => Action::Run(Command::InjectKey(SyntheticKey::A)),
        'N' => Action::Run(Command::InjectKey(SyntheticKey::B)),
        'T' => Action::RunThenReport(Command::LowerVolume, Feedback::OutputVolume),
        'U' => Action::RunThenReport(Command::ToggleOutputMute, Feedback::OutputVolume),
        'V' => Action::RunThenReport(Command::RaiseVolume, Feedback::OutputVolume),
        'P' => Action::RunThenReport(Command::ToggleInputMute, Feedback::InputMute),
        'Q' => Action::Run(Command::ScriptLower),
        'R' => Action::Run(Command::ScriptRaise),
        'W' | 'B' => Action::Run(Command::PlayPause),
        'Y' | 'C' => Action::Run(Command::NextTrack),
        'X' | 'A' => Action::Run(Command::PreviousTrack),
        'D' => Action::ShowPlayer,
        _ => Action::NoOp,
    }
}

/// A key on any layer but the active one asks for nothing.
pub proof fn lemma_other_layers_idle(layer: u8, key: char)
    requires
        layer != ACTIVE_LAYER,
    ensures
        action_for(layer, key) == Action::NoOp,
{
}

/// A key that the table does not list asks for nothing.
pub proof fn lemma_unlisted_key_idle(key: char)
    requires
        !table_keys().contains(key),
    ensures
        action_for(ACTIVE_LAYER, key) == Action::NoOp,
{
    let keys = table_keys();
    assert(keys[0] == 'M' && keys[1] == 'N' && keys[2] == 'T' && keys[3] == 'U' && keys[4] == 'V');
    assert(keys[5] == 'P' && keys[6] == 'Q' && keys[7] == 'R' && keys[8] == 'W' && keys[9] == 'B');
    assert(keys[10] == 'Y' && keys[11] == 'C' && keys[12] == 'X' && keys[13] == 'A' && keys[14]
        == 'D');
}

/// Every key that the table lists asks for something.
pub proof fn lemma_listed_key_acts(key: char)
    requires
        table_keys().contains(key),
    ensures
        action_for(ACTIVE_LAYER, key) != Action::NoOp,
{
}

} // verus!
