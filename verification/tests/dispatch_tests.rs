use keypad_bridge::dispatch::{dispatch, Action, Command, Feedback, SyntheticKey, ACTIVE_LAYER};

const TABLE_KEYS: &str = "MNTUVPQRWBYCXAD";

#[test]
fn synthetic_keys() {
    assert_eq!(dispatch(0, 'M'), Action::Run(Command::InjectKey(SyntheticKey::A)));
    assert_eq!(dispatch(0, 'N'), Action::Run(Command::InjectKey(SyntheticKey::B)));
    assert_ne!(dispatch(0, 'M'), dispatch(0, 'N'));
}

#[test]
fn mixer_keys_report_back() {
    assert_eq!(
        dispatch(0, 'T'),
        Action::RunThenReport(Command::LowerVolume, Feedback::OutputVolume)
    );
    assert_eq!(
        dispatch(0, 'U'),
        Action::RunThenReport(Command::ToggleOutputMute, Feedback::OutputVolume)
    );
    assert_eq!(
        dispatch(0, 'V'),
        Action::RunThenReport(Command::RaiseVolume, Feedback::OutputVolume)
    );
    assert_eq!(
        dispatch(0, 'P'),
        Action::RunThenReport(Command::ToggleInputMute, Feedback::InputMute)
    );
}

#[test]
fn script_keys() {
    assert_eq!(dispatch(0, 'Q'), Action::Run(Command::ScriptLower));
    assert_eq!(dispatch(0, 'R'), Action::Run(Command::ScriptRaise));
}

#[test]
fn media_keys() {
    for key in ['W', 'B'] {
        assert_eq!(dispatch(0, key), Action::Run(Command::PlayPause));
    }
    for key in ['Y', 'C'] {
        assert_eq!(dispatch(0, key), Action::Run(Command::NextTrack));
    }
    for key in ['X', 'A'] {
        assert_eq!(dispatch(0, key), Action::Run(Command::PreviousTrack));
    }
}

#[test]
fn player_key() {
    assert_eq!(dispatch(0, 'D'), Action::ShowPlayer);
}

#[test]
fn every_listed_key_acts() {
    assert_eq!(TABLE_KEYS.chars().count(), 15);
    for key in TABLE_KEYS.chars() {
        assert_ne!(dispatch(ACTIVE_LAYER, key), Action::NoOp);
    }
}

#[test]
fn every_unlisted_key_is_idle() {
    for code in 0u32..=0x10FFFF {
        if let Some(key) = char::from_u32(code) {
            if !TABLE_KEYS.contains(key) {
                assert_eq!(dispatch(0, key), Action::NoOp);
            }
        }
    }
}

#[test]
fn lower_case_keys_are_idle() {
    for key in "mntuvpqrwbycxad".chars() {
        assert_eq!(dispatch(0, key), Action::NoOp);
    }
}

#[test]
fn other_layers_are_idle() {
    for layer in 1u8..=255 {
        for code in 0u32..=0x7F {
            let key = char::from_u32(code).unwrap();
            assert_eq!(dispatch(layer, key), Action::NoOp);
        }
    }
}
