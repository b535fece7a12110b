use chimp_osc::keys::{Key, PresetType, RecordMode};

fn addr(key: Key) -> String {
    key.to_osc()
}

#[test]
fn keypad_keys_live_under_the_keypad_namespace() {
    assert_eq!(addr(Key::Record), "/chimp/programmer/keypad/record");
    assert_eq!(addr(Key::Edit), "/chimp/programmer/keypad/edit");
    assert_eq!(addr(Key::Delete), "/chimp/programmer/keypad/delete");
    assert_eq!(addr(Key::Copy), "/chimp/programmer/keypad/copy");
    assert_eq!(addr(Key::Move), "/chimp/programmer/keypad/move");
    assert_eq!(addr(Key::Name), "/chimp/programmer/keypad/name");
    assert_eq!(addr(Key::Open), "/chimp/programmer/keypad/open");
    assert_eq!(addr(Key::Select), "/chimp/programmer/keypad/select");
    assert_eq!(addr(Key::Link), "/chimp/programmer/keypad/link");
    assert_eq!(addr(Key::Load), "/chimp/programmer/keypad/load");
    assert_eq!(addr(Key::Off), "/chimp/programmer/keypad/off");
    assert_eq!(addr(Key::Skip), "/chimp/programmer/keypad/skip");
    assert_eq!(addr(Key::GoTo), "/chimp/programmer/keypad/goto");
    assert_eq!(addr(Key::Time), "/chimp/programmer/keypad/time");
    assert_eq!(addr(Key::Fixture), "/chimp/programmer/keypad/fixture");
    assert_eq!(addr(Key::Group), "/chimp/programmer/keypad/group");
    assert_eq!(addr(Key::Preset), "/chimp/programmer/keypad/preset");
    assert_eq!(addr(Key::CueList), "/chimp/programmer/keypad/cuelist");
    assert_eq!(addr(Key::Cue), "/chimp/programmer/keypad/cue");
    assert_eq!(addr(Key::Effect), "/chimp/programmer/keypad/effect");
    assert_eq!(addr(Key::Minus), "/chimp/programmer/keypad/minus");
    assert_eq!(addr(Key::Plus), "/chimp/programmer/keypad/plus");
    assert_eq!(addr(Key::Thru), "/chimp/programmer/keypad/thru");
    assert_eq!(addr(Key::Full), "/chimp/programmer/keypad/full");
    assert_eq!(addr(Key::At), "/chimp/programmer/keypad/at");
    assert_eq!(addr(Key::FwSlash), "/chimp/programmer/keypad/fw_slash");
    assert_eq!(addr(Key::Backspace), "/chimp/programmer/keypad/backspace");
    assert_eq!(addr(Key::Dot), "/chimp/programmer/keypad/dot");
    assert_eq!(addr(Key::Enter), "/chimp/programmer/keypad/enter");
    assert_eq!(addr(Key::Shift), "/chimp/programmer/keypad/shift");
    assert_eq!(addr(Key::Home), "/chimp/programmer/keypad/home");
    assert_eq!(addr(Key::SetKey), "/chimp/programmer/keypad/set");
}

#[test]
fn clear_has_a_namespace_of_its_own() {
    assert_eq!(addr(Key::Clear), "/chimp/programmer/clear/btn");
}

#[test]
fn feature_keys_live_under_the_select_namespace() {
    assert_eq!(addr(Key::Intensity), "/chimp/programmer/feature/select/intensity");
    assert_eq!(addr(Key::Position), "/chimp/programmer/feature/select/position");
    assert_eq!(addr(Key::Color), "/chimp/programmer/feature/select/color");
    assert_eq!(addr(Key::Gobo), "/chimp/programmer/feature/select/gobo");
    assert_eq!(addr(Key::Beam), "/chimp/programmer/feature/select/beam");
    assert_eq!(addr(Key::Shaper), "/chimp/programmer/feature/select/shaper");
    assert_eq!(addr(Key::Control), "/chimp/programmer/feature/select/control");
    assert_eq!(addr(Key::Special), "/chimp/programmer/feature/select/special");
}

#[test]
fn digit_keys_differ_in_the_digit_only() {
    let expected = [
        "/chimp/programmer/keypad/0",
        "/chimp/programmer/keypad/1",
        "/chimp/programmer/keypad/2",
        "/chimp/programmer/keypad/3",
        "/chimp/programmer/keypad/4",
        "/chimp/programmer/keypad/5",
        "/chimp/programmer/keypad/6",
        "/chimp/programmer/keypad/7",
        "/chimp/programmer/keypad/8",
        "/chimp/programmer/keypad/9",
    ];
    for digit in 0u8..10 {
        assert_eq!(addr(Key::Number(digit)), expected[digit as usize]);
    }
}

#[test]
fn number_keys_beyond_nine_show_their_value_in_decimal() {
    assert_eq!(addr(Key::Number(10)), "/chimp/programmer/keypad/10");
    assert_eq!(addr(Key::Number(12)), "/chimp/programmer/keypad/12");
    assert_eq!(addr(Key::Number(100)), "/chimp/programmer/keypad/100");
    assert_eq!(addr(Key::Number(255)), "/chimp/programmer/keypad/255");
}

#[test]
fn every_number_key_has_the_address_that_formatting_gives() {
    for value in 0u8..=255 {
        assert_eq!(addr(Key::Number(value)), format!("/chimp/programmer/keypad/{}", value));
    }
}

#[test]
fn addresses_are_never_empty_and_always_the_same() {
    let keys = all_keys();
    for key in keys.iter() {
        let first = key.to_osc();
        let second = key.to_osc();
        assert!(!first.is_empty());
        assert!(first.starts_with("/chimp/programmer/"));
        assert_eq!(first, second);
    }
}

#[test]
fn no_two_keys_share_an_address() {
    let keys = all_keys();
    for (i, a) in keys.iter().enumerate() {
        for (j, b) in keys.iter().enumerate() {
            if i != j {
                assert_ne!(a.to_osc(), b.to_osc());
            }
        }
    }
}

#[test]
fn each_preset_type_has_its_select_key() {
    assert_eq!(Key::from(PresetType::Intensity), Key::Intensity);
    assert_eq!(Key::from(PresetType::Color), Key::Color);
    assert_eq!(Key::from(PresetType::Position), Key::Position);
    assert_eq!(Key::from(PresetType::Beam), Key::Beam);
    assert_eq!(Key::from(PresetType::Control), Key::Control);
    assert_eq!(Key::from(PresetType::Special), Key::Special);
    assert_eq!(PresetType::Beam.key(), Key::Beam);
    let key: Key = PresetType::Special.into();
    assert_eq!(key.to_osc(), "/chimp/programmer/feature/select/special");
}

#[test]
fn record_modes_have_their_repeat_counts() {
    assert_eq!(RecordMode::Merge.repeat_count(), 1);
    assert_eq!(RecordMode::Remove.repeat_count(), 2);
    assert_eq!(RecordMode::Replace.repeat_count(), 3);
    assert_eq!(RecordMode::Insert.repeat_count(), 4);
}

#[test]
fn merge_is_the_default_record_mode() {
    assert_eq!(RecordMode::default(), RecordMode::Merge);
}

fn all_keys() -> Vec<Key> {
    let mut keys = vec![
        Key::Record,
        Key::Edit,
        Key::Delete,
        Key::Copy,
        Key::Move,
        Key::Name,
        Key::Open,
        Key::Select,
        Key::Link,
        Key::Load,
        Key::Off,
        Key::Skip,
        Key::GoTo,
        Key::Time,
        Key::Fixture,
        Key::Group,
        Key::Preset,
        Key::CueList,
        Key::Cue,
        Key::Effect,
        Key::Minus,
        Key::Plus,
        Key::Thru,
        Key::Full,
        Key::At,
        Key::FwSlash,
        Key::Backspace,
        Key::Dot,
        Key::Enter,
        Key::Shift,
        Key::Home,
        Key::SetKey,
        Key::Clear,
        Key::Intensity,
        Key::Position,
        Key::Color,
        Key::Gobo,
        Key::Beam,
        Key::Shaper,
        Key::Control,
        Key::Special,
    ];
    for value in 0u8..=255 {
        keys.push(Key::Number(value));
    }
    keys
}
