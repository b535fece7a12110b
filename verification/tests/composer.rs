use chimp_osc::chimp::ChimpConnection;
use chimp_osc::keys::{Key, PresetType, RecordMode};
use chimp_osc::recorder::{Recorder, Step};

const KEYPAD: &str = "/chimp/programmer/keypad/";

fn toggle(addr: &str, value: bool) -> Step {
    Step::Toggle { addr: addr.to_string(), value }
}

fn delay(millis: u64) -> Step {
    Step::Delay { millis }
}

fn press(addr: &str) -> Vec<Step> {
    vec![toggle(addr, true), delay(10), toggle(addr, false), delay(20)]
}

fn keypad(name: &str) -> Vec<Step> {
    press(&format!("{}{}", KEYPAD, name))
}

fn enter() -> Vec<Step> {
    let mut steps = keypad("enter");
    steps.push(delay(50));
    steps
}

fn join(parts: Vec<Vec<Step>>) -> Vec<Step> {
    parts.into_iter().flatten().collect()
}

/// The names of the keys that are pressed, in order, with the pauses left out.
fn pressed(steps: &[Step]) -> Vec<String> {
    let mut names = Vec::new();
    for step in steps {
        if let Step::Toggle { addr, value: true } = step {
            names.push(addr.trim_start_matches("/chimp/programmer").to_string());
        }
    }
    names
}

#[test]
fn hold_key_sends_true_and_waits_ten_milliseconds() {
    let mut conn = Recorder::new();
    conn.hold_key(Key::Shift);
    assert_eq!(conn.steps, vec![toggle("/chimp/programmer/keypad/shift", true), delay(10)]);
    assert_eq!(conn.elapsed_millis(), 10);
}

#[test]
fn release_key_sends_false_and_waits_twenty_milliseconds() {
    let mut conn = Recorder::new();
    conn.release_key(Key::Shift);
    assert_eq!(conn.steps, vec![toggle("/chimp/programmer/keypad/shift", false), delay(20)]);
    assert_eq!(conn.elapsed_millis(), 20);
}

#[test]
fn press_key_is_hold_then_release() {
    let mut pressed_once = Recorder::new();
    pressed_once.press_key(Key::Group);
    let mut by_hand = Recorder::new();
    by_hand.hold_key(Key::Group);
    by_hand.release_key(Key::Group);
    assert_eq!(pressed_once.steps, by_hand.steps);
    assert_eq!(pressed_once.steps, keypad("group"));
    assert_eq!(pressed_once.elapsed_millis(), 30);
}

#[test]
fn press_key_times_repeats_the_press() {
    let mut conn = Recorder::new();
    conn.press_key_times(Key::Record, 3);
    assert_eq!(conn.steps, join(vec![keypad("record"), keypad("record"), keypad("record")]));
    assert_eq!(conn.elapsed_millis(), 90);
}

#[test]
fn press_key_times_zero_does_nothing() {
    let mut conn = Recorder::new();
    conn.press_key_times(Key::Record, 0);
    assert!(conn.steps.is_empty());
    assert_eq!(conn.elapsed_millis(), 0);
}

#[test]
fn enter_takes_a_key_press_and_fifty_milliseconds_more() {
    let mut conn = Recorder::new();
    conn.enter();
    assert_eq!(conn.steps, enter());
    let mut only_press = Recorder::new();
    only_press.press_key(Key::Enter);
    assert_eq!(conn.elapsed_millis(), only_press.elapsed_millis() + 50);
    assert_eq!(conn.elapsed_millis(), 80);
}

#[test]
fn send_number_zero_is_one_press_of_zero() {
    let mut conn = Recorder::new();
    conn.send_number(0);
    assert_eq!(conn.steps, keypad("0"));
}

#[test]
fn send_number_501_presses_5_0_1() {
    let mut conn = Recorder::new();
    conn.send_number(501);
    assert_eq!(conn.steps, join(vec![keypad("5"), keypad("0"), keypad("1")]));
    assert_eq!(pressed(&conn.steps), vec!["/keypad/5", "/keypad/0", "/keypad/1"]);
}

#[test]
fn send_number_65535_presses_6_5_5_3_5() {
    let mut conn = Recorder::new();
    conn.send_number(65535);
    assert_eq!(
        pressed(&conn.steps),
        vec!["/keypad/6", "/keypad/5", "/keypad/5", "/keypad/3", "/keypad/5"]
    );
    assert_eq!(conn.steps.len(), 20);
    assert_eq!(conn.elapsed_millis(), 150);
}

#[test]
fn sync_is_one_bare_message() {
    let mut conn = Recorder::new();
    conn.sync();
    assert_eq!(conn.steps, vec![Step::Trigger { addr: "/chimp/sync".to_string() }]);
    assert_eq!(conn.elapsed_millis(), 0);
}

#[test]
fn clear_presses_clear() {
    let mut conn = Recorder::new();
    conn.clear();
    assert_eq!(conn.steps, press("/chimp/programmer/clear/btn"));
}

#[test]
fn select_group_types_group_number_enter() {
    let mut conn = Recorder::new();
    conn.select_group(12);
    assert_eq!(conn.steps, join(vec![keypad("group"), keypad("1"), keypad("2"), enter()]));
}

#[test]
fn select_preset_types_preset_category_number_enter() {
    let mut conn = Recorder::new();
    conn.select_preset(PresetType::Color, 10);
    assert_eq!(
        conn.steps,
        join(vec![
            keypad("preset"),
            press("/chimp/programmer/feature/select/color"),
            keypad("1"),
            keypad("0"),
            enter(),
        ])
    );
}

#[test]
fn select_preset_uses_the_key_of_each_category() {
    let cases = [
        (PresetType::Intensity, "intensity"),
        (PresetType::Color, "color"),
        (PresetType::Position, "position"),
        (PresetType::Beam, "beam"),
        (PresetType::Control, "control"),
        (PresetType::Special, "special"),
    ];
    for (preset_type, name) in cases {
        let mut conn = Recorder::new();
        conn.select_preset(preset_type, 1);
        assert_eq!(
            pressed(&conn.steps),
            vec![
                "/keypad/preset".to_string(),
                format!("/feature/select/{}", name),
                "/keypad/1".to_string(),
                "/keypad/enter".to_string(),
            ]
        );
    }
}

#[test]
fn delete_group_5_thru_9() {
    let mut conn = Recorder::new();
    conn.delete(Key::Group, 5..9);
    assert_eq!(
        conn.steps,
        join(vec![
            keypad("delete"),
            keypad("group"),
            keypad("5"),
            keypad("thru"),
            keypad("9"),
            enter(),
            vec![delay(500)],
            enter(),
            vec![delay(1000)],
        ])
    );
    assert_eq!(
        pressed(&conn.steps),
        vec![
            "/keypad/delete",
            "/keypad/group",
            "/keypad/5",
            "/keypad/thru",
            "/keypad/9",
            "/keypad/enter",
            "/keypad/enter",
        ]
    );
    assert_eq!(conn.elapsed_millis(), 5 * 30 + 80 + 500 + 80 + 1000);
}

#[test]
fn delete_types_every_digit_of_both_ends() {
    let mut conn = Recorder::new();
    conn.delete(Key::CueList, 1..1024);
    assert_eq!(
        pressed(&conn.steps),
        vec![
            "/keypad/delete",
            "/keypad/cuelist",
            "/keypad/1",
            "/keypad/thru",
            "/keypad/1",
            "/keypad/0",
            "/keypad/2",
            "/keypad/4",
            "/keypad/enter",
            "/keypad/enter",
        ]
    );
}

fn record_with(mode: RecordMode) -> Vec<Step> {
    let mut conn = Recorder::new();
    conn.record(Key::CueList, 501, mode);
    conn.steps
}

fn expected_record(times: usize) -> Vec<Step> {
    let shift = "/chimp/programmer/keypad/shift";
    let mut parts = vec![keypad("record"), vec![toggle(shift, true), delay(10)]];
    for _ in 0..times {
        parts.push(keypad("record"));
    }
    parts.push(vec![toggle(shift, false), delay(20)]);
    parts.push(keypad("cuelist"));
    parts.push(keypad("5"));
    parts.push(keypad("0"));
    parts.push(keypad("1"));
    parts.push(enter());
    join(parts)
}

/// How often Record goes down between Shift going down and Shift coming up.
fn records_under_shift(steps: &[Step]) -> usize {
    let shift = "/chimp/programmer/keypad/shift";
    let record = "/chimp/programmer/keypad/record";
    let down = steps.iter().position(|s| *s == toggle(shift, true)).unwrap();
    let up = steps.iter().position(|s| *s == toggle(shift, false)).unwrap();
    assert!(down < up);
    steps[down..up].iter().filter(|s| **s == toggle(record, true)).count()
}

#[test]
fn record_merge_presses_record_once_under_shift() {
    let steps = record_with(RecordMode::Merge);
    assert_eq!(steps, expected_record(1));
    assert_eq!(records_under_shift(&steps), 1);
}

#[test]
fn record_remove_presses_record_twice_under_shift() {
    let steps = record_with(RecordMode::Remove);
    assert_eq!(steps, expected_record(2));
    assert_eq!(records_under_shift(&steps), 2);
}

#[test]
fn record_replace_presses_record_three_times_under_shift() {
    let steps = record_with(RecordMode::Replace);
    assert_eq!(steps, expected_record(3));
    assert_eq!(records_under_shift(&steps), 3);
}

#[test]
fn record_insert_presses_record_four_times_under_shift() {
    let steps = record_with(RecordMode::Insert);
    assert_eq!(steps, expected_record(4));
    assert_eq!(records_under_shift(&steps), 4);
}

#[test]
fn record_lets_shift_up_before_the_target_key_goes_down() {
    for mode in [RecordMode::Merge, RecordMode::Remove, RecordMode::Replace, RecordMode::Insert] {
        let steps = record_with(mode);
        let up = steps
            .iter()
            .position(|s| *s == toggle("/chimp/programmer/keypad/shift", false))
            .unwrap();
        let target = steps
            .iter()
            .position(|s| *s == toggle("/chimp/programmer/keypad/cuelist", true))
            .unwrap();
        let last_record = steps
            .iter()
            .rposition(|s| *s == toggle("/chimp/programmer/keypad/record", false))
            .unwrap();
        assert!(last_record < up);
        assert!(up < target);
    }
}

#[test]
fn operations_follow_one_another_on_one_connection() {
    let mut conn = Recorder::new();
    conn.sync();
    conn.clear();
    conn.select_group(4);
    let mut expected = vec![Step::Trigger { addr: "/chimp/sync".to_string() }];
    expected.extend(press("/chimp/programmer/clear/btn"));
    expected.extend(join(vec![keypad("group"), keypad("4"), enter()]));
    assert_eq!(conn.steps, expected);
    assert_eq!(conn.elapsed_millis(), 30 + 30 + 30 + 80);
}

#[test]
fn the_clock_counts_pauses_only() {
    let mut conn = Recorder::new();
    conn.send_bool("/a".to_string(), true);
    conn.send_msg("/b".to_string());
    assert_eq!(conn.elapsed_millis(), 0);
    conn.delay(u64::MAX);
    conn.delay(u64::MAX);
    assert_eq!(conn.elapsed_millis(), 2 * (u64::MAX as u128));
    assert_eq!(
        conn.steps,
        vec![
            toggle("/a", true),
            Step::Trigger { addr: "/b".to_string() },
            delay(u64::MAX),
            delay(u64::MAX),
        ]
    );
}
