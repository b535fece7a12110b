//! What a console operation puts on the wire, and when.
//!
//! An operation is a fixed sequence of messages and pauses. The functions
//! here say, for each operation, which sequence that is.

use crate::digits::{decimal_digits, lemma_decimal_digits, lemma_decimal_digits_len};
use crate::keys::{Key, PresetType, RecordMode};
use vstd::prelude::*;

verus! {

/// Milliseconds the console needs after a key went down.
pub const HOLD_SETTLE_MS: u64 = 10;

/// Milliseconds the console needs after a key came up.
pub const RELEASE_SETTLE_MS: u64 = 20;

/// Milliseconds the console needs, beyond the key press, to commit a command.
pub const ENTER_SETTLE_MS: u64 = 50;

/// Milliseconds until the console asks for a deletion to be confirmed.
pub const DELETE_CONFIRM_MS: u64 = 500;

/// Milliseconds the console needs after a deletion.
pub const DELETE_SETTLE_MS: u64 = 1000;

/// One thing that happens on a connection: a message goes out, or time passes.
pub enum Event {
    /// A message with one argument, which reads as 1.0 for `true` and 0.0 for `false`.
    Toggle { addr: Seq<char>, value: bool },
    /// A message without arguments.
    Trigger { addr: Seq<char> },
    /// Nothing is sent for this many milliseconds.
    Delay { millis: u64 },
}

/// The address that asks the console to send its state.
pub open spec fn sync_address() -> Seq<char> {
    "/chimp/sync"@
}

/// The key goes down and the console settles.
pub open spec fn hold_events(key: Key) -> Seq<Event> {
    seq![
        Event::Toggle { addr: key.address(), value: true },
        Event::Delay { millis: HOLD_SETTLE_MS },
    ]
}

/// The key comes up and the console settles.
pub open spec fn release_events(key: Key) -> Seq<Event> {
    seq![
        Event::Toggle { addr: key.address(), value: false },
        Event::Delay { millis: RELEASE_SETTLE_MS },
    ]
}

/// The key goes down and comes up again.
pub open spec fn press_events(key: Key) -> Seq<Event> {
    hold_events(key) + release_events(key)
}

/// The key is pressed `times` times in a row.
pub open spec fn press_times_events(key: Key, times: nat) -> Seq<Event>
    decreases times,
{
    if times == 0 {
        Seq::empty()
    } else {
        press_times_events(key, (times - 1) as nat) + press_events(key)
    }
}

/// Enter is pressed and the console commits the command.
pub open spec fn enter_events() -> Seq<Event> {
    press_events(Key::Enter).push(Event::Delay { millis: ENTER_SETTLE_MS })
}

/// The number keys of the given digits are pressed, the first digit first.
pub open spec fn digit_events(digits: Seq<u8>) -> Seq<Event>
    decreases digits.len(),
{
    if digits.len() == 0 {
        Seq::empty()
    } else {
        digit_events(digits.drop_last()) + press_events(Key::Number(digits.last()))
    }
}

/// The number is typed in decimal, most significant digit first.
pub open spec fn number_events(value: u16) -> Seq<Event> {
    digit_events(decimal_digits(value as nat))
}

/// The console is asked to send its state.
pub open spec fn sync_events() -> Seq<Event> {
    seq![Event::Trigger { addr: sync_address() }]
}

/// Clear is pressed.
pub open spec fn clear_events() -> Seq<Event> {
    press_events(Key::Clear)
}

/// Group, the group's number, Enter.
pub open spec fn select_group_events(group: u16) -> Seq<Event> {
    press_events(Key::Group) + number_events(group) + enter_events()
}

/// Preset, the key of the feature group, the preset's number, Enter.
pub open spec fn select_preset_events(preset_type: PresetType, preset: u16) -> Seq<Event> {
    press_events(Key::Preset) + press_events(preset_type.select_key()) + number_events(preset)
        + enter_events()
}

/// Delete, the kind of thing to delete, the first number, Thru, the last
/// number, Enter; then, once the console asks, Enter again to confirm, and
/// the time the console takes to delete.
pub open spec fn delete_events(key: Key, first: u16, last: u16) -> Seq<Event> {
    press_events(Key::Delete) + press_events(key) + number_events(first) + press_events(Key::Thru)
        + number_events(last) + enter_events().push(Event::Delay { millis: DELETE_CONFIRM_MS })
        + enter_events().push(Event::Delay { millis: DELETE_SETTLE_MS })
}

/// Record; then, with Shift held, Record once more for each step of the
/// mode; then the kind of target, its number, Enter.
pub open spec fn record_events(key: Key, number: u16, mode: RecordMode) -> Seq<Event> {
    press_events(Key::Record) + hold_events(Key::Shift) + press_times_events(
        Key::Record,
        mode.presses(),
    ) + release_events(Key::Shift) + press_events(key) + number_events(number) + enter_events()
}

/// The time that passes during one event, in milliseconds.
pub open spec fn pause_of(event: Event) -> nat {
    match event {
        Event::Delay { millis } => millis as nat,
        _ => 0,
    }
}

/// The time that passes during a sequence of events, in milliseconds.
pub open spec fn elapsed(events: Seq<Event>) -> nat
    decreases events.len(),
{
    if events.len() == 0 {
        0
    } else {
        elapsed(events.drop_last()) + pause_of(events.last())
    }
}

/// Time adds up: what passes during two sequences of events, one after the
/// other, is what passes during the first and what passes during the second.
pub proof fn lemma_elapsed_concat(first: Seq<Event>, second: Seq<Event>)
    ensures
        elapsed(first + second) == elapsed(first) + elapsed(second),
    decreases second.len(),
{
    if second.len() > 0 {
        lemma_elapsed_concat(first, second.drop_last());
        assert((first + second).drop_last() =~= first + second.drop_last());
    }
}

/// Pressing a key `times` times is `times` presses, of four events each.
pub proof fn lemma_press_times(key: Key, times: nat)
    ensures
        press_times_events(key, times).len() == 4 * times,
        forall|i: int|
            0 <= i < times ==> #[trigger] press_times_events(key, times).subrange(4 * i, 4 * i + 4)
                == press_events(key),
        elapsed(press_times_events(key, times)) == 30 * times,
    decreases times,
{
    lemma_key_times(key);
    if times > 0 {
        let before = press_times_events(key, (times - 1) as nat);
        let all = press_times_events(key, times);
        lemma_press_times(key, (times - 1) as nat);
        lemma_elapsed_concat(before, press_events(key));
        assert forall|i: int| 0 <= i < times implies #[trigger] all.subrange(4 * i, 4 * i + 4)
            == press_events(key) by {
            if i < times - 1 {
                assert(all.subrange(4 * i, 4 * i + 4) =~= before.subrange(4 * i, 4 * i + 4));
            }
        }
    }
}

/// Typing digits is one press of a number key for each digit, in their order.
pub proof fn lemma_digit_events(digits: Seq<u8>)
    ensures
        digit_events(digits).len() == 4 * digits.len(),
        forall|i: int|
            0 <= i < digits.len() ==> #[trigger] digit_events(digits).subrange(4 * i, 4 * i + 4)
                == press_events(Key::Number(digits[i])),
        elapsed(digit_events(digits)) == 30 * digits.len(),
    decreases digits.len(),
{
    if digits.len() > 0 {
        let before = digit_events(digits.drop_last());
        let all = digit_events(digits);
        let last = press_events(Key::Number(digits.last()));
        lemma_key_times(Key::Number(digits.last()));
        lemma_digit_events(digits.drop_last());
        lemma_elapsed_concat(before, last);
        assert forall|i: int| 0 <= i < digits.len() implies #[trigger] all.subrange(
            4 * i,
            4 * i + 4,
        ) == press_events(Key::Number(digits[i])) by {
            if i < digits.len() - 1 {
                assert(all.subrange(4 * i, 4 * i + 4) =~= before.subrange(4 * i, 4 * i + 4));
            }
        }
    }
}

/// A number is typed as its decimal digits, most significant first, one
/// press for each: one press for a number below ten, zero among them, and
/// at most five presses.
pub proof fn lemma_number_events(value: u16)
    ensures
        1 <= decimal_digits(value as nat).len() <= 5,
        number_events(value).len() == 4 * decimal_digits(value as nat).len(),
        forall|i: int|
            0 <= i < decimal_digits(value as nat).len() ==> #[trigger] number_events(
                value,
            ).subrange(4 * i, 4 * i + 4) == press_events(
                Key::Number(decimal_digits(value as nat)[i]),
            ),
        value < 10 ==> number_events(value) == press_events(Key::Number(value as u8)),
{
    lemma_decimal_digits(value as nat);
    lemma_decimal_digits_len(value as nat);
    lemma_digit_events(decimal_digits(value as nat));
}

/// How long the console is given for a key: ten milliseconds once it is
/// down, twenty once it is up.
proof fn lemma_key_times(key: Key)
    ensures
        elapsed(hold_events(key)) == HOLD_SETTLE_MS,
        elapsed(release_events(key)) == RELEASE_SETTLE_MS,
        elapsed(press_events(key)) == HOLD_SETTLE_MS + RELEASE_SETTLE_MS,
        elapsed(enter_events()) == HOLD_SETTLE_MS + RELEASE_SETTLE_MS + ENTER_SETTLE_MS,
{
    lemma_elapsed_of_pair(hold_events(key));
    lemma_elapsed_of_pair(release_events(key));
    lemma_elapsed_of_pair(hold_events(Key::Enter));
    lemma_elapsed_of_pair(release_events(Key::Enter));
    lemma_elapsed_concat(hold_events(key), release_events(key));
    lemma_elapsed_concat(hold_events(Key::Enter), release_events(Key::Enter));
    assert(enter_events().drop_last() =~= press_events(Key::Enter));
}

/// The time that passes during two events.
proof fn lemma_elapsed_of_pair(events: Seq<Event>)
    requires
        events.len() == 2,
    ensures
        elapsed(events) == pause_of(events[0]) + pause_of(events[1]),
{
    reveal_with_fuel(elapsed, 3);
}

/// No key is handled faster than the console can follow. Whatever has
/// happened before: when a key has been put down, ten milliseconds more have
/// passed, when it has been let up, twenty, and when Enter has been pressed,
/// the time of a key press and fifty more.
pub proof fn lemma_timing_floor(before: Seq<Event>, key: Key)
    ensures
        elapsed(before + hold_events(key)) == elapsed(before) + 10,
        elapsed(before + release_events(key)) == elapsed(before) + 20,
        elapsed(before + press_events(key)) == elapsed(before) + 30,
        elapsed(before + enter_events()) == elapsed(before) + elapsed(press_events(Key::Enter))
            + 50,
        elapsed(press_events(Key::Enter)) == 30,
{
    lemma_key_times(key);
    lemma_key_times(Key::Enter);
    lemma_elapsed_concat(before, hold_events(key));
    lemma_elapsed_concat(before, release_events(key));
    lemma_elapsed_concat(before, press_events(key));
    lemma_elapsed_concat(before, enter_events());
}

/// How long each operation keeps its caller, in milliseconds: thirty for
/// every key press, one press for each digit of a number, fifty more for
/// every Enter, and for a deletion the two waits of half a second and a second.
pub proof fn lemma_operation_times(
    key: Key,
    number: u16,
    other: u16,
    mode: RecordMode,
    preset_type: PresetType,
)
    ensures
        elapsed(sync_events()) == 0,
        elapsed(clear_events()) == 30,
        elapsed(number_events(number)) == 30 * decimal_digits(number as nat).len(),
        elapsed(select_group_events(number)) == 30 * decimal_digits(number as nat).len() + 110,
        elapsed(select_preset_events(preset_type, number)) == 30 * decimal_digits(
            number as nat,
        ).len() + 140,
        elapsed(delete_events(key, number, other)) == 30 * decimal_digits(number as nat).len() + 30
            * decimal_digits(other as nat).len() + 1750,
        elapsed(record_events(key, number, mode)) == 30 * mode.presses() + 30 * decimal_digits(
            number as nat,
        ).len() + 170,
{
    let typed = number_events(number);
    let typed_other = number_events(other);
    let confirm = enter_events().push(Event::Delay { millis: DELETE_CONFIRM_MS });
    let settle = enter_events().push(Event::Delay { millis: DELETE_SETTLE_MS });
    lemma_key_times(key);
    lemma_key_times(Key::Shift);
    lemma_key_times(Key::Record);
    lemma_key_times(Key::Clear);
    lemma_key_times(Key::Group);
    lemma_key_times(Key::Preset);
    lemma_key_times(Key::Delete);
    lemma_key_times(Key::Thru);
    lemma_key_times(preset_type.select_key());
    lemma_digit_events(decimal_digits(number as nat));
    lemma_digit_events(decimal_digits(other as nat));
    lemma_press_times(Key::Record, mode.presses());
    assert(elapsed(sync_events()) == 0) by {
        reveal_with_fuel(elapsed, 2);
    }
    assert(confirm.drop_last() =~= enter_events());
    assert(settle.drop_last() =~= enter_events());

    lemma_elapsed_concat(press_events(Key::Group), typed);
    lemma_elapsed_concat(press_events(Key::Group) + typed, enter_events());

    let a = press_events(Key::Preset) + press_events(preset_type.select_key());
    lemma_elapsed_concat(press_events(Key::Preset), press_events(preset_type.select_key()));
    lemma_elapsed_concat(a, typed);
    lemma_elapsed_concat(a + typed, enter_events());

    let d1 = press_events(Key::Delete) + press_events(key);
    let d2 = d1 + typed;
    let d3 = d2 + press_events(Key::Thru);
    let d4 = d3 + typed_other;
    let d5 = d4 + confirm;
    lemma_elapsed_concat(press_events(Key::Delete), press_events(key));
    lemma_elapsed_concat(d1, typed);
    lemma_elapsed_concat(d2, press_events(Key::Thru));
    lemma_elapsed_concat(d3, typed_other);
    lemma_elapsed_concat(d4, confirm);
    lemma_elapsed_concat(d5, settle);

    let r1 = press_events(Key::Record) + hold_events(Key::Shift);
    let r2 = r1 + press_times_events(Key::Record, mode.presses());
    let r3 = r2 + release_events(Key::Shift);
    let r4 = r3 + press_events(key);
    let r5 = r4 + typed;
    lemma_elapsed_concat(press_events(Key::Record), hold_events(Key::Shift));
    lemma_elapsed_concat(r1, press_times_events(Key::Record, mode.presses()));
    lemma_elapsed_concat(r2, release_events(Key::Shift));
    lemma_elapsed_concat(r3, press_events(key));
    lemma_elapsed_concat(r4, typed);
    lemma_elapsed_concat(r5, enter_events());
}

/// The record mode is chosen while Shift is held, and only then. After the
/// first press of Record, Shift goes down; Record is pressed once for Merge,
/// twice for Remove, three times for Replace and four times for Insert;
/// Shift comes up; and only then follow the target's key, its number and Enter.
pub proof fn lemma_record_layout(key: Key, number: u16, mode: RecordMode)
    ensures
        mode.presses() == match mode {
            RecordMode::Merge => 1nat,
            RecordMode::Remove => 2nat,
            RecordMode::Replace => 3nat,
            RecordMode::Insert => 4nat,
        },
        ({
            let events = record_events(key, number, mode);
            let chord = 4 * mode.presses() as int;
            &&& events.len() == 12 + chord + number_events(number).len() + enter_events().len()
            &&& events.subrange(0, 4) == press_events(Key::Record)
            &&& events.subrange(4, 6) == hold_events(Key::Shift)
            &&& events.subrange(6, 6 + chord) == press_times_events(Key::Record, mode.presses())
            &&& events.subrange(6 + chord, 8 + chord) == release_events(Key::Shift)
            &&& events.subrange(8 + chord, 12 + chord) == press_events(key)
            &&& events.skip(12 + chord) == number_events(number) + enter_events()
        }),
{
    lemma_press_times(Key::Record, mode.presses());
}

/// A deletion types its two numbers and no other: after Delete and the key
/// of the kind come the digits of the first number, Thru, the digits of the
/// last number, and then Enter, the wait for the console to ask, Enter
/// again, and the wait for the console to delete.
pub proof fn lemma_delete_layout(key: Key, first: u16, last: u16)
    ensures
        ({
            let events = delete_events(key, first, last);
            let from = 4 * decimal_digits(first as nat).len() as int;
            let to = 4 * decimal_digits(last as nat).len() as int;
            &&& events.len() == 24 + from + to
            &&& events.subrange(0, 4) == press_events(Key::Delete)
            &&& events.subrange(4, 8) == press_events(key)
            &&& events.subrange(8, 8 + from) == number_events(first)
            &&& events.subrange(8 + from, 12 + from) == press_events(Key::Thru)
            &&& events.subrange(12 + from, 12 + from + to) == number_events(last)
            &&& events.subrange(12 + from + to, 17 + from + to) == enter_events()
            &&& events[17 + from + to] == Event::Delay { millis: 500 }
            &&& events.subrange(18 + from + to, 23 + from + to) == enter_events()
            &&& events[23 + from + to] == Event::Delay { millis: 1000 }
        }),
{
    lemma_number_events(first);
    lemma_number_events(last);
}

} // verus!
