//! The console operations, composed from key presses.

use crate::digits::digits_of;
use crate::keys::{Key, PresetType, RecordMode};
use crate::script::{
    clear_events, delete_events, digit_events, elapsed, enter_events, hold_events,
    lemma_timing_floor, number_events, press_events, press_times_events, record_events,
    release_events, select_group_events, select_preset_events, sync_events, Event,
    DELETE_CONFIRM_MS, DELETE_SETTLE_MS, ENTER_SETTLE_MS, HOLD_SETTLE_MS, RELEASE_SETTLE_MS,
};
use core::ops::Range;
use vstd::prelude::*;
use vstd::string::*;

verus! {

/// A connection to the console.
///
/// An implementation provides the three primitives: a message with a boolean
/// argument, a message without arguments, and a pause. Every operation of the
/// console is built from them here, and is one fixed sequence of them: an
/// operation asks nothing of the console and waits for no answer.
pub trait ChimpConnection {
    /// Everything that this connection has been asked to do, oldest first.
    ///
    /// An implementation that is verified says here what it keeps of its
    /// past. One that is not keeps none, and the default stands for it: a
    /// sequence of which nothing is known.
    open spec fn history(&self) -> Seq<Event> {
        arbitrary()
    }

    /// Sends `value` to the address `msg`.
    fn send_bool(&mut self, msg: String, value: bool)
        ensures
            final(self).history() == old(self).history().push(
                Event::Toggle { addr: msg@, value },
            ),
    ;

    /// Sends a message without arguments to the address `msg`.
    fn send_msg(&mut self, msg: String)
        ensures
            final(self).history() == old(self).history().push(Event::Trigger { addr: msg@ }),
    ;

    /// Returns once `millis` milliseconds have passed.
    fn delay(&mut self, millis: u64)
        ensures
            final(self).history() == old(self).history().push(Event::Delay { millis }),
    ;

    /// Presses the key: down, then up. This takes thirty milliseconds.
    fn press_key(&mut self, key: Key)
        ensures
            final(self).history() == old(self).history() + press_events(key),
            elapsed(final(self).history()) == elapsed(old(self).history()) + HOLD_SETTLE_MS
                + RELEASE_SETTLE_MS,
    {
        self.hold_key(key);
        self.release_key(key);
    }

    /// Puts the key down and gives the console ten milliseconds to settle.
    fn hold_key(&mut self, key: Key)
        ensures
            final(self).history() == old(self).history() + hold_events(key),
            elapsed(final(self).history()) == elapsed(old(self).history()) + HOLD_SETTLE_MS,
    {
        self.send_bool(key.to_osc(), true);
        self.delay(HOLD_SETTLE_MS);
        assert(self.history() =~= old(self).history() + hold_events(key));
        proof {
            lemma_timing_floor(old(self).history(), key);
        }
    }

    /// Lets the key up and gives the console twenty milliseconds to settle.
    fn release_key(&mut self, key: Key)
        ensures
            final(self).history() == old(self).history() + release_events(key),
            elapsed(final(self).history()) == elapsed(old(self).history()) + RELEASE_SETTLE_MS,
    {
        self.send_bool(key.to_osc(), false);
        self.delay(RELEASE_SETTLE_MS);
        assert(self.history() =~= old(self).history() + release_events(key));
        proof {
            lemma_timing_floor(old(self).history(), key);
        }
    }

    /// Presses the key `times` times.
    fn press_key_times(&mut self, key: Key, times: u16)
        ensures
            final(self).history() == old(self).history() + press_times_events(key, times as nat),
    {
        let mut done: u16 = 0;
        while done < times
            invariant
                done <= times,
                self.history() == old(self).history() + press_times_events(key, done as nat),
            decreases times - done,
        {
            self.press_key(key);
            done += 1;
        }
    }

    /// Presses Enter and gives the console fifty milliseconds more to commit
    /// the command.
    fn enter(&mut self)
        ensures
            final(self).history() == old(self).history() + enter_events(),
            elapsed(final(self).history()) == elapsed(old(self).history()) + HOLD_SETTLE_MS
                + RELEASE_SETTLE_MS + ENTER_SETTLE_MS,
    {
        self.press_key(Key::Enter);
        self.delay(ENTER_SETTLE_MS);
        proof {
            lemma_timing_floor(old(self).history(), Key::Enter);
        }
    }

    /// Types the number on the keypad, in decimal, most significant digit first.
    fn send_number(&mut self, value: u16)
        ensures
            final(self).history() == old(self).history() + number_events(value),
    {
        let digits = digits_of(value);
        let mut typed: usize = 0;
        while typed < digits.len()
            invariant
                typed <= digits@.len(),
                self.history() == old(self).history() + digit_events(digits@.take(typed as int)),
            decreases digits@.len() - typed,
        {
            self.press_key(Key::Number(digits[typed]));
            assert(digits@.take(typed + 1).drop_last() =~= digits@.take(typed as int));
            typed += 1;
        }
        assert(digits@.take(typed as int) =~= digits@);
    }

    /// Asks the console to send its state.
    fn sync(&mut self)
        ensures
            final(self).history() == old(self).history() + sync_events(),
    {
        self.send_msg(String::from_str("/chimp/sync"));
    }

    /// Presses Clear.
    fn clear(&mut self)
        ensures
            final(self).history() == old(self).history() + clear_events(),
    {
        self.press_key(Key::Clear);
    }

    /// Selects the group with the given number.
    fn select_group(&mut self, group: u16)
        ensures
            final(self).history() == old(self).history() + select_group_events(group),
    {
        self.press_key(Key::Group);
        self.send_number(group);
        self.enter();
    }

    /// Recalls the preset with the given number from the given feature group.
    fn select_preset(&mut self, preset_type: PresetType, preset: u16)
        ensures
            final(self).history() == old(self).history() + select_preset_events(
                preset_type,
                preset,
            ),
    {
        self.press_key(Key::Preset);
        self.press_key(preset_type.key());
        self.send_number(preset);
        self.enter();
    }

    /// Deletes the things of the kind `key` numbered from `number.start`
    /// through `number.end`, and confirms the deletion.
    ///
    /// Both ends are typed and the console takes both as part of the range.
    fn delete(&mut self, key: Key, number: Range<u16>)
        ensures
            final(self).history() == old(self).history() + delete_events(
                key,
                number.start,
                number.end,
            ),
    {
        self.press_key(Key::Delete);
        self.press_key(key);
        self.send_number(number.start);
        self.press_key(Key::Thru);
        self.send_number(number.end);
        self.enter();
        self.delay(DELETE_CONFIRM_MS);
        self.enter();
        self.delay(DELETE_SETTLE_MS);
    }

    /// Records what the programmer holds into the thing of the kind `key`
    /// with the given number.
    ///
    /// The mode is chosen by the number of times Record is pressed while
    /// Shift is held down.
    fn record(&mut self, key: Key, number: u16, mode: RecordMode)
        ensures
            final(self).history() == old(self).history() + record_events(key, number, mode),
    {
        self.press_key(Key::Record);
        self.hold_key(Key::Shift);
        let times = mode.repeat_count();
        self.press_key_times(Key::Record, times);
        self.release_key(Key::Shift);
        self.press_key(key);
        self.send_number(number);
        self.enter();
    }
}

} // verus!
