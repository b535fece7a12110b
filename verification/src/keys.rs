//! The keys of the console and the OSC address of each.

use crate::digits::{
    decimal_digits, decimal_text, digit_char, digits_of, lemma_decimal_digits,
    lemma_decimal_digits_injective,
};
use vstd::prelude::*;
use vstd::string::*;

verus! {

/// The feature groups that a preset can belong to.
#[derive(Debug, Copy, Clone, PartialEq, Eq, Structural)]
pub enum PresetType {
    Intensity,
    Color,
    Position,
    Beam,
    Control,
    Special,
}

/// How a recording is combined with what the target already holds.
#[derive(Debug, Copy, Clone, PartialEq, Eq, Structural)]
pub enum RecordMode {
    Merge,
    Remove,
    Replace,
    Insert,
}

/// A key of the console. `Number` carries the value shown on the key.
#[derive(Debug, Copy, Clone, PartialEq, Eq, Structural)]
pub enum Key {
    Record,
    Edit,
    Delete,
    Copy,
    Move,
    Name,
    Open,
    Select,
    Link,
    Load,
    Off,
    Skip,
    GoTo,
    Time,
    Fixture,
    Group,
    Preset,
    CueList,
    Cue,
    Effect,
    Minus,
    Plus,
    Thru,
    Full,
    At,
    FwSlash,
    Backspace,
    Number(u8),
    Dot,
    Enter,
    Shift,
    Home,
    SetKey,
    Clear,
    Intensity,
    Position,
    Color,
    Gobo,
    Beam,
    Shaper,
    Control,
    Special,
}

impl PresetType {
    /// The key that selects this feature group.
    pub open spec fn select_key(self) -> Key {
        match self {
            PresetType::Intensity => Key::Intensity,
            PresetType::Color => Key::Color,
            PresetType::Position => Key::Position,
            PresetType::Beam => Key::Beam,
            PresetType::Control => Key::Control,
            PresetType::Special => Key::Special,
        }
    }

    /// The key that selects this feature group.
    pub fn key(self) -> (key: Key)
        ensures
            key == self.select_key(),
    {
        match self {
            PresetType::Intensity => Key::Intensity,
            PresetType::Color => Key::Color,
            PresetType::Position => Key::Position,
            PresetType::Beam => Key::Beam,
            PresetType::Control => Key::Control,
            PresetType::Special => Key::Special,
        }
    }
}

/// Each feature group has a select key of its own.
pub proof fn lemma_select_key(a: PresetType, b: PresetType)
    ensures
        a.select_key().is_feature_key(),
        a.select_key() == b.select_key() ==> a == b,
{
}

impl From<PresetType> for Key {
    fn from(value: PresetType) -> (key: Key) {
        value.key()
    }
}

impl vstd::std_specs::convert::FromSpecImpl<PresetType> for Key {
    open spec fn obeys_from_spec() -> bool {
        true
    }

    open spec fn from_spec(value: PresetType) -> Key {
        value.select_key()
    }
}

impl RecordMode {
    /// How often Record is pressed while Shift is held to choose this mode.
    pub open spec fn presses(self) -> nat {
        match self {
            RecordMode::Merge => 1,
            RecordMode::Remove => 2,
            RecordMode::Replace => 3,
            RecordMode::Insert => 4,
        }
    }

    /// How often Record is pressed while Shift is held to choose this mode.
    pub fn repeat_count(&self) -> (times: u16)
        ensures
            times == self.presses(),
    {
        match self {
            RecordMode::Merge => 1,
            RecordMode::Remove => 2,
            RecordMode::Replace => 3,
            RecordMode::Insert => 4,
        }
    }
}

impl Default for RecordMode {
    fn default() -> (mode: RecordMode)
        ensures
            mode == RecordMode::Merge,
    {
        RecordMode::Merge
    }
}

/// The namespace under which every key of the programmer lives.
pub open spec fn programmer_prefix() -> Seq<char> {
    "/chimp/programmer"@
}

/// The namespace of the keypad keys, below the programmer's.
pub open spec fn keypad_prefix() -> Seq<char> {
    "/keypad/"@
}

/// The namespace of the keys that select a feature group, below the programmer's.
pub open spec fn feature_prefix() -> Seq<char> {
    "/feature/select/"@
}

/// The namespace of the Clear button, below the programmer's.
pub open spec fn clear_prefix() -> Seq<char> {
    "/clear/"@
}

impl Key {
    /// Whether this is one of the keys that select a feature group.
    pub open spec fn is_feature_key(self) -> bool {
        self is Intensity || self is Position || self is Color || self is Gobo || self is Beam
            || self is Shaper || self is Control || self is Special
    }

    /// The namespace that the key lives in, below the programmer's.
    pub open spec fn namespace(self) -> Seq<char> {
        if self.is_feature_key() {
            feature_prefix()
        } else if self is Clear {
            clear_prefix()
        } else {
            keypad_prefix()
        }
    }

    /// The name of the key in its namespace. A number key is named by its
    /// value, in decimal.
    pub open spec fn name(self) -> Seq<char> {
        match self {
            Key::Record => "record"@,
            Key::Edit => "edit"@,
            Key::Delete => "delete"@,
            Key::Copy => "copy"@,
            Key::Move => "move"@,
            Key::Name => "name"@,
            Key::Open => "open"@,
            Key::Select => "select"@,
            Key::Link => "link"@,
            Key::Load => "load"@,
            Key::Off => "off"@,
            Key::Skip => "skip"@,
            Key::GoTo => "goto"@,
            Key::Time => "time"@,
            Key::Fixture => "fixture"@,
            Key::Group => "group"@,
            Key::Preset => "preset"@,
            Key::CueList => "cuelist"@,
            Key::Cue => "cue"@,
            Key::Effect => "effect"@,
            Key::Minus => "minus"@,
            Key::Plus => "plus"@,
            Key::Thru => "thru"@,
            Key::Full => "full"@,
            Key::At => "at"@,
            Key::FwSlash => "fw_slash"@,
            Key::Backspace => "backspace"@,
            Key::Number(n) => decimal_text(n as nat),
            Key::Dot => "dot"@,
            Key::Enter => "enter"@,
            Key::Shift => "shift"@,
            Key::Home => "home"@,
            Key::SetKey => "set"@,
            Key::Clear => "btn"@,
            Key::Intensity => "intensity"@,
            Key::Position => "position"@,
            Key::Color => "color"@,
            Key::Gobo => "gobo"@,
            Key::Beam => "beam"@,
            Key::Shaper => "shaper"@,
            Key::Control => "control"@,
            Key::Special => "special"@,
        }
    }

    /// The OSC address of this key.
    pub open spec fn address(self) -> Seq<char> {
        programmer_prefix() + self.namespace() + self.name()
    }

    /// The OSC address of this key.
    pub fn to_osc(&self) -> (addr: String)
        ensures
            addr@ == self.address(),
    {
        let mut addr = String::from_str("/chimp/programmer");
        match self {
            Key::Intensity
            | Key::Position
            | Key::Color
            | Key::Gobo
            | Key::Beam
            | Key::Shaper
            | Key::Control
            | Key::Special => addr.append("/feature/select/"),
            Key::Clear => addr.append("/clear/"),
            _ => addr.append("/keypad/"),
        }
        match self {
            Key::Record => addr.append("record"),
            Key::Edit => addr.append("edit"),
            Key::Delete => addr.append("delete"),
            Key::Copy => addr.append("copy"),
            Key::Move => addr.append("move"),
            Key::Name => addr.append("name"),
            Key::Open => addr.append("open"),
            Key::Select => addr.append("select"),
            Key::Link => addr.append("link"),
            Key::Load => addr.append("load"),
            Key::Off => addr.append("off"),
            Key::Skip => addr.append("skip"),
            Key::GoTo => addr.append("goto"),
            Key::Time => addr.append("time"),
            Key::Fixture => addr.append("fixture"),
            Key::Group => addr.append("group"),
            Key::Preset => addr.append("preset"),
            Key::CueList => addr.append("cuelist"),
            Key::Cue => addr.append("cue"),
            Key::Effect => addr.append("effect"),
            Key::Minus => addr.append("minus"),
            Key::Plus => addr.append("plus"),
            Key::Thru => addr.append("thru"),
            Key::Full => addr.append("full"),
            Key::At => addr.append("at"),
            Key::FwSlash => addr.append("fw_slash"),
            Key::Backspace => addr.append("backspace"),
            Key::Number(n) => {
                let digits = digits_of(*n as u16);
                proof {
                    lemma_decimal_digits(*n as nat);
                }
                append_digits(&mut addr, &digits);
            },
            Key::Dot => addr.append("dot"),
            Key::Enter => addr.append("enter"),
            Key::Shift => addr.append("shift"),
            Key::Home => addr.append("home"),
            Key::SetKey => addr.append("set"),
            Key::Clear => addr.append("btn"),
            Key::Intensity => addr.append("intensity"),
            Key::Position => addr.append("position"),
            Key::Color => addr.append("color"),
            Key::Gobo => addr.append("gobo"),
            Key::Beam => addr.append("beam"),
            Key::Shaper => addr.append("shaper"),
            Key::Control => addr.append("control"),
            Key::Special => addr.append("special"),
        }
        addr
    }
}

/// The length of a text with its first and its last two characters.
spec fn mark(text: Seq<char>) -> (nat, char, char, char) {
    (text.len(), text[0], text[text.len() - 2], text[text.len() - 1])
}

/// What the proofs below read from the text of the catalogue: how long the
/// namespaces are and in which character they differ; that the name of a key
/// other than a number key begins with a small letter; and that the length of
/// such a name with three of its characters tells it from all the others.
proof fn lemma_catalogue_text()
    ensures
        programmer_prefix().len() == 17,
        keypad_prefix().len() == 8,
        feature_prefix().len() == 16,
        clear_prefix().len() == 7,
        keypad_prefix()[1] == 'k',
        feature_prefix()[1] == 'f',
        clear_prefix()[1] == 'c',
        forall|key: Key|
            !(key is Number) ==> 2 <= (#[trigger] key.name()).len() <= 9 && 'a' <= key.name()[0]
                <= 'z',
        forall|a: Key, b: Key|
            !(a is Number) && !(b is Number) && #[trigger] mark(a.name()) == #[trigger] mark(
                b.name(),
            ) ==> a == b,
{
    reveal_strlit("/chimp/programmer");
    reveal_strlit("/keypad/");
    reveal_strlit("/feature/select/");
    reveal_strlit("/clear/");
    reveal_strlit("record");
    reveal_strlit("edit");
    reveal_strlit("delete");
    reveal_strlit("copy");
    reveal_strlit("move");
    reveal_strlit("name");
    reveal_strlit("open");
    reveal_strlit("select");
    reveal_strlit("link");
    reveal_strlit("load");
    reveal_strlit("off");
    reveal_strlit("skip");
    reveal_strlit("goto");
    reveal_strlit("time");
    reveal_strlit("fixture");
    reveal_strlit("group");
    reveal_strlit("preset");
    reveal_strlit("cuelist");
    reveal_strlit("cue");
    reveal_strlit("effect");
    reveal_strlit("minus");
    reveal_strlit("plus");
    reveal_strlit("thru");
    reveal_strlit("full");
    reveal_strlit("at");
    reveal_strlit("fw_slash");
    reveal_strlit("backspace");
    reveal_strlit("dot");
    reveal_strlit("enter");
    reveal_strlit("shift");
    reveal_strlit("home");
    reveal_strlit("set");
    reveal_strlit("btn");
    reveal_strlit("intensity");
    reveal_strlit("position");
    reveal_strlit("color");
    reveal_strlit("gobo");
    reveal_strlit("beam");
    reveal_strlit("shaper");
    reveal_strlit("control");
    reveal_strlit("special");
}

/// No digit is shown by the character of another digit, and none by a letter.
pub proof fn lemma_digit_char(d: u8)
    requires
        d < 10,
    ensures
        digit_char(d) as u32 == 48 + d,
        forall|e: u8| e < 10 && digit_char(e) == digit_char(d) ==> e == d,
{
}

/// Numbers that are written alike are the same number.
pub proof fn lemma_decimal_text_injective(a: nat, b: nat)
    requires
        decimal_text(a) == decimal_text(b),
    ensures
        a == b,
{
    lemma_decimal_digits(a);
    lemma_decimal_digits(b);
    let da = decimal_digits(a);
    let db = decimal_digits(b);
    assert(da.len() == decimal_text(a).len());
    assert(db.len() == decimal_text(b).len());
    assert forall|i: int| 0 <= i < da.len() implies da[i] == db[i] by {
        assert(decimal_text(a)[i] == digit_char(da[i]));
        assert(decimal_text(b)[i] == digit_char(db[i]));
        lemma_digit_char(da[i]);
    }
    assert(da =~= db);
    lemma_decimal_digits_injective(a, b);
}

/// Every key has an address, and none is empty: the programmer's
/// namespace, the namespace of the key and the name of the key, of which the
/// address is made up, each hold at least one character.
pub proof fn lemma_address_total(key: Key)
    ensures
        key.address().len() == programmer_prefix().len() + key.namespace().len()
            + key.name().len(),
        programmer_prefix().len() > 0,
        key.namespace().len() > 0,
        key.name().len() > 0,
{
    lemma_catalogue_text();
    if key is Number {
        lemma_decimal_digits(key->Number_0 as nat);
    }
}

/// The address of a digit key is the keypad's namespace followed by the one
/// character of the digit, so two digit keys differ in that character only.
pub proof fn lemma_digit_address(d: u8)
    requires
        d < 10,
    ensures
        Key::Number(d).address() == (programmer_prefix() + keypad_prefix()).push(digit_char(d)),
        forall|e: u8| e < 10 && e != d ==> Key::Number(e).address() != Key::Number(d).address(),
{
    let base = programmer_prefix() + keypad_prefix();
    assert(decimal_text(d as nat) =~= seq![digit_char(d)]);
    assert(Key::Number(d).address() =~= base.push(digit_char(d)));
    assert forall|e: u8| e < 10 && e != d implies Key::Number(e).address() != Key::Number(
        d,
    ).address() by {
        assert(decimal_text(e as nat) =~= seq![digit_char(e)]);
        assert(Key::Number(e).address() =~= base.push(digit_char(e)));
        assert(base.push(digit_char(e)).last() == digit_char(e));
        assert(base.push(digit_char(d)).last() == digit_char(d));
    }
}

/// No two keys share an address.
pub proof fn lemma_address_injective(a: Key, b: Key)
    requires
        a.address() == b.address(),
    ensures
        a == b,
{
    lemma_catalogue_text();
    let p = programmer_prefix();
    let sa = a.namespace() + a.name();
    let sb = b.namespace() + b.name();
    assert(a.address().skip(p.len() as int) =~= sa);
    assert(b.address().skip(p.len() as int) =~= sb);
    assert(sa[1] == a.namespace()[1]);
    assert(sb[1] == b.namespace()[1]);
    assert(a.namespace() == b.namespace());
    assert(sa.skip(a.namespace().len() as int) =~= a.name());
    assert(sb.skip(b.namespace().len() as int) =~= b.name());
    lemma_name_injective(a, b);
}

/// No two keys share a name.
proof fn lemma_name_injective(a: Key, b: Key)
    requires
        a.name() == b.name(),
    ensures
        a == b,
{
    lemma_catalogue_text();
    if a is Number && b is Number {
        lemma_decimal_text_injective(a->Number_0 as nat, b->Number_0 as nat);
    } else if a is Number {
        lemma_number_name_is_apart(a->Number_0, b);
    } else if b is Number {
        lemma_number_name_is_apart(b->Number_0, a);
    } else {
        assert(mark(a.name()) == mark(b.name()));
    }
}

/// The name of a number key begins with a digit, and that of no other key does.
proof fn lemma_number_name_is_apart(n: u8, other: Key)
    requires
        !(other is Number),
    ensures
        Key::Number(n).name() != other.name(),
{
    lemma_decimal_digits(n as nat);
    let first = decimal_digits(n as nat)[0];
    lemma_digit_char(first);
    lemma_catalogue_text();
}

/// The text of one decimal digit.
fn digit_str(d: u8) -> (text: &'static str)
    requires
        d < 10,
    ensures
        text@ == seq![digit_char(d)],
{
    proof {
        reveal_strlit("0");
        reveal_strlit("1");
        reveal_strlit("2");
        reveal_strlit("3");
        reveal_strlit("4");
        reveal_strlit("5");
        reveal_strlit("6");
        reveal_strlit("7");
        reveal_strlit("8");
        reveal_strlit("9");
    }
    let text = match d {
        0 => "0",
        1 => "1",
        2 => "2",
        3 => "3",
        4 => "4",
        5 => "5",
        6 => "6",
        7 => "7",
        8 => "8",
        _ => "9",
    };
    text
}

/// Writes the digits behind what `out` already holds.
fn append_digits(out: &mut String, digits: &Vec<u8>)
    requires
        forall|i: int| 0 <= i < digits@.len() ==> #[trigger] digits@[i] < 10,
    ensures
        final(out)@ == old(out)@ + digits@.map_values(|d: u8| digit_char(d)),
{
    let mut i: usize = 0;
    while i < digits.len()
        invariant
            i <= digits@.len(),
            forall|j: int| 0 <= j < digits@.len() ==> #[trigger] digits@[j] < 10,
            out@ == old(out)@ + digits@.take(i as int).map_values(|d: u8| digit_char(d)),
        decreases digits@.len() - i,
    {
        let text = digit_str(digits[i]);
        out.append(text);
        i += 1;
    }
}

} // verus!
