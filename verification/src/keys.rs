//! The keystroke encoder: from a direction, a list of modifiers and the
//! arrow-key switch to the characters that a terminal program reads as that
//! key press.
//!
//! A single Ctrl is sent as one control character and a single Alt as ESC
//! and a letter. Everything else is sent in the Kitty keyboard protocol,
//! whose modifier field is one more than the sum of the modifiers' codes.

use crate::direction::Direction;
use crate::modifier::{mod_to_kitty_protocol, Mod};
use crate::text::{lemma_segment_start, segment_start};
use vstd::prelude::*;
use vstd::string::StringExecFns;

verus! {

/// The control character that stands for Ctrl and `d`.
pub open spec fn ctrl_char(d: Direction) -> char {
    match d {
        Direction::Left => '\u{08}',
        Direction::Right => '\u{0C}',
        Direction::Up => '\u{0B}',
        Direction::Down => '\u{0A}',
    }
}

/// The letter that moves in direction `d` in vi.
pub open spec fn vi_letter(d: Direction) -> char {
    match d {
        Direction::Left => 'h',
        Direction::Right => 'l',
        Direction::Up => 'k',
        Direction::Down => 'j',
    }
}

/// The letter that ends the escape sequence of the arrow key for `d`.
pub open spec fn arrow_letter(d: Direction) -> char {
    match d {
        Direction::Up => 'A',
        Direction::Down => 'B',
        Direction::Right => 'C',
        Direction::Left => 'D',
    }
}

/// The key code that the Kitty protocol sequence carries for `d` where the
/// arrow keys are not used.
pub open spec fn key_code(d: Direction) -> nat {
    match d {
        Direction::Left => 104,
        Direction::Right => 108,
        Direction::Up => 107,
        Direction::Down => 106,
    }
}

/// The modifier field of the Kitty protocol: 1, and the code of each
/// modifier of the list added to it, once for each time it is listed.
pub open spec fn modifier_mask(mods: Seq<Mod>) -> nat
    decreases mods.len(),
{
    if mods.len() == 0 {
        1
    } else {
        modifier_mask(mods.drop_last()) + mods.last().code()
    }
}

/// The decimal digit for `n`, which is below ten.
pub open spec fn digit(n: nat) -> char {
    if n == 0 {
        '0'
    } else if n == 1 {
        '1'
    } else if n == 2 {
        '2'
    } else if n == 3 {
        '3'
    } else if n == 4 {
        '4'
    } else if n == 5 {
        '5'
    } else if n == 6 {
        '6'
    } else if n == 7 {
        '7'
    } else if n == 8 {
        '8'
    } else {
        '9'
    }
}

/// The number that the decimal digit `c` stands for.
pub open spec fn digit_value(c: char) -> nat {
    if c == '1' {
        1
    } else if c == '2' {
        2
    } else if c == '3' {
        3
    } else if c == '4' {
        4
    } else if c == '5' {
        5
    } else if c == '6' {
        6
    } else if c == '7' {
        7
    } else if c == '8' {
        8
    } else if c == '9' {
        9
    } else {
        0
    }
}

/// Whether `c` is a decimal digit.
pub open spec fn is_digit(c: char) -> bool {
    '0' <= c <= '9'
}

/// `n` written in decimal digits, without leading zeros.
pub open spec fn decimal(n: nat) -> Seq<char>
    decreases n,
{
    if n < 10 {
        seq![digit(n)]
    } else {
        decimal(n / 10).push(digit(n % 10))
    }
}

/// The number that a run of decimal digits stands for.
pub open spec fn decimal_value(s: Seq<char>) -> nat
    decreases s.len(),
{
    if s.len() == 0 {
        0
    } else {
        decimal_value(s.drop_last()) * 10 + digit_value(s.last())
    }
}

/// The key press for a single Ctrl: one control character.
pub open spec fn ctrl_sequence(d: Direction) -> Seq<char> {
    seq![ctrl_char(d)]
}

/// The key press for a single Alt: ESC, then the vi letter.
pub open spec fn alt_sequence(d: Direction) -> Seq<char> {
    seq!['\u{1B}', vi_letter(d)]
}

/// The Kitty protocol sequence of an arrow key: `ESC [ 1 ; mask letter`.
pub open spec fn arrow_sequence(d: Direction, mods: Seq<Mod>) -> Seq<char> {
    seq!['\u{1B}', '[', '1', ';'] + decimal(modifier_mask(mods)) + seq![arrow_letter(d)]
}

/// The Kitty protocol sequence of a key code: `ESC [ code ; mask u`.
pub open spec fn kitty_sequence(d: Direction, mods: Seq<Mod>) -> Seq<char> {
    seq!['\u{1B}', '['] + decimal(key_code(d)) + seq![';'] + decimal(modifier_mask(mods)) + seq![
        'u',
    ]
}

/// Whether the key press is sent in its short form: the arrow keys are not
/// used and the list holds `m` and nothing else.
pub open spec fn is_single(mods: Seq<Mod>, use_arrow_keys: bool, m: Mod) -> bool {
    mods.len() == 1 && !use_arrow_keys && mods[0] == m
}

/// The characters that encode the key press of `d` with `mods` held down.
pub open spec fn encoding(d: Direction, mods: Seq<Mod>, use_arrow_keys: bool) -> Seq<char> {
    if is_single(mods, use_arrow_keys, Mod::Ctrl) {
        ctrl_sequence(d)
    } else if is_single(mods, use_arrow_keys, Mod::Alt) {
        alt_sequence(d)
    } else if use_arrow_keys {
        arrow_sequence(d, mods)
    } else {
        kitty_sequence(d, mods)
    }
}

/// What stands between the last `;` of a Kitty protocol sequence and the
/// character that ends it.
pub open spec fn modifier_field(e: Seq<char>) -> Seq<char> {
    e.subrange(segment_start(e, ';', e.len() - 1), e.len() - 1)
}

/// A modifier mask is at least 1 and grows by at most 128 with each
/// modifier.
pub proof fn lemma_modifier_mask_bounds(mods: Seq<Mod>)
    ensures
        1 <= modifier_mask(mods) <= 1 + 128 * mods.len(),
    decreases mods.len(),
{
    if mods.len() > 0 {
        lemma_modifier_mask_bounds(mods.drop_last());
    }
}

/// A number in decimal is a run of digits, at least one, that stands for
/// that number and begins with `0` only where the number is 0.
pub proof fn lemma_decimal(n: nat)
    ensures
        decimal(n).len() >= 1,
        forall|i: int| 0 <= i < decimal(n).len() ==> is_digit(#[trigger] decimal(n)[i]),
        decimal_value(decimal(n)) == n,
        n > 0 ==> decimal(n)[0] != '0',
    decreases n,
{
    if n >= 10 {
        lemma_decimal(n / 10);
        assert(decimal(n).drop_last() =~= decimal(n / 10));
    } else {
        assert(decimal(n).drop_last() =~= Seq::<char>::empty());
        assert(decimal_value(Seq::<char>::empty()) == 0);
    }
}

/// With a single Ctrl or a single Alt, and the arrow keys not used, each
/// direction is sent as its fixed one or two characters.
pub proof fn lemma_single_modifier_table(d: Direction)
    ensures
        encoding(d, seq![Mod::Ctrl], false) == match d {
            Direction::Left => seq!['\u{08}'],
            Direction::Right => seq!['\u{0C}'],
            Direction::Up => seq!['\u{0B}'],
            Direction::Down => seq!['\u{0A}'],
        },
        encoding(d, seq![Mod::Alt], false) == match d {
            Direction::Left => seq!['\u{1B}', 'h'],
            Direction::Down => seq!['\u{1B}', 'j'],
            Direction::Up => seq!['\u{1B}', 'k'],
            Direction::Right => seq!['\u{1B}', 'l'],
        },
{
}

/// With two or more modifiers, or with one that is neither Ctrl nor Alt, the
/// key press is a Kitty protocol sequence. It ends in `u`, or in the arrow
/// letter where the arrow keys are used, and its modifier field is the
/// decimal form of one plus the sum of the modifiers' codes.
pub proof fn lemma_general_case(d: Direction, mods: Seq<Mod>, use_arrow_keys: bool)
    requires
        mods.len() >= 2 || exists|i: int|
            0 <= i < mods.len() && mods[i] != Mod::Ctrl && mods[i] != Mod::Alt,
    ensures
        encoding(d, mods, use_arrow_keys) == if use_arrow_keys {
            arrow_sequence(d, mods)
        } else {
            kitty_sequence(d, mods)
        },
        encoding(d, mods, use_arrow_keys).last() == if use_arrow_keys {
            arrow_letter(d)
        } else {
            'u'
        },
        modifier_field(encoding(d, mods, use_arrow_keys)) == decimal(modifier_mask(mods)),
        decimal_value(modifier_field(encoding(d, mods, use_arrow_keys))) == modifier_mask(mods),
{
    lemma_modifier_field(d, mods);
}

/// With the arrow keys in use every key press is the Kitty protocol
/// sequence of an arrow key, whatever the modifiers.
pub proof fn lemma_arrow_mode(d: Direction, mods: Seq<Mod>)
    ensures
        encoding(d, mods, true) == arrow_sequence(d, mods),
        encoding(d, mods, true).last() == arrow_letter(d),
        modifier_field(encoding(d, mods, true)) == decimal(modifier_mask(mods)),
{
    lemma_modifier_field(d, mods);
}

/// In either Kitty protocol sequence the modifier field is the decimal form
/// of the modifier mask.
pub proof fn lemma_modifier_field(d: Direction, mods: Seq<Mod>)
    ensures
        modifier_field(arrow_sequence(d, mods)) == decimal(modifier_mask(mods)),
        modifier_field(kitty_sequence(d, mods)) == decimal(modifier_mask(mods)),
        decimal_value(decimal(modifier_mask(mods))) == modifier_mask(mods),
{
    let field = decimal(modifier_mask(mods));
    lemma_decimal(modifier_mask(mods));
    lemma_field_between(seq!['\u{1B}', '[', '1', ';'], field, arrow_letter(d));
    lemma_field_between(seq!['\u{1B}', '['] + decimal(key_code(d)) + seq![';'], field, 'u');
}

/// Where a run of digits stands between a head that ends in `;` and one
/// last character, the run is the modifier field.
proof fn lemma_field_between(head: Seq<char>, field: Seq<char>, end: char)
    requires
        head.len() > 0,
        head.last() == ';',
        forall|i: int| 0 <= i < field.len() ==> is_digit(#[trigger] field[i]),
    ensures
        modifier_field(head + field + seq![end]) == field,
{
    let e = head + field + seq![end];
    let n = e.len() - 1;
    lemma_segment_start(e, ';', n);
    let start = segment_start(e, ';', n);
    if start < head.len() {
        assert(e[head.len() - 1] == head.last());
    }
}

/// The characters of a key press depend on nothing but the direction, the
/// modifiers in their order and the arrow-key switch: the same key press is
/// encoded by the same characters every time.
pub proof fn lemma_encoding_is_a_function(
    d1: Direction,
    mods1: Seq<Mod>,
    arrow1: bool,
    d2: Direction,
    mods2: Seq<Mod>,
    arrow2: bool,
)
    requires
        d1 == d2,
        arrow1 == arrow2,
        mods1.len() == mods2.len(),
        forall|i: int| 0 <= i < mods1.len() ==> mods1[i] == mods2[i],
    ensures
        encoding(d1, mods1, arrow1) == encoding(d2, mods2, arrow2),
{
    assert(mods1 =~= mods2);
}

/// A key press is encoded in ASCII characters only, so that each character
/// is one byte of the text.
pub proof fn lemma_encoding_is_ascii(d: Direction, mods: Seq<Mod>, use_arrow_keys: bool)
    ensures
        forall|i: int|
            0 <= i < encoding(d, mods, use_arrow_keys).len() ==> (#[trigger] encoding(
                d,
                mods,
                use_arrow_keys,
            )[i]) as u32 <= 0x7F,
{
    lemma_decimal(modifier_mask(mods));
    lemma_decimal(key_code(d));
}

/// The one-character text of a decimal digit.
fn digit_str(n: u128) -> (r: &'static str)
    requires
        n < 10,
    ensures
        r@ == seq![digit(n as nat)],
{
    proof {
        reveal_strlit("0");
        reveal_strlit("1");
        reveal_strlit("2");
        reveal_strlit("3");
        reveal_strlit("4");
        reveal_strlit("5");
        reveal_strlit("6");
        reveal_strlit("7");
        reveal_strlit("8");
        reveal_strlit("9");
    }
    let r = if n == 0 {
        "0"
    } else if n == 1 {
        "1"
    } else if n == 2 {
        "2"
    } else if n == 3 {
        "3"
    } else if n == 4 {
        "4"
    } else if n == 5 {
        "5"
    } else if n == 6 {
        "6"
    } else if n == 7 {
        "7"
    } else if n == 8 {
        "8"
    } else {
        "9"
    };
    r
}

/// `n` written in decimal digits.
pub fn decimal_string(n: u128) -> (r: String)
    ensures
        r@ == decimal(n as nat),
    decreases n,
{
    if n < 10 {
        String::from_str(digit_str(n))
    } else {
        let mut r = decimal_string(n / 10);
        r.append(digit_str(n % 10));
        r
    }
}

/// The key press for a single Ctrl and `direction`.
pub fn ctrl_keybinding(direction: &Direction) -> (r: String)
    ensures
        r@ == ctrl_sequence(*direction),
{
    proof {
        reveal_strlit("\u{0008}");
        reveal_strlit("\u{000C}");
        reveal_strlit("\u{000B}");
        reveal_strlit("\u{000A}");
    }
    let key = match direction {
        Direction::Left => "\u{0008}",
        Direction::Right => "\u{000C}",
        Direction::Up => "\u{000B}",
        Direction::Down => "\u{000A}",
    };
    String::from_str(key)
}

/// The key press for a single Alt and `direction`.
pub fn alt_keybinding(direction: &Direction) -> (r: String)
    ensures
        r@ == alt_sequence(*direction),
{
    proof {
        reveal_strlit("\u{001B}");
        reveal_strlit("h");
        reveal_strlit("l");
        reveal_strlit("k");
        reveal_strlit("j");
    }
    let mut r = String::from_str("\u{001B}");
    r.append(
        match direction {
            Direction::Left => "h",
            Direction::Right => "l",
            Direction::Up => "k",
            Direction::Down => "j",
        },
    );
    r
}

/// The modifier field of the Kitty protocol for `modifiers`, in decimal.
pub fn mods_to_kitty_protocol(modifiers: &[Mod]) -> (r: String)
    ensures
        r@ == decimal(modifier_mask(modifiers@)),
{
    let mut kitty_modifiers: u128 = 1;
    let mut i: usize = 0;
    while i < modifiers.len()
        invariant
            i <= modifiers@.len(),
            kitty_modifiers == modifier_mask(modifiers@.take(i as int)),
            kitty_modifiers <= 1 + 128 * i,
        decreases modifiers.len() - i,
    {
        proof {
            assert(modifiers@.take(i + 1).drop_last() =~= modifiers@.take(i as int));
        }
        kitty_modifiers = kitty_modifiers + mod_to_kitty_protocol(&modifiers[i]) as u128;
        i += 1;
    }
    proof {
        assert(modifiers@.take(i as int) =~= modifiers@);
    }
    decimal_string(kitty_modifiers)
}

/// The Kitty protocol sequence of the arrow key for `direction`.
pub fn arrow_kitty_keybinding(direction: &Direction, modifiers: &[Mod]) -> (r: String)
    ensures
        r@ == arrow_sequence(*direction, modifiers@),
{
    proof {
        reveal_strlit("\u{001B}[1;");
        reveal_strlit("A");
        reveal_strlit("B");
        reveal_strlit("C");
        reveal_strlit("D");
    }
    let letter = match direction {
        Direction::Up => "A",
        Direction::Down => "B",
        Direction::Right => "C",
        Direction::Left => "D",
    };
    let mod_code = mods_to_kitty_protocol(modifiers);
    let mut r = String::from_str("\u{001B}[1;");
    r.append(mod_code.as_str());
    r.append(letter);
    r
}

/// The Kitty protocol sequence of the key code for `direction`.
pub fn kitty_keybinding(direction: &Direction, modifiers: &[Mod]) -> (r: String)
    ensures
        r@ == kitty_sequence(*direction, modifiers@),
{
    proof {
        reveal_strlit("\u{001B}[");
        reveal_strlit(";");
        reveal_strlit("u");
        reveal_strlit("104");
        reveal_strlit("108");
        reveal_strlit("107");
        reveal_strlit("106");
        reveal_with_fuel(decimal, 3);
    }
    let code = match direction {
        Direction::Left => "104",
        Direction::Right => "108",
        Direction::Up => "107",
        Direction::Down => "106",
    };
    let mod_code = mods_to_kitty_protocol(modifiers);
    let mut r = String::from_str("\u{001B}[");
    r.append(code);
    r.append(";");
    r.append(mod_code.as_str());
    r.append("u");
    r
}

/// Encodes the key press of `direction` with `modifiers` held down.
pub fn encode(direction: Direction, modifiers: &[Mod], use_arrow_keys: bool) -> (r: String)
    ensures
        r@ == encoding(direction, modifiers@, use_arrow_keys),
{
    // A single Ctrl or Alt has a short form of its own.
    if modifiers.len() == 1 && !use_arrow_keys {
        match modifiers[0] {
            Mod::Ctrl => {
                return ctrl_keybinding(&direction);
            },
            Mod::Alt => {
                return alt_keybinding(&direction);
            },
            _ => {},
        }
    }
    if use_arrow_keys {
        return arrow_kitty_keybinding(&direction, modifiers);
    }
    kitty_keybinding(&direction, modifiers)
}

} // verus!
