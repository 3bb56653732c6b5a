//! Modifier keys: their names, their codes in the Kitty keyboard protocol,
//! and lists of them written as `ctrl+shift`.

use crate::text::{fields, lemma_fields_nonempty, lowercase, str_equal, to_lowercase, trimmed};
use vstd::prelude::*;
use vstd::string::StringExecFns;

verus! {

/// A modifier key.
#[derive(Clone, Copy, Debug, PartialEq, Eq, Structural)]
pub enum Mod {
    Shift,
    Alt,
    Ctrl,
    Super,
    Hyper,
    Meta,
    CapsLock,
    NumLock,
}

impl Mod {
    /// The bit that stands for this modifier in the Kitty keyboard protocol.
    pub open spec fn code(self) -> nat {
        match self {
            Mod::Shift => 1,
            Mod::Alt => 2,
            Mod::Ctrl => 4,
            Mod::Super => 8,
            Mod::Hyper => 16,
            Mod::Meta => 32,
            Mod::CapsLock => 64,
            Mod::NumLock => 128,
        }
    }

    /// The modifier whose name, in lower case, is `name`.
    pub open spec fn named(name: Seq<char>) -> Option<Mod> {
        if name == "shift"@ {
            Some(Mod::Shift)
        } else if name == "alt"@ {
            Some(Mod::Alt)
        } else if name == "ctrl"@ {
            Some(Mod::Ctrl)
        } else if name == "super"@ {
            Some(Mod::Super)
        } else if name == "hyper"@ {
            Some(Mod::Hyper)
        } else if name == "meta"@ {
            Some(Mod::Meta)
        } else if name == "caps_lock"@ {
            Some(Mod::CapsLock)
        } else if name == "num_lock"@ {
            Some(Mod::NumLock)
        } else {
            None
        }
    }

    /// The modifier that `s` names in upper, lower or mixed case.
    pub open spec fn parsed(s: Seq<char>) -> Option<Mod> {
        Mod::named(lowercase(s))
    }

    /// The modifier whose name, in lower case, is `name`.
    pub fn from_lowercase(name: &str) -> (r: Option<Mod>)
        ensures
            r == Mod::named(name@),
    {
        if str_equal(name, "shift") {
            Some(Mod::Shift)
        } else if str_equal(name, "alt") {
            Some(Mod::Alt)
        } else if str_equal(name, "ctrl") {
            Some(Mod::Ctrl)
        } else if str_equal(name, "super") {
            Some(Mod::Super)
        } else if str_equal(name, "hyper") {
            Some(Mod::Hyper)
        } else if str_equal(name, "meta") {
            Some(Mod::Meta)
        } else if str_equal(name, "caps_lock") {
            Some(Mod::CapsLock)
        } else if str_equal(name, "num_lock") {
            Some(Mod::NumLock)
        } else {
            None
        }
    }

    /// The modifier that `s` names, whatever the case of its letters. A text
    /// that names none is answered with a message that quotes it.
    pub fn from_str(s: &str) -> (r: Result<Mod, String>)
        ensures
            match r {
                Ok(m) => Mod::parsed(s@) == Some(m),
                Err(e) => Mod::parsed(s@) is None && e@ == invalid_modifier(s@),
            },
    {
        let lower = to_lowercase(s);
        match Mod::from_lowercase(lower.as_str()) {
            Some(m) => Ok(m),
            None => {
                let mut e = String::from_str("Invalid modifier: ");
                e.append(s);
                Err(e)
            },
        }
    }
}

/// The message for a text that names no modifier.
pub open spec fn invalid_modifier(s: Seq<char>) -> Seq<char> {
    "Invalid modifier: "@ + s
}

/// The index of the first piece from `k` on that names no modifier once
/// trimmed; the number of pieces where every one names a modifier.
pub open spec fn first_invalid(pieces: Seq<Seq<char>>, k: int) -> int
    decreases pieces.len() - k,
{
    if 0 <= k < pieces.len() && Mod::parsed(trimmed(pieces[k])) is Some {
        first_invalid(pieces, k + 1)
    } else {
        k
    }
}

/// What a list of modifiers written as `a+b+c` holds: one modifier for each
/// piece between the `+` signs, in order, where each piece names one once
/// the white space around it is gone; else the message for the first piece
/// that names none.
pub open spec fn modifiers_in(input: Seq<char>) -> Result<Seq<Mod>, Seq<char>> {
    let pieces = fields(input, '+');
    let k = first_invalid(pieces, 0);
    if k >= pieces.len() {
        Ok(Seq::new(pieces.len(), |i: int| Mod::parsed(trimmed(pieces[i]))->Some_0))
    } else {
        Err(invalid_modifier(trimmed(pieces[k])))
    }
}

/// A list of modifiers that was read from a text holds at least one.
pub proof fn lemma_modifiers_nonempty(input: Seq<char>)
    ensures
        modifiers_in(input) matches Ok(mods) ==> mods.len() >= 1,
{
    lemma_fields_nonempty(input, '+', 0, 0);
}

/// The bit that stands for `modifier` in the Kitty keyboard protocol.
pub fn mod_to_kitty_protocol(modifier: &Mod) -> (r: u8)
    ensures
        r == modifier.code(),
{
    match modifier {
        Mod::Shift => 1,
        Mod::Alt => 2,
        Mod::Ctrl => 4,
        Mod::Super => 8,
        Mod::Hyper => 16,
        Mod::Meta => 32,
        Mod::CapsLock => 64,
        Mod::NumLock => 128,
    }
}

} // verus!
