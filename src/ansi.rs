use vstd::prelude::*;

use crate::report::{Report, WhyNoDeriveDeserializeManSadFaceHere};

verus! {

/// The escape byte that opens a control sequence.
pub const ESCAPE: u8 = 0x1B;

/// The `[` that follows the escape byte in a control sequence.
pub const OPEN_BRACKET: u8 = 0x5B;

/// No modifier.
pub const MOD_NORM: u8 = 0;

/// Left shift, for the shifted characters.
pub const MOD_ALT: u8 = 2;

/// Usage of the `a` key; the letters follow in order.
pub const USAGE_A: u8 = 0x04;

/// Usage of the `1` key; the digits 2 to 9 follow in order.
pub const USAGE_1: u8 = 0x1E;

/// Usages of the arrow keys.
pub const USAGE_RIGHT_ARROW: u8 = 0x4F;
pub const USAGE_LEFT_ARROW: u8 = 0x50;
pub const USAGE_DOWN_ARROW: u8 = 0x51;
pub const USAGE_UP_ARROW: u8 = 0x52;

/// The key (modifier byte, usage) that types the terminal byte `ch` on a UK
/// keyboard, where there is one.
pub open spec fn char_key(ch: u8) -> Option<(u8, u8)> {
    if 0x61 <= ch <= 0x7A {  // 'a' to 'z'
        Some((MOD_NORM, (USAGE_A + (ch - 0x61)) as u8))
    } else if 0x41 <= ch <= 0x5A {  // 'A' to 'Z'
        Some((MOD_ALT, (USAGE_A + (ch - 0x41)) as u8))
    } else if 0x31 <= ch <= 0x39 {  // '1' to '9'
        Some((MOD_NORM, (USAGE_1 + (ch - 0x31)) as u8))
    } else {
        match ch {
            0x30 => Some((MOD_NORM, 0x27u8)),  // '0'
            0x21 => Some((MOD_ALT, 0x1Eu8)),  // '!'
            0x22 => Some((MOD_ALT, 0x1Fu8)),  // '"'
            0x24 => Some((MOD_ALT, 0x21u8)),  // '$'
            0x25 => Some((MOD_ALT, 0x22u8)),  // '%'
            0x5E => Some((MOD_ALT, 0x23u8)),  // '^'
            0x26 => Some((MOD_ALT, 0x24u8)),  // '&'
            0x2A => Some((MOD_ALT, 0x25u8)),  // '*'
            0x28 => Some((MOD_ALT, 0x26u8)),  // '('
            0x29 => Some((MOD_ALT, 0x27u8)),  // ')'
            0x20 => Some((MOD_NORM, 0x2Cu8)),  // ' '
            0x2D => Some((MOD_NORM, 0x2Du8)),  // '-'
            0x5F => Some((MOD_ALT, 0x2Du8)),  // '_'
            0x3D => Some((MOD_NORM, 0x2Eu8)),  // '='
            0x2B => Some((MOD_ALT, 0x2Eu8)),  // '+'
            0x5B => Some((MOD_NORM, 0x2Fu8)),  // '['
            0x7B => Some((MOD_ALT, 0x2Fu8)),  // '{'
            0x5D => Some((MOD_NORM, 0x30u8)),  // ']'
            0x7D => Some((MOD_ALT, 0x30u8)),  // '}'
            0x27 => Some((MOD_NORM, 0x34u8)),  // '\''
            0x5C => Some((MOD_NORM, 0x31u8)),  // '\\'
            0x7C => Some((MOD_ALT, 0x31u8)),  // '|'
            0x3B => Some((MOD_NORM, 0x33u8)),  // ';'
            0x3A => Some((MOD_ALT, 0x33u8)),  // ':'
            0x2F => Some((MOD_NORM, 0x38u8)),  // '/'
            0x3F => Some((MOD_ALT, 0x38u8)),  // '?'
            0x09 => Some((MOD_NORM, 0x2Bu8)),  // '\t'
            0x0D => Some((MOD_NORM, 0x28u8)),  // '\r'
            127 => Some((MOD_NORM, 0x2Au8)),
            _ => None,
        }
    }
}

/// Whether `r` holds exactly the one key `(modifier, usage)`.
pub open spec fn is_single(r: Report, key: (u8, u8)) -> bool {
    r.modifier == key.0 && r.keys@ == seq![key.1, 0u8, 0u8, 0u8, 0u8, 0u8]
}

/// Whether `r` is the report for the key description `key`.
pub open spec fn matches_key(r: Option<Report>, key: Option<(u8, u8)>) -> bool {
    match key {
        Some(k) => r matches Some(x) && is_single(x, k),
        None => r is None,
    }
}

/// A report holding the one key `keycode` with the modifier byte `modifier`.
pub fn simple_kr(modifier: u8, keycode: u8) -> (r: Option<Report>)
    ensures
        matches_key(r, Some((modifier, keycode))),
{
    Some(WhyNoDeriveDeserializeManSadFaceHere::single(modifier, keycode))
}

/// The report that types the terminal byte `ch`, where it has one.
pub fn translate_char(ch: u8) -> (r: Option<Report>)
    ensures
        matches_key(r, char_key(ch)),
{
    if 0x61 <= ch && ch <= 0x7A {  // 'a' to 'z'
        simple_kr(MOD_NORM, USAGE_A + (ch - 0x61))
    } else if 0x41 <= ch && ch <= 0x5A {  // 'A' to 'Z'
        simple_kr(MOD_ALT, USAGE_A + (ch - 0x41))
    } else if 0x31 <= ch && ch <= 0x39 {  // '1' to '9'
        simple_kr(MOD_NORM, USAGE_1 + (ch - 0x31))
    } else {
        match ch {
            0x30 => simple_kr(MOD_NORM, 0x27),  // '0'
            0x21 => simple_kr(MOD_ALT, 0x1E),  // '!'
            0x22 => simple_kr(MOD_ALT, 0x1F),  // '"'
            0x24 => simple_kr(MOD_ALT, 0x21),  // '$'
            0x25 => simple_kr(MOD_ALT, 0x22),  // '%'
            0x5E => simple_kr(MOD_ALT, 0x23),  // '^'
            0x26 => simple_kr(MOD_ALT, 0x24),  // '&'
            0x2A => simple_kr(MOD_ALT, 0x25),  // '*'
            0x28 => simple_kr(MOD_ALT, 0x26),  // '('
            0x29 => simple_kr(MOD_ALT, 0x27),  // ')'
            0x20 => simple_kr(MOD_NORM, 0x2C),  // ' '
            0x2D => simple_kr(MOD_NORM, 0x2D),  // '-'
            0x5F => simple_kr(MOD_ALT, 0x2D),  // '_'
            0x3D => simple_kr(MOD_NORM, 0x2E),  // '='
            0x2B => simple_kr(MOD_ALT, 0x2E),  // '+'
            0x5B => simple_kr(MOD_NORM, 0x2F),  // '['
            0x7B => simple_kr(MOD_ALT, 0x2F),  // '{'
            0x5D => simple_kr(MOD_NORM, 0x30),  // ']'
            0x7D => simple_kr(MOD_ALT, 0x30),  // '}'
            0x27 => simple_kr(MOD_NORM, 0x34),  // '\''
            0x5C => simple_kr(MOD_NORM, 0x31),  // '\\'
            0x7C => simple_kr(MOD_ALT, 0x31),  // '|'
            0x3B => simple_kr(MOD_NORM, 0x33),  // ';'
            0x3A => simple_kr(MOD_ALT, 0x33),  // ':'
            0x2F => simple_kr(MOD_NORM, 0x38),  // '/'
            0x3F => simple_kr(MOD_ALT, 0x38),  // '?'
            0x09 => simple_kr(MOD_NORM, 0x2B),  // '\t'
            0x0D => simple_kr(MOD_NORM, 0x28),  // '\r'
            127 => simple_kr(MOD_NORM, 0x2A),
            _ => None,
        }
    }
}

/// Where the decoder stands in an escape sequence.
#[derive(Clone, Copy, Debug, Default, PartialEq, Eq, Structural)]
pub enum StateMachine {
    /// Nothing pending.
    #[default]
    Start,
    /// An escape byte (0x1B) was seen.
    Escape,
    /// An escape byte and then `[` were seen.
    Bracket,
}

/// The state after `data` arrives in state `s`.
pub open spec fn next_state(s: StateMachine, data: u8) -> StateMachine {
    match s {
        StateMachine::Start => if data == ESCAPE {
            StateMachine::Escape
        } else {
            StateMachine::Start
        },
        StateMachine::Escape => if data == OPEN_BRACKET {
            StateMachine::Bracket
        } else {
            StateMachine::Start
        },
        StateMachine::Bracket => StateMachine::Start,
    }
}

/// The arrow key that ends a `ESC [` sequence with `data`, if any.
pub open spec fn arrow_key(data: u8) -> Option<(u8, u8)> {
    if data == 0x41 {  // 'A'
        Some((MOD_NORM, USAGE_UP_ARROW))
    } else if data == 0x42 {  // 'B'
        Some((MOD_NORM, USAGE_DOWN_ARROW))
    } else if data == 0x43 {  // 'C'
        Some((MOD_NORM, USAGE_RIGHT_ARROW))
    } else if data == 0x44 {  // 'D'
        Some((MOD_NORM, USAGE_LEFT_ARROW))
    } else {
        None
    }
}

/// The key that `data` produces in state `s`, if any.
pub open spec fn step_output(s: StateMachine, data: u8) -> Option<(u8, u8)> {
    match s {
        StateMachine::Start => if data == ESCAPE {
            None
        } else {
            char_key(data)
        },
        StateMachine::Escape => None,
        StateMachine::Bracket => arrow_key(data),
    }
}

impl StateMachine {
    /// Takes one terminal byte and returns the report it completes, if any.
    /// An escape sequence other than the four arrows is dropped, and the byte
    /// that broke it is not read again.
    pub fn step(&mut self, data: u8) -> (r: Option<Report>)
        ensures
            *final(self) == next_state(*old(self), data),
            matches_key(r, step_output(*old(self), data)),
    {
        match self {
            StateMachine::Start => {
                if data == ESCAPE {
                    *self = StateMachine::Escape;
                    None
                } else {
                    translate_char(data)
                }
            },
            StateMachine::Escape => {
                if data == OPEN_BRACKET {
                    *self = StateMachine::Bracket;
                } else {
                    *self = StateMachine::Start;
                }
                None
            },
            StateMachine::Bracket => {
                *self = StateMachine::Start;
                if data == 0x41 {  // 'A'
                    simple_kr(MOD_NORM, USAGE_UP_ARROW)
                } else if data == 0x42 {  // 'B'
                    simple_kr(MOD_NORM, USAGE_DOWN_ARROW)
                } else if data == 0x43 {  // 'C'
                    simple_kr(MOD_NORM, USAGE_RIGHT_ARROW)
                } else if data == 0x44 {  // 'D'
                    simple_kr(MOD_NORM, USAGE_LEFT_ARROW)
                } else {
                    None
                }
            },
        }
    }
}

} // verus!
