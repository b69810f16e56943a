//! Stable symbolic key identifiers.
//!
//! The identifier is the primary key of the record table: every key this
//! crate knows about has exactly one identifier, and every identifier is
//! present in the table.

use vstd::prelude::*;

verus! {

/// Stable symbolic identifier for a specific key.
#[derive(Clone, Copy, PartialEq, Eq, Structural, Debug, Hash)]
pub enum KeyMappingId {
    /// The "a" key of a US layout.
    UsA,
    /// The "b" key of a US layout.
    UsB,
    /// The "c" key of a US layout.
    UsC,
    /// The "d" key of a US layout.
    UsD,
    /// The "e" key of a US layout.
    UsE,
    /// The "f" key of a US layout.
    UsF,
    /// The "g" key of a US layout.
    UsG,
    /// The "h" key of a US layout.
    UsH,
    /// The "i" key of a US layout.
    UsI,
    /// The "j" key of a US layout.
    UsJ,
    /// The "k" key of a US layout.
    UsK,
    /// The "l" key of a US layout.
    UsL,
    /// The "m" key of a US layout.
    UsM,
    /// The "n" key of a US layout.
    UsN,
    /// The "o" key of a US layout.
    UsO,
    /// The "p" key of a US layout.
    UsP,
    /// The "q" key of a US layout.
    UsQ,
    /// The "r" key of a US layout.
    UsR,
    /// The "s" key of a US layout.
    UsS,
    /// The "t" key of a US layout.
    UsT,
    /// The "u" key of a US layout.
    UsU,
    /// The "v" key of a US layout.
    UsV,
    /// The "w" key of a US layout.
    UsW,
    /// The "x" key of a US layout.
    UsX,
    /// The "y" key of a US layout.
    UsY,
    /// The "z" key of a US layout.
    UsZ,
    /// The "1" key of the digit row.
    Digit1,
    /// The "2" key of the digit row.
    Digit2,
    /// The "3" key of the digit row.
    Digit3,
    /// The "4" key of the digit row.
    Digit4,
    /// The "5" key of the digit row.
    Digit5,
    /// The "6" key of the digit row.
    Digit6,
    /// The "7" key of the digit row.
    Digit7,
    /// The "8" key of the digit row.
    Digit8,
    /// The "9" key of the digit row.
    Digit9,
    /// The "0" key of the digit row.
    Digit0,
    /// The enter key.
    Enter,
    /// The escape key.
    Escape,
    /// The backspace key.
    Backspace,
    /// The tab key.
    Tab,
    /// The space bar.
    Space,
    /// The minus key of a US layout.
    Minus,
    /// The equal-sign key of a US layout.
    Equal,
    /// The left-bracket key of a US layout.
    BracketLeft,
    /// The right-bracket key of a US layout.
    BracketRight,
    /// The backslash key of a US layout.
    Backslash,
    /// The semicolon key of a US layout.
    Semicolon,
    /// The quote key of a US layout.
    Quote,
    /// The backquote key of a US layout.
    Backquote,
    /// The comma key of a US layout.
    Comma,
    /// The period key of a US layout.
    Period,
    /// The slash key of a US layout.
    Slash,
    /// The caps-lock key.
    CapsLock,
    /// The F1 function key.
    F1,
    /// The F2 function key.
    F2,
    /// The F3 function key.
    F3,
    /// The F4 function key.
    F4,
    /// The F5 function key.
    F5,
    /// The F6 function key.
    F6,
    /// The F7 function key.
    F7,
    /// The F8 function key.
    F8,
    /// The F9 function key.
    F9,
    /// The F10 function key.
    F10,
    /// The F11 function key.
    F11,
    /// The F12 function key.
    F12,
    /// The insert key.
    Insert,
    /// The home key.
    Home,
    /// The page-up key.
    PageUp,
    /// The forward-delete key.
    Del,
    /// The end key.
    End,
    /// The page-down key.
    PageDown,
    /// The right-arrow key.
    ArrowRight,
    /// The left-arrow key.
    ArrowLeft,
    /// The down-arrow key.
    ArrowDown,
    /// The up-arrow key.
    ArrowUp,
    /// The left control key.
    ControlLeft,
    /// The left shift key.
    ShiftLeft,
    /// The left alt key.
    AltLeft,
    /// The left meta key.
    MetaLeft,
    /// The right control key.
    ControlRight,
    /// The right shift key.
    ShiftRight,
    /// The right alt key.
    AltRight,
    /// The right meta key.
    MetaRight,
}

} // verus!
