//! Browser-style symbolic key codes.
//!
//! These are the W3C UI-events code names for the keys this crate knows
//! about.

use vstd::prelude::*;

verus! {

/// W3C browser event code for a specific key.
#[derive(Clone, Copy, PartialEq, Eq, Structural, Debug, Hash)]
pub enum KeyMappingCode {
    /// Code of the "a" key of a US layout.
    KeyA,
    /// Code of the "b" key of a US layout.
    KeyB,
    /// Code of the "c" key of a US layout.
    KeyC,
    /// Code of the "d" key of a US layout.
    KeyD,
    /// Code of the "e" key of a US layout.
    KeyE,
    /// Code of the "f" key of a US layout.
    KeyF,
    /// Code of the "g" key of a US layout.
    KeyG,
    /// Code of the "h" key of a US layout.
    KeyH,
    /// Code of the "i" key of a US layout.
    KeyI,
    /// Code of the "j" key of a US layout.
    KeyJ,
    /// Code of the "k" key of a US layout.
    KeyK,
    /// Code of the "l" key of a US layout.
    KeyL,
    /// Code of the "m" key of a US layout.
    KeyM,
    /// Code of the "n" key of a US layout.
    KeyN,
    /// Code of the "o" key of a US layout.
    KeyO,
    /// Code of the "p" key of a US layout.
    KeyP,
    /// Code of the "q" key of a US layout.
    KeyQ,
    /// Code of the "r" key of a US layout.
    KeyR,
    /// Code of the "s" key of a US layout.
    KeyS,
    /// Code of the "t" key of a US layout.
    KeyT,
    /// Code of the "u" key of a US layout.
    KeyU,
    /// Code of the "v" key of a US layout.
    KeyV,
    /// Code of the "w" key of a US layout.
    KeyW,
    /// Code of the "x" key of a US layout.
    KeyX,
    /// Code of the "y" key of a US layout.
    KeyY,
    /// Code of the "z" key of a US layout.
    KeyZ,
    /// Code of the "1" key of the digit row.
    Digit1,
    /// Code of the "2" key of the digit row.
    Digit2,
    /// Code of the "3" key of the digit row.
    Digit3,
    /// Code of the "4" key of the digit row.
    Digit4,
    /// Code of the "5" key of the digit row.
    Digit5,
    /// Code of the "6" key of the digit row.
    Digit6,
    /// Code of the "7" key of the digit row.
    Digit7,
    /// Code of the "8" key of the digit row.
    Digit8,
    /// Code of the "9" key of the digit row.
    Digit9,
    /// Code of the "0" key of the digit row.
    Digit0,
    /// Code of the enter key.
    Enter,
    /// Code of the escape key.
    Escape,
    /// Code of the backspace key.
    Backspace,
    /// Code of the tab key.
    Tab,
    /// Code of the space bar.
    Space,
    /// Code of the minus key of a US layout.
    Minus,
    /// Code of the equal-sign key of a US layout.
    Equal,
    /// Code of the left-bracket key of a US layout.
    BracketLeft,
    /// Code of the right-bracket key of a US layout.
    BracketRight,
    /// Code of the backslash key of a US layout.
    Backslash,
    /// Code of the semicolon key of a US layout.
    Semicolon,
    /// Code of the quote key of a US layout.
    Quote,
    /// Code of the backquote key of a US layout.
    Backquote,
    /// Code of the comma key of a US layout.
    Comma,
    /// Code of the period key of a US layout.
    Period,
    /// Code of the slash key of a US layout.
    Slash,
    /// Code of the caps-lock key.
    CapsLock,
    /// Code of the F1 function key.
    F1,
    /// Code of the F2 function key.
    F2,
    /// Code of the F3 function key.
    F3,
    /// Code of the F4 function key.
    F4,
    /// Code of the F5 function key.
    F5,
    /// Code of the F6 function key.
    F6,
    /// Code of the F7 function key.
    F7,
    /// Code of the F8 function key.
    F8,
    /// Code of the F9 function key.
    F9,
    /// Code of the F10 function key.
    F10,
    /// Code of the F11 function key.
    F11,
    /// Code of the F12 function key.
    F12,
    /// Code of the insert key.
    Insert,
    /// Code of the home key.
    Home,
    /// Code of the page-up key.
    PageUp,
    /// Code of the forward-delete key.
    Delete,
    /// Code of the end key.
    End,
    /// Code of the page-down key.
    PageDown,
    /// Code of the right-arrow key.
    ArrowRight,
    /// Code of the left-arrow key.
    ArrowLeft,
    /// Code of the down-arrow key.
    ArrowDown,
    /// Code of the up-arrow key.
    ArrowUp,
    /// Code of the left control key.
    ControlLeft,
    /// Code of the left shift key.
    ShiftLeft,
    /// Code of the left alt key.
    AltLeft,
    /// Code of the left meta key.
    MetaLeft,
    /// Code of the right control key.
    ControlRight,
    /// Code of the right shift key.
    ShiftRight,
    /// Code of the right alt key.
    AltRight,
    /// Code of the right meta key.
    MetaRight,
}

/// The W3C name of a code, as a character sequence.
pub open spec fn code_name(c: KeyMappingCode) -> Seq<char> {
    match c {
        KeyMappingCode::KeyA => "KeyA"@,
        KeyMappingCode::KeyB => "KeyB"@,
        KeyMappingCode::KeyC => "KeyC"@,
        KeyMappingCode::KeyD => "KeyD"@,
        KeyMappingCode::KeyE => "KeyE"@,
        KeyMappingCode::KeyF => "KeyF"@,
        KeyMappingCode::KeyG => "KeyG"@,
        KeyMappingCode::KeyH => "KeyH"@,
        KeyMappingCode::KeyI => "KeyI"@,
        KeyMappingCode::KeyJ => "KeyJ"@,
        KeyMappingCode::KeyK => "KeyK"@,
        KeyMappingCode::KeyL => "KeyL"@,
        KeyMappingCode::KeyM => "KeyM"@,
        KeyMappingCode::KeyN => "KeyN"@,
        KeyMappingCode::KeyO => "KeyO"@,
        KeyMappingCode::KeyP => "KeyP"@,
        KeyMappingCode::KeyQ => "KeyQ"@,
        KeyMappingCode::KeyR => "KeyR"@,
        KeyMappingCode::KeyS => "KeyS"@,
        KeyMappingCode::KeyT => "KeyT"@,
        KeyMappingCode::KeyU => "KeyU"@,
        KeyMappingCode::KeyV => "KeyV"@,
        KeyMappingCode::KeyW => "KeyW"@,
        KeyMappingCode::KeyX => "KeyX"@,
        KeyMappingCode::KeyY => "KeyY"@,
        KeyMappingCode::KeyZ => "KeyZ"@,
        KeyMappingCode::Digit1 => "Digit1"@,
        KeyMappingCode::Digit2 => "Digit2"@,
        KeyMappingCode::Digit3 => "Digit3"@,
        KeyMappingCode::Digit4 => "Digit4"@,
        KeyMappingCode::Digit5 => "Digit5"@,
        KeyMappingCode::Digit6 => "Digit6"@,
        KeyMappingCode::Digit7 => "Digit7"@,
        KeyMappingCode::Digit8 => "Digit8"@,
        KeyMappingCode::Digit9 => "Digit9"@,
        KeyMappingCode::Digit0 => "Digit0"@,
        KeyMappingCode::Enter => "Enter"@,
        KeyMappingCode::Escape => "Escape"@,
        KeyMappingCode::Backspace => "Backspace"@,
        KeyMappingCode::Tab => "Tab"@,
        KeyMappingCode::Space => "Space"@,
        KeyMappingCode::Minus => "Minus"@,
        KeyMappingCode::Equal => "Equal"@,
        KeyMappingCode::BracketLeft => "BracketLeft"@,
        KeyMappingCode::BracketRight => "BracketRight"@,
        KeyMappingCode::Backslash => "Backslash"@,
        KeyMappingCode::Semicolon => "Semicolon"@,
        KeyMappingCode::Quote => "Quote"@,
        KeyMappingCode::Backquote => "Backquote"@,
        KeyMappingCode::Comma => "Comma"@,
        KeyMappingCode::Period => "Period"@,
        KeyMappingCode::Slash => "Slash"@,
        KeyMappingCode::CapsLock => "CapsLock"@,
        KeyMappingCode::F1 => "F1"@,
        KeyMappingCode::F2 => "F2"@,
        KeyMappingCode::F3 => "F3"@,
        KeyMappingCode::F4 => "F4"@,
        KeyMappingCode::F5 => "F5"@,
        KeyMappingCode::F6 => "F6"@,
        KeyMappingCode::F7 => "F7"@,
        KeyMappingCode::F8 => "F8"@,
        KeyMappingCode::F9 => "F9"@,
        KeyMappingCode::F10 => "F10"@,
        KeyMappingCode::F11 => "F11"@,
        KeyMappingCode::F12 => "F12"@,
        KeyMappingCode::Insert => "Insert"@,
        KeyMappingCode::Home => "Home"@,
        KeyMappingCode::PageUp => "PageUp"@,
        KeyMappingCode::Delete => "Delete"@,
        KeyMappingCode::End => "End"@,
        KeyMappingCode::PageDown => "PageDown"@,
        KeyMappingCode::ArrowRight => "ArrowRight"@,
        KeyMappingCode::ArrowLeft => "ArrowLeft"@,
        KeyMappingCode::ArrowDown => "ArrowDown"@,
        KeyMappingCode::ArrowUp => "ArrowUp"@,
        KeyMappingCode::ControlLeft => "ControlLeft"@,
        KeyMappingCode::ShiftLeft => "ShiftLeft"@,
        KeyMappingCode::AltLeft => "AltLeft"@,
        KeyMappingCode::MetaLeft => "MetaLeft"@,
        KeyMappingCode::ControlRight => "ControlRight"@,
        KeyMappingCode::ShiftRight => "ShiftRight"@,
        KeyMappingCode::AltRight => "AltRight"@,
        KeyMappingCode::MetaRight => "MetaRight"@,
    }
}

/// Character-by-character string equality.
fn str_eq(a: &str, b: &str) -> (r: bool)
    ensures
        r == (a@ == b@),
{
    let alen: usize = a.unicode_len();
    let blen: usize = b.unicode_len();
    if alen != blen {
        return false;
    }
    let mut i: usize = 0;
    while i < alen
        invariant
            0 <= i <= alen,
            alen == a@.len(),
            alen == b@.len(),
            forall|j: int| 0 <= j < i ==> a@[j] == b@[j],
        decreases alen - i,
    {
        let ca: char = a.get_char(i);
        let cb: char = b.get_char(i);
        if ca != cb {
            return false;
        }
        i = i + 1;
    }
    proof {
        assert(a@ =~= b@);
    }
    true
}

impl KeyMappingCode {
    /// The W3C name of this code.
    pub fn name(&self) -> (r: &'static str)
        ensures
            r@ == code_name(*self),
    {
        match *self {
            KeyMappingCode::KeyA => "KeyA",
            KeyMappingCode::KeyB => "KeyB",
            KeyMappingCode::KeyC => "KeyC",
            KeyMappingCode::KeyD => "KeyD",
            KeyMappingCode::KeyE => "KeyE",
            KeyMappingCode::KeyF => "KeyF",
            KeyMappingCode::KeyG => "KeyG",
            KeyMappingCode::KeyH => "KeyH",
            KeyMappingCode::KeyI => "KeyI",
            KeyMappingCode::KeyJ => "KeyJ",
            KeyMappingCode::KeyK => "KeyK",
            KeyMappingCode::KeyL => "KeyL",
            KeyMappingCode::KeyM => "KeyM",
            KeyMappingCode::KeyN => "KeyN",
            KeyMappingCode::KeyO => "KeyO",
            KeyMappingCode::KeyP => "KeyP",
            KeyMappingCode::KeyQ => "KeyQ",
            KeyMappingCode::KeyR => "KeyR",
            KeyMappingCode::KeyS => "KeyS",
            KeyMappingCode::KeyT => "KeyT",
            KeyMappingCode::KeyU => "KeyU",
            KeyMappingCode::KeyV => "KeyV",
            KeyMappingCode::KeyW => "KeyW",
            KeyMappingCode::KeyX => "KeyX",
            KeyMappingCode::KeyY => "KeyY",
            KeyMappingCode::KeyZ => "KeyZ",
            KeyMappingCode::Digit1 => "Digit1",
            KeyMappingCode::Digit2 => "Digit2",
            KeyMappingCode::Digit3 => "Digit3",
            KeyMappingCode::Digit4 => "Digit4",
            KeyMappingCode::Digit5 => "Digit5",
            KeyMappingCode::Digit6 => "Digit6",
            KeyMappingCode::Digit7 => "Digit7",
            KeyMappingCode::Digit8 => "Digit8",
            KeyMappingCode::Digit9 => "Digit9",
            KeyMappingCode::Digit0 => "Digit0",
            KeyMappingCode::Enter => "Enter",
            KeyMappingCode::Escape => "Escape",
            KeyMappingCode::Backspace => "Backspace",
            KeyMappingCode::Tab => "Tab",
            KeyMappingCode::Space => "Space",
            KeyMappingCode::Minus => "Minus",
            KeyMappingCode::Equal => "Equal",
            KeyMappingCode::BracketLeft => "BracketLeft",
            KeyMappingCode::BracketRight => "BracketRight",
            KeyMappingCode::Backslash => "Backslash",
            KeyMappingCode::Semicolon => "Semicolon",
            KeyMappingCode::Quote => "Quote",
            KeyMappingCode::Backquote => "Backquote",
            KeyMappingCode::Comma => "Comma",
            KeyMappingCode::Period => "Period",
            KeyMappingCode::Slash => "Slash",
            KeyMappingCode::CapsLock => "CapsLock",
            KeyMappingCode::F1 => "F1",
            KeyMappingCode::F2 => "F2",
            KeyMappingCode::F3 => "F3",
            KeyMappingCode::F4 => "F4",
            KeyMappingCode::F5 => "F5",
            KeyMappingCode::F6 => "F6",
            KeyMappingCode::F7 => "F7",
            KeyMappingCode::F8 => "F8",
            KeyMappingCode::F9 => "F9",
            KeyMappingCode::F10 => "F10",
            KeyMappingCode::F11 => "F11",
            KeyMappingCode::F12 => "F12",
            KeyMappingCode::Insert => "Insert",
            KeyMappingCode::Home => "Home",
            KeyMappingCode::PageUp => "PageUp",
            KeyMappingCode::Delete => "Delete",
            KeyMappingCode::End => "End",
            KeyMappingCode::PageDown => "PageDown",
            KeyMappingCode::ArrowRight => "ArrowRight",
            KeyMappingCode::ArrowLeft => "ArrowLeft",
            KeyMappingCode::ArrowDown => "ArrowDown",
            KeyMappingCode::ArrowUp => "ArrowUp",
            KeyMappingCode::ControlLeft => "ControlLeft",
            KeyMappingCode::ShiftLeft => "ShiftLeft",
            KeyMappingCode::AltLeft => "AltLeft",
            KeyMappingCode::MetaLeft => "MetaLeft",
            KeyMappingCode::ControlRight => "ControlRight",
            KeyMappingCode::ShiftRight => "ShiftRight",
            KeyMappingCode::AltRight => "AltRight",
            KeyMappingCode::MetaRight => "MetaRight",
        }
    }

    /// Look a code up by its W3C name. Fails exactly on names that belong
    /// to no code of this crate.
    pub fn from_str(s: &str) -> (r: Result<KeyMappingCode, ()>)
        ensures
            (r matches Ok(c) ==> code_name(c) == s@),
            r is Err ==> forall|c: KeyMappingCode| code_name(c) != s@,
    {
        if str_eq(s, "KeyA") {
            return Ok(KeyMappingCode::KeyA);
        }
        if str_eq(s, "KeyB") {
            return Ok(KeyMappingCode::KeyB);
        }
        if str_eq(s, "KeyC") {
            return Ok(KeyMappingCode::KeyC);
        }
        if str_eq(s, "KeyD") {
            return Ok(KeyMappingCode::KeyD);
        }
        if str_eq(s, "KeyE") {
            return Ok(KeyMappingCode::KeyE);
        }
        if str_eq(s, "KeyF") {
            return Ok(KeyMappingCode::KeyF);
        }
        if str_eq(s, "KeyG") {
            return Ok(KeyMappingCode::KeyG);
        }
        if str_eq(s, "KeyH") {
            return Ok(KeyMappingCode::KeyH);
        }
        if str_eq(s, "KeyI") {
            return Ok(KeyMappingCode::KeyI);
        }
        if str_eq(s, "KeyJ") {
            return Ok(KeyMappingCode::KeyJ);
        }
        if str_eq(s, "KeyK") {
            return Ok(KeyMappingCode::KeyK);
        }
        if str_eq(s, "KeyL") {
            return Ok(KeyMappingCode::KeyL);
        }
        if str_eq(s, "KeyM") {
            return Ok(KeyMappingCode::KeyM);
        }
        if str_eq(s, "KeyN") {
            return Ok(KeyMappingCode::KeyN);
        }
        if str_eq(s, "KeyO") {
            return Ok(KeyMappingCode::KeyO);
        }
        if str_eq(s, "KeyP") {
            return Ok(KeyMappingCode::KeyP);
        }
        if str_eq(s, "KeyQ") {
            return Ok(KeyMappingCode::KeyQ);
        }
        if str_eq(s, "KeyR") {
            return Ok(KeyMappingCode::KeyR);
        }
        if str_eq(s, "KeyS") {
            return Ok(KeyMappingCode::KeyS);
        }
        if str_eq(s, "KeyT") {
            return Ok(KeyMappingCode::KeyT);
        }
        if str_eq(s, "KeyU") {
            return Ok(KeyMappingCode::KeyU);
        }
        if str_eq(s, "KeyV") {
            return Ok(KeyMappingCode::KeyV);
        }
        if str_eq(s, "KeyW") {
            return Ok(KeyMappingCode::KeyW);
        }
        if str_eq(s, "KeyX") {
            return Ok(KeyMappingCode::KeyX);
        }
        if str_eq(s, "KeyY") {
            return Ok(KeyMappingCode::KeyY);
        }
        if str_eq(s, "KeyZ") {
            return Ok(KeyMappingCode::KeyZ);
        }
        if str_eq(s, "Digit1") {
            return Ok(KeyMappingCode::Digit1);
        }
        if str_eq(s, "Digit2") {
            return Ok(KeyMappingCode::Digit2);
        }
        if str_eq(s, "Digit3") {
            return Ok(KeyMappingCode::Digit3);
        }
        if str_eq(s, "Digit4") {
            return Ok(KeyMappingCode::Digit4);
        }
        if str_eq(s, "Digit5") {
            return Ok(KeyMappingCode::Digit5);
        }
        if str_eq(s, "Digit6") {
            return Ok(KeyMappingCode::Digit6);
        }
        if str_eq(s, "Digit7") {
            return Ok(KeyMappingCode::Digit7);
        }
        if str_eq(s, "Digit8") {
            return Ok(KeyMappingCode::Digit8);
        }
        if str_eq(s, "Digit9") {
            return Ok(KeyMappingCode::Digit9);
        }
        if str_eq(s, "Digit0") {
            return Ok(KeyMappingCode::Digit0);
        }
        if str_eq(s, "Enter") {
            return Ok(KeyMappingCode::Enter);
        }
        if str_eq(s, "Escape") {
            return Ok(KeyMappingCode::Escape);
        }
        if str_eq(s, "Backspace") {
            return Ok(KeyMappingCode::Backspace);
        }
        if str_eq(s, "Tab") {
            return Ok(KeyMappingCode::Tab);
        }
        if str_eq(s, "Space") {
            return Ok(KeyMappingCode::Space);
        }
        if str_eq(s, "Minus") {
            return Ok(KeyMappingCode::Minus);
        }
        if str_eq(s, "Equal") {
            return Ok(KeyMappingCode::Equal);
        }
        if str_eq(s, "BracketLeft") {
            return Ok(KeyMappingCode::BracketLeft);
        }
        if str_eq(s, "BracketRight") {
            return Ok(KeyMappingCode::BracketRight);
        }
        if str_eq(s, "Backslash") {
            return Ok(KeyMappingCode::Backslash);
        }
        if str_eq(s, "Semicolon") {
            return Ok(KeyMappingCode::Semicolon);
        }
        if str_eq(s, "Quote") {
            return Ok(KeyMappingCode::Quote);
        }
        if str_eq(s, "Backquote") {
            return Ok(KeyMappingCode::Backquote);
        }
        if str_eq(s, "Comma") {
            return Ok(KeyMappingCode::Comma);
        }
        if str_eq(s, "Period") {
            return Ok(KeyMappingCode::Period);
        }
        if str_eq(s, "Slash") {
            return Ok(KeyMappingCode::Slash);
        }
        if str_eq(s, "CapsLock") {
            return Ok(KeyMappingCode::CapsLock);
        }
        if str_eq(s, "F1") {
            return Ok(KeyMappingCode::F1);
        }
        if str_eq(s, "F2") {
            return Ok(KeyMappingCode::F2);
        }
        if str_eq(s, "F3") {
            return Ok(KeyMappingCode::F3);
        }
        if str_eq(s, "F4") {
            return Ok(KeyMappingCode::F4);
        }
        if str_eq(s, "F5") {
            return Ok(KeyMappingCode::F5);
        }
        if str_eq(s, "F6") {
            return Ok(KeyMappingCode::F6);
        }
        if str_eq(s, "F7") {
            return Ok(KeyMappingCode::F7);
        }
        if str_eq(s, "F8") {
            return Ok(KeyMappingCode::F8);
        }
        if str_eq(s, "F9") {
            return Ok(KeyMappingCode::F9);
        }
        if str_eq(s, "F10") {
            return Ok(KeyMappingCode::F10);
        }
        if str_eq(s, "F11") {
            return Ok(KeyMappingCode::F11);
        }
        if str_eq(s, "F12") {
            return Ok(KeyMappingCode::F12);
        }
        if str_eq(s, "Insert") {
            return Ok(KeyMappingCode::Insert);
        }
        if str_eq(s, "Home") {
            return Ok(KeyMappingCode::Home);
        }
        if str_eq(s, "PageUp") {
            return Ok(KeyMappingCode::PageUp);
        }
        if str_eq(s, "Delete") {
            return Ok(KeyMappingCode::Delete);
        }
        if str_eq(s, "End") {
            return Ok(KeyMappingCode::End);
        }
        if str_eq(s, "PageDown") {
            return Ok(KeyMappingCode::PageDown);
        }
        if str_eq(s, "ArrowRight") {
            return Ok(KeyMappingCode::ArrowRight);
        }
        if str_eq(s, "ArrowLeft") {
            return Ok(KeyMappingCode::ArrowLeft);
        }
        if str_eq(s, "ArrowDown") {
            return Ok(KeyMappingCode::ArrowDown);
        }
        if str_eq(s, "ArrowUp") {
            return Ok(KeyMappingCode::ArrowUp);
        }
        if str_eq(s, "ControlLeft") {
            return Ok(KeyMappingCode::ControlLeft);
        }
        if str_eq(s, "ShiftLeft") {
            return Ok(KeyMappingCode::ShiftLeft);
        }
        if str_eq(s, "AltLeft") {
            return Ok(KeyMappingCode::AltLeft);
        }
        if str_eq(s, "MetaLeft") {
            return Ok(KeyMappingCode::MetaLeft);
        }
        if str_eq(s, "ControlRight") {
            return Ok(KeyMappingCode::ControlRight);
        }
        if str_eq(s, "ShiftRight") {
            return Ok(KeyMappingCode::ShiftRight);
        }
        if str_eq(s, "AltRight") {
            return Ok(KeyMappingCode::AltRight);
        }
        if str_eq(s, "MetaRight") {
            return Ok(KeyMappingCode::MetaRight);
        }
        Err(())
    }
}

} // verus!
