//! The closed vocabulary of physical keys.
//!
//! One variant exists per physical key position the collaborator recognizes.
//! Each variant round-trips losslessly to the collaborator's integer wire
//! code, and a fixed many-to-one map takes printable and control ASCII
//! characters to the key that normally produces them (both the unshifted and
//! the shifted glyph of a key map to it).

use vstd::prelude::*;

use crate::fault::Fault;

verus! {

/// A physical key position.
///
/// Variants are stable: each has exactly one native integer code, and the
/// code converts back to the same variant.  Values are obtained from the
/// ASCII map or by explicit conversion from a native code, never guessed.
#[derive(Clone, Copy, Debug, PartialEq, Eq, Structural)]
pub enum Key {
    Esc,
    F1,
    F2,
    F3,
    F4,
    F5,
    F6,
    F7,
    F8,
    F9,
    F10,
    F11,
    F12,
    PrintScreen,
    ScrollLock,
    PauseBreak,
    Tilde,
    One,
    Two,
    Three,
    Four,
    Five,
    Six,
    Seven,
    Eight,
    Nine,
    Zero,
    Minus,
    Equals,
    Backspace,
    Insert,
    Home,
    PageUp,
    NumLock,
    NumSlash,
    NumAsterisk,
    NumMinus,
    Tab,
    Q,
    W,
    E,
    R,
    T,
    Y,
    U,
    I,
    O,
    P,
    OpenBracket,
    CloseBracket,
    Backslash,
    KeyboardDelete,
    End,
    PageDown,
    NumSeven,
    NumEight,
    NumNine,
    NumPlus,
    CapsLock,
    A,
    S,
    D,
    F,
    G,
    H,
    J,
    K,
    L,
    Semicolon,
    Apostrophe,
    Enter,
    NumFour,
    NumFive,
    NumSix,
    LeftShift,
    Z,
    X,
    C,
    V,
    B,
    N,
    M,
    Comma,
    Period,
    ForwardSlash,
    RightShift,
    ArrowUp,
    NumOne,
    NumTwo,
    NumThree,
    NumEnter,
    LeftControl,
    LeftWindows,
    LeftAlt,
    Space,
    RightAlt,
    RightWindows,
    ApplicationSelect,
    RightControl,
    ArrowLeft,
    ArrowDown,
    ArrowRight,
    NumZero,
    NumPeriod,
}

/// The native integer wire code of a key, as the collaborator defines it.
pub open spec fn key_code(k: Key) -> i32 {
    match k {
        Key::Esc => 0x01,
        Key::F1 => 0x3b,
        Key::F2 => 0x3c,
        Key::F3 => 0x3d,
        Key::F4 => 0x3e,
        Key::F5 => 0x3f,
        Key::F6 => 0x40,
        Key::F7 => 0x41,
        Key::F8 => 0x42,
        Key::F9 => 0x43,
        Key::F10 => 0x44,
        Key::F11 => 0x57,
        Key::F12 => 0x58,
        Key::PrintScreen => 0x137,
        Key::ScrollLock => 0x46,
        Key::PauseBreak => 0x145,
        Key::Tilde => 0x29,
        Key::One => 0x02,
        Key::Two => 0x03,
        Key::Three => 0x04,
        Key::Four => 0x05,
        Key::Five => 0x06,
        Key::Six => 0x07,
        Key::Seven => 0x08,
        Key::Eight => 0x09,
        Key::Nine => 0x0a,
        Key::Zero => 0x0b,
        Key::Minus => 0x0c,
        Key::Equals => 0x0d,
        Key::Backspace => 0x0e,
        Key::Insert => 0x152,
        Key::Home => 0x147,
        Key::PageUp => 0x149,
        Key::NumLock => 0x45,
        Key::NumSlash => 0x135,
        Key::NumAsterisk => 0x37,
        Key::NumMinus => 0x4a,
        Key::Tab => 0x0f,
        Key::Q => 0x10,
        Key::W => 0x11,
        Key::E => 0x12,
        Key::R => 0x13,
        Key::T => 0x14,
        Key::Y => 0x15,
        Key::U => 0x16,
        Key::I => 0x17,
        Key::O => 0x18,
        Key::P => 0x19,
        Key::OpenBracket => 0x1a,
        Key::CloseBracket => 0x1b,
        Key::Backslash => 0x2b,
        Key::KeyboardDelete => 0x153,
        Key::End => 0x14f,
        Key::PageDown => 0x151,
        Key::NumSeven => 0x47,
        Key::NumEight => 0x48,
        Key::NumNine => 0x49,
        Key::NumPlus => 0x4e,
        Key::CapsLock => 0x3a,
        Key::A => 0x1e,
        Key::S => 0x1f,
        Key::D => 0x20,
        Key::F => 0x21,
        Key::G => 0x22,
        Key::H => 0x23,
        Key::J => 0x24,
        Key::K => 0x25,
        Key::L => 0x26,
        Key::Semicolon => 0x27,
        Key::Apostrophe => 0x28,
        Key::Enter => 0x1c,
        Key::NumFour => 0x4b,
        Key::NumFive => 0x4c,
        Key::NumSix => 0x4d,
        Key::LeftShift => 0x2a,
        Key::Z => 0x2c,
        Key::X => 0x2d,
        Key::C => 0x2e,
        Key::V => 0x2f,
        Key::B => 0x30,
        Key::N => 0x31,
        Key::M => 0x32,
        Key::Comma => 0x33,
        Key::Period => 0x34,
        Key::ForwardSlash => 0x35,
        Key::RightShift => 0x36,
        Key::ArrowUp => 0x148,
        Key::NumOne => 0x4f,
        Key::NumTwo => 0x50,
        Key::NumThree => 0x51,
        Key::NumEnter => 0x11c,
        Key::LeftControl => 0x1d,
        Key::LeftWindows => 0x15b,
        Key::LeftAlt => 0x38,
        Key::Space => 0x39,
        Key::RightAlt => 0x138,
        Key::RightWindows => 0x15c,
        Key::ApplicationSelect => 0x15d,
        Key::RightControl => 0x11d,
        Key::ArrowLeft => 0x14b,
        Key::ArrowDown => 0x150,
        Key::ArrowRight => 0x14d,
        Key::NumZero => 0x52,
        Key::NumPeriod => 0x53,
    }
}

/// The key a native integer code stands for, or `None` for a code that is
/// not one of the enumerated keys.
pub open spec fn code_key(c: i32) -> Option<Key> {
    if c == 0x01 { Some(Key::Esc) }
    else if c == 0x3b { Some(Key::F1) }
    else if c == 0x3c { Some(Key::F2) }
    else if c == 0x3d { Some(Key::F3) }
    else if c == 0x3e { Some(Key::F4) }
    else if c == 0x3f { Some(Key::F5) }
    else if c == 0x40 { Some(Key::F6) }
    else if c == 0x41 { Some(Key::F7) }
    else if c == 0x42 { Some(Key::F8) }
    else if c == 0x43 { Some(Key::F9) }
    else if c == 0x44 { Some(Key::F10) }
    else if c == 0x57 { Some(Key::F11) }
    else if c == 0x58 { Some(Key::F12) }
    else if c == 0x137 { Some(Key::PrintScreen) }
    else if c == 0x46 { Some(Key::ScrollLock) }
    else if c == 0x145 { Some(Key::PauseBreak) }
    else if c == 0x29 { Some(Key::Tilde) }
    else if c == 0x02 { Some(Key::One) }
    else if c == 0x03 { Some(Key::Two) }
    else if c == 0x04 { Some(Key::Three) }
    else if c == 0x05 { Some(Key::Four) }
    else if c == 0x06 { Some(Key::Five) }
    else if c == 0x07 { Some(Key::Six) }
    else if c == 0x08 { Some(Key::Seven) }
    else if c == 0x09 { Some(Key::Eight) }
    else if c == 0x0a { Some(Key::Nine) }
    else if c == 0x0b { Some(Key::Zero) }
    else if c == 0x0c { Some(Key::Minus) }
    else if c == 0x0d { Some(Key::Equals) }
    else if c == 0x0e { Some(Key::Backspace) }
    else if c == 0x152 { Some(Key::Insert) }
    else if c == 0x147 { Some(Key::Home) }
    else if c == 0x149 { Some(Key::PageUp) }
    else if c == 0x45 { Some(Key::NumLock) }
    else if c == 0x135 { Some(Key::NumSlash) }
    else if c == 0x37 { Some(Key::NumAsterisk) }
    else if c == 0x4a { Some(Key::NumMinus) }
    else if c == 0x0f { Some(Key::Tab) }
    else if c == 0x10 { Some(Key::Q) }
    else if c == 0x11 { Some(Key::W) }
    else if c == 0x12 { Some(Key::E) }
    else if c == 0x13 { Some(Key::R) }
    else if c == 0x14 { Some(Key::T) }
    else if c == 0x15 { Some(Key::Y) }
    else if c == 0x16 { Some(Key::U) }
    else if c == 0x17 { Some(Key::I) }
    else if c == 0x18 { Some(Key::O) }
    else if c == 0x19 { Some(Key::P) }
    else if c == 0x1a { Some(Key::OpenBracket) }
    else if c == 0x1b { Some(Key::CloseBracket) }
    else if c == 0x2b { Some(Key::Backslash) }
    else if c == 0x153 { Some(Key::KeyboardDelete) }
    else if c == 0x14f { Some(Key::End) }
    else if c == 0x151 { Some(Key::PageDown) }
    else if c == 0x47 { Some(Key::NumSeven) }
    else if c == 0x48 { Some(Key::NumEight) }
    else if c == 0x49 { Some(Key::NumNine) }
    else if c == 0x4e { Some(Key::NumPlus) }
    else if c == 0x3a { Some(Key::CapsLock) }
    else if c == 0x1e { Some(Key::A) }
    else if c == 0x1f { Some(Key::S) }
    else if c == 0x20 { Some(Key::D) }
    else if c == 0x21 { Some(Key::F) }
    else if c == 0x22 { Some(Key::G) }
    else if c == 0x23 { Some(Key::H) }
    else if c == 0x24 { Some(Key::J) }
    else if c == 0x25 { Some(Key::K) }
    else if c == 0x26 { Some(Key::L) }
    else if c == 0x27 { Some(Key::Semicolon) }
    else if c == 0x28 { Some(Key::Apostrophe) }
    else if c == 0x1c { Some(Key::Enter) }
    else if c == 0x4b { Some(Key::NumFour) }
    else if c == 0x4c { Some(Key::NumFive) }
    else if c == 0x4d { Some(Key::NumSix) }
    else if c == 0x2a { Some(Key::LeftShift) }
    else if c == 0x2c { Some(Key::Z) }
    else if c == 0x2d { Some(Key::X) }
    else if c == 0x2e { Some(Key::C) }
    else if c == 0x2f { Some(Key::V) }
    else if c == 0x30 { Some(Key::B) }
    else if c == 0x31 { Some(Key::N) }
    else if c == 0x32 { Some(Key::M) }
    else if c == 0x33 { Some(Key::Comma) }
    else if c == 0x34 { Some(Key::Period) }
    else if c == 0x35 { Some(Key::ForwardSlash) }
    else if c == 0x36 { Some(Key::RightShift) }
    else if c == 0x148 { Some(Key::ArrowUp) }
    else if c == 0x4f { Some(Key::NumOne) }
    else if c == 0x50 { Some(Key::NumTwo) }
    else if c == 0x51 { Some(Key::NumThree) }
    else if c == 0x11c { Some(Key::NumEnter) }
    else if c == 0x1d { Some(Key::LeftControl) }
    else if c == 0x15b { Some(Key::LeftWindows) }
    else if c == 0x38 { Some(Key::LeftAlt) }
    else if c == 0x39 { Some(Key::Space) }
    else if c == 0x138 { Some(Key::RightAlt) }
    else if c == 0x15c { Some(Key::RightWindows) }
    else if c == 0x15d { Some(Key::ApplicationSelect) }
    else if c == 0x11d { Some(Key::RightControl) }
    else if c == 0x14b { Some(Key::ArrowLeft) }
    else if c == 0x150 { Some(Key::ArrowDown) }
    else if c == 0x14d { Some(Key::ArrowRight) }
    else if c == 0x52 { Some(Key::NumZero) }
    else if c == 0x53 { Some(Key::NumPeriod) }
    else { None }
}

/// Converts a key to its native integer wire code.
pub fn key_to_native_code(key: Key) -> (c: i32)
    ensures
        c == key_code(key),
{
    match key {
        Key::Esc => 0x01,
        Key::F1 => 0x3b,
        Key::F2 => 0x3c,
        Key::F3 => 0x3d,
        Key::F4 => 0x3e,
        Key::F5 => 0x3f,
        Key::F6 => 0x40,
        Key::F7 => 0x41,
        Key::F8 => 0x42,
        Key::F9 => 0x43,
        Key::F10 => 0x44,
        Key::F11 => 0x57,
        Key::F12 => 0x58,
        Key::PrintScreen => 0x137,
        Key::ScrollLock => 0x46,
        Key::PauseBreak => 0x145,
        Key::Tilde => 0x29,
        Key::One => 0x02,
        Key::Two => 0x03,
        Key::Three => 0x04,
        Key::Four => 0x05,
        Key::Five => 0x06,
        Key::Six => 0x07,
        Key::Seven => 0x08,
        Key::Eight => 0x09,
        Key::Nine => 0x0a,
        Key::Zero => 0x0b,
        Key::Minus => 0x0c,
        Key::Equals => 0x0d,
        Key::Backspace => 0x0e,
        Key::Insert => 0x152,
        Key::Home => 0x147,
        Key::PageUp => 0x149,
        Key::NumLock => 0x45,
        Key::NumSlash => 0x135,
        Key::NumAsterisk => 0x37,
        Key::NumMinus => 0x4a,
        Key::Tab => 0x0f,
        Key::Q => 0x10,
        Key::W => 0x11,
        Key::E => 0x12,
        Key::R => 0x13,
        Key::T => 0x14,
        Key::Y => 0x15,
        Key::U => 0x16,
        Key::I => 0x17,
        Key::O => 0x18,
        Key::P => 0x19,
        Key::OpenBracket => 0x1a,
        Key::CloseBracket => 0x1b,
        Key::Backslash => 0x2b,
        Key::KeyboardDelete => 0x153,
        Key::End => 0x14f,
        Key::PageDown => 0x151,
        Key::NumSeven => 0x47,
        Key::NumEight => 0x48,
        Key::NumNine => 0x49,
        Key::NumPlus => 0x4e,
        Key::CapsLock => 0x3a,
        Key::A => 0x1e,
        Key::S => 0x1f,
        Key::D => 0x20,
        Key::F => 0x21,
        Key::G => 0x22,
        Key::H => 0x23,
        Key::J => 0x24,
        Key::K => 0x25,
        Key::L => 0x26,
        Key::Semicolon => 0x27,
        Key::Apostrophe => 0x28,
        Key::Enter => 0x1c,
        Key::NumFour => 0x4b,
        Key::NumFive => 0x4c,
        Key::NumSix => 0x4d,
        Key::LeftShift => 0x2a,
        Key::Z => 0x2c,
        Key::X => 0x2d,
        Key::C => 0x2e,
        Key::V => 0x2f,
        Key::B => 0x30,
        Key::N => 0x31,
        Key::M => 0x32,
        Key::Comma => 0x33,
        Key::Period => 0x34,
        Key::ForwardSlash => 0x35,
        Key::RightShift => 0x36,
        Key::ArrowUp => 0x148,
        Key::NumOne => 0x4f,
        Key::NumTwo => 0x50,
        Key::NumThree => 0x51,
        Key::NumEnter => 0x11c,
        Key::LeftControl => 0x1d,
        Key::LeftWindows => 0x15b,
        Key::LeftAlt => 0x38,
        Key::Space => 0x39,
        Key::RightAlt => 0x138,
        Key::RightWindows => 0x15c,
        Key::ApplicationSelect => 0x15d,
        Key::RightControl => 0x11d,
        Key::ArrowLeft => 0x14b,
        Key::ArrowDown => 0x150,
        Key::ArrowRight => 0x14d,
        Key::NumZero => 0x52,
        Key::NumPeriod => 0x53,
    }
}

/// Converts a native integer wire code back to its key, or `None` for a code
/// outside the vocabulary.
pub fn native_code_to_key(code: i32) -> (r: Option<Key>)
    ensures
        r == code_key(code),
{
    if code == 0x01 { Some(Key::Esc) }
    else if code == 0x3b { Some(Key::F1) }
    else if code == 0x3c { Some(Key::F2) }
    else if code == 0x3d { Some(Key::F3) }
    else if code == 0x3e { Some(Key::F4) }
    else if code == 0x3f { Some(Key::F5) }
    else if code == 0x40 { Some(Key::F6) }
    else if code == 0x41 { Some(Key::F7) }
    else if code == 0x42 { Some(Key::F8) }
    else if code == 0x43 { Some(Key::F9) }
    else if code == 0x44 { Some(Key::F10) }
    else if code == 0x57 { Some(Key::F11) }
    else if code == 0x58 { Some(Key::F12) }
    else if code == 0x137 { Some(Key::PrintScreen) }
    else if code == 0x46 { Some(Key::ScrollLock) }
    else if code == 0x145 { Some(Key::PauseBreak) }
    else if code == 0x29 { Some(Key::Tilde) }
    else if code == 0x02 { Some(Key::One) }
    else if code == 0x03 { Some(Key::Two) }
    else if code == 0x04 { Some(Key::Three) }
    else if code == 0x05 { Some(Key::Four) }
    else if code == 0x06 { Some(Key::Five) }
    else if code == 0x07 { Some(Key::Six) }
    else if code == 0x08 { Some(Key::Seven) }
    else if code == 0x09 { Some(Key::Eight) }
    else if code == 0x0a { Some(Key::Nine) }
    else if code == 0x0b { Some(Key::Zero) }
    else if code == 0x0c { Some(Key::Minus) }
    else if code == 0x0d { Some(Key::Equals) }
    else if code == 0x0e { Some(Key::Backspace) }
    else if code == 0x152 { Some(Key::Insert) }
    else if code == 0x147 { Some(Key::Home) }
    else if code == 0x149 { Some(Key::PageUp) }
    else if code == 0x45 { Some(Key::NumLock) }
    else if code == 0x135 { Some(Key::NumSlash) }
    else if code == 0x37 { Some(Key::NumAsterisk) }
    else if code == 0x4a { Some(Key::NumMinus) }
    else if code == 0x0f { Some(Key::Tab) }
    else if code == 0x10 { Some(Key::Q) }
    else if code == 0x11 { Some(Key::W) }
    else if code == 0x12 { Some(Key::E) }
    else if code == 0x13 { Some(Key::R) }
    else if code == 0x14 { Some(Key::T) }
    else if code == 0x15 { Some(Key::Y) }
    else if code == 0x16 { Some(Key::U) }
    else if code == 0x17 { Some(Key::I) }
    else if code == 0x18 { Some(Key::O) }
    else if code == 0x19 { Some(Key::P) }
    else if code == 0x1a { Some(Key::OpenBracket) }
    else if code == 0x1b { Some(Key::CloseBracket) }
    else if code == 0x2b { Some(Key::Backslash) }
    else if code == 0x153 { Some(Key::KeyboardDelete) }
    else if code == 0x14f { Some(Key::End) }
    else if code == 0x151 { Some(Key::PageDown) }
    else if code == 0x47 { Some(Key::NumSeven) }
    else if code == 0x48 { Some(Key::NumEight) }
    else if code == 0x49 { Some(Key::NumNine) }
    else if code == 0x4e { Some(Key::NumPlus) }
    else if code == 0x3a { Some(Key::CapsLock) }
    else if code == 0x1e { Some(Key::A) }
    else if code == 0x1f { Some(Key::S) }
    else if code == 0x20 { Some(Key::D) }
    else if code == 0x21 { Some(Key::F) }
    else if code == 0x22 { Some(Key::G) }
    else if code == 0x23 { Some(Key::H) }
    else if code == 0x24 { Some(Key::J) }
    else if code == 0x25 { Some(Key::K) }
    else if code == 0x26 { Some(Key::L) }
    else if code == 0x27 { Some(Key::Semicolon) }
    else if code == 0x28 { Some(Key::Apostrophe) }
    else if code == 0x1c { Some(Key::Enter) }
    else if code == 0x4b { Some(Key::NumFour) }
    else if code == 0x4c { Some(Key::NumFive) }
    else if code == 0x4d { Some(Key::NumSix) }
    else if code == 0x2a { Some(Key::LeftShift) }
    else if code == 0x2c { Some(Key::Z) }
    else if code == 0x2d { Some(Key::X) }
    else if code == 0x2e { Some(Key::C) }
    else if code == 0x2f { Some(Key::V) }
    else if code == 0x30 { Some(Key::B) }
    else if code == 0x31 { Some(Key::N) }
    else if code == 0x32 { Some(Key::M) }
    else if code == 0x33 { Some(Key::Comma) }
    else if code == 0x34 { Some(Key::Period) }
    else if code == 0x35 { Some(Key::ForwardSlash) }
    else if code == 0x36 { Some(Key::RightShift) }
    else if code == 0x148 { Some(Key::ArrowUp) }
    else if code == 0x4f { Some(Key::NumOne) }
    else if code == 0x50 { Some(Key::NumTwo) }
    else if code == 0x51 { Some(Key::NumThree) }
    else if code == 0x11c { Some(Key::NumEnter) }
    else if code == 0x1d { Some(Key::LeftControl) }
    else if code == 0x15b { Some(Key::LeftWindows) }
    else if code == 0x38 { Some(Key::LeftAlt) }
    else if code == 0x39 { Some(Key::Space) }
    else if code == 0x138 { Some(Key::RightAlt) }
    else if code == 0x15c { Some(Key::RightWindows) }
    else if code == 0x15d { Some(Key::ApplicationSelect) }
    else if code == 0x11d { Some(Key::RightControl) }
    else if code == 0x14b { Some(Key::ArrowLeft) }
    else if code == 0x150 { Some(Key::ArrowDown) }
    else if code == 0x14d { Some(Key::ArrowRight) }
    else if code == 0x52 { Some(Key::NumZero) }
    else if code == 0x53 { Some(Key::NumPeriod) }
    else { None }
}

/// The key an ASCII character resolves to, or `None` for a character
/// outside the documented map.
///
/// The map is many-to-one: the unshifted and the shifted glyph of one
/// physical key both resolve to it (`'1'` and `'!'` both give the "one"
/// key).  It covers the printable main-block characters plus backspace, tab
/// and the line ends; everything else, the space character included, is
/// outside the map.
pub open spec fn ascii_key(c: char) -> Option<Key> {
    if c == '`' || c == '~' { Some(Key::Tilde) }
    else if c == '1' || c == '!' { Some(Key::One) }
    else if c == '2' || c == '@' { Some(Key::Two) }
    else if c == '3' || c == '#' { Some(Key::Three) }
    else if c == '4' || c == '$' { Some(Key::Four) }
    else if c == '5' || c == '%' { Some(Key::Five) }
    else if c == '6' || c == '^' { Some(Key::Six) }
    else if c == '7' || c == '&' { Some(Key::Seven) }
    else if c == '8' || c == '*' { Some(Key::Eight) }
    else if c == '9' || c == '(' { Some(Key::Nine) }
    else if c == '0' || c == ')' { Some(Key::Zero) }
    else if c == '-' || c == '_' { Some(Key::Minus) }
    else if c == '=' || c == '+' { Some(Key::Equals) }
    else if c == '\u{8}' { Some(Key::Backspace) }
    else if c == '\t' { Some(Key::Tab) }
    else if c == 'q' || c == 'Q' { Some(Key::Q) }
    else if c == 'w' || c == 'W' { Some(Key::W) }
    else if c == 'e' || c == 'E' { Some(Key::E) }
    else if c == 'r' || c == 'R' { Some(Key::R) }
    else if c == 't' || c == 'T' { Some(Key::T) }
    else if c == 'y' || c == 'Y' { Some(Key::Y) }
    else if c == 'u' || c == 'U' { Some(Key::U) }
    else if c == 'i' || c == 'I' { Some(Key::I) }
    else if c == 'o' || c == 'O' { Some(Key::O) }
    else if c == 'p' || c == 'P' { Some(Key::P) }
    else if c == '[' || c == '{' { Some(Key::OpenBracket) }
    else if c == ']' || c == '}' { Some(Key::CloseBracket) }
    else if c == '\\' || c == '|' { Some(Key::Backslash) }
    else if c == 'a' || c == 'A' { Some(Key::A) }
    else if c == 's' || c == 'S' { Some(Key::S) }
    else if c == 'd' || c == 'D' { Some(Key::D) }
    else if c == 'f' || c == 'F' { Some(Key::F) }
    else if c == 'g' || c == 'G' { Some(Key::G) }
    else if c == 'h' || c == 'H' { Some(Key::H) }
    else if c == 'j' || c == 'J' { Some(Key::J) }
    else if c == 'k' || c == 'K' { Some(Key::K) }
    else if c == 'l' || c == 'L' { Some(Key::L) }
    else if c == ';' || c == ':' { Some(Key::Semicolon) }
    else if c == '\'' || c == '"' { Some(Key::Apostrophe) }
    else if c == '\n' || c == '\r' { Some(Key::Enter) }
    else if c == 'z' || c == 'Z' { Some(Key::Z) }
    else if c == 'x' || c == 'X' { Some(Key::X) }
    else if c == 'c' || c == 'C' { Some(Key::C) }
    else if c == 'v' || c == 'V' { Some(Key::V) }
    else if c == 'b' || c == 'B' { Some(Key::B) }
    else if c == 'n' || c == 'N' { Some(Key::N) }
    else if c == 'm' || c == 'M' { Some(Key::M) }
    else if c == ',' || c == '<' { Some(Key::Comma) }
    else if c == '.' || c == '>' { Some(Key::Period) }
    else if c == '/' || c == '?' { Some(Key::ForwardSlash) }
    else { None }
}

/// A key is considered to match a character when that character's entry in
/// the ASCII map resolves to this key.  This is an asymmetric convenience
/// relation, not a general equality.
pub open spec fn key_matches_char(k: Key, c: char) -> bool {
    ascii_key(c) == Some(k)
}

impl Key {
    /// Looks a character up in the ASCII map.
    ///
    /// Every character inside the documented map yields its key; any other
    /// character is reported as an unmappable-character fault, never mapped
    /// to a default key.
    pub fn from_ascii(c: &char) -> (r: Result<Key, Fault>)
        ensures
            r is Ok <==> ascii_key(*c) is Some,
            (match r {
                Ok(k) => ascii_key(*c) == Some(k),
                Err(f) => ascii_key(*c) is None && f == Fault::Unmappable(*c),
            }),
    {
        let ch = *c;
        let found =
            if ch == '`' || ch == '~' { Some(Key::Tilde) }
            else if ch == '1' || ch == '!' { Some(Key::One) }
            else if ch == '2' || ch == '@' { Some(Key::Two) }
            else if ch == '3' || ch == '#' { Some(Key::Three) }
            else if ch == '4' || ch == '$' { Some(Key::Four) }
            else if ch == '5' || ch == '%' { Some(Key::Five) }
            else if ch == '6' || ch == '^' { Some(Key::Six) }
            else if ch == '7' || ch == '&' { Some(Key::Seven) }
            else if ch == '8' || ch == '*' { Some(Key::Eight) }
            else if ch == '9' || ch == '(' { Some(Key::Nine) }
            else if ch == '0' || ch == ')' { Some(Key::Zero) }
            else if ch == '-' || ch == '_' { Some(Key::Minus) }
            else if ch == '=' || ch == '+' { Some(Key::Equals) }
            else if ch == '\u{8}' { Some(Key::Backspace) }
            else if ch == '\t' { Some(Key::Tab) }
            else if ch == 'q' || ch == 'Q' { Some(Key::Q) }
            else if ch == 'w' || ch == 'W' { Some(Key::W) }
            else if ch == 'e' || ch == 'E' { Some(Key::E) }
            else if ch == 'r' || ch == 'R' { Some(Key::R) }
            else if ch == 't' || ch == 'T' { Some(Key::T) }
            else if ch == 'y' || ch == 'Y' { Some(Key::Y) }
            else if ch == 'u' || ch == 'U' { Some(Key::U) }
            else if ch == 'i' || ch == 'I' { Some(Key::I) }
            else if ch == 'o' || ch == 'O' { Some(Key::O) }
            else if ch == 'p' || ch == 'P' { Some(Key::P) }
            else if ch == '[' || ch == '{' { Some(Key::OpenBracket) }
            else if ch == ']' || ch == '}' { Some(Key::CloseBracket) }
            else if ch == '\\' || ch == '|' { Some(Key::Backslash) }
            else if ch == 'a' || ch == 'A' { Some(Key::A) }
            else if ch == 's' || ch == 'S' { Some(Key::S) }
            else if ch == 'd' || ch == 'D' { Some(Key::D) }
            else if ch == 'f' || ch == 'F' { Some(Key::F) }
            else if ch == 'g' || ch == 'G' { Some(Key::G) }
            else if ch == 'h' || ch == 'H' { Some(Key::H) }
            else if ch == 'j' || ch == 'J' { Some(Key::J) }
            else if ch == 'k' || ch == 'K' { Some(Key::K) }
            else if ch == 'l' || ch == 'L' { Some(Key::L) }
            else if ch == ';' || ch == ':' { Some(Key::Semicolon) }
            else if ch == '\'' || ch == '"' { Some(Key::Apostrophe) }
            else if ch == '\n' || ch == '\r' { Some(Key::Enter) }
            else if ch == 'z' || ch == 'Z' { Some(Key::Z) }
            else if ch == 'x' || ch == 'X' { Some(Key::X) }
            else if ch == 'c' || ch == 'C' { Some(Key::C) }
            else if ch == 'v' || ch == 'V' { Some(Key::V) }
            else if ch == 'b' || ch == 'B' { Some(Key::B) }
            else if ch == 'n' || ch == 'N' { Some(Key::N) }
            else if ch == 'm' || ch == 'M' { Some(Key::M) }
            else if ch == ',' || ch == '<' { Some(Key::Comma) }
            else if ch == '.' || ch == '>' { Some(Key::Period) }
            else if ch == '/' || ch == '?' { Some(Key::ForwardSlash) }
            else { None };
        match found {
            Some(k) => Ok(k),
            None => Err(Fault::Unmappable(ch)),
        }
    }

    /// Whether this key matches the character under the ASCII-map relation:
    /// true exactly when the character's entry resolves to this key.
    pub fn matches_char(&self, other: &char) -> (r: bool)
        ensures
            r == key_matches_char(*self, *other),
    {
        match Key::from_ascii(other) {
            Ok(k) => k == *self,
            Err(_) => false,
        }
    }
}

/// Every character inside the ASCII map looks up without a fault, and the
/// key it yields matches that character under the key/character relation.
pub proof fn lemma_mapped_char_matches(c: char)
    requires
        ascii_key(c) is Some,
    ensures
        key_matches_char(ascii_key(c)->Some_0, c),
{
}

/// Converting a key to its native code and back yields the same key: the
/// conversion pair is total and lossless over the whole vocabulary.
pub proof fn lemma_key_code_round_trip(k: Key)
    ensures
        code_key(key_code(k)) == Some(k),
{
}

/// The converse direction: a code inside the vocabulary converts to a key
/// whose native code is that code again.
pub proof fn lemma_native_code_round_trip(c: i32)
    ensures
        code_key(c) matches Some(k) ==> key_code(k) == c,
{
}

} // verus!
