use lightsync::keys::key_to_native_code;
use lightsync::keys::native_code_to_key;
use lightsync::Fault;
use lightsync::Key;

#[test]
fn key_codes_have_exact_values() {
    assert_eq!(key_to_native_code(Key::Esc), 0x01);
    assert_eq!(key_to_native_code(Key::One), 0x02);
    assert_eq!(key_to_native_code(Key::A), 0x1e);
    assert_eq!(key_to_native_code(Key::Space), 0x39);
    assert_eq!(key_to_native_code(Key::F11), 0x57);
    assert_eq!(key_to_native_code(Key::PrintScreen), 0x137);
    assert_eq!(key_to_native_code(Key::NumEnter), 0x11c);
    assert_eq!(key_to_native_code(Key::ArrowDown), 0x150);
    assert_eq!(key_to_native_code(Key::NumPeriod), 0x53);
}

#[test]
fn every_key_round_trips_through_its_native_code() {
    let keys = vec![
        Key::Esc, Key::F1, Key::F2, Key::F3, Key::F4, Key::F5, Key::F6, Key::F7,
        Key::F8, Key::F9, Key::F10, Key::F11, Key::F12, Key::PrintScreen,
        Key::ScrollLock, Key::PauseBreak, Key::Tilde, Key::One, Key::Two,
        Key::Three, Key::Four, Key::Five, Key::Six, Key::Seven, Key::Eight,
        Key::Nine, Key::Zero, Key::Minus, Key::Equals, Key::Backspace,
        Key::Insert, Key::Home, Key::PageUp, Key::NumLock, Key::NumSlash,
        Key::NumAsterisk, Key::NumMinus, Key::Tab, Key::Q, Key::W, Key::E,
        Key::R, Key::T, Key::Y, Key::U, Key::I, Key::O, Key::P,
        Key::OpenBracket, Key::CloseBracket, Key::Backslash, Key::KeyboardDelete,
        Key::End, Key::PageDown, Key::NumSeven, Key::NumEight, Key::NumNine,
        Key::NumPlus, Key::CapsLock, Key::A, Key::S, Key::D, Key::F, Key::G,
        Key::H, Key::J, Key::K, Key::L, Key::Semicolon, Key::Apostrophe,
        Key::Enter, Key::NumFour, Key::NumFive, Key::NumSix, Key::LeftShift,
        Key::Z, Key::X, Key::C, Key::V, Key::B, Key::N, Key::M, Key::Comma,
        Key::Period, Key::ForwardSlash, Key::RightShift, Key::ArrowUp,
        Key::NumOne, Key::NumTwo, Key::NumThree, Key::NumEnter,
        Key::LeftControl, Key::LeftWindows, Key::LeftAlt, Key::Space,
        Key::RightAlt, Key::RightWindows, Key::ApplicationSelect,
        Key::RightControl, Key::ArrowLeft, Key::ArrowDown, Key::ArrowRight,
        Key::NumZero, Key::NumPeriod,
    ];
    for k in keys {
        assert_eq!(native_code_to_key(key_to_native_code(k)), Some(k));
    }
}

#[test]
fn codes_outside_the_vocabulary_convert_to_none() {
    assert_eq!(native_code_to_key(0x00), None);
    assert_eq!(native_code_to_key(0x54), None);
    assert_eq!(native_code_to_key(-1), None);
    assert_eq!(native_code_to_key(0x7fff_ffff), None);
}

#[test]
fn mapped_characters_resolve_to_their_key() {
    assert_eq!(Key::from_ascii(&'a'), Ok(Key::A));
    assert_eq!(Key::from_ascii(&'A'), Ok(Key::A));
    assert_eq!(Key::from_ascii(&'1'), Ok(Key::One));
    assert_eq!(Key::from_ascii(&'!'), Ok(Key::One));
    assert_eq!(Key::from_ascii(&'`'), Ok(Key::Tilde));
    assert_eq!(Key::from_ascii(&'~'), Ok(Key::Tilde));
    assert_eq!(Key::from_ascii(&'\t'), Ok(Key::Tab));
    assert_eq!(Key::from_ascii(&'\u{8}'), Ok(Key::Backspace));
    assert_eq!(Key::from_ascii(&'\n'), Ok(Key::Enter));
    assert_eq!(Key::from_ascii(&'\r'), Ok(Key::Enter));
    assert_eq!(Key::from_ascii(&'?'), Ok(Key::ForwardSlash));
    assert_eq!(Key::from_ascii(&'"'), Ok(Key::Apostrophe));
}

#[test]
fn unmapped_characters_fault_and_name_the_character() {
    assert_eq!(Key::from_ascii(&' '), Err(Fault::Unmappable(' ')));
    assert_eq!(Key::from_ascii(&'\u{7}'), Err(Fault::Unmappable('\u{7}')));
    assert_eq!(Key::from_ascii(&'\u{e9}'), Err(Fault::Unmappable('\u{e9}')));
}

#[test]
fn a_key_matches_the_characters_that_resolve_to_it() {
    assert!(Key::One.matches_char(&'1'));
    assert!(Key::One.matches_char(&'!'));
    assert!(Key::Semicolon.matches_char(&':'));
    assert!(!Key::Two.matches_char(&'1'));
    assert!(!Key::Space.matches_char(&' '));
}

#[test]
fn every_mapped_character_matches_its_looked_up_key() {
    let mapped = "`~1!2@3#4$5%6^7&8*9(0)-_=+\tqQwWeErRtTyYuUiIoOpP[{]}\\|aAsSdDfFgGhHjJkKlL;:'\"\n\rzZxXcCvVbBnNmM,<.>/?";
    for c in mapped.chars() {
        let k = Key::from_ascii(&c).expect("character is in the map");
        assert!(k.matches_char(&c));
    }
    let backspace = '\u{8}';
    assert!(Key::from_ascii(&backspace).expect("mapped").matches_char(&backspace));
}
