use vim_zellij_navigator::{Mod, State};

#[test]
fn lowercase_names_name_modifiers() {
    assert_eq!(Mod::from_lowercase("shift"), Some(Mod::Shift));
    assert_eq!(Mod::from_lowercase("alt"), Some(Mod::Alt));
    assert_eq!(Mod::from_lowercase("ctrl"), Some(Mod::Ctrl));
    assert_eq!(Mod::from_lowercase("super"), Some(Mod::Super));
    assert_eq!(Mod::from_lowercase("hyper"), Some(Mod::Hyper));
    assert_eq!(Mod::from_lowercase("meta"), Some(Mod::Meta));
    assert_eq!(Mod::from_lowercase("caps_lock"), Some(Mod::CapsLock));
    assert_eq!(Mod::from_lowercase("num_lock"), Some(Mod::NumLock));
}

#[test]
fn from_lowercase_takes_names_as_they_stand() {
    assert_eq!(Mod::from_lowercase("Ctrl"), None);
    assert_eq!(Mod::from_lowercase("CTRL"), None);
    assert_eq!(Mod::from_lowercase(""), None);
    assert_eq!(Mod::from_lowercase("control"), None);
    assert_eq!(Mod::from_lowercase("capslock"), None);
    assert_eq!(Mod::from_lowercase(" ctrl"), None);
}

#[test]
fn from_str_reads_every_name() {
    assert_eq!(Mod::from_str("shift"), Ok(Mod::Shift));
    assert_eq!(Mod::from_str("alt"), Ok(Mod::Alt));
    assert_eq!(Mod::from_str("ctrl"), Ok(Mod::Ctrl));
    assert_eq!(Mod::from_str("super"), Ok(Mod::Super));
    assert_eq!(Mod::from_str("hyper"), Ok(Mod::Hyper));
    assert_eq!(Mod::from_str("meta"), Ok(Mod::Meta));
    assert_eq!(Mod::from_str("caps_lock"), Ok(Mod::CapsLock));
    assert_eq!(Mod::from_str("num_lock"), Ok(Mod::NumLock));
}

#[test]
fn from_str_ignores_case() {
    assert_eq!(Mod::from_str("CTRL"), Ok(Mod::Ctrl));
    assert_eq!(Mod::from_str("Ctrl"), Ok(Mod::Ctrl));
    assert_eq!(Mod::from_str("cTrL"), Ok(Mod::Ctrl));
    assert_eq!(Mod::from_str("Shift"), Ok(Mod::Shift));
    assert_eq!(Mod::from_str("ALT"), Ok(Mod::Alt));
    assert_eq!(Mod::from_str("Caps_Lock"), Ok(Mod::CapsLock));
    assert_eq!(Mod::from_str("NUM_LOCK"), Ok(Mod::NumLock));
}

#[test]
fn from_str_lowers_case_as_unicode_says() {
    assert_eq!(Mod::from_str("CAPS_LOC\u{212A}"), Ok(Mod::CapsLock));
}

#[test]
fn from_str_rejects_other_texts_with_a_message() {
    assert_eq!(Mod::from_str("foo"), Err("Invalid modifier: foo".to_string()));
    assert_eq!(Mod::from_str(""), Err("Invalid modifier: ".to_string()));
    assert_eq!(Mod::from_str("Control"), Err("Invalid modifier: Control".to_string()));
    assert_eq!(Mod::from_str(" ctrl"), Err("Invalid modifier:  ctrl".to_string()));
    assert_eq!(Mod::from_str("ctrl+alt"), Err("Invalid modifier: ctrl+alt".to_string()));
}

#[test]
fn parse_modifiers_reads_lists() {
    assert_eq!(State::parse_modifiers("ctrl"), Ok(vec![Mod::Ctrl]));
    assert_eq!(State::parse_modifiers("ctrl+shift"), Ok(vec![Mod::Ctrl, Mod::Shift]));
    assert_eq!(
        State::parse_modifiers("alt+super+hyper+meta"),
        Ok(vec![Mod::Alt, Mod::Super, Mod::Hyper, Mod::Meta])
    );
    assert_eq!(State::parse_modifiers("ctrl+ctrl"), Ok(vec![Mod::Ctrl, Mod::Ctrl]));
}

#[test]
fn parse_modifiers_ignores_case_and_whitespace_around_names() {
    assert_eq!(State::parse_modifiers("Ctrl+SHIFT"), Ok(vec![Mod::Ctrl, Mod::Shift]));
    assert_eq!(State::parse_modifiers(" ctrl + alt "), Ok(vec![Mod::Ctrl, Mod::Alt]));
    assert_eq!(State::parse_modifiers("\tcaps_lock\n"), Ok(vec![Mod::CapsLock]));
}

#[test]
fn parse_modifiers_reports_the_first_piece_that_names_none() {
    assert_eq!(State::parse_modifiers("foo"), Err("Invalid modifier: foo".to_string()));
    assert_eq!(State::parse_modifiers("ctrl+foo+bar"), Err("Invalid modifier: foo".to_string()));
    assert_eq!(State::parse_modifiers("bar+ctrl+foo"), Err("Invalid modifier: bar".to_string()));
    assert_eq!(State::parse_modifiers("ctrl+ Foo "), Err("Invalid modifier: Foo".to_string()));
}

#[test]
fn parse_modifiers_rejects_empty_pieces() {
    assert_eq!(State::parse_modifiers(""), Err("Invalid modifier: ".to_string()));
    assert_eq!(State::parse_modifiers("   "), Err("Invalid modifier: ".to_string()));
    assert_eq!(State::parse_modifiers("ctrl+"), Err("Invalid modifier: ".to_string()));
    assert_eq!(State::parse_modifiers("+ctrl"), Err("Invalid modifier: ".to_string()));
    assert_eq!(State::parse_modifiers("ctrl++alt"), Err("Invalid modifier: ".to_string()));
}

#[test]
fn parse_modifiers_never_gives_an_empty_list() {
    for input in ["ctrl", "alt+shift", "", "+", "x", " meta "] {
        if let Ok(mods) = State::parse_modifiers(input) {
            assert!(!mods.is_empty());
        }
    }
}
