use vim_zellij_navigator::keys::decimal_string;
use vim_zellij_navigator::{
    alt_keybinding, arrow_kitty_keybinding, ctrl_keybinding, encode, kitty_keybinding,
    mod_to_kitty_protocol, mods_to_kitty_protocol, Direction, Mod,
};

const DIRECTIONS: [Direction; 4] = [
    Direction::Left,
    Direction::Right,
    Direction::Up,
    Direction::Down,
];

const ALL_MODS: [Mod; 8] = [
    Mod::Shift,
    Mod::Alt,
    Mod::Ctrl,
    Mod::Super,
    Mod::Hyper,
    Mod::Meta,
    Mod::CapsLock,
    Mod::NumLock,
];

#[test]
fn single_ctrl_is_one_control_character() {
    assert_eq!(encode(Direction::Left, &[Mod::Ctrl], false).as_bytes(), &[0x08]);
    assert_eq!(encode(Direction::Right, &[Mod::Ctrl], false).as_bytes(), &[0x0C]);
    assert_eq!(encode(Direction::Up, &[Mod::Ctrl], false).as_bytes(), &[0x0B]);
    assert_eq!(encode(Direction::Down, &[Mod::Ctrl], false).as_bytes(), &[0x0A]);
}

#[test]
fn single_alt_is_escape_and_vi_letter() {
    assert_eq!(encode(Direction::Left, &[Mod::Alt], false).as_bytes(), &[0x1B, b'h']);
    assert_eq!(encode(Direction::Down, &[Mod::Alt], false).as_bytes(), &[0x1B, b'j']);
    assert_eq!(encode(Direction::Up, &[Mod::Alt], false).as_bytes(), &[0x1B, b'k']);
    assert_eq!(encode(Direction::Right, &[Mod::Alt], false).as_bytes(), &[0x1B, b'l']);
}

#[test]
fn short_forms_match_the_keybinding_functions() {
    for d in DIRECTIONS {
        assert_eq!(encode(d, &[Mod::Ctrl], false), ctrl_keybinding(&d));
        assert_eq!(encode(d, &[Mod::Alt], false), alt_keybinding(&d));
    }
    assert_eq!(ctrl_keybinding(&Direction::Left), "\u{0008}");
    assert_eq!(ctrl_keybinding(&Direction::Right), "\u{000C}");
    assert_eq!(ctrl_keybinding(&Direction::Up), "\u{000B}");
    assert_eq!(ctrl_keybinding(&Direction::Down), "\u{000A}");
    assert_eq!(alt_keybinding(&Direction::Left), "\u{1b}h");
    assert_eq!(alt_keybinding(&Direction::Right), "\u{1b}l");
    assert_eq!(alt_keybinding(&Direction::Up), "\u{1b}k");
    assert_eq!(alt_keybinding(&Direction::Down), "\u{1b}j");
}

#[test]
fn single_other_modifier_uses_the_kitty_protocol() {
    assert_eq!(encode(Direction::Left, &[Mod::Shift], false), "\u{1b}[104;2u");
    assert_eq!(encode(Direction::Right, &[Mod::Super], false), "\u{1b}[108;9u");
    assert_eq!(encode(Direction::Up, &[Mod::Hyper], false), "\u{1b}[107;17u");
    assert_eq!(encode(Direction::Down, &[Mod::Meta], false), "\u{1b}[106;33u");
    assert_eq!(encode(Direction::Down, &[Mod::CapsLock], false), "\u{1b}[106;65u");
    assert_eq!(encode(Direction::Down, &[Mod::NumLock], false), "\u{1b}[106;129u");
}

#[test]
fn several_modifiers_use_the_kitty_protocol() {
    assert_eq!(encode(Direction::Left, &[Mod::Ctrl, Mod::Shift], false), "\u{1b}[104;6u");
    assert_eq!(encode(Direction::Right, &[Mod::Ctrl, Mod::Alt], false), "\u{1b}[108;7u");
    assert_eq!(
        encode(Direction::Up, &[Mod::Ctrl, Mod::Alt, Mod::Shift], false),
        "\u{1b}[107;8u"
    );
    assert_eq!(kitty_keybinding(&Direction::Down, &[Mod::Alt, Mod::Super]), "\u{1b}[106;11u");
}

#[test]
fn arrow_mode_uses_arrow_letters() {
    assert_eq!(encode(Direction::Up, &[Mod::Ctrl], true), "\u{1b}[1;5A");
    assert_eq!(encode(Direction::Down, &[Mod::Ctrl], true), "\u{1b}[1;5B");
    assert_eq!(encode(Direction::Right, &[Mod::Ctrl], true), "\u{1b}[1;5C");
    assert_eq!(encode(Direction::Left, &[Mod::Ctrl], true), "\u{1b}[1;5D");
    assert_eq!(encode(Direction::Left, &[Mod::Alt], true), "\u{1b}[1;3D");
    assert_eq!(encode(Direction::Left, &[Mod::Ctrl, Mod::Shift], true), "\u{1b}[1;6D");
    assert_eq!(arrow_kitty_keybinding(&Direction::Up, &[Mod::Shift]), "\u{1b}[1;2A");
}

#[test]
fn general_case_ends_in_u_or_arrow_letter_with_the_mask_before_it() {
    for d in DIRECTIONS {
        for first in ALL_MODS {
            for second in ALL_MODS {
                let mods = [first, second];
                let mask = 1 + mod_to_kitty_protocol(&first) as u32
                    + mod_to_kitty_protocol(&second) as u32;
                let plain = encode(d, &mods, false);
                assert!(plain.starts_with("\u{1b}["));
                assert!(plain.ends_with(&format!(";{}u", mask)));
                let arrow = encode(d, &mods, true);
                assert!(arrow.starts_with("\u{1b}[1;"));
                let letter = arrow.chars().last().unwrap();
                assert!(matches!(letter, 'A' | 'B' | 'C' | 'D'));
                assert_eq!(arrow[4..arrow.len() - 1], format!("{}", mask));
            }
        }
    }
}

#[test]
fn all_modifiers_together_give_mask_256() {
    assert_eq!(mods_to_kitty_protocol(&ALL_MODS), "256");
    assert_eq!(encode(Direction::Left, &ALL_MODS, false), "\u{1b}[104;256u");
    assert_eq!(encode(Direction::Left, &ALL_MODS, true), "\u{1b}[1;256D");
}

#[test]
fn a_modifier_listed_twice_counts_twice() {
    assert_eq!(mods_to_kitty_protocol(&[Mod::Ctrl, Mod::Ctrl]), "9");
    assert_eq!(encode(Direction::Up, &[Mod::Ctrl, Mod::Ctrl], false), "\u{1b}[107;9u");
}

#[test]
fn empty_modifier_list_has_mask_one() {
    assert_eq!(mods_to_kitty_protocol(&[]), "1");
    assert_eq!(encode(Direction::Left, &[], false), "\u{1b}[104;1u");
    assert_eq!(encode(Direction::Left, &[], true), "\u{1b}[1;1D");
}

#[test]
fn modifier_codes_are_powers_of_two() {
    let codes: Vec<u8> = ALL_MODS.iter().map(mod_to_kitty_protocol).collect();
    assert_eq!(codes, vec![1, 2, 4, 8, 16, 32, 64, 128]);
}

#[test]
fn mask_is_one_plus_the_sum_of_the_codes() {
    assert_eq!(mods_to_kitty_protocol(&[Mod::Shift]), "2");
    assert_eq!(mods_to_kitty_protocol(&[Mod::Alt]), "3");
    assert_eq!(mods_to_kitty_protocol(&[Mod::Ctrl]), "5");
    assert_eq!(mods_to_kitty_protocol(&[Mod::Ctrl, Mod::Alt, Mod::Shift]), "8");
    assert_eq!(mods_to_kitty_protocol(&[Mod::NumLock, Mod::CapsLock]), "193");
}

#[test]
fn encoding_twice_gives_the_same_characters() {
    for d in DIRECTIONS {
        for m in ALL_MODS {
            for arrow in [false, true] {
                assert_eq!(encode(d, &[m], arrow), encode(d, &[m], arrow));
                assert_eq!(encode(d, &[m, Mod::Shift], arrow), encode(d, &[m, Mod::Shift], arrow));
            }
        }
    }
}

#[test]
fn decimal_string_writes_numbers_as_std_does() {
    for n in [0u128, 1, 9, 10, 11, 99, 100, 104, 255, 256, 1000, 65_535, 1_000_000] {
        assert_eq!(decimal_string(n), format!("{}", n));
    }
    assert_eq!(decimal_string(u128::MAX), format!("{}", u128::MAX));
    assert_eq!(decimal_string(7), "7");
    assert_eq!(decimal_string(120), "120");
}

#[test]
fn long_modifier_list_does_not_overflow() {
    let mods = vec![Mod::NumLock; 1000];
    assert_eq!(mods_to_kitty_protocol(&mods), "128001");
}
