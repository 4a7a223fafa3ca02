use totp_cli::intent::Intent;
use totp_cli::menu::{Field, InputMode, Key, Menu, MenuItem};

fn type_text(menu: &mut Menu, text: &str) {
    for ch in text.chars() {
        assert!(menu.press(Key::Char(ch)).is_none());
    }
}

#[test]
fn menu_starts_on_the_home_tab() {
    let menu = Menu::new();
    assert_eq!(menu.active, MenuItem::Home);
    assert_eq!(menu.mode, InputMode::Normal);
    assert_eq!(menu.field, Field::Account);
    assert_eq!(menu.account, "");
    assert_eq!(menu.key, "");
}

#[test]
fn tabs_have_positions_from_the_left() {
    assert_eq!(MenuItem::Home.index(), 0);
    assert_eq!(MenuItem::Codes.index(), 1);
    assert_eq!(MenuItem::AddCode.index(), 2);
    assert_eq!(usize::from(MenuItem::Home), 0);
    assert_eq!(usize::from(MenuItem::Codes), 1);
    assert_eq!(usize::from(MenuItem::AddCode), 2);
    let position: usize = MenuItem::Codes.into();
    assert_eq!(position, 1);
}

#[test]
fn letters_are_commands_in_normal_mode() {
    let mut menu = Menu::new();
    assert!(menu.press(Key::Char('c')).is_none());
    assert_eq!(menu.active, MenuItem::Codes);
    assert_eq!(menu.mode, InputMode::Normal);
    assert!(menu.press(Key::Char('h')).is_none());
    assert_eq!(menu.active, MenuItem::Home);
    assert!(matches!(menu.press(Key::Char('d')), Some(Intent::RemoveSelected)));
    assert!(matches!(menu.press(Key::Char('q')), Some(Intent::Quit)));
    assert_eq!(menu.mode, InputMode::Normal);
    assert_eq!(menu.account, "");
    assert_eq!(menu.key, "");
}

#[test]
fn arrows_move_the_selection_in_normal_mode_only() {
    let mut menu = Menu::new();
    assert!(matches!(menu.press(Key::Down), Some(Intent::SelectNext)));
    assert!(matches!(menu.press(Key::Up), Some(Intent::SelectPrev)));
    menu.press(Key::Char('a'));
    assert_eq!(menu.mode, InputMode::Editing);
    assert!(menu.press(Key::Down).is_none());
    assert!(menu.press(Key::Up).is_none());
}

#[test]
fn a_opens_the_add_tab_and_starts_editing() {
    let mut menu = Menu::new();
    assert!(menu.press(Key::Char('a')).is_none());
    assert_eq!(menu.active, MenuItem::AddCode);
    assert_eq!(menu.mode, InputMode::Editing);
    assert_eq!(menu.account, "");
    type_text(&mut menu, "aqhcd");
    assert_eq!(menu.account, "aqhcd");
    assert_eq!(menu.active, MenuItem::AddCode);
}

#[test]
fn any_other_letter_starts_editing() {
    let mut menu = Menu::new();
    assert!(menu.press(Key::Char('x')).is_none());
    assert_eq!(menu.mode, InputMode::Editing);
    assert_eq!(menu.active, MenuItem::Home);
    assert_eq!(menu.account, "x");
    assert!(menu.press(Key::Char('q')).is_none());
    assert_eq!(menu.account, "xq");
}

#[test]
fn tab_moves_the_focus_between_the_fields() {
    let mut menu = Menu::new();
    menu.press(Key::Char('a'));
    type_text(&mut menu, "Alice");
    assert!(menu.press(Key::Tab).is_none());
    assert_eq!(menu.field, Field::Secret);
    type_text(&mut menu, "secretA");
    assert_eq!(menu.account, "Alice");
    assert_eq!(menu.key, "secretA");
    assert!(menu.press(Key::Tab).is_none());
    assert_eq!(menu.field, Field::Account);
    type_text(&mut menu, "!");
    assert_eq!(menu.account, "Alice!");
    assert_eq!(menu.key, "secretA");
}

#[test]
fn backspace_erases_the_last_character_of_the_focused_field() {
    let mut menu = Menu::new();
    menu.press(Key::Char('a'));
    type_text(&mut menu, "Al");
    assert!(menu.press(Key::Backspace).is_none());
    assert_eq!(menu.account, "A");
    menu.press(Key::Backspace);
    menu.press(Key::Backspace);
    assert_eq!(menu.account, "");
    menu.press(Key::Tab);
    type_text(&mut menu, "k\u{e9}");
    menu.press(Key::Backspace);
    assert_eq!(menu.key, "k");
    assert_eq!(menu.mode, InputMode::Editing);
}

#[test]
fn escape_returns_to_normal_mode() {
    let mut menu = Menu::new();
    menu.press(Key::Char('a'));
    type_text(&mut menu, "Alice");
    assert!(menu.press(Key::Esc).is_none());
    assert_eq!(menu.mode, InputMode::Normal);
    assert_eq!(menu.active, MenuItem::AddCode);
    assert_eq!(menu.account, "Alice");
    assert!(matches!(menu.press(Key::Char('q')), Some(Intent::Quit)));
}

#[test]
fn enter_submits_both_fields_and_clears_them() {
    let mut menu = Menu::new();
    menu.press(Key::Char('a'));
    type_text(&mut menu, "Alice");
    menu.press(Key::Tab);
    type_text(&mut menu, "secretA");
    match menu.press(Key::Enter) {
        Some(Intent::AddAccount { secret, label }) => {
            assert_eq!(secret, b"secretA".to_vec());
            assert_eq!(label, "Alice");
        }
        other => panic!("no account was submitted: {:?}", other),
    }
    assert_eq!(menu.account, "");
    assert_eq!(menu.key, "");
    assert_eq!(menu.field, Field::Account);
    assert_eq!(menu.mode, InputMode::Editing);
    assert_eq!(menu.active, MenuItem::AddCode);
}

#[test]
fn enter_submits_the_utf8_bytes_of_the_secret() {
    let mut menu = Menu::new();
    menu.press(Key::Tab);
    type_text(&mut menu, "\u{e9}");
    match menu.press(Key::Enter) {
        Some(Intent::AddAccount { secret, label }) => {
            assert_eq!(secret, vec![0xc3, 0xa9]);
            assert_eq!(label, "");
        }
        other => panic!("no account was submitted: {:?}", other),
    }
}

#[test]
fn enter_with_empty_fields_submits_an_empty_secret() {
    let mut menu = Menu::new();
    match menu.press(Key::Enter) {
        Some(Intent::AddAccount { secret, label }) => {
            assert!(secret.is_empty());
            assert_eq!(label, "");
        }
        other => panic!("no account was submitted: {:?}", other),
    }
    assert_eq!(menu.mode, InputMode::Normal);
}

#[test]
fn other_keys_do_nothing() {
    let mut menu = Menu::new();
    assert!(menu.press(Key::Other).is_none());
    menu.press(Key::Char('a'));
    type_text(&mut menu, "A");
    assert!(menu.press(Key::Other).is_none());
    assert_eq!(menu.account, "A");
    assert_eq!(menu.mode, InputMode::Editing);
    assert_eq!(menu.active, MenuItem::AddCode);
}
