use totp_cli::intent::{perform, Flow, Intent};
use totp_cli::menu::{InputMode, Key, MenuItem};
use totp_cli::registry::Registry;
use totp_cli::scheduler::Pass;
use totp_cli::session::{App, Event};

fn press_all(app: &mut App, text: &str) {
    for ch in text.chars() {
        assert_eq!(app.handle(Event::Input(Key::Char(ch)), 0), Flow::Continue);
    }
}

fn add_account(app: &mut App, label: &str, secret: &str) {
    press_all(app, "a");
    press_all(app, label);
    app.handle(Event::Input(Key::Tab), 0);
    press_all(app, secret);
    assert_eq!(app.handle(Event::Input(Key::Enter), 0), Flow::Continue);
    assert_eq!(app.handle(Event::Input(Key::Esc), 0), Flow::Continue);
}

#[test]
fn app_starts_without_accounts() {
    let app = App::new();
    assert_eq!(app.registry.len(), 0);
    assert_eq!(app.registry.selected(), None);
    assert_eq!(app.scheduler.elapsed_millis(), 0);
    assert_eq!(app.menu.active, MenuItem::Home);
    assert_eq!(app.menu.mode, InputMode::Normal);
    let other = App::default();
    assert_eq!(other.registry.len(), 0);
    assert_eq!(other.scheduler.elapsed_millis(), 0);
    assert_eq!(other.menu.account, "");
}

#[test]
fn perform_applies_each_intent() {
    let mut registry = Registry::new();
    let add = Intent::AddAccount { secret: b"secretA".to_vec(), label: "Alice".to_string() };
    assert_eq!(perform(&mut registry, add), Flow::Continue);
    let add = Intent::AddAccount { secret: b"secretB".to_vec(), label: "Bob".to_string() };
    assert_eq!(perform(&mut registry, add), Flow::Continue);
    assert_eq!(registry.len(), 2);
    assert_eq!(registry.selected(), Some(0));
    assert_eq!(perform(&mut registry, Intent::SelectNext), Flow::Continue);
    assert_eq!(registry.selected(), Some(1));
    assert_eq!(perform(&mut registry, Intent::SelectNext), Flow::Continue);
    assert_eq!(registry.selected(), Some(0));
    assert_eq!(perform(&mut registry, Intent::SelectPrev), Flow::Continue);
    assert_eq!(registry.selected(), Some(1));
    assert_eq!(perform(&mut registry, Intent::RemoveSelected), Flow::Continue);
    assert_eq!(registry.len(), 1);
    assert_eq!(registry.get(0).unwrap().label, "Alice");
    assert_eq!(perform(&mut registry, Intent::Quit), Flow::Quit);
    assert_eq!(registry.len(), 1);
}

#[test]
fn perform_absorbs_what_the_registry_rejects() {
    let mut registry = Registry::new();
    let add = Intent::AddAccount { secret: Vec::new(), label: "nobody".to_string() };
    assert_eq!(perform(&mut registry, add), Flow::Continue);
    assert_eq!(registry.len(), 0);
    assert_eq!(perform(&mut registry, Intent::RemoveSelected), Flow::Continue);
    assert_eq!(perform(&mut registry, Intent::SelectNext), Flow::Continue);
    assert_eq!(perform(&mut registry, Intent::SelectPrev), Flow::Continue);
    assert_eq!(registry.len(), 0);
    assert_eq!(registry.selected(), None);
}

#[test]
fn typed_account_is_registered_and_gets_a_code_on_the_next_tick() {
    let mut app = App::new();
    add_account(&mut app, "Alice", "secretA");
    assert_eq!(app.registry.len(), 1);
    assert_eq!(app.registry.selected(), Some(0));
    assert_eq!(app.registry.get(0).unwrap().label, "Alice");
    assert_eq!(app.registry.get(0).unwrap().secret, b"secretA".to_vec());
    assert_eq!(app.registry.get(0).unwrap().cached_code, None);
    assert_eq!(app.handle(Event::Tick, 59), Flow::Continue);
    assert_eq!(
        app.registry.get(0).unwrap().cached_code,
        Some("963444".to_string())
    );
    assert_eq!(app.scheduler.elapsed_millis(), 200);
}

#[test]
fn submitting_an_empty_secret_registers_nothing() {
    let mut app = App::new();
    add_account(&mut app, "Alice", "");
    assert_eq!(app.registry.len(), 0);
    assert_eq!(app.menu.account, "");
}

#[test]
fn keys_select_and_delete_accounts() {
    let mut app = App::new();
    add_account(&mut app, "Alice", "secretA");
    add_account(&mut app, "Bob", "secretB");
    add_account(&mut app, "Carol", "secretC");
    press_all(&mut app, "c");
    assert_eq!(app.menu.active, MenuItem::Codes);
    app.handle(Event::Input(Key::Down), 0);
    assert_eq!(app.registry.selected(), Some(1));
    app.handle(Event::Input(Key::Up), 0);
    app.handle(Event::Input(Key::Up), 0);
    assert_eq!(app.registry.selected(), Some(2));
    press_all(&mut app, "d");
    assert_eq!(app.registry.len(), 2);
    assert_eq!(app.registry.selected(), Some(1));
    assert_eq!(app.registry.get_selected().unwrap().label, "Bob");
    press_all(&mut app, "dd");
    assert_eq!(app.registry.len(), 0);
    press_all(&mut app, "d");
    app.handle(Event::Input(Key::Down), 0);
    assert_eq!(app.registry.selected(), None);
}

#[test]
fn q_quits_in_normal_mode_only() {
    let mut app = App::new();
    press_all(&mut app, "a");
    assert_eq!(app.handle(Event::Input(Key::Char('q')), 0), Flow::Continue);
    assert_eq!(app.menu.account, "q");
    assert_eq!(app.handle(Event::Input(Key::Esc), 0), Flow::Continue);
    assert_eq!(app.handle(Event::Input(Key::Char('q')), 0), Flow::Quit);
    assert_eq!(app.press(Key::Char('q')), Flow::Quit);
}

#[test]
fn update_runs_a_full_pass_when_the_countdown_wraps() {
    let mut app = App::new();
    add_account(&mut app, "Alice", "secretA");
    for tick in 0..150u64 {
        assert_eq!(app.update(59), Pass::MissingOnly, "tick {}", tick);
    }
    assert_eq!(app.scheduler.elapsed_millis(), 30_000);
    assert_eq!(
        app.registry.get(0).unwrap().cached_code,
        Some("963444".to_string())
    );
    assert_eq!(app.update(90), Pass::Full);
    assert_eq!(app.scheduler.elapsed_millis(), 0);
    assert_eq!(
        app.registry.get(0).unwrap().cached_code,
        Some("179559".to_string())
    );
}

#[test]
fn keys_do_not_move_the_countdown() {
    let mut app = App::new();
    app.update(0);
    add_account(&mut app, "Alice", "secretA");
    assert_eq!(app.scheduler.elapsed_millis(), 200);
    assert_eq!(app.registry.get(0).unwrap().cached_code, None);
}
