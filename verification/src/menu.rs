//! The menu layer: it turns key presses into intents for the registry, and
//! keeps the two text fields in which a new account is typed.
//!
//! In normal mode the letters `h`, `c`, `a`, `d` and `q` are commands and the
//! arrows move the selection. In editing mode every character goes into the
//! field that has the focus. Escape returns to normal mode, Tab moves the
//! focus, Backspace erases, and Enter submits both fields as a new account.

use crate::intent::{intent_view, Intent, IntentView};
use vstd::prelude::*;
use vstd::slice::slice_to_vec;
use vstd::utf8::encode_utf8;

verus! {

/// The tabs of the menu.
#[derive(Debug, Clone, Copy, PartialEq, Eq, Structural)]
pub enum MenuItem {
    Home,
    Codes,
    AddCode,
}

impl From<MenuItem> for usize {
    fn from(input: MenuItem) -> (index: usize) {
        input.index()
    }
}

impl vstd::std_specs::convert::FromSpecImpl<MenuItem> for usize {
    open spec fn obeys_from_spec() -> bool {
        true
    }

    open spec fn from_spec(input: MenuItem) -> usize {
        input.position()
    }
}

impl MenuItem {
    /// The position of the tab, from the left.
    pub open spec fn position(self) -> usize {
        match self {
            MenuItem::Home => 0,
            MenuItem::Codes => 1,
            MenuItem::AddCode => 2,
        }
    }

    /// The position of the tab, from the left.
    pub fn index(self) -> (index: usize)
        ensures
            index == self.position(),
    {
        match self {
            MenuItem::Home => 0,
            MenuItem::Codes => 1,
            MenuItem::AddCode => 2,
        }
    }
}

/// Whether keys are commands or text.
#[derive(Debug, Clone, Copy, PartialEq, Eq, Structural)]
pub enum InputMode {
    /// Letters are commands.
    Normal,
    /// Characters go into the field that has the focus.
    Editing,
}

/// The two text fields of a new account.
#[derive(Debug, Clone, Copy, PartialEq, Eq, Structural)]
pub enum Field {
    /// The label of the account.
    Account,
    /// The secret key.
    Secret,
}

/// A key press, as far as the menu tells keys apart.
#[derive(Debug, Clone, Copy, PartialEq, Eq, Structural)]
pub enum Key {
    Char(char),
    Esc,
    Tab,
    Enter,
    Backspace,
    Up,
    Down,
    Other,
}

/// The state of the menu.
#[derive(Debug)]
pub struct Menu {
    /// The tab that is shown.
    pub active: MenuItem,
    /// Whether keys are commands or text.
    pub mode: InputMode,
    /// The field that has the focus.
    pub field: Field,
    /// The label typed so far.
    pub account: String,
    /// The secret typed so far.
    pub key: String,
}

/// The state of the menu, as mathematical values.
#[verifier::ext_equal]
pub struct MenuView {
    pub active: MenuItem,
    pub mode: InputMode,
    pub field: Field,
    pub account: Seq<char>,
    pub key: Seq<char>,
}

impl View for Menu {
    type V = MenuView;

    open spec fn view(&self) -> MenuView {
        MenuView {
            active: self.active,
            mode: self.mode,
            field: self.field,
            account: self.account@,
            key: self.key@,
        }
    }
}

impl MenuView {
    /// The menu at the start: the home tab, normal mode, empty fields, the
    /// focus on the label.
    pub open spec fn start() -> MenuView {
        MenuView {
            active: MenuItem::Home,
            mode: InputMode::Normal,
            field: Field::Account,
            account: Seq::empty(),
            key: Seq::empty(),
        }
    }

    /// The menu with another tab shown and another mode.
    pub open spec fn shown(self, active: MenuItem, mode: InputMode) -> MenuView {
        MenuView { active, mode, field: self.field, account: self.account, key: self.key }
    }

    /// The menu with the focus on the other field.
    pub open spec fn toggled(self) -> MenuView {
        MenuView {
            active: self.active,
            mode: self.mode,
            field: match self.field {
                Field::Account => Field::Secret,
                Field::Secret => Field::Account,
            },
            account: self.account,
            key: self.key,
        }
    }

    /// The menu in editing mode, with `ch` at the end of the field that has
    /// the focus.
    pub open spec fn typed(self, ch: char) -> MenuView {
        MenuView {
            active: self.active,
            mode: InputMode::Editing,
            field: self.field,
            account: match self.field {
                Field::Account => self.account.push(ch),
                Field::Secret => self.account,
            },
            key: match self.field {
                Field::Account => self.key,
                Field::Secret => self.key.push(ch),
            },
        }
    }

    /// The menu without the last character of the field that has the focus;
    /// an empty field stays empty.
    pub open spec fn erased(self) -> MenuView {
        MenuView {
            active: self.active,
            mode: self.mode,
            field: self.field,
            account: match self.field {
                Field::Account if self.account.len() > 0 => self.account.drop_last(),
                _ => self.account,
            },
            key: match self.field {
                Field::Secret if self.key.len() > 0 => self.key.drop_last(),
                _ => self.key,
            },
        }
    }

    /// The menu after a submit: both fields empty, the focus on the label.
    pub open spec fn submitted(self) -> MenuView {
        MenuView {
            active: self.active,
            mode: self.mode,
            field: Field::Account,
            account: Seq::empty(),
            key: Seq::empty(),
        }
    }

    /// The menu after a character in normal mode, and the intent it stands
    /// for.
    pub open spec fn command(self, ch: char) -> (MenuView, Option<IntentView>) {
        if ch == 'q' {
            (self, Some(IntentView::Quit))
        } else if ch == 'h' {
            (self.shown(MenuItem::Home, InputMode::Normal), None)
        } else if ch == 'c' {
            (self.shown(MenuItem::Codes, InputMode::Normal), None)
        } else if ch == 'a' {
            (self.shown(MenuItem::AddCode, InputMode::Editing), None)
        } else if ch == 'd' {
            (self, Some(IntentView::RemoveSelected))
        } else {
            (self.typed(ch), None)
        }
    }

    /// The menu after a key press, and the intent that the press stands for.
    /// The secret of a submitted account is the UTF-8 text of its field.
    pub open spec fn press(self, key: Key) -> (MenuView, Option<IntentView>) {
        match key {
            Key::Char(ch) => match self.mode {
                InputMode::Normal => self.command(ch),
                InputMode::Editing => (self.typed(ch), None),
            },
            Key::Esc => (self.shown(self.active, InputMode::Normal), None),
            Key::Tab => (self.toggled(), None),
            Key::Enter => (
                self.submitted(),
                Some(
                    IntentView::AddAccount { secret: encode_utf8(self.key), label: self.account },
                ),
            ),
            Key::Backspace => (self.erased(), None),
            Key::Up => match self.mode {
                InputMode::Normal => (self, Some(IntentView::SelectPrev)),
                InputMode::Editing => (self, None),
            },
            Key::Down => match self.mode {
                InputMode::Normal => (self, Some(IntentView::SelectNext)),
                InputMode::Editing => (self, None),
            },
            Key::Other => (self, None),
        }
    }
}

impl Menu {
    /// The menu at the start.
    pub fn new() -> (menu: Menu)
        ensures
            menu@ == MenuView::start(),
    {
        Menu {
            active: MenuItem::Home,
            mode: InputMode::Normal,
            field: Field::Account,
            account: String::new(),
            key: String::new(),
        }
    }

    /// Puts `ch` at the end of the field that has the focus and enters
    /// editing mode.
    fn type_char(&mut self, ch: char)
        ensures
            final(self)@ == old(self)@.typed(ch),
    {
        self.mode = InputMode::Editing;
        match self.field {
            Field::Account => self.account.push(ch),
            Field::Secret => self.key.push(ch),
        }
    }

    /// Processes one key press and returns the intent it stands for, if any.
    pub fn press(&mut self, key: Key) -> (intent: Option<Intent>)
        ensures
            (final(self)@, intent_view(intent)) == old(self)@.press(key),
    {
        match key {
            Key::Char(ch) => {
                match self.mode {
                    InputMode::Normal => {
                        if ch == 'q' {
                            Some(Intent::Quit)
                        } else if ch == 'h' {
                            self.active = MenuItem::Home;
                            None
                        } else if ch == 'c' {
                            self.active = MenuItem::Codes;
                            None
                        } else if ch == 'a' {
                            self.active = MenuItem::AddCode;
                            self.mode = InputMode::Editing;
                            None
                        } else if ch == 'd' {
                            Some(Intent::RemoveSelected)
                        } else {
                            self.type_char(ch);
                            None
                        }
                    },
                    InputMode::Editing => {
                        self.type_char(ch);
                        None
                    },
                }
            },
            Key::Esc => {
                self.mode = InputMode::Normal;
                None
            },
            Key::Tab => {
                self.field = match self.field {
                    Field::Account => Field::Secret,
                    Field::Secret => Field::Account,
                };
                None
            },
            Key::Enter => {
                let mut label = String::new();
                std::mem::swap(&mut self.account, &mut label);
                let mut key_text = String::new();
                std::mem::swap(&mut self.key, &mut key_text);
                self.field = Field::Account;
                let secret = slice_to_vec(key_text.as_str().as_bytes());
                Some(Intent::AddAccount { secret, label })
            },
            Key::Backspace => {
                match self.field {
                    Field::Account => {
                        self.account.pop();
                    },
                    Field::Secret => {
                        self.key.pop();
                    },
                }
                None
            },
            Key::Up => match self.mode {
                InputMode::Normal => Some(Intent::SelectPrev),
                InputMode::Editing => None,
            },
            Key::Down => match self.mode {
                InputMode::Normal => Some(Intent::SelectNext),
                InputMode::Editing => None,
            },
            Key::Other => None,
        }
    }
}

} // verus!
