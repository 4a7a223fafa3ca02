//! The state of the whole application and the one loop that consumes its
//! events: key presses go through the menu to the registry, ticks go to the
//! scheduler.

use crate::intent::{perform, performed, Flow, IntentView};
use crate::menu::{Key, Menu, MenuView};
use crate::registry::{Registry, RegistryView};
use crate::scheduler::{step, wraps, Pass, Scheduler, State, Tick, TICK_MILLIS};
use vstd::prelude::*;

verus! {

/// What the consumer loop receives.
#[derive(Debug, Clone, Copy, PartialEq, Eq, Structural)]
pub enum Event {
    /// A key was pressed.
    Input(Key),
    /// The tick interval has passed.
    Tick,
}

/// The registry, the scheduler and the menu.
#[derive(Debug)]
pub struct App {
    pub registry: Registry,
    pub scheduler: Scheduler,
    pub menu: Menu,
}

/// The state of the application, as mathematical values.
#[verifier::ext_equal]
pub struct AppView {
    pub registry: RegistryView,
    /// Milliseconds counted in the current step.
    pub elapsed: nat,
    pub menu: MenuView,
}

impl View for App {
    type V = AppView;

    open spec fn view(&self) -> AppView {
        AppView { registry: self.registry@, elapsed: self.scheduler@, menu: self.menu@ }
    }
}

impl AppView {
    /// The application at the start: no account, the countdown at zero, the
    /// menu at its start.
    pub open spec fn start() -> AppView {
        AppView { registry: RegistryView::empty(), elapsed: 0, menu: MenuView::start() }
    }

    /// The application after a tick at the Unix time `now`.
    pub open spec fn updated(self, now: u64) -> AppView {
        let next = step(
            State { registry: self.registry, elapsed: self.elapsed },
            Tick { increment: TICK_MILLIS as nat, now },
        );
        AppView { registry: next.registry, elapsed: next.elapsed, menu: self.menu }
    }

    /// The application after a key press, and whether the loop goes on.
    pub open spec fn pressed(self, key: Key) -> (AppView, Flow) {
        let (menu, intent) = self.menu.press(key);
        match intent {
            Some(intent) => (
                AppView {
                    registry: performed(self.registry, intent),
                    elapsed: self.elapsed,
                    menu,
                },
                if intent == IntentView::Quit {
                    Flow::Quit
                } else {
                    Flow::Continue
                },
            ),
            None => (
                AppView { registry: self.registry, elapsed: self.elapsed, menu },
                Flow::Continue,
            ),
        }
    }

    /// The application after an event that arrived at the Unix time `now`,
    /// and whether the loop goes on.
    pub open spec fn handled(self, event: Event, now: u64) -> (AppView, Flow) {
        match event {
            Event::Input(key) => self.pressed(key),
            Event::Tick => (self.updated(now), Flow::Continue),
        }
    }
}

impl App {
    /// The application at the start.
    pub fn new() -> (app: App)
        ensures
            app@ == AppView::start(),
    {
        App { registry: Registry::new(), scheduler: Scheduler::new(), menu: Menu::new() }
    }

    /// Processes one tick at the Unix time `now`: the countdown advances, and
    /// the codes are derived anew where it wraps.
    pub fn update(&mut self, now: u64) -> (pass: Pass)
        ensures
            final(self)@ == old(self)@.updated(now),
            pass == Pass::Full <==> wraps(old(self)@.elapsed, TICK_MILLIS as nat),
    {
        self.scheduler.tick(&mut self.registry, now)
    }

    /// Processes one key press.
    pub fn press(&mut self, key: Key) -> (flow: Flow)
        ensures
            (final(self)@, flow) == old(self)@.pressed(key),
    {
        match self.menu.press(key) {
            Some(intent) => perform(&mut self.registry, intent),
            None => Flow::Continue,
        }
    }

    /// Processes one event that arrived at the Unix time `now`.
    pub fn handle(&mut self, event: Event, now: u64) -> (flow: Flow)
        ensures
            (final(self)@, flow) == old(self)@.handled(event, now),
    {
        match event {
            Event::Input(key) => self.press(key),
            Event::Tick => {
                self.update(now);
                Flow::Continue
            },
        }
    }
}

impl Default for App {
    fn default() -> (app: App)
        ensures
            app@ == AppView::start(),
    {
        App::new()
    }
}

} // verus!
