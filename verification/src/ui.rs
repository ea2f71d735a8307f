//! State of the terminal user interface: a running flag and a counter,
//! together with the mapping from key presses to interface events.
//!
//! The terminal itself (drawing, reading key presses) is driven outside the
//! library; it feeds decoded key presses into [`key_event`] and applies the
//! returned [`AppEvent`] to the [`App`] state.

use vstd::prelude::*;

verus! {

/// Interface state.
#[derive(Debug)]
pub struct App {
    /// Is the application running?
    pub running: bool,
    /// Counter shown by the interface.
    pub counter: u8,
}

/// An event the interface reacts to.
#[derive(Debug, PartialEq, Eq, Structural, Clone, Copy)]
pub enum AppEvent {
    Increment,
    Decrement,
    Quit,
}

/// A decoded key press: the key itself and whether the control modifier
/// (and no other) was held.
#[derive(Debug, PartialEq, Eq, Structural, Clone, Copy)]
pub enum Key {
    Esc,
    Char(char),
    Right,
    Left,
    Other,
}

impl Default for App {
    /// A fresh interface: running, counter at zero.
    fn default() -> (app: App)
        ensures
            app.running,
            app.counter == 0,
    {
        App { running: true, counter: 0 }
    }
}

impl App {
    /// Constructs a new instance of [`App`].
    pub fn new() -> (app: App)
        ensures
            app.running,
            app.counter == 0,
    {
        App::default()
    }

    /// Handles the tick event of the terminal; the state carries nothing
    /// that changes at a fixed rate, so this leaves it untouched.
    pub fn tick(&self) {
    }

    /// Set running to false to quit the application.
    pub fn quit(&mut self)
        ensures
            !final(self).running,
            final(self).counter == old(self).counter,
    {
        self.running = false;
    }

    /// Raise the counter by one, stopping at the top of its range.
    pub fn increment_counter(&mut self)
        ensures
            final(self).counter == if old(self).counter == u8::MAX {
                u8::MAX as int
            } else {
                old(self).counter + 1
            },
            final(self).running == old(self).running,
    {
        self.counter = if self.counter == u8::MAX {
            u8::MAX
        } else {
            self.counter + 1
        };
    }

    /// Lower the counter by one, stopping at the bottom of its range.
    pub fn decrement_counter(&mut self)
        ensures
            final(self).counter == if old(self).counter == 0 {
                0int
            } else {
                old(self).counter - 1
            },
            final(self).running == old(self).running,
    {
        self.counter = if self.counter == 0 {
            0
        } else {
            self.counter - 1
        };
    }

    /// Apply one interface event to the state.
    pub fn apply(&mut self, event: AppEvent)
        ensures
            final(self).running == (old(self).running && event != AppEvent::Quit),
            final(self).counter == match event {
                AppEvent::Increment => if old(self).counter == u8::MAX {
                    u8::MAX as int
                } else {
                    old(self).counter + 1
                },
                AppEvent::Decrement => if old(self).counter == 0 {
                    0int
                } else {
                    old(self).counter - 1
                },
                AppEvent::Quit => old(self).counter as int,
            },
    {
        match event {
            AppEvent::Increment => self.increment_counter(),
            AppEvent::Decrement => self.decrement_counter(),
            AppEvent::Quit => self.quit(),
        }
    }
}

/// The interface event a key press triggers, if any: escape or `q` quits,
/// control-`c` (either case) quits, the right and left arrows raise and
/// lower the counter.
pub fn key_event(key: Key, ctrl: bool) -> (event: Option<AppEvent>)
    ensures
        event == spec_key_event(key, ctrl),
{
    match key {
        Key::Esc => Some(AppEvent::Quit),
        Key::Char(c) => {
            if c == 'q' {
                Some(AppEvent::Quit)
            } else if (c == 'c' || c == 'C') && ctrl {
                Some(AppEvent::Quit)
            } else {
                None
            }
        },
        Key::Right => Some(AppEvent::Increment),
        Key::Left => Some(AppEvent::Decrement),
        Key::Other => None,
    }
}

/// What [`key_event`] returns for each key press.
pub open spec fn spec_key_event(key: Key, ctrl: bool) -> Option<AppEvent> {
    match key {
        Key::Esc => Some(AppEvent::Quit),
        Key::Char(c) => if c == 'q' || ((c == 'c' || c == 'C') && ctrl) {
            Some(AppEvent::Quit)
        } else {
            None
        },
        Key::Right => Some(AppEvent::Increment),
        Key::Left => Some(AppEvent::Decrement),
        Key::Other => None,
    }
}

} // verus!
