//! How fast the host runs the machine: instructions per frame, adjusted
//! from the keyboard, with a pause after each accepted key.

use vstd::prelude::*;
use vstd::string::StringExecFns;
use crate::text::{decimal, push_decimal};

verus! {

pub const INITIAL_SPEED: u8 = 10;

pub const MIN_SPEED: u8 = 1;

pub const MAX_SPEED: u8 = 40;

/// The number of frames during which control keys are ignored after one
/// was accepted.
pub const KEY_DEBOUNCE: u8 = 5;

/// The host's speed setting.
#[derive(Clone, Copy, Debug, PartialEq, Eq, Structural)]
pub struct Pacing {
    /// Instructions per frame.
    pub speed: u8,
    /// Frames left during which control keys are ignored.
    pub key_debounce: u8,
}

/// What the host has to do after a frame's control keys were read.
#[derive(Clone, Copy, Debug, PartialEq, Eq, Structural)]
pub struct Response {
    /// The speed changed: the window title is to be renewed.
    pub speed_changed: bool,
    /// The machine's debug switch is to be toggled.
    pub toggle_debug: bool,
}

impl Pacing {
    /// The speed is within its limits.
    pub open spec fn wf(self) -> bool {
        MIN_SPEED <= self.speed <= MAX_SPEED
    }

    /// The setting after a frame in which the keys for slower, faster and
    /// debug were down as given, and what the host is to do. While the
    /// pause lasts it only counts down. Otherwise slower is applied before
    /// faster, each within the limits, and every accepted key starts the
    /// pause anew.
    pub open spec fn after_frame(self, slower: bool, faster: bool, debug: bool) -> (
        Pacing,
        Response,
    ) {
        if self.key_debounce > 0 {
            (
                Pacing { key_debounce: (self.key_debounce - 1) as u8, ..self },
                Response { speed_changed: false, toggle_debug: false },
            )
        } else {
            let slowed = slower && self.speed > MIN_SPEED;
            let lowered = if slowed { self.speed - 1 } else { self.speed as int };
            let sped = faster && lowered < MAX_SPEED;
            let raised = if sped { lowered + 1 } else { lowered };
            (
                Pacing {
                    speed: raised as u8,
                    key_debounce: if slowed || sped || debug { KEY_DEBOUNCE } else { 0 },
                },
                Response { speed_changed: slowed || sped, toggle_debug: debug },
            )
        }
    }

    pub fn new() -> (pacing: Pacing)
        ensures
            pacing.wf(),
            pacing.speed == INITIAL_SPEED,
            pacing.key_debounce == 0,
    {
        Pacing { speed: INITIAL_SPEED, key_debounce: 0 }
    }

    /// Takes one frame's control keys into account.
    pub fn frame(&mut self, slower: bool, faster: bool, debug: bool) -> (response: Response)
        requires
            old(self).wf(),
        ensures
            final(self).wf(),
            (*final(self), response) == old(self).after_frame(slower, faster, debug),
    {
        let mut response = Response { speed_changed: false, toggle_debug: false };
        if self.key_debounce > 0 {
            self.key_debounce -= 1;
        } else {
            if slower && self.speed > MIN_SPEED {
                self.speed -= 1;
                self.key_debounce = KEY_DEBOUNCE;
                response.speed_changed = true;
            }
            if faster && self.speed < MAX_SPEED {
                self.speed += 1;
                self.key_debounce = KEY_DEBOUNCE;
                response.speed_changed = true;
            }
            if debug {
                response.toggle_debug = true;
                self.key_debounce = KEY_DEBOUNCE;
            }
        }
        response
    }
}

/// The window title for a speed.
pub open spec fn title_text(speed: u8) -> Seq<char> {
    "CHIP-8 Emulator - speed "@ + decimal(speed as nat) + " - ESC to exit"@
}

/// The window title for a speed.
pub fn window_title(speed: u8) -> (title: String)
    ensures
        title@ == title_text(speed),
{
    let mut title = String::from_str("CHIP-8 Emulator - speed ");
    push_decimal(&mut title, speed as u16);
    title.append(" - ESC to exit");
    title
}

} // verus!
