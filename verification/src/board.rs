//! Model of the board's device description: the one configuration input is
//! whether the LED alias is defined, and which pin it names.

use vstd::prelude::*;

verus! {

/// The ways startup can fail. Both are fatal: a wrong board configuration
/// or a platform initialization ordering bug leaves nothing to continue
/// with.
#[derive(Clone, Copy, Debug, PartialEq, Eq, Structural)]
pub enum SetupError {
    /// The board's device description lacks the LED alias.
    MissingAlias,
    /// The GPIO access token could not be acquired: it is already held.
    TokenUnavailable,
}

/// A board's device description, reduced to what the blink loop reads from
/// it: the pin number the LED alias resolves to, if the alias is defined
/// at all.
pub struct Board {
    led_alias: Option<u32>,
}

impl Board {
    /// The pin the LED alias names, or `None` when the board does not
    /// define the alias.
    pub closed spec fn led_alias(self) -> Option<u32> {
        self.led_alias
    }

    /// A board whose device description maps the LED alias to pin `pin`.
    pub fn with_led_alias(pin: u32) -> (r: Board)
        ensures
            r.led_alias() == Some(pin),
    {
        Board { led_alias: Some(pin) }
    }

    /// A board whose device description lacks the LED alias.
    pub fn without_led_alias() -> (r: Board)
        ensures
            r.led_alias() is None,
    {
        Board { led_alias: None }
    }

    /// Resolve the LED alias to a pin number, as the device resolver does
    /// at startup.
    pub fn resolve_led_alias(&self) -> (r: Option<u32>)
        ensures
            r == self.led_alias(),
    {
        self.led_alias
    }
}

} // verus!
