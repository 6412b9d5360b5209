//! A verified model of a one-pin LED blink loop on top of an RTOS-style
//! platform.
//!
//! The library models the three platform services such an application leans
//! on — alias resolution from a board's device description, a GPIO driver
//! gated by a single-issuance access token, and a fixed-interval sleep — and
//! proves the behaviour of the glue around them: setup succeeds exactly when
//! the board defines the LED alias and the token is free, the pin starts
//! active and flips on every iteration, and the loop is never disabled.

pub mod blink;
pub mod board;
pub mod gpio;
