//! The blink loop itself: a startup sequence that resolves the LED alias,
//! acquires the GPIO access token and configures the pin, and a steady-state
//! step that toggles the pin and asks the caller to sleep for the fixed
//! interval.

use vstd::prelude::*;

use crate::board::{Board, SetupError};
use crate::gpio::{
    flip, lemma_level_after_parity, level_after, GpioPin, GpioToken, GpioTokenIssuer, PinLevel,
};

verus! {

/// Interval between consecutive toggles, in milliseconds.
pub const SLEEP_TIME_MS: i32 = 1000;

/// The platform work one loop iteration asks for: the pin has just been
/// driven to `level`, and the caller must now suspend execution for
/// `sleep_ms` milliseconds before the next iteration.
#[derive(Clone, Copy, Debug, PartialEq, Eq, Structural)]
pub struct BlinkAction {
    pub level: PinLevel,
    pub sleep_ms: i32,
}

/// The blink loop's state after a successful setup: the configured pin, the
/// exclusively held access token, and a ghost count of the toggles performed
/// so far.
pub struct Blinker {
    pin: GpioPin,
    token: GpioToken,
    toggles: Ghost<nat>,
}

impl Blinker {
    /// The pin number the LED alias resolved to.
    pub closed spec fn pin_id(self) -> u32 {
        self.pin.id()
    }

    /// Whether the pin is configured as a digital output.
    pub closed spec fn configured(self) -> bool {
        self.pin.configured()
    }

    /// The level the pin is currently driving.
    pub closed spec fn level(self) -> PinLevel {
        self.pin.level()
    }

    /// How many times the pin has been toggled since setup.
    pub closed spec fn toggles(self) -> nat {
        self.toggles@
    }

    /// What setup establishes and every iteration preserves: the pin is a
    /// configured output, and its level is exactly what the number of
    /// toggles performed so far dictates, starting from active.
    pub open spec fn wf(self) -> bool {
        &&& self.configured()
        &&& self.level() == level_after(self.toggles())
    }

    /// The level the pin is currently driving, as executable code sees it.
    pub fn current_level(&self) -> (l: PinLevel)
        ensures
            l == self.level(),
    {
        self.pin.output_level()
    }

    /// One iteration of the steady-state loop: toggle the pin, and hand the
    /// caller the fixed sleep to perform before the next iteration.
    pub fn step(&mut self) -> (act: BlinkAction)
        requires
            old(self).wf(),
        ensures
            step_spec(*old(self), *final(self)),
            final(self).wf(),
            act.level == final(self).level(),
            act.sleep_ms == SLEEP_TIME_MS,
    {
        self.pin.toggle(&mut self.token);
        self.toggles = Ghost(self.toggles@ + 1);
        let level = self.pin.output_level();
        BlinkAction { level, sleep_ms: SLEEP_TIME_MS }
    }

    /// Run `n` iterations of the loop back to back, as a bounded harness
    /// does; the sleeps between them are the caller's business.
    pub fn run_steps(&mut self, n: u32)
        requires
            old(self).wf(),
        ensures
            final(self).wf(),
            final(self).toggles() == old(self).toggles() + n,
            final(self).pin_id() == old(self).pin_id(),
    {
        let mut i: u32 = 0;
        while i < n
            invariant
                i <= n,
                self.wf(),
                self.toggles() == old(self).toggles() + i,
                self.pin_id() == old(self).pin_id(),
            decreases n - i,
        {
            let _ = self.step();
            i = i + 1;
        }
    }
}

/// How one loop iteration moves the blinker from `pre` to `post`: the same
/// pin, still configured, one more toggle performed, and the output level
/// flipped.
pub open spec fn step_spec(pre: Blinker, post: Blinker) -> bool {
    &&& post.pin_id() == pre.pin_id()
    &&& post.configured() == pre.configured()
    &&& post.toggles() == pre.toggles() + 1
    &&& post.level() == flip(pre.level())
}

/// The startup sequence: resolve the LED alias, acquire the access token,
/// configure the pin as an output that starts active.
///
/// It succeeds exactly when the board defines the alias and the token is
/// still free. It fails before anything is touched: a missing alias is
/// reported before the token is even requested, and on any failure the
/// issuer is left as it was and no pin has been configured.
pub fn setup(board: &Board, issuer: &mut GpioTokenIssuer) -> (r: Result<Blinker, SetupError>)
    ensures
        r is Ok <==> board.led_alias() is Some && !old(issuer).issued(),
        (r matches Ok(b) ==> {
            &&& b.wf()
            &&& Some(b.pin_id()) == board.led_alias()
            &&& b.toggles() == 0
            &&& b.level() == PinLevel::Active
            &&& final(issuer).issued()
        }),
        (r matches Err(e) ==> {
            &&& final(issuer).issued() == old(issuer).issued()
            &&& (e == SetupError::MissingAlias <==> board.led_alias() is None)
            &&& (e == SetupError::TokenUnavailable <==> board.led_alias() is Some
                && old(issuer).issued())
        }),
{
    let pin_id = match board.resolve_led_alias() {
        Some(id) => id,
        None => {
            return Err(SetupError::MissingAlias);
        },
    };
    let mut token = match issuer.acquire() {
        Some(t) => t,
        None => {
            return Err(SetupError::TokenUnavailable);
        },
    };
    let mut pin = GpioPin::new(pin_id);
    pin.configure_output_active(&mut token);
    Ok(Blinker { pin, token, toggles: Ghost(0nat) })
}

/// One loop iteration keeps the blinker well-formed, so the iteration after
/// it is never disabled.
pub proof fn lemma_step_preserves_wf(pre: Blinker, post: Blinker)
    requires
        pre.wf(),
        step_spec(pre, post),
    ensures
        post.wf(),
{
}

/// `post` is a state the blink loop can reach from `pre` in exactly `n`
/// iterations.
pub open spec fn runs(pre: Blinker, post: Blinker, n: nat) -> bool
    decreases n,
{
    if n == 0 {
        post == pre
    } else {
        exists|mid: Blinker| runs(pre, mid, (n - 1) as nat) && step_spec(mid, post)
    }
}

/// The loop never terminates under normal operation: however many iterations
/// have run since setup, the state is still well-formed, which is all the
/// next toggle/sleep pair requires.
pub proof fn lemma_loop_always_enabled(pre: Blinker, post: Blinker, n: nat)
    requires
        pre.wf(),
        runs(pre, post, n),
    ensures
        post.wf(),
    decreases n,
{
    if n > 0 {
        let mid = choose|mid: Blinker| runs(pre, mid, (n - 1) as nat) && step_spec(mid, post);
        lemma_loop_always_enabled(pre, mid, (n - 1) as nat);
        lemma_step_preserves_wf(mid, post);
    }
}

/// After `n` toggles starting from setup, the pin is active exactly when
/// `n` is even.
pub proof fn lemma_blinker_parity(b: Blinker)
    requires
        b.wf(),
    ensures
        b.level() == if b.toggles() % 2 == 0 {
            PinLevel::Active
        } else {
            PinLevel::Inactive
        },
{
    lemma_level_after_parity(b.toggles());
}

} // verus!
