//! Model of the GPIO driver interface: pin levels, one GPIO line, and the
//! single-issuance access token that gates every pin mutation.

use vstd::prelude::*;

verus! {

/// The two electrical output states of a digital GPIO pin.
#[derive(Clone, Copy, Debug, PartialEq, Eq, Structural)]
pub enum PinLevel {
    Active,
    Inactive,
}

/// The level a pin moves to when it is toggled once.
pub open spec fn flip(l: PinLevel) -> PinLevel {
    match l {
        PinLevel::Active => PinLevel::Inactive,
        PinLevel::Inactive => PinLevel::Active,
    }
}

/// The level of a pin after `n` toggles, starting from the configured
/// initial state, `Active`.
pub open spec fn level_after(n: nat) -> PinLevel
    decreases n,
{
    if n == 0 {
        PinLevel::Active
    } else {
        flip(level_after((n - 1) as nat))
    }
}

/// After `n` toggles starting from `Active`, the pin is active exactly when
/// `n` is even.
pub proof fn lemma_level_after_parity(n: nat)
    ensures
        level_after(n) == if n % 2 == 0 {
            PinLevel::Active
        } else {
            PinLevel::Inactive
        },
    decreases n,
{
    if n > 0 {
        lemma_level_after_parity((n - 1) as nat);
    }
}

/// Capability proving exclusive right to mutate GPIO state.
///
/// The platform issues at most one instance per process, so holding a
/// `GpioToken` rules out a second call site racing on the same hardware
/// register. It can only be created by [`GpioTokenIssuer::acquire`], and it
/// is neither `Clone` nor `Copy`, so ownership keeps it unique.
pub struct GpioToken {
    held: (),
}

/// The platform's single point of issuance for the GPIO access token.
pub struct GpioTokenIssuer {
    issued: bool,
}

/// How one acquisition attempt moves the issuer from `pre` to `post`:
/// the attempt succeeds (`granted`) exactly when no token was issued
/// before, and afterwards the token counts as issued either way.
pub open spec fn acquire_transition(
    pre: GpioTokenIssuer,
    post: GpioTokenIssuer,
    granted: bool,
) -> bool {
    &&& post.issued()
    &&& granted <==> !pre.issued()
}

impl GpioTokenIssuer {
    /// Whether the token has been handed out.
    pub closed spec fn issued(self) -> bool {
        self.issued
    }

    /// A fresh issuer, as the platform starts: the token is still free.
    pub fn new() -> (r: GpioTokenIssuer)
        ensures
            !r.issued(),
    {
        GpioTokenIssuer { issued: false }
    }

    /// Try to take the access token. Succeeds exactly once per issuer:
    /// the first attempt returns the token, every later one fails.
    pub fn acquire(&mut self) -> (r: Option<GpioToken>)
        ensures
            acquire_transition(*old(self), *final(self), r is Some),
    {
        if self.issued {
            None
        } else {
            self.issued = true;
            Some(GpioToken { held: () })
        }
    }

    /// Whether the token has been handed out, as executable code sees it.
    pub fn is_issued(&self) -> (r: bool)
        ensures
            r == self.issued(),
    {
        self.issued
    }
}

/// The access token is issued at most once: once an acquisition attempt has
/// succeeded, every later attempt on the same issuer must fail.
pub proof fn lemma_token_single_issuance(
    s0: GpioTokenIssuer,
    s1: GpioTokenIssuer,
    s2: GpioTokenIssuer,
    granted1: bool,
    granted2: bool,
)
    requires
        acquire_transition(s0, s1, granted1),
        acquire_transition(s1, s2, granted2),
        granted1,
    ensures
        !granted2,
{
}

/// Model of one GPIO line: the pin number its board alias resolved to,
/// whether it has been configured as an output, and its output level.
pub struct GpioPin {
    id: u32,
    configured: bool,
    level: PinLevel,
}

impl GpioPin {
    /// The pin number on the GPIO controller.
    pub closed spec fn id(self) -> u32 {
        self.id
    }

    /// Whether the pin has been configured as a digital output.
    pub closed spec fn configured(self) -> bool {
        self.configured
    }

    /// The pin's current output level.
    pub closed spec fn level(self) -> PinLevel {
        self.level
    }

    /// A handle to pin `id`, fresh from alias resolution: not yet
    /// configured, driving nothing.
    pub fn new(id: u32) -> (r: GpioPin)
        ensures
            r.id() == id,
            !r.configured(),
    {
        GpioPin { id, configured: false, level: PinLevel::Inactive }
    }

    /// Configure the pin as a digital output whose initial electrical state
    /// is active. Requires presenting the access token.
    pub fn configure_output_active(&mut self, _token: &mut GpioToken)
        ensures
            final(self).id() == old(self).id(),
            final(self).configured(),
            final(self).level() == PinLevel::Active,
    {
        self.configured = true;
        self.level = PinLevel::Active;
    }

    /// Flip the pin's output state. Requires a configured pin and the
    /// access token.
    pub fn toggle(&mut self, _token: &mut GpioToken)
        requires
            old(self).configured(),
        ensures
            final(self).id() == old(self).id(),
            final(self).configured(),
            final(self).level() == flip(old(self).level()),
    {
        self.level = match self.level {
            PinLevel::Active => PinLevel::Inactive,
            PinLevel::Inactive => PinLevel::Active,
        };
    }

    /// The level the pin is currently driving, as executable code sees it.
    pub fn output_level(&self) -> (l: PinLevel)
        ensures
            l == self.level(),
    {
        self.level
    }
}

} // verus!
