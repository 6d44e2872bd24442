//! Strongly typed UI flow state for overlays and cooldowns.

use vstd::prelude::*;

verus! {

/// Join overlay step in the pre-game flow.
#[derive(Clone, Copy, PartialEq, Eq, Structural, Debug)]
pub enum JoinStep {
    EnterName,
    SelectKit,
}

impl JoinStep {
    /// Returns true when the name entry form should be shown.
    pub fn is_enter_name(self) -> (b: bool)
        ensures
            b == (self == JoinStep::EnterName),
    {
        match self {
            JoinStep::EnterName => true,
            JoinStep::SelectKit => false,
        }
    }

    /// Returns true when kit selection should be shown.
    pub fn is_select_kit(self) -> (b: bool)
        ensures
            b == (self == JoinStep::SelectKit),
    {
        match self {
            JoinStep::EnterName => false,
            JoinStep::SelectKit => true,
        }
    }
}

impl Default for JoinStep {
    /// The join overlay starts at name entry.
    fn default() -> (step: JoinStep)
        ensures
            step == JoinStep::EnterName,
    {
        JoinStep::EnterName
    }
}

/// Whether the UI is currently forcing the join overlay during a rejoin cycle.
#[derive(Clone, Copy, PartialEq, Eq, Structural, Debug)]
pub enum RejoinFlow {
    Inactive,
    Active,
}

impl RejoinFlow {
    /// Returns true when the join overlay should remain pinned over game content.
    pub fn forces_join_overlay(self, has_match_result: bool) -> (b: bool)
        ensures
            b == (self == RejoinFlow::Active && !has_match_result),
    {
        self.is_active() && !has_match_result
    }

    /// Returns true when this rejoin flow is active.
    pub fn is_active(self) -> (b: bool)
        ensures
            b == (self == RejoinFlow::Active),
    {
        match self {
            RejoinFlow::Inactive => false,
            RejoinFlow::Active => true,
        }
    }
}

impl Default for RejoinFlow {
    /// No rejoin is in progress initially.
    fn default() -> (flow: RejoinFlow)
        ensures
            flow == RejoinFlow::Inactive,
    {
        RejoinFlow::Inactive
    }
}

/// UI cooldown value represented in whole seconds.
#[derive(Clone, Copy, PartialEq, Eq, Structural, PartialOrd, Ord, Debug)]
pub struct CooldownSeconds(u32);

impl View for CooldownSeconds {
    type V = nat;

    closed spec fn view(&self) -> nat {
        self.0 as nat
    }
}

impl Default for CooldownSeconds {
    /// The default cooldown is zero seconds.
    fn default() -> (c: CooldownSeconds)
        ensures
            c@ == 0,
    {
        CooldownSeconds(0)
    }
}

impl CooldownSeconds {
    /// Returns a zero-second cooldown.
    pub fn zero() -> (c: Self)
        ensures
            c@ == 0,
    {
        CooldownSeconds(0)
    }

    /// Creates a cooldown from whole seconds.
    pub fn from_seconds(seconds: u32) -> (c: Self)
        ensures
            c@ == seconds,
    {
        CooldownSeconds(seconds)
    }

    /// Returns the cooldown in whole seconds.
    pub fn as_u32(self) -> (s: u32)
        ensures
            s == self@,
    {
        self.0
    }

    /// Returns true when no cooldown remains.
    pub fn is_zero(self) -> (b: bool)
        ensures
            b == (self@ == 0),
    {
        self.0 == 0
    }

    /// Returns true when cooldown is currently active.
    pub fn is_active(self) -> (b: bool)
        ensures
            b == (self@ > 0),
    {
        self.0 > 0
    }

    /// Returns the cooldown decremented by one second, saturating at zero.
    pub fn decrement(self) -> (c: Self)
        ensures
            c@ == if self@ == 0 { 0 } else { self@ - 1 },
    {
        CooldownSeconds(self.0.saturating_sub(1))
    }
}

/// A cooldown is determined by its seconds: two cooldowns with the same
/// number of seconds are the same value. So `from_seconds(c.as_u32())` is
/// `c`, a cooldown whose `is_zero` holds is `zero()`, and
/// `from_seconds(3).decrement()` is `from_seconds(2)`.
pub proof fn lemma_cooldown_view_injective(a: CooldownSeconds, b: CooldownSeconds)
    requires
        a@ == b@,
    ensures
        a == b,
{
}

/// The seconds of a cooldown fit in a `u32`.
pub proof fn lemma_cooldown_view_bounded(c: CooldownSeconds)
    ensures
        c@ <= u32::MAX,
{
}

/// Exactly one of `is_zero` and `is_active` holds for every cooldown.
pub proof fn lemma_cooldown_zero_xor_active(c: CooldownSeconds)
    ensures
        (c@ == 0) != (c@ > 0),
{
}

/// Decrementing never goes below zero, and it lowers an active cooldown by
/// exactly one second, so `n` decrements bring a cooldown of `n` seconds to zero.
pub proof fn lemma_cooldown_decrement_steps(seconds: nat, steps: nat)
    ensures
        decremented(seconds, steps) == if steps >= seconds { 0 } else { seconds - steps },
    decreases steps,
{
    if steps > 0 {
        lemma_cooldown_decrement_steps(seconds, (steps - 1) as nat);
    }
}

/// The value of a cooldown of `seconds` after `steps` calls of `decrement`.
pub open spec fn decremented(seconds: nat, steps: nat) -> nat
    decreases steps,
{
    if steps == 0 {
        seconds
    } else {
        let prev = decremented(seconds, (steps - 1) as nat);
        if prev == 0 { 0 } else { (prev - 1) as nat }
    }
}

} // verus!
