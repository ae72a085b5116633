//! Pausable extension: the two-state pause switch and guards around it.
//!
//! The switch primitives demand the pauser role as a precondition; the
//! `require_*` guards demand the pause state itself, so a caller must have
//! established it before any code that relies on it runs.

use vstd::prelude::*;

use crate::contract::{same_config, MyStablecoin};
use crate::types::{Address, StablecoinEvent};

verus! {

/// Pausable extension for the stablecoin.
pub struct StablecoinPausable;

impl StablecoinPausable {
    /// Check if the contract is paused.
    pub fn paused(token: &MyStablecoin) -> (r: bool)
        ensures
            r == token.spec_paused(),
    {
        token.is_paused()
    }

    /// Close the pause gate.  Only the pauser role; idempotent.
    pub fn pause(token: &mut MyStablecoin, caller: &Address)
        requires
            old(token).wf(),
            old(token).spec_is_pauser(caller@),
        ensures
            final(token).wf(),
            final(token).spec_paused(),
            final(token).balances@ == old(token).balances@,
            final(token).allowances@ == old(token).allowances@,
            final(token).spec_supply() == old(token).spec_supply(),
            final(token).events@ == old(token).events@.push(StablecoinEvent::Pause),
            same_config(*old(token), *final(token)),
    {
        token.paused = true;
        token.events.push(StablecoinEvent::Pause);
    }

    /// Open the pause gate.  Only the pauser role; idempotent.
    pub fn unpause(token: &mut MyStablecoin, caller: &Address)
        requires
            old(token).wf(),
            old(token).spec_is_pauser(caller@),
        ensures
            final(token).wf(),
            !final(token).spec_paused(),
            final(token).balances@ == old(token).balances@,
            final(token).allowances@ == old(token).allowances@,
            final(token).spec_supply() == old(token).spec_supply(),
            final(token).events@ == old(token).events@.push(StablecoinEvent::Unpause),
            same_config(*old(token), *final(token)),
    {
        token.paused = false;
        token.events.push(StablecoinEvent::Unpause);
    }
}

/// A caller past this guard has shown that the contract is not paused.
pub fn require_not_paused(token: &MyStablecoin)
    requires
        !token.spec_paused(),
{
}

/// A caller past this guard has shown that the contract is paused.
pub fn require_paused(token: &MyStablecoin)
    requires
        token.spec_paused(),
{
}

/// Get the pause status as an explicit value.
pub fn get_pause_status(token: &MyStablecoin) -> (r: PauseStatus)
    ensures
        r == (if token.spec_paused() {
            PauseStatus::Paused
        } else {
            PauseStatus::NotPaused
        }),
{
    if token.is_paused() {
        PauseStatus::Paused
    } else {
        PauseStatus::NotPaused
    }
}

/// The two states of the pause gate.
#[derive(Debug, Clone, Copy, PartialEq, Eq, Structural)]
pub enum PauseStatus {
    Paused,
    NotPaused,
}

} // verus!
