//! Upgradeable extension: gating for upgrade-class operations.  The
//! upgrade itself is the hosting environment's concern; the ledger only
//! answers who may perform one and whether the current state allows it.

use vstd::prelude::*;

use crate::contract::MyStablecoin;
use crate::extensions::pausable::StablecoinPausable;
use crate::types::Address;

verus! {

/// Upgradeable extension for the stablecoin.
pub struct StablecoinUpgradeable;

impl StablecoinUpgradeable {
    /// A caller past this guard has shown that the operator holds the
    /// upgrader role.
    pub fn require_auth(token: &MyStablecoin, operator: &Address)
        requires
            token.spec_is_upgrader(operator@),
    {
    }

    /// Check if an address can perform upgrades.
    pub fn can_upgrade(token: &MyStablecoin, operator: &Address) -> (r: bool)
        ensures
            r == token.spec_is_upgrader(operator@),
    {
        token.has_role_upgrader(operator)
    }
}

/// Validate upgrade permissions.
pub fn validate_upgrade_permissions(token: &MyStablecoin, operator: &Address) -> (r: Result<
    (),
    UpgradeError,
>)
    ensures
        r == (if token.spec_is_upgrader(operator@) {
            Ok::<(), UpgradeError>(())
        } else {
            Err::<(), UpgradeError>(UpgradeError::Unauthorized)
        }),
{
    if !token.has_role_upgrader(operator) {
        return Err(UpgradeError::Unauthorized);
    }
    Ok(())
}

/// Check if an upgrade is allowed in the current state: the operator must
/// hold the upgrader role and the contract must not be paused.
pub fn can_upgrade_now(token: &MyStablecoin, operator: &Address) -> (r: bool)
    ensures
        r == (!token.spec_paused() && token.spec_is_upgrader(operator@)),
{
    if StablecoinPausable::paused(token) {
        return false;
    }
    token.has_role_upgrader(operator)
}

/// Get the upgrade status for an operator.
pub fn get_upgrade_status(token: &MyStablecoin, operator: &Address) -> (r: UpgradeStatus)
    ensures
        r == (if !token.spec_is_upgrader(operator@) {
            UpgradeStatus::Unauthorized
        } else if token.spec_paused() {
            UpgradeStatus::Restricted
        } else {
            UpgradeStatus::Authorized
        }),
{
    if !token.has_role_upgrader(operator) {
        return UpgradeStatus::Unauthorized;
    }
    if StablecoinPausable::paused(token) {
        return UpgradeStatus::Restricted;
    }
    UpgradeStatus::Authorized
}

/// How an operator stands with respect to upgrades.
#[derive(Debug, Clone, Copy, PartialEq, Eq, Structural)]
pub enum UpgradeStatus {
    Authorized,
    Unauthorized,
    Restricted,
}

/// Why an upgrade was refused.
#[derive(Debug, Clone, Copy, PartialEq, Eq, Structural)]
pub enum UpgradeError {
    Unauthorized,
    ContractPaused,
    InvalidParameters,
}

} // verus!
