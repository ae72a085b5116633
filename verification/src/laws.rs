//! The ledger's laws, proved once and for all over the guard
//! specifications and the well-formedness invariant.
//!
//! Every constructor of [`MyStablecoin`] establishes `wf` and every entry
//! point's contract preserves it, so `wf` holds in every reachable state;
//! the first two lemmas unfold what that guarantees.  The remaining lemmas
//! pin down how the guards refuse bad inputs, for every state and every
//! argument at once.  That a refused call leaves the state unchanged is
//! part of each entry point's own contract.

use vstd::prelude::*;

use crate::contract::MyStablecoin;
use crate::ledger::{lemma_balance_le_sum, sum_balances};
use crate::types::{Address, StablecoinError, MAX_SINGLE_OPERATION, MAX_SUPPLY, MIN_AMOUNT};

verus! {

/// Supply accounting: in every well-formed state the total supply equals
/// the sum of all recorded balances.
pub proof fn lemma_supply_equals_balance_sum(t: MyStablecoin)
    requires
        t.wf(),
    ensures
        t.spec_supply() == sum_balances(t.balances@),
{
}

/// Non-negative balances: in every well-formed state, every address's
/// balance is at least zero (and at most the total supply).
pub proof fn lemma_balances_nonnegative(t: MyStablecoin, a: Seq<char>)
    requires
        t.wf(),
    ensures
        0 <= t.spec_balance(a),
        t.spec_balance(a) <= t.spec_supply(),
{
    lemma_balance_le_sum(t.balances@, a);
}

/// Any amount below the minimum is refused as `InvalidAmount` by mint,
/// transfer and burn alike, whatever the balances or the supply — provided
/// the stages before the amount check pass: the contract is not paused and
/// is initialized, the addresses are acceptable and the caller holds the
/// minter role where one is needed.
pub proof fn lemma_small_amounts_rejected(
    t: MyStablecoin,
    caller: Seq<char>,
    from: Seq<char>,
    to: Seq<char>,
    amount: i128,
)
    requires
        !t.spec_paused(),
        t.spec_initialized(),
        t.spec_is_minter(caller),
        from.len() > 0,
        to.len() > 0,
        from != to,
        amount < MIN_AMOUNT,
    ensures
        MyStablecoin::spec_mint_guard(t, caller, to, amount) == Err::<(), StablecoinError>(
            StablecoinError::InvalidAmount,
        ),
        MyStablecoin::spec_transfer_guard(t, from, to, amount) == Err::<(), StablecoinError>(
            StablecoinError::InvalidAmount,
        ),
        MyStablecoin::spec_burn_guard(t, from, amount) == Err::<(), StablecoinError>(
            StablecoinError::InvalidAmount,
        ),
{
}

/// A mint that would push the supply past the cap is refused as
/// `ExceedsMaxSupply`, whatever the recipient's balance.  The entry
/// point's contract adds that a refused mint leaves the state unchanged.
pub proof fn lemma_mint_beyond_cap_rejected(
    t: MyStablecoin,
    caller: Seq<char>,
    to: Seq<char>,
    amount: i128,
)
    requires
        t.wf(),
        !t.spec_paused(),
        t.spec_initialized(),
        t.spec_is_minter(caller),
        to.len() > 0,
        MIN_AMOUNT <= amount <= MAX_SINGLE_OPERATION,
        t.spec_supply() + amount > MAX_SUPPLY,
    ensures
        MyStablecoin::spec_mint_guard(t, caller, to, amount) == Err::<(), StablecoinError>(
            StablecoinError::ExceedsMaxSupply,
        ),
{
}

/// A self-transfer is refused as `SelfTransfer` regardless of balance and
/// amount, provided the contract is not paused, is initialized, and the
/// address is acceptable.
pub proof fn lemma_self_transfer_rejected(t: MyStablecoin, from: Seq<char>, amount: i128)
    requires
        !t.spec_paused(),
        t.spec_initialized(),
        from.len() > 0,
    ensures
        MyStablecoin::spec_transfer_guard(t, from, from, amount) == Err::<(), StablecoinError>(
            StablecoinError::SelfTransfer,
        ),
{
}

/// The pause gate: while the contract is paused, every mutating operation is
/// refused as `Paused`, whatever its arguments.  The read-only queries
/// carry no pause precondition at all, so they answer in every
/// well-formed state, paused or not.
pub proof fn lemma_paused_blocks_mutations(
    t: MyStablecoin,
    caller: Seq<char>,
    spender: Seq<char>,
    from: Seq<char>,
    to: Seq<char>,
    amount: i128,
    entries: Seq<(Address, i128)>,
)
    requires
        t.spec_paused(),
    ensures
        MyStablecoin::spec_mint_guard(t, caller, to, amount) == Err::<(), StablecoinError>(
            StablecoinError::Paused,
        ),
        MyStablecoin::spec_transfer_guard(t, from, to, amount) == Err::<(), StablecoinError>(
            StablecoinError::Paused,
        ),
        MyStablecoin::spec_transfer_from_guard(t, spender, from, to, amount) == Err::<
            (),
            StablecoinError,
        >(StablecoinError::Paused),
        MyStablecoin::spec_burn_guard(t, from, amount) == Err::<(), StablecoinError>(
            StablecoinError::Paused,
        ),
        MyStablecoin::spec_burn_from_guard(t, spender, from, amount) == Err::<
            (),
            StablecoinError,
        >(StablecoinError::Paused),
        MyStablecoin::spec_approve_guard(t, amount) == Err::<(), StablecoinError>(
            StablecoinError::Paused,
        ),
        MyStablecoin::spec_batch_mint_guard(t, caller, entries) == Err::<(), StablecoinError>(
            StablecoinError::Paused,
        ),
{
}

} // verus!
