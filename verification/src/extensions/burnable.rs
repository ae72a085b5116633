//! Burnable extension: burn primitives that demand their preconditions
//! from the caller, and predicates that tell a caller what can be burned.
//!
//! Unlike the `burn` entry point, these primitives do not report failures:
//! the caller must have checked the pause gate, the amount and the balance
//! (the `can_burn*` predicates do exactly that), and the contract demands
//! the checks as preconditions.

use vstd::prelude::*;

use crate::contract::{same_config, MyStablecoin};
use crate::ledger::{
    allowance_record, consume_allowance, debit, lemma_balance_le_sum,
};
use crate::types::{Address, StablecoinEvent};

verus! {

/// Burnable extension for the stablecoin.
pub struct StablecoinBurnable;

impl StablecoinBurnable {
    /// Burn tokens from an account.  The contract must not be paused, the amount
    /// positive and the account's balance sufficient.
    pub fn burn(token: &mut MyStablecoin, from: &Address, amount: i128)
        requires
            old(token).wf(),
            !old(token).spec_paused(),
            amount > 0,
            amount <= old(token).spec_balance(from@),
        ensures
            final(token).wf(),
            final(token).spec_balance(from@) == old(token).spec_balance(from@) - amount,
            forall|x: Seq<char>|
                x != from@ ==> final(token).spec_balance(x) == old(token).spec_balance(x),
            final(token).spec_supply() == old(token).spec_supply() - amount,
            final(token).allowances@ == old(token).allowances@,
            final(token).events@ == old(token).events@.push(
                StablecoinEvent::Burn { from: *from, amount },
            ),
            final(token).spec_paused() == old(token).spec_paused(),
            same_config(*old(token), *final(token)),
    {
        proof {
            lemma_balance_le_sum(token.balances@, from@);
        }
        debit(&mut token.balances, from, amount);
        token.supply = token.supply - amount;
        token.events.push(StablecoinEvent::Burn { from: from.clone(), amount });
    }

    /// Burn tokens from an account on behalf of a spender, consuming the
    /// spender's unexpired allowance, which must cover the amount.
    pub fn burn_from(token: &mut MyStablecoin, spender: &Address, from: &Address, amount: i128)
        requires
            old(token).wf(),
            !old(token).spec_paused(),
            amount > 0,
            amount <= old(token).spec_balance(from@),
            amount <= old(token).spec_allowance(from@, spender@),
        ensures
            final(token).wf(),
            final(token).spec_balance(from@) == old(token).spec_balance(from@) - amount,
            forall|x: Seq<char>|
                x != from@ ==> final(token).spec_balance(x) == old(token).spec_balance(x),
            final(token).spec_supply() == old(token).spec_supply() - amount,
            final(token).spec_allowance(from@, spender@) == old(token).spec_allowance(
                from@,
                spender@,
            ) - amount,
            forall|x: Seq<char>, y: Seq<char>|
                !(x == from@ && y == spender@) ==> allowance_record(final(token).allowances@, x, y)
                    == allowance_record(old(token).allowances@, x, y),
            final(token).events@ == old(token).events@.push(
                StablecoinEvent::Burn { from: *from, amount },
            ),
            final(token).spec_paused() == old(token).spec_paused(),
            same_config(*old(token), *final(token)),
    {
        consume_allowance(&mut token.allowances, from, spender, amount);
        proof {
            lemma_balance_le_sum(token.balances@, from@);
        }
        debit(&mut token.balances, from, amount);
        token.supply = token.supply - amount;
        token.events.push(StablecoinEvent::Burn { from: from.clone(), amount });
    }
}

/// Check if an account has a sufficient balance to burn `amount`.
pub fn can_burn(token: &MyStablecoin, account: &Address, amount: i128) -> (r: bool)
    requires
        token.wf(),
    ensures
        r == (token.spec_balance(account@) >= amount && amount > 0),
{
    let balance = token.balance(account);
    balance >= amount && amount > 0
}

/// The maximum amount that can be burned from an account: its balance.
pub fn max_burnable_amount(token: &MyStablecoin, account: &Address) -> (r: i128)
    requires
        token.wf(),
    ensures
        r as int == token.spec_balance(account@),
{
    token.balance(account)
}

/// Check if a spender can burn `amount` from an account.
pub fn can_burn_from(token: &MyStablecoin, spender: &Address, from: &Address, amount: i128) -> (r:
    bool)
    requires
        token.wf(),
    ensures
        r == (token.spec_allowance(from@, spender@) >= amount && token.spec_balance(from@)
            >= amount && amount > 0),
{
    let approved = token.allowance(from, spender);
    let balance = token.balance(from);
    approved >= amount && balance >= amount && amount > 0
}

} // verus!
