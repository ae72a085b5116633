//! The stablecoin contract state and its entry points.
//!
//! A [`MyStablecoin`] value holds the whole ledger state: metadata, role
//! grants, the pause flag, balances, allowances, the supply counter, the
//! current ledger height and the log of emitted events.  Every entry point
//! runs the fixed sequence pause gate → role check → validation pipeline →
//! ledger mutation → event record, short-circuits on the first failure and
//! leaves the state unchanged on any error.

use vstd::prelude::*;

use crate::ledger::{
    allowance_amount, allowance_record, balance_of, credit, consume_allowance, debit,
    effective_allowance, find_account, find_allowance, lemma_allowance_absent,
    lemma_allowance_at_index, lemma_balance_le_sum, lemma_balance_of_absent,
    lemma_balance_of_at_index, nonnegative_allowances, nonnegative_balances, set_allowance,
    sum_balances, unique_accounts, unique_allowances, AllowanceEntry, BalanceEntry,
};
use crate::types::{Address, StablecoinError, StablecoinEvent, DECIMALS, MAX_SUPPLY};
use crate::types::{token_name, token_symbol};
use crate::utils::{
    initialize_access_control, initialize_token, spec_validate_burn_comprehensive,
    spec_validate_mint_comprehensive, spec_validate_mint_with_supply,
    spec_validate_transfer_comprehensive, validate_burn_comprehensive,
    validate_mint_comprehensive, validate_mint_with_supply, validate_transfer_comprehensive,
};

verus! {

/// The stablecoin: one self-contained ledger for a single asset.
pub struct MyStablecoin {
    pub name: String,
    pub symbol: String,
    pub decimals: u32,
    pub admin: Option<Address>,
    pub minter: Option<Address>,
    pub pauser: Option<Address>,
    pub upgrader: Option<Address>,
    pub paused: bool,
    pub supply: i128,
    pub balances: Vec<BalanceEntry>,
    pub allowances: Vec<AllowanceEntry>,
    pub ledger_height: u32,
    pub events: Vec<StablecoinEvent>,
}

/// The parts of the state no ledger operation may touch: metadata, the
/// admin, the role grants and the ledger height.
pub open spec fn same_config(pre: MyStablecoin, post: MyStablecoin) -> bool {
    &&& post.name@ == pre.name@
    &&& post.symbol@ == pre.symbol@
    &&& post.decimals == pre.decimals
    &&& post.admin == pre.admin
    &&& post.minter == pre.minter
    &&& post.pauser == pre.pauser
    &&& post.upgrader == pre.upgrader
    &&& post.ledger_height == pre.ledger_height
}

/// The sum of the amounts in a batch.
pub open spec fn spec_batch_total(entries: Seq<(Address, i128)>) -> int
    decreases entries.len(),
{
    if entries.len() == 0 {
        0
    } else {
        entries[0].1 + spec_batch_total(entries.drop_first())
    }
}

/// The sum of the amounts a batch assigns to one address.
pub open spec fn spec_batch_amount_for(entries: Seq<(Address, i128)>, a: Seq<char>) -> int
    decreases entries.len(),
{
    if entries.len() == 0 {
        0
    } else {
        (if entries[0].0@ == a {
            entries[0].1 as int
        } else {
            0
        }) + spec_batch_amount_for(entries.drop_first(), a)
    }
}

/// The mint events a batch emits, one per entry, in order.
pub open spec fn spec_mint_events(entries: Seq<(Address, i128)>) -> Seq<StablecoinEvent> {
    entries.map_values(|e: (Address, i128)| StablecoinEvent::Mint { to: e.0, amount: e.1 })
}

/// The batch validation: each entry runs the mint pipeline against the
/// supply as it stands after the entries before it; the first failure is
/// the batch's result.
pub open spec fn spec_batch_validate(
    initialized: bool,
    entries: Seq<(Address, i128)>,
    total_supply: int,
) -> Result<(), StablecoinError>
    decreases entries.len(),
{
    if entries.len() == 0 {
        Ok(())
    } else if spec_validate_mint_with_supply(
        initialized,
        entries[0].0@,
        entries[0].1,
        total_supply,
    ) is Err {
        spec_validate_mint_with_supply(initialized, entries[0].0@, entries[0].1, total_supply)
    } else {
        spec_batch_validate(initialized, entries.drop_first(), total_supply + entries[0].1)
    }
}

/// Entry `j` of a batch passes the mint pipeline against the supply after
/// the entries before it.
pub open spec fn spec_batch_entry_ok(
    initialized: bool,
    entries: Seq<(Address, i128)>,
    s0: int,
    j: int,
) -> bool {
    spec_validate_mint_with_supply(
        initialized,
        entries[j].0@,
        entries[j].1,
        s0 + spec_batch_total(entries.take(j)),
    ) is Ok
}

/// Extending a prefix by one entry adds that entry's amount to the
/// prefix's total.
pub proof fn lemma_batch_total_take_step(entries: Seq<(Address, i128)>, k: int)
    requires
        0 <= k < entries.len(),
    ensures
        spec_batch_total(entries.take(k + 1)) == spec_batch_total(entries.take(k))
            + entries[k].1,
    decreases k,
{
    if k == 0 {
        assert(entries.take(1)[0] == entries[0]);
        assert(entries.take(1).drop_first() =~= entries.take(0));
    } else {
        let d = entries.drop_first();
        assert(entries.take(k + 1)[0] == entries[0]);
        assert(entries.take(k + 1).drop_first() =~= d.take(k));
        assert(entries.take(k)[0] == entries[0]);
        assert(entries.take(k).drop_first() =~= d.take(k - 1));
        lemma_batch_total_take_step(d, k - 1);
        assert(d[k - 1] == entries[k]);
    }
}

/// Extending a prefix by one entry adds that entry's amount to the
/// addresses it credits.
pub proof fn lemma_batch_amount_take_step(entries: Seq<(Address, i128)>, k: int, a: Seq<char>)
    requires
        0 <= k < entries.len(),
    ensures
        spec_batch_amount_for(entries.take(k + 1), a) == spec_batch_amount_for(
            entries.take(k),
            a,
        ) + (if entries[k].0@ == a {
            entries[k].1 as int
        } else {
            0
        }),
    decreases k,
{
    if k == 0 {
        assert(entries.take(1)[0] == entries[0]);
        assert(entries.take(1).drop_first() =~= entries.take(0));
    } else {
        let d = entries.drop_first();
        assert(entries.take(k + 1)[0] == entries[0]);
        assert(entries.take(k + 1).drop_first() =~= d.take(k));
        assert(entries.take(k)[0] == entries[0]);
        assert(entries.take(k).drop_first() =~= d.take(k - 1));
        lemma_batch_amount_take_step(d, k - 1, a);
        assert(d[k - 1] == entries[k]);
    }
}

impl MyStablecoin {
    /// The token name; empty until initialization.
    pub open spec fn spec_name(&self) -> Seq<char> {
        self.name@
    }

    /// The token symbol.
    pub open spec fn spec_symbol(&self) -> Seq<char> {
        self.symbol@
    }

    /// The contract is initialized exactly when its name has been set.
    pub open spec fn spec_initialized(&self) -> bool {
        self.name@.len() > 0
    }

    /// Whether the pause gate is closed.
    pub open spec fn spec_paused(&self) -> bool {
        self.paused
    }

    /// The total supply.
    pub open spec fn spec_supply(&self) -> int {
        self.supply as int
    }

    /// The balance recorded for an address.
    pub open spec fn spec_balance(&self, a: Seq<char>) -> int {
        balance_of(self.balances@, a)
    }

    /// The allowance (`o`, `sp`) may still spend at the current height.
    pub open spec fn spec_allowance(&self, o: Seq<char>, sp: Seq<char>) -> int {
        effective_allowance(self.allowances@, o, sp, self.ledger_height as int)
    }

    /// The admin's identifier, if set.
    pub open spec fn spec_admin(&self) -> Option<Seq<char>> {
        match self.admin {
            Some(a) => Some(a@),
            None => None,
        }
    }

    /// The minter role holder's identifier, if set.
    pub open spec fn spec_minter(&self) -> Option<Seq<char>> {
        match self.minter {
            Some(a) => Some(a@),
            None => None,
        }
    }

    /// The pauser role holder's identifier, if set.
    pub open spec fn spec_pauser(&self) -> Option<Seq<char>> {
        match self.pauser {
            Some(a) => Some(a@),
            None => None,
        }
    }

    /// The upgrader role holder's identifier, if set.
    pub open spec fn spec_upgrader(&self) -> Option<Seq<char>> {
        match self.upgrader {
            Some(a) => Some(a@),
            None => None,
        }
    }

    /// Whether `who` holds the minter role.
    pub open spec fn spec_is_minter(&self, who: Seq<char>) -> bool {
        self.spec_minter() == Some(who)
    }

    /// Whether `who` holds the pauser role.
    pub open spec fn spec_is_pauser(&self, who: Seq<char>) -> bool {
        self.spec_pauser() == Some(who)
    }

    /// Whether `who` holds the upgrader role.
    pub open spec fn spec_is_upgrader(&self, who: Seq<char>) -> bool {
        self.spec_upgrader() == Some(who)
    }

    /// Well-formedness: unique keys, non-negative balances and allowances,
    /// and a supply counter that equals the sum of all balances and stays
    /// within the cap.  Every constructor establishes this and every entry
    /// point preserves it.
    pub open spec fn wf(&self) -> bool {
        &&& unique_accounts(self.balances@)
        &&& nonnegative_balances(self.balances@)
        &&& unique_allowances(self.allowances@)
        &&& nonnegative_allowances(self.allowances@)
        &&& sum_balances(self.balances@) == self.supply as int
        &&& 0 <= self.supply
        &&& self.supply <= MAX_SUPPLY
    }

    /// An empty, uninitialized ledger.
    pub fn new() -> (t: MyStablecoin)
        ensures
            t.wf(),
            !t.spec_initialized(),
            !t.spec_paused(),
            t.spec_supply() == 0,
            t.balances@.len() == 0,
            t.allowances@.len() == 0,
            forall|a: Seq<char>| t.spec_balance(a) == 0,
            forall|o: Seq<char>, sp: Seq<char>| allowance_record(t.allowances@, o, sp) is None,
            t.spec_admin() is None,
            t.spec_minter() is None,
            t.spec_pauser() is None,
            t.spec_upgrader() is None,
            t.ledger_height == 0,
            t.events@.len() == 0,
    {
        let t = MyStablecoin {
            name: String::new(),
            symbol: String::new(),
            decimals: 0,
            admin: None,
            minter: None,
            pauser: None,
            upgrader: None,
            paused: false,
            supply: 0,
            balances: Vec::new(),
            allowances: Vec::new(),
            ledger_height: 0,
            events: Vec::new(),
        };
        proof {
            assert forall|a: Seq<char>| t.spec_balance(a) == 0 by {
                lemma_balance_of_absent(t.balances@, a);
            }
            assert forall|o: Seq<char>, sp: Seq<char>| allowance_record(
                t.allowances@,
                o,
                sp,
            ) is None by {
                lemma_allowance_absent(t.allowances@, o, sp);
            }
        }
        t
    }

    /// Whether `initialize` is owed success: only a first call succeeds.
    pub open spec fn spec_initialize_guard(t: MyStablecoin) -> Result<(), StablecoinError> {
        if t.spec_initialized() {
            Err(StablecoinError::AlreadyInitialized)
        } else {
            Ok(())
        }
    }

    /// Initialize the stablecoin contract: set the metadata and record the
    /// admin and the three role holders.  A one-time operation.
    pub fn initialize(
        &mut self,
        admin: &Address,
        pauser: &Address,
        upgrader: &Address,
        minter: &Address,
    ) -> (r: Result<(), StablecoinError>)
        requires
            old(self).wf(),
        ensures
            final(self).wf(),
            r == Self::spec_initialize_guard(*old(self)),
            r is Ok ==> {
                &&& final(self).spec_initialized()
                &&& final(self).spec_name() == token_name()
                &&& final(self).spec_symbol() == token_symbol()
                &&& final(self).decimals == DECIMALS
                &&& final(self).spec_admin() == Some(admin@)
                &&& final(self).spec_pauser() == Some(pauser@)
                &&& final(self).spec_upgrader() == Some(upgrader@)
                &&& final(self).spec_minter() == Some(minter@)
                &&& final(self).spec_paused() == old(self).spec_paused()
                &&& final(self).spec_supply() == old(self).spec_supply()
                &&& final(self).balances@ == old(self).balances@
                &&& final(self).allowances@ == old(self).allowances@
                &&& final(self).ledger_height == old(self).ledger_height
                &&& final(self).events@ == old(self).events@
            },
            r is Err ==> *final(self) == *old(self),
    {
        if !self.name.as_str().is_empty() {
            return Err(StablecoinError::AlreadyInitialized);
        }
        initialize_token(self);
        initialize_access_control(self, admin, pauser, upgrader, minter);
        proof {
            reveal_strlit("Costa Rica Colon");
        }
        Ok(())
    }

    /// Whether `mint` is owed success, and the error it returns if not:
    /// the pause gate, the minter role check and the mint pipeline, in
    /// that order.
    pub open spec fn spec_mint_guard(
        t: MyStablecoin,
        caller: Seq<char>,
        to: Seq<char>,
        amount: i128,
    ) -> Result<(), StablecoinError> {
        if t.spec_paused() {
            Err(StablecoinError::Paused)
        } else if !t.spec_is_minter(caller) {
            Err(StablecoinError::Unauthorized)
        } else {
            spec_validate_mint_comprehensive(t, to, amount)
        }
    }

    /// Mint tokens to a specific address.  The caller must hold the minter
    /// role; the hosting environment has authenticated it.
    pub fn mint(&mut self, caller: &Address, to: &Address, amount: i128) -> (r: Result<
        (),
        StablecoinError,
    >)
        requires
            old(self).wf(),
        ensures
            final(self).wf(),
            r == Self::spec_mint_guard(*old(self), caller@, to@, amount),
            r is Ok ==> {
                &&& final(self).spec_balance(to@) == old(self).spec_balance(to@) + amount
                &&& forall|x: Seq<char>|
                    x != to@ ==> final(self).spec_balance(x) == old(self).spec_balance(x)
                &&& final(self).spec_supply() == old(self).spec_supply() + amount
                &&& final(self).allowances@ == old(self).allowances@
                &&& final(self).events@ == old(self).events@.push(
                    StablecoinEvent::Mint { to: *to, amount },
                )
                &&& final(self).spec_paused() == old(self).spec_paused()
                &&& same_config(*old(self), *final(self))
            },
            r is Err ==> *final(self) == *old(self),
    {
        if self.paused {
            return Err(StablecoinError::Paused);
        }
        let authorized = match &self.minter {
            Some(m) => *m == *caller,
            None => false,
        };
        if !authorized {
            return Err(StablecoinError::Unauthorized);
        }
        match validate_mint_comprehensive(self, to, amount) {
            Err(e) => return Err(e),
            Ok(()) => {},
        }
        proof {
            lemma_balance_le_sum(self.balances@, to@);
        }
        credit(&mut self.balances, to, amount);
        self.supply = self.supply + amount;
        self.events.push(StablecoinEvent::Mint { to: to.clone(), amount });
        Ok(())
    }

    /// Whether `transfer` is owed success: the pause gate and the transfer
    /// pipeline.  The sender authenticates itself to the hosting
    /// environment; no role is required.
    pub open spec fn spec_transfer_guard(
        t: MyStablecoin,
        from: Seq<char>,
        to: Seq<char>,
        amount: i128,
    ) -> Result<(), StablecoinError> {
        if t.spec_paused() {
            Err(StablecoinError::Paused)
        } else {
            spec_validate_transfer_comprehensive(t, from, to, amount)
        }
    }

    /// Transfer tokens between addresses.
    pub fn transfer(&mut self, from: &Address, to: &Address, amount: i128) -> (r: Result<
        (),
        StablecoinError,
    >)
        requires
            old(self).wf(),
        ensures
            final(self).wf(),
            r == Self::spec_transfer_guard(*old(self), from@, to@, amount),
            r is Ok ==> {
                &&& final(self).spec_balance(from@) == old(self).spec_balance(from@) - amount
                &&& final(self).spec_balance(to@) == old(self).spec_balance(to@) + amount
                &&& forall|x: Seq<char>|
                    x != from@ && x != to@ ==> final(self).spec_balance(x) == old(
                        self,
                    ).spec_balance(x)
                &&& final(self).spec_supply() == old(self).spec_supply()
                &&& final(self).allowances@ == old(self).allowances@
                &&& final(self).events@ == old(self).events@.push(
                    StablecoinEvent::Transfer { from: *from, to: *to, amount },
                )
                &&& final(self).spec_paused() == old(self).spec_paused()
                &&& same_config(*old(self), *final(self))
            },
            r is Err ==> *final(self) == *old(self),
    {
        if self.paused {
            return Err(StablecoinError::Paused);
        }
        match validate_transfer_comprehensive(self, from, to, amount) {
            Err(e) => return Err(e),
            Ok(()) => {},
        }
        debit(&mut self.balances, from, amount);
        proof {
            lemma_balance_le_sum(self.balances@, to@);
        }
        credit(&mut self.balances, to, amount);
        self.events.push(StablecoinEvent::Transfer { from: from.clone(), to: to.clone(), amount });
        Ok(())
    }

    /// Whether `burn` is owed success: the pause gate and the burn
    /// pipeline.
    pub open spec fn spec_burn_guard(t: MyStablecoin, from: Seq<char>, amount: i128) -> Result<
        (),
        StablecoinError,
    > {
        if t.spec_paused() {
            Err(StablecoinError::Paused)
        } else {
            spec_validate_burn_comprehensive(t, from, amount)
        }
    }

    /// Burn tokens from a specific address.
    pub fn burn(&mut self, from: &Address, amount: i128) -> (r: Result<(), StablecoinError>)
        requires
            old(self).wf(),
        ensures
            final(self).wf(),
            r == Self::spec_burn_guard(*old(self), from@, amount),
            r is Ok ==> {
                &&& final(self).spec_balance(from@) == old(self).spec_balance(from@) - amount
                &&& forall|x: Seq<char>|
                    x != from@ ==> final(self).spec_balance(x) == old(self).spec_balance(x)
                &&& final(self).spec_supply() == old(self).spec_supply() - amount
                &&& final(self).allowances@ == old(self).allowances@
                &&& final(self).events@ == old(self).events@.push(
                    StablecoinEvent::Burn { from: *from, amount },
                )
                &&& final(self).spec_paused() == old(self).spec_paused()
                &&& same_config(*old(self), *final(self))
            },
            r is Err ==> *final(self) == *old(self),
    {
        if self.paused {
            return Err(StablecoinError::Paused);
        }
        match validate_burn_comprehensive(self, from, amount) {
            Err(e) => return Err(e),
            Ok(()) => {},
        }
        proof {
            lemma_balance_le_sum(self.balances@, from@);
        }
        debit(&mut self.balances, from, amount);
        self.supply = self.supply - amount;
        self.events.push(StablecoinEvent::Burn { from: from.clone(), amount });
        Ok(())
    }

    /// Whether `transfer_from` is owed success: the pause gate, the
    /// transfer pipeline, then the spender's unexpired allowance.
    pub open spec fn spec_transfer_from_guard(
        t: MyStablecoin,
        spender: Seq<char>,
        from: Seq<char>,
        to: Seq<char>,
        amount: i128,
    ) -> Result<(), StablecoinError> {
        if t.spec_paused() {
            Err(StablecoinError::Paused)
        } else if spec_validate_transfer_comprehensive(t, from, to, amount) is Err {
            spec_validate_transfer_comprehensive(t, from, to, amount)
        } else if t.spec_allowance(from, spender) < amount {
            Err(StablecoinError::InsufficientAllowance)
        } else {
            Ok(())
        }
    }

    /// Transfer tokens on the owner's behalf, consuming the spender's
    /// allowance.  The spender authenticates itself to the hosting
    /// environment.
    pub fn transfer_from(
        &mut self,
        spender: &Address,
        from: &Address,
        to: &Address,
        amount: i128,
    ) -> (r: Result<(), StablecoinError>)
        requires
            old(self).wf(),
        ensures
            final(self).wf(),
            r == Self::spec_transfer_from_guard(*old(self), spender@, from@, to@, amount),
            r is Ok ==> {
                &&& final(self).spec_balance(from@) == old(self).spec_balance(from@) - amount
                &&& final(self).spec_balance(to@) == old(self).spec_balance(to@) + amount
                &&& forall|x: Seq<char>|
                    x != from@ && x != to@ ==> final(self).spec_balance(x) == old(
                        self,
                    ).spec_balance(x)
                &&& final(self).spec_supply() == old(self).spec_supply()
                &&& final(self).spec_allowance(from@, spender@) == old(self).spec_allowance(
                    from@,
                    spender@,
                ) - amount
                &&& allowance_record(final(self).allowances@, from@, spender@) == Some(
                    (
                        allowance_amount(old(self).allowances@, from@, spender@) - amount,
                        allowance_record(old(self).allowances@, from@, spender@).unwrap().1,
                    ),
                )
                &&& forall|x: Seq<char>, y: Seq<char>|
                    !(x == from@ && y == spender@) ==> allowance_record(
                        final(self).allowances@,
                        x,
                        y,
                    ) == allowance_record(old(self).allowances@, x, y)
                &&& final(self).events@ == old(self).events@.push(
                    StablecoinEvent::Transfer { from: *from, to: *to, amount },
                )
                &&& final(self).spec_paused() == old(self).spec_paused()
                &&& same_config(*old(self), *final(self))
            },
            r is Err ==> *final(self) == *old(self),
    {
        if self.paused {
            return Err(StablecoinError::Paused);
        }
        match validate_transfer_comprehensive(self, from, to, amount) {
            Err(e) => return Err(e),
            Ok(()) => {},
        }
        let approved = self.allowance(from, spender);
        if approved < amount {
            return Err(StablecoinError::InsufficientAllowance);
        }
        consume_allowance(&mut self.allowances, from, spender, amount);
        debit(&mut self.balances, from, amount);
        proof {
            lemma_balance_le_sum(self.balances@, to@);
        }
        credit(&mut self.balances, to, amount);
        self.events.push(StablecoinEvent::Transfer { from: from.clone(), to: to.clone(), amount });
        Ok(())
    }

    /// Whether `burn_from` is owed success: the pause gate, the burn
    /// pipeline, then the spender's unexpired allowance.
    pub open spec fn spec_burn_from_guard(
        t: MyStablecoin,
        spender: Seq<char>,
        from: Seq<char>,
        amount: i128,
    ) -> Result<(), StablecoinError> {
        if t.spec_paused() {
            Err(StablecoinError::Paused)
        } else if spec_validate_burn_comprehensive(t, from, amount) is Err {
            spec_validate_burn_comprehensive(t, from, amount)
        } else if t.spec_allowance(from, spender) < amount {
            Err(StablecoinError::InsufficientAllowance)
        } else {
            Ok(())
        }
    }

    /// Burn tokens on the owner's behalf, consuming the spender's
    /// allowance.
    pub fn burn_from(&mut self, spender: &Address, from: &Address, amount: i128) -> (r: Result<
        (),
        StablecoinError,
    >)
        requires
            old(self).wf(),
        ensures
            final(self).wf(),
            r == Self::spec_burn_from_guard(*old(self), spender@, from@, amount),
            r is Ok ==> {
                &&& final(self).spec_balance(from@) == old(self).spec_balance(from@) - amount
                &&& forall|x: Seq<char>|
                    x != from@ ==> final(self).spec_balance(x) == old(self).spec_balance(x)
                &&& final(self).spec_supply() == old(self).spec_supply() - amount
                &&& final(self).spec_allowance(from@, spender@) == old(self).spec_allowance(
                    from@,
                    spender@,
                ) - amount
                &&& forall|x: Seq<char>, y: Seq<char>|
                    !(x == from@ && y == spender@) ==> allowance_record(
                        final(self).allowances@,
                        x,
                        y,
                    ) == allowance_record(old(self).allowances@, x, y)
                &&& final(self).events@ == old(self).events@.push(
                    StablecoinEvent::Burn { from: *from, amount },
                )
                &&& final(self).spec_paused() == old(self).spec_paused()
                &&& same_config(*old(self), *final(self))
            },
            r is Err ==> *final(self) == *old(self),
    {
        if self.paused {
            return Err(StablecoinError::Paused);
        }
        match validate_burn_comprehensive(self, from, amount) {
            Err(e) => return Err(e),
            Ok(()) => {},
        }
        let approved = self.allowance(from, spender);
        if approved < amount {
            return Err(StablecoinError::InsufficientAllowance);
        }
        consume_allowance(&mut self.allowances, from, spender, amount);
        proof {
            lemma_balance_le_sum(self.balances@, from@);
        }
        debit(&mut self.balances, from, amount);
        self.supply = self.supply - amount;
        self.events.push(StablecoinEvent::Burn { from: from.clone(), amount });
        Ok(())
    }

    /// Whether `approve` is owed success: the pause gate, then a
    /// non-negative amount.
    pub open spec fn spec_approve_guard(t: MyStablecoin, amount: i128) -> Result<
        (),
        StablecoinError,
    > {
        if t.spec_paused() {
            Err(StablecoinError::Paused)
        } else if amount < 0 {
            Err(StablecoinError::InvalidAmount)
        } else {
            Ok(())
        }
    }

    /// Approve a spending allowance, overwriting any existing record for
    /// the pair.  Expiration is checked only when the allowance is
    /// consumed.
    pub fn approve(
        &mut self,
        from: &Address,
        spender: &Address,
        amount: i128,
        expiration_ledger: u32,
    ) -> (r: Result<(), StablecoinError>)
        requires
            old(self).wf(),
        ensures
            final(self).wf(),
            r == Self::spec_approve_guard(*old(self), amount),
            r is Ok ==> {
                &&& allowance_record(final(self).allowances@, from@, spender@) == Some(
                    (amount as int, expiration_ledger as int),
                )
                &&& forall|x: Seq<char>, y: Seq<char>|
                    !(x == from@ && y == spender@) ==> allowance_record(
                        final(self).allowances@,
                        x,
                        y,
                    ) == allowance_record(old(self).allowances@, x, y)
                &&& final(self).balances@ == old(self).balances@
                &&& final(self).spec_supply() == old(self).spec_supply()
                &&& final(self).events@ == old(self).events@
                &&& final(self).spec_paused() == old(self).spec_paused()
                &&& same_config(*old(self), *final(self))
            },
            r is Err ==> *final(self) == *old(self),
    {
        if self.paused {
            return Err(StablecoinError::Paused);
        }
        if amount < 0 {
            return Err(StablecoinError::InvalidAmount);
        }
        set_allowance(&mut self.allowances, from, spender, amount, expiration_ledger);
        Ok(())
    }

    /// Whether `batch_mint` is owed success: the pause gate, the minter
    /// role check, then the mint pipeline for every entry in order.
    pub open spec fn spec_batch_mint_guard(
        t: MyStablecoin,
        caller: Seq<char>,
        entries: Seq<(Address, i128)>,
    ) -> Result<(), StablecoinError> {
        if t.spec_paused() {
            Err(StablecoinError::Paused)
        } else if !t.spec_is_minter(caller) {
            Err(StablecoinError::Unauthorized)
        } else {
            spec_batch_validate(t.spec_initialized(), entries, t.spec_supply())
        }
    }

    /// Mint tokens to multiple addresses as one atomic unit of work: if
    /// any entry fails validation, no balance or supply change from any
    /// entry is retained and the first error is returned.
    pub fn batch_mint(&mut self, caller: &Address, recipients: &Vec<(Address, i128)>) -> (r:
        Result<(), StablecoinError>)
        requires
            old(self).wf(),
        ensures
            final(self).wf(),
            r == Self::spec_batch_mint_guard(*old(self), caller@, recipients@),
            r is Ok ==> {
                &&& forall|a: Seq<char>|
                    final(self).spec_balance(a) == old(self).spec_balance(a)
                        + spec_batch_amount_for(recipients@, a)
                &&& final(self).spec_supply() == old(self).spec_supply() + spec_batch_total(
                    recipients@,
                )
                &&& final(self).allowances@ == old(self).allowances@
                &&& final(self).events@ == old(self).events@ + spec_mint_events(recipients@)
                &&& final(self).spec_paused() == old(self).spec_paused()
                &&& same_config(*old(self), *final(self))
            },
            r is Err ==> *final(self) == *old(self),
    {
        if self.paused {
            return Err(StablecoinError::Paused);
        }
        let authorized = match &self.minter {
            Some(m) => *m == *caller,
            None => false,
        };
        if !authorized {
            return Err(StablecoinError::Unauthorized);
        }
        let ghost init = self.spec_initialized();
        let ghost s0 = self.spec_supply();
        let n = recipients.len();
        let mut running: i128 = self.supply;
        let mut k: usize = 0;
        proof {
            assert(recipients@.skip(0) =~= recipients@);
        }
        while k < n
            invariant
                old(self).wf(),
                *self == *old(self),
                !old(self).spec_paused(),
                old(self).spec_is_minter(caller@),
                init == old(self).spec_initialized(),
                s0 == old(self).spec_supply(),
                n == recipients@.len(),
                k <= n,
                0 <= running <= MAX_SUPPLY,
                running as int == s0 + spec_batch_total(recipients@.take(k as int)),
                spec_batch_validate(init, recipients@, s0) == spec_batch_validate(
                    init,
                    recipients@.skip(k as int),
                    running as int,
                ),
                forall|j: int| 0 <= j < k ==> #[trigger] spec_batch_entry_ok(
                    init,
                    recipients@,
                    s0,
                    j,
                ),
            decreases n - k,
        {
            proof {
                assert(recipients@.skip(k as int)[0] == recipients@[k as int]);
            }
            let to = &recipients[k].0;
            let amount = recipients[k].1;
            match validate_mint_with_supply(self, to, amount, running) {
                Err(e) => {
                    return Err(e);
                },
                Ok(()) => {},
            }
            proof {
                assert(recipients@.skip(k as int).drop_first() =~= recipients@.skip(k as int + 1));
                lemma_batch_total_take_step(recipients@, k as int);
                assert(spec_batch_entry_ok(init, recipients@, s0, k as int));
            }
            running = running + amount;
            k += 1;
        }
        proof {
            assert(recipients@.skip(n as int) =~= Seq::<(Address, i128)>::empty());
        }
        let ghost old_balances = self.balances@;
        let ghost old_events = self.events@;
        let mut j: usize = 0;
        proof {
            assert(self.events@ =~= old_events + spec_mint_events(recipients@.take(0)));
        }
        while j < n
            invariant
                !old(self).spec_paused(),
                old(self).spec_is_minter(caller@),
                spec_batch_validate(init, recipients@, s0) is Ok,
                init == old(self).spec_initialized(),
                s0 == old(self).spec_supply(),
                old_balances == old(self).balances@,
                old_events == old(self).events@,
                n == recipients@.len(),
                j <= n,
                unique_accounts(self.balances@),
                nonnegative_balances(self.balances@),
                sum_balances(self.balances@) == self.supply as int,
                self.supply as int == s0 + spec_batch_total(recipients@.take(j as int)),
                0 <= self.supply <= MAX_SUPPLY,
                forall|a: Seq<char>|
                    balance_of(self.balances@, a) == balance_of(old_balances, a)
                        + spec_batch_amount_for(recipients@.take(j as int), a),
                self.events@ == old_events + spec_mint_events(recipients@.take(j as int)),
                self.allowances@ == old(self).allowances@,
                self.name@ == old(self).name@,
                self.symbol@ == old(self).symbol@,
                self.decimals == old(self).decimals,
                self.admin == old(self).admin,
                self.minter == old(self).minter,
                self.pauser == old(self).pauser,
                self.upgrader == old(self).upgrader,
                self.paused == old(self).paused,
                self.ledger_height == old(self).ledger_height,
                forall|jj: int| 0 <= jj < n ==> #[trigger] spec_batch_entry_ok(
                    init,
                    recipients@,
                    s0,
                    jj,
                ),
            decreases n - j,
        {
            let to = &recipients[j].0;
            let amount = recipients[j].1;
            proof {
                assert(spec_batch_entry_ok(init, recipients@, s0, j as int));
                lemma_batch_total_take_step(recipients@, j as int);
                lemma_balance_le_sum(self.balances@, to@);
            }
            credit(&mut self.balances, to, amount);
            self.supply = self.supply + amount;
            self.events.push(StablecoinEvent::Mint { to: recipients[j].0.clone(), amount });
            proof {
                assert forall|a: Seq<char>|
                    balance_of(self.balances@, a) == balance_of(old_balances, a)
                        + spec_batch_amount_for(recipients@.take(j as int + 1), a) by {
                    lemma_batch_amount_take_step(recipients@, j as int, a);
                }
                assert(self.events@ =~= old_events + spec_mint_events(
                    recipients@.take(j as int + 1),
                ));
            }
            j += 1;
        }
        proof {
            assert(recipients@.take(n as int) =~= recipients@);
        }
        Ok(())
    }

    /// Whether `pause` or `unpause` is owed success: the caller must hold
    /// the pauser role.  The switch itself is idempotent.
    pub open spec fn spec_pause_guard(t: MyStablecoin, caller: Seq<char>) -> Result<
        (),
        StablecoinError,
    > {
        if !t.spec_is_pauser(caller) {
            Err(StablecoinError::Unauthorized)
        } else {
            Ok(())
        }
    }

    /// Close the pause gate (only the pauser role).
    pub fn pause(&mut self, caller: &Address) -> (r: Result<(), StablecoinError>)
        requires
            old(self).wf(),
        ensures
            final(self).wf(),
            r == Self::spec_pause_guard(*old(self), caller@),
            r is Ok ==> {
                &&& final(self).spec_paused()
                &&& final(self).balances@ == old(self).balances@
                &&& final(self).allowances@ == old(self).allowances@
                &&& final(self).spec_supply() == old(self).spec_supply()
                &&& final(self).events@ == old(self).events@.push(StablecoinEvent::Pause)
                &&& same_config(*old(self), *final(self))
            },
            r is Err ==> *final(self) == *old(self),
    {
        let authorized = match &self.pauser {
            Some(p) => *p == *caller,
            None => false,
        };
        if !authorized {
            return Err(StablecoinError::Unauthorized);
        }
        self.paused = true;
        self.events.push(StablecoinEvent::Pause);
        Ok(())
    }

    /// Open the pause gate (only the pauser role).
    pub fn unpause(&mut self, caller: &Address) -> (r: Result<(), StablecoinError>)
        requires
            old(self).wf(),
        ensures
            final(self).wf(),
            r == Self::spec_pause_guard(*old(self), caller@),
            r is Ok ==> {
                &&& !final(self).spec_paused()
                &&& final(self).balances@ == old(self).balances@
                &&& final(self).allowances@ == old(self).allowances@
                &&& final(self).spec_supply() == old(self).spec_supply()
                &&& final(self).events@ == old(self).events@.push(StablecoinEvent::Unpause)
                &&& same_config(*old(self), *final(self))
            },
            r is Err ==> *final(self) == *old(self),
    {
        let authorized = match &self.pauser {
            Some(p) => *p == *caller,
            None => false,
        };
        if !authorized {
            return Err(StablecoinError::Unauthorized);
        }
        self.paused = false;
        self.events.push(StablecoinEvent::Unpause);
        Ok(())
    }

    /// Record the current ledger height, as reported by the hosting
    /// environment.  Allowance expiration is checked against this value at
    /// consumption time.
    pub fn set_ledger_height(&mut self, height: u32)
        requires
            old(self).wf(),
        ensures
            final(self).wf(),
            final(self).ledger_height == height,
            final(self).name@ == old(self).name@,
            final(self).symbol@ == old(self).symbol@,
            final(self).decimals == old(self).decimals,
            final(self).admin == old(self).admin,
            final(self).minter == old(self).minter,
            final(self).pauser == old(self).pauser,
            final(self).upgrader == old(self).upgrader,
            final(self).paused == old(self).paused,
            final(self).supply == old(self).supply,
            final(self).balances@ == old(self).balances@,
            final(self).allowances@ == old(self).allowances@,
            final(self).events@ == old(self).events@,
    {
        self.ledger_height = height;
    }

    /// Get balance of an address.  Never fails, paused or not.
    pub fn balance(&self, address: &Address) -> (r: i128)
        requires
            self.wf(),
        ensures
            r as int == self.spec_balance(address@),
    {
        match find_account(&self.balances, address) {
            Some(i) => {
                proof {
                    lemma_balance_of_at_index(self.balances@, i as int, address@);
                }
                self.balances[i].amount
            },
            None => {
                proof {
                    lemma_balance_of_absent(self.balances@, address@);
                }
                0
            },
        }
    }

    /// Get the allowance between two addresses at the current height.  An
    /// expired record reads as zero.  Never fails, paused or not.
    pub fn allowance(&self, from: &Address, spender: &Address) -> (r: i128)
        requires
            self.wf(),
        ensures
            r as int == self.spec_allowance(from@, spender@),
    {
        match find_allowance(&self.allowances, from, spender) {
            Some(i) => {
                proof {
                    lemma_allowance_at_index(self.allowances@, i as int, from@, spender@);
                }
                if self.allowances[i].expiration >= self.ledger_height {
                    self.allowances[i].amount
                } else {
                    0
                }
            },
            None => {
                proof {
                    lemma_allowance_absent(self.allowances@, from@, spender@);
                }
                0
            },
        }
    }

    /// Get token name.
    pub fn name(&self) -> (r: String)
        ensures
            r@ == self.spec_name(),
    {
        self.name.clone()
    }

    /// Get token symbol.
    pub fn symbol(&self) -> (r: String)
        ensures
            r@ == self.spec_symbol(),
    {
        self.symbol.clone()
    }

    /// Get token decimals.
    pub fn decimals(&self) -> (r: u32)
        ensures
            r == self.decimals,
    {
        self.decimals
    }

    /// Get total supply.
    pub fn total_supply(&self) -> (r: i128)
        ensures
            r == self.supply,
    {
        self.supply
    }

    /// Check if the contract is paused.
    pub fn is_paused(&self) -> (r: bool)
        ensures
            r == self.spec_paused(),
    {
        self.paused
    }

    /// Get token information: name, symbol, decimals, total supply and
    /// pause state.
    pub fn get_token_info(&self) -> (r: (String, String, u32, i128, bool))
        ensures
            r.0@ == self.spec_name(),
            r.1@ == self.spec_symbol(),
            r.2 == self.decimals,
            r.3 == self.supply,
            r.4 == self.spec_paused(),
    {
        (self.name.clone(), self.symbol.clone(), self.decimals, self.supply, self.paused)
    }

    /// Check if an address holds the minter role.
    pub fn has_role_minter(&self, address: &Address) -> (r: bool)
        ensures
            r == self.spec_is_minter(address@),
    {
        match &self.minter {
            Some(m) => *m == *address,
            None => false,
        }
    }

    /// Check if an address holds the pauser role.
    pub fn has_role_pauser(&self, address: &Address) -> (r: bool)
        ensures
            r == self.spec_is_pauser(address@),
    {
        match &self.pauser {
            Some(p) => *p == *address,
            None => false,
        }
    }

    /// Check if an address holds the upgrader role.
    pub fn has_role_upgrader(&self, address: &Address) -> (r: bool)
        ensures
            r == self.spec_is_upgrader(address@),
    {
        match &self.upgrader {
            Some(u) => *u == *address,
            None => false,
        }
    }

    /// Get the admin address, if one was recorded.
    pub fn get_admin(&self) -> (r: Option<Address>)
        ensures
            r == self.admin,
    {
        match &self.admin {
            Some(a) => Some(a.clone()),
            None => None,
        }
    }
}

} // verus!
