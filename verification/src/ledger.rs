//! The balance and allowance store.
//!
//! Balances and allowances are kept as association lists with unique keys.
//! The spec functions [`balance_of`], [`sum_balances`] and
//! [`allowance_record`] give the mathematical reading of those lists; the
//! executable operations below are proved against them.

use vstd::prelude::*;

use crate::types::Address;

verus! {

/// One account's balance record.  An account is created on first credit and
/// never removed: a zero balance is a valid terminal state.
pub struct BalanceEntry {
    pub addr: Address,
    pub amount: i128,
}

/// One (owner, spender) allowance record.
pub struct AllowanceEntry {
    pub owner: Address,
    pub spender: Address,
    pub amount: i128,
    pub expiration: u32,
}

/// The balance recorded for `a`: the amount of the first entry whose
/// address is `a`, or zero if there is none.
pub open spec fn balance_of(s: Seq<BalanceEntry>, a: Seq<char>) -> int
    decreases s.len(),
{
    if s.len() == 0 {
        0
    } else if s[0].addr@ == a {
        s[0].amount as int
    } else {
        balance_of(s.drop_first(), a)
    }
}

/// The sum of all recorded balances.
pub open spec fn sum_balances(s: Seq<BalanceEntry>) -> int
    decreases s.len(),
{
    if s.len() == 0 {
        0
    } else {
        s[0].amount + sum_balances(s.drop_first())
    }
}

/// No two entries record the same address.
pub open spec fn unique_accounts(s: Seq<BalanceEntry>) -> bool {
    forall|i: int, j: int| 0 <= i < j < s.len() ==> s[i].addr@ != s[j].addr@
}

/// Every recorded balance is non-negative.
pub open spec fn nonnegative_balances(s: Seq<BalanceEntry>) -> bool {
    forall|i: int| 0 <= i < s.len() ==> s[i].amount >= 0
}

/// The (amount, expiration) pair recorded for (`o`, `sp`), if any.
pub open spec fn allowance_record(s: Seq<AllowanceEntry>, o: Seq<char>, sp: Seq<char>) -> Option<
    (int, int),
>
    decreases s.len(),
{
    if s.len() == 0 {
        None
    } else if s[0].owner@ == o && s[0].spender@ == sp {
        Some((s[0].amount as int, s[0].expiration as int))
    } else {
        allowance_record(s.drop_first(), o, sp)
    }
}

/// The amount still approved for (`o`, `sp`), ignoring expiration.
pub open spec fn allowance_amount(s: Seq<AllowanceEntry>, o: Seq<char>, sp: Seq<char>) -> int {
    match allowance_record(s, o, sp) {
        Some(r) => r.0,
        None => 0,
    }
}

/// The amount (`o`, `sp`) may still spend at ledger height `height`: an
/// expired record counts as zero.
pub open spec fn effective_allowance(
    s: Seq<AllowanceEntry>,
    o: Seq<char>,
    sp: Seq<char>,
    height: int,
) -> int {
    match allowance_record(s, o, sp) {
        Some(r) => if r.1 >= height {
            r.0
        } else {
            0
        },
        None => 0,
    }
}

/// No two entries record the same (owner, spender) pair.
pub open spec fn unique_allowances(s: Seq<AllowanceEntry>) -> bool {
    forall|i: int, j: int|
        0 <= i < j < s.len() ==> !(s[i].owner@ == s[j].owner@ && s[i].spender@ == s[j].spender@)
}

/// Every recorded allowance amount is non-negative.
pub open spec fn nonnegative_allowances(s: Seq<AllowanceEntry>) -> bool {
    forall|i: int| 0 <= i < s.len() ==> s[i].amount >= 0
}

proof fn lemma_drop_first_accounts(s: Seq<BalanceEntry>)
    requires
        s.len() > 0,
    ensures
        unique_accounts(s) ==> unique_accounts(s.drop_first()),
        nonnegative_balances(s) ==> nonnegative_balances(s.drop_first()),
{
    let t = s.drop_first();
    assert forall|i: int| 0 <= i < t.len() implies t[i] == s[i + 1] by {}
}

proof fn lemma_drop_first_allowances(s: Seq<AllowanceEntry>)
    requires
        s.len() > 0,
    ensures
        unique_allowances(s) ==> unique_allowances(s.drop_first()),
        nonnegative_allowances(s) ==> nonnegative_allowances(s.drop_first()),
{
    let t = s.drop_first();
    assert forall|i: int| 0 <= i < t.len() implies t[i] == s[i + 1] by {}
}

/// Updating one entry moves the sum by the difference of the amounts.
pub proof fn lemma_sum_update(s: Seq<BalanceEntry>, i: int, e: BalanceEntry)
    requires
        0 <= i < s.len(),
    ensures
        sum_balances(s.update(i, e)) == sum_balances(s) - s[i].amount + e.amount,
    decreases s.len(),
{
    let t = s.update(i, e);
    if i == 0 {
        assert(t.drop_first() =~= s.drop_first());
    } else {
        assert(t[0] == s[0]);
        assert(t.drop_first() =~= s.drop_first().update(i - 1, e));
        lemma_sum_update(s.drop_first(), i - 1, e);
        assert(s.drop_first()[i - 1] == s[i]);
    }
}

/// Appending an entry adds its amount to the sum.
pub proof fn lemma_sum_push(s: Seq<BalanceEntry>, e: BalanceEntry)
    ensures
        sum_balances(s.push(e)) == sum_balances(s) + e.amount,
    decreases s.len(),
{
    let t = s.push(e);
    if s.len() == 0 {
        assert(t[0] == e);
        assert(t.drop_first() =~= s);
    } else {
        assert(t[0] == s[0]);
        assert(t.drop_first() =~= s.drop_first().push(e));
        lemma_sum_push(s.drop_first(), e);
    }
}

/// A sum of non-negative balances is non-negative.
pub proof fn lemma_sum_nonneg(s: Seq<BalanceEntry>)
    requires
        nonnegative_balances(s),
    ensures
        sum_balances(s) >= 0,
    decreases s.len(),
{
    if s.len() > 0 {
        lemma_drop_first_accounts(s);
        lemma_sum_nonneg(s.drop_first());
    }
}

/// With unique addresses, the balance of `a` is the amount at any entry
/// recorded for `a`.
pub proof fn lemma_balance_of_at_index(s: Seq<BalanceEntry>, i: int, a: Seq<char>)
    requires
        unique_accounts(s),
        0 <= i < s.len(),
        s[i].addr@ == a,
    ensures
        balance_of(s, a) == s[i].amount as int,
    decreases s.len(),
{
    if i > 0 {
        assert(s[0].addr@ != a);
        lemma_drop_first_accounts(s);
        assert(s.drop_first()[i - 1] == s[i]);
        lemma_balance_of_at_index(s.drop_first(), i - 1, a);
    }
}

/// An address recorded by no entry has balance zero.
pub proof fn lemma_balance_of_absent(s: Seq<BalanceEntry>, a: Seq<char>)
    requires
        forall|i: int| 0 <= i < s.len() ==> s[i].addr@ != a,
    ensures
        balance_of(s, a) == 0,
    decreases s.len(),
{
    if s.len() > 0 {
        assert forall|i: int| 0 <= i < s.drop_first().len() implies s.drop_first()[i].addr@ != a by {
            assert(s.drop_first()[i] == s[i + 1]);
        }
        lemma_balance_of_absent(s.drop_first(), a);
    }
}

/// How an in-place update at `i` changes each address's balance: the
/// updated entry's address takes the new amount, all others keep theirs.
pub proof fn lemma_balance_of_update(s: Seq<BalanceEntry>, i: int, e: BalanceEntry, a: Seq<char>)
    requires
        unique_accounts(s),
        0 <= i < s.len(),
        e.addr@ == s[i].addr@,
    ensures
        balance_of(s.update(i, e), a) == if a == s[i].addr@ {
            e.amount as int
        } else {
            balance_of(s, a)
        },
    decreases s.len(),
{
    let t = s.update(i, e);
    if i == 0 {
        assert(t[0] == e);
        assert(t.drop_first() =~= s.drop_first());
    } else {
        assert(t[0] == s[0]);
        assert(t.drop_first() =~= s.drop_first().update(i - 1, e));
        assert(s[0].addr@ != s[i].addr@);
        lemma_drop_first_accounts(s);
        assert(s.drop_first()[i - 1] == s[i]);
        lemma_balance_of_update(s.drop_first(), i - 1, e, a);
    }
}

/// How appending an entry for a fresh address changes each balance.
pub proof fn lemma_balance_of_push(s: Seq<BalanceEntry>, e: BalanceEntry, a: Seq<char>)
    requires
        forall|i: int| 0 <= i < s.len() ==> s[i].addr@ != e.addr@,
    ensures
        balance_of(s.push(e), a) == if a == e.addr@ {
            e.amount as int
        } else {
            balance_of(s, a)
        },
    decreases s.len(),
{
    let t = s.push(e);
    if s.len() == 0 {
        assert(t[0] == e);
        assert(t.drop_first() =~= s);
    } else {
        assert(t[0] == s[0]);
        assert(t.drop_first() =~= s.drop_first().push(e));
        assert forall|i: int| 0 <= i < s.drop_first().len() implies s.drop_first()[i].addr@
            != e.addr@ by {
            assert(s.drop_first()[i] == s[i + 1]);
        }
        lemma_balance_of_push(s.drop_first(), e, a);
    }
}

/// With non-negative balances, each single balance lies between zero and
/// the sum of all balances.
pub proof fn lemma_balance_le_sum(s: Seq<BalanceEntry>, a: Seq<char>)
    requires
        nonnegative_balances(s),
    ensures
        0 <= balance_of(s, a),
        balance_of(s, a) <= sum_balances(s),
    decreases s.len(),
{
    if s.len() > 0 {
        lemma_drop_first_accounts(s);
        lemma_sum_nonneg(s.drop_first());
        lemma_balance_le_sum(s.drop_first(), a);
    }
}

/// With unique keys, the allowance record for a pair is the entry at any
/// index recorded for that pair.
pub proof fn lemma_allowance_at_index(s: Seq<AllowanceEntry>, i: int, o: Seq<char>, sp: Seq<char>)
    requires
        unique_allowances(s),
        0 <= i < s.len(),
        s[i].owner@ == o,
        s[i].spender@ == sp,
    ensures
        allowance_record(s, o, sp) == Some((s[i].amount as int, s[i].expiration as int)),
    decreases s.len(),
{
    if i > 0 {
        assert(!(s[0].owner@ == s[i].owner@ && s[0].spender@ == s[i].spender@));
        lemma_drop_first_allowances(s);
        assert(s.drop_first()[i - 1] == s[i]);
        lemma_allowance_at_index(s.drop_first(), i - 1, o, sp);
    }
}

/// A pair recorded by no entry has no allowance record.
pub proof fn lemma_allowance_absent(s: Seq<AllowanceEntry>, o: Seq<char>, sp: Seq<char>)
    requires
        forall|i: int| 0 <= i < s.len() ==> !(s[i].owner@ == o && s[i].spender@ == sp),
    ensures
        allowance_record(s, o, sp) is None,
    decreases s.len(),
{
    if s.len() > 0 {
        assert forall|i: int| 0 <= i < s.drop_first().len() implies !(s.drop_first()[i].owner@ == o
            && s.drop_first()[i].spender@ == sp) by {
            assert(s.drop_first()[i] == s[i + 1]);
        }
        lemma_allowance_absent(s.drop_first(), o, sp);
    }
}

/// How an in-place update at `i` changes each pair's allowance record.
pub proof fn lemma_allowance_update(
    s: Seq<AllowanceEntry>,
    i: int,
    e: AllowanceEntry,
    o: Seq<char>,
    sp: Seq<char>,
)
    requires
        unique_allowances(s),
        0 <= i < s.len(),
        e.owner@ == s[i].owner@,
        e.spender@ == s[i].spender@,
    ensures
        allowance_record(s.update(i, e), o, sp) == if o == s[i].owner@ && sp == s[i].spender@ {
            Some((e.amount as int, e.expiration as int))
        } else {
            allowance_record(s, o, sp)
        },
    decreases s.len(),
{
    let t = s.update(i, e);
    if i == 0 {
        assert(t[0] == e);
        assert(t.drop_first() =~= s.drop_first());
    } else {
        assert(t[0] == s[0]);
        assert(t.drop_first() =~= s.drop_first().update(i - 1, e));
        assert(!(s[0].owner@ == s[i].owner@ && s[0].spender@ == s[i].spender@));
        lemma_drop_first_allowances(s);
        assert(s.drop_first()[i - 1] == s[i]);
        lemma_allowance_update(s.drop_first(), i - 1, e, o, sp);
    }
}

/// How appending a record for a fresh pair changes each allowance record.
pub proof fn lemma_allowance_push(
    s: Seq<AllowanceEntry>,
    e: AllowanceEntry,
    o: Seq<char>,
    sp: Seq<char>,
)
    requires
        forall|i: int|
            0 <= i < s.len() ==> !(s[i].owner@ == e.owner@ && s[i].spender@ == e.spender@),
    ensures
        allowance_record(s.push(e), o, sp) == if o == e.owner@ && sp == e.spender@ {
            Some((e.amount as int, e.expiration as int))
        } else {
            allowance_record(s, o, sp)
        },
    decreases s.len(),
{
    let t = s.push(e);
    if s.len() == 0 {
        assert(t[0] == e);
        assert(t.drop_first() =~= s);
    } else {
        assert(t[0] == s[0]);
        assert(t.drop_first() =~= s.drop_first().push(e));
        assert forall|i: int| 0 <= i < s.drop_first().len() implies !(s.drop_first()[i].owner@
            == e.owner@ && s.drop_first()[i].spender@ == e.spender@) by {
            assert(s.drop_first()[i] == s[i + 1]);
        }
        lemma_allowance_push(s.drop_first(), e, o, sp);
    }
}

/// Finds the entry recorded for `a`, if any.
pub fn find_account(v: &Vec<BalanceEntry>, a: &Address) -> (r: Option<usize>)
    ensures
        match r {
            Some(i) => i < v@.len() && v@[i as int].addr@ == a@,
            None => forall|j: int| 0 <= j < v@.len() ==> v@[j].addr@ != a@,
        },
{
    let n = v.len();
    let mut k: usize = 0;
    while k < n
        invariant
            n == v@.len(),
            k <= n,
            forall|j: int| 0 <= j < k ==> v@[j].addr@ != a@,
        decreases n - k,
    {
        if v[k].addr == *a {
            return Some(k);
        }
        k += 1;
    }
    None
}

/// Adds `amount` to `a`'s balance, creating the account on first credit.
pub fn credit(v: &mut Vec<BalanceEntry>, a: &Address, amount: i128)
    requires
        unique_accounts(old(v)@),
        nonnegative_balances(old(v)@),
        0 <= amount,
        balance_of(old(v)@, a@) + amount <= i128::MAX,
    ensures
        unique_accounts(final(v)@),
        nonnegative_balances(final(v)@),
        balance_of(final(v)@, a@) == balance_of(old(v)@, a@) + amount,
        forall|x: Seq<char>| x != a@ ==> balance_of(final(v)@, x) == balance_of(old(v)@, x),
        sum_balances(final(v)@) == sum_balances(old(v)@) + amount,
{
    let ghost s0 = v@;
    match find_account(v, a) {
        Some(i) => {
            proof {
                lemma_balance_of_at_index(s0, i as int, a@);
            }
            let new_amount = v[i].amount + amount;
            v[i].amount = new_amount;
            proof {
                let e = v@[i as int];
                assert(v@ == s0.update(i as int, e));
                lemma_sum_update(s0, i as int, e);
                assert forall|x: Seq<char>| x != a@ implies balance_of(v@, x) == balance_of(
                    s0,
                    x,
                ) by {
                    lemma_balance_of_update(s0, i as int, e, x);
                }
                lemma_balance_of_update(s0, i as int, e, a@);
            }
        },
        None => {
            proof {
                lemma_balance_of_absent(s0, a@);
            }
            let e = BalanceEntry { addr: a.clone(), amount };
            v.push(e);
            proof {
                lemma_sum_push(s0, e);
                assert forall|x: Seq<char>| x != a@ implies balance_of(v@, x) == balance_of(
                    s0,
                    x,
                ) by {
                    lemma_balance_of_push(s0, e, x);
                }
                lemma_balance_of_push(s0, e, a@);
            }
        },
    }
}

/// Removes `amount` from `a`'s balance, which must cover it.
pub fn debit(v: &mut Vec<BalanceEntry>, a: &Address, amount: i128)
    requires
        unique_accounts(old(v)@),
        nonnegative_balances(old(v)@),
        0 <= amount,
        amount <= balance_of(old(v)@, a@),
    ensures
        unique_accounts(final(v)@),
        nonnegative_balances(final(v)@),
        balance_of(final(v)@, a@) == balance_of(old(v)@, a@) - amount,
        forall|x: Seq<char>| x != a@ ==> balance_of(final(v)@, x) == balance_of(old(v)@, x),
        sum_balances(final(v)@) == sum_balances(old(v)@) - amount,
{
    let ghost s0 = v@;
    match find_account(v, a) {
        Some(i) => {
            proof {
                lemma_balance_of_at_index(s0, i as int, a@);
            }
            let new_amount = v[i].amount - amount;
            v[i].amount = new_amount;
            proof {
                let e = v@[i as int];
                assert(v@ == s0.update(i as int, e));
                lemma_sum_update(s0, i as int, e);
                assert forall|x: Seq<char>| x != a@ implies balance_of(v@, x) == balance_of(
                    s0,
                    x,
                ) by {
                    lemma_balance_of_update(s0, i as int, e, x);
                }
                lemma_balance_of_update(s0, i as int, e, a@);
            }
        },
        None => {
            proof {
                lemma_balance_of_absent(s0, a@);
            }
        },
    }
}

/// Finds the record for the (`owner`, `spender`) pair, if any.
pub fn find_allowance(v: &Vec<AllowanceEntry>, owner: &Address, spender: &Address) -> (r: Option<
    usize,
>)
    ensures
        match r {
            Some(i) => i < v@.len() && v@[i as int].owner@ == owner@ && v@[i as int].spender@
                == spender@,
            None => forall|j: int|
                0 <= j < v@.len() ==> !(v@[j].owner@ == owner@ && v@[j].spender@ == spender@),
        },
{
    let n = v.len();
    let mut k: usize = 0;
    while k < n
        invariant
            n == v@.len(),
            k <= n,
            forall|j: int| 0 <= j < k ==> !(v@[j].owner@ == owner@ && v@[j].spender@ == spender@),
        decreases n - k,
    {
        if v[k].owner == *owner && v[k].spender == *spender {
            return Some(k);
        }
        k += 1;
    }
    None
}

/// Overwrites the (`owner`, `spender`) allowance record.
pub fn set_allowance(
    v: &mut Vec<AllowanceEntry>,
    owner: &Address,
    spender: &Address,
    amount: i128,
    expiration: u32,
)
    requires
        unique_allowances(old(v)@),
        nonnegative_allowances(old(v)@),
        amount >= 0,
    ensures
        unique_allowances(final(v)@),
        nonnegative_allowances(final(v)@),
        allowance_record(final(v)@, owner@, spender@) == Some((amount as int, expiration as int)),
        forall|x: Seq<char>, y: Seq<char>|
            !(x == owner@ && y == spender@) ==> allowance_record(final(v)@, x, y)
                == allowance_record(old(v)@, x, y),
{
    let ghost s0 = v@;
    let e = AllowanceEntry { owner: owner.clone(), spender: spender.clone(), amount, expiration };
    match find_allowance(v, owner, spender) {
        Some(i) => {
            v[i] = e;
            proof {
                assert(v@ == s0.update(i as int, e));
                assert forall|x: Seq<char>, y: Seq<char>| !(x == owner@ && y == spender@) implies
                    allowance_record(v@, x, y) == allowance_record(s0, x, y) by {
                    lemma_allowance_update(s0, i as int, e, x, y);
                }
                lemma_allowance_update(s0, i as int, e, owner@, spender@);
            }
        },
        None => {
            v.push(e);
            proof {
                assert forall|x: Seq<char>, y: Seq<char>| !(x == owner@ && y == spender@) implies
                    allowance_record(v@, x, y) == allowance_record(s0, x, y) by {
                    lemma_allowance_push(s0, e, x, y);
                }
                lemma_allowance_push(s0, e, owner@, spender@);
            }
        },
    }
}

/// Decreases the (`owner`, `spender`) allowance by `amount`, keeping its
/// expiration.  The record must exist and cover the amount.
pub fn consume_allowance(
    v: &mut Vec<AllowanceEntry>,
    owner: &Address,
    spender: &Address,
    amount: i128,
)
    requires
        unique_allowances(old(v)@),
        nonnegative_allowances(old(v)@),
        0 <= amount,
        allowance_record(old(v)@, owner@, spender@) is Some,
        amount <= allowance_amount(old(v)@, owner@, spender@),
    ensures
        unique_allowances(final(v)@),
        nonnegative_allowances(final(v)@),
        allowance_record(final(v)@, owner@, spender@) == Some(
            (
                allowance_amount(old(v)@, owner@, spender@) - amount,
                allowance_record(old(v)@, owner@, spender@).unwrap().1,
            ),
        ),
        forall|x: Seq<char>, y: Seq<char>|
            !(x == owner@ && y == spender@) ==> allowance_record(final(v)@, x, y)
                == allowance_record(old(v)@, x, y),
{
    let ghost s0 = v@;
    match find_allowance(v, owner, spender) {
        Some(i) => {
            proof {
                lemma_allowance_at_index(s0, i as int, owner@, spender@);
            }
            let new_amount = v[i].amount - amount;
            let expiration = v[i].expiration;
            v[i] = AllowanceEntry {
                owner: owner.clone(),
                spender: spender.clone(),
                amount: new_amount,
                expiration,
            };
            proof {
                let e = v@[i as int];
                assert(v@ == s0.update(i as int, e));
                assert forall|x: Seq<char>, y: Seq<char>| !(x == owner@ && y == spender@) implies
                    allowance_record(v@, x, y) == allowance_record(s0, x, y) by {
                    lemma_allowance_update(s0, i as int, e, x, y);
                }
                lemma_allowance_update(s0, i as int, e, owner@, spender@);
            }
        },
        None => {
            proof {
                lemma_allowance_absent(s0, owner@, spender@);
            }
        },
    }
}

} // verus!
