//! Allowances that owners grant to spenders.
use vstd::prelude::*;
use crate::token::types::{AccountId, AllowanceValue, TokenError};
use crate::token::contract::{VeritixToken, TokenModel};

verus! {

broadcast use vstd::std_specs::hash::group_hash_axioms;

/// The storage key of the allowance that `from` grants to `spender`.
pub open spec fn allowance_key(from: AccountId, spender: AccountId) -> u128 {
    (from as int * 0x1_0000_0000_0000_0000int + spender as int) as u128
}

/// Distinct owner and spender pairs have distinct keys.
pub proof fn lemma_allowance_key_injective(a: AccountId, b: AccountId, c: AccountId, d: AccountId)
    ensures
        allowance_key(a, b) == allowance_key(c, d) ==> a == c && b == d,
{
    let x = a as int * 0x1_0000_0000_0000_0000int + b as int;
    let y = c as int * 0x1_0000_0000_0000_0000int + d as int;
    assert(0 <= x < 0x1_0000_0000_0000_0000_0000_0000_0000_0000int) by (nonlinear_arith)
        requires
            0 <= a < 0x1_0000_0000_0000_0000int,
            0 <= b < 0x1_0000_0000_0000_0000int,
            x == a as int * 0x1_0000_0000_0000_0000int + b as int;
    assert(0 <= y < 0x1_0000_0000_0000_0000_0000_0000_0000_0000int) by (nonlinear_arith)
        requires
            0 <= c < 0x1_0000_0000_0000_0000int,
            0 <= d < 0x1_0000_0000_0000_0000int,
            y == c as int * 0x1_0000_0000_0000_0000int + d as int;
    if x == y {
        assert(a == c && b == d) by (nonlinear_arith)
            requires
                0 <= b < 0x1_0000_0000_0000_0000int,
                0 <= d < 0x1_0000_0000_0000_0000int,
                a as int * 0x1_0000_0000_0000_0000int + b as int == c as int * 0x1_0000_0000_0000_0000int + d as int;
    }
}

impl TokenModel {
    /// The allowance as stored, or nothing granted.
    pub open spec fn stored_allowance(self, from: AccountId, spender: AccountId) -> AllowanceValue {
        if self.allowances.dom().contains(allowance_key(from, spender)) {
            self.allowances[allowance_key(from, spender)]
        } else {
            AllowanceValue { amount: 0, expiration_ledger: 0 }
        }
    }

    /// The allowance in force on ledger `now`: an expired allowance is worth nothing.
    pub open spec fn allowance_at(self, from: AccountId, spender: AccountId, now: u32) -> AllowanceValue {
        let a = self.stored_allowance(from, spender);
        if a.expiration_ledger < now {
            AllowanceValue { amount: 0, expiration_ledger: a.expiration_ledger }
        } else {
            a
        }
    }

    /// The model with the allowance of `from` to `spender` set to `v`.
    pub open spec fn with_allowance(self, from: AccountId, spender: AccountId, v: AllowanceValue) -> TokenModel {
        TokenModel { allowances: self.allowances.insert(allowance_key(from, spender), v), ..self }
    }
}

/// The storage key of the allowance that `from` grants to `spender`.
pub fn allowance_key_of(from: AccountId, spender: AccountId) -> (k: u128)
    ensures
        k == allowance_key(from, spender),
{
    assert((from as int) * 0x1_0000_0000_0000_0000int + (spender as int) < 0x1_0000_0000_0000_0000_0000_0000_0000_0000int) by (nonlinear_arith)
        requires
            0 <= from < 0x1_0000_0000_0000_0000int,
            0 <= spender < 0x1_0000_0000_0000_0000int;
    (from as u128) * 0x1_0000_0000_0000_0000u128 + (spender as u128)
}

/// The allowance of `from` to `spender` in force on ledger `now`.
pub fn read_allowance(t: &VeritixToken, from: AccountId, spender: AccountId, now: u32) -> (r: AllowanceValue)
    ensures
        r == t@.allowance_at(from, spender, now),
{
    let k = allowance_key_of(from, spender);
    let a = match t.allowances.get(&k) {
        Some(v) => *v,
        None => AllowanceValue { amount: 0, expiration_ledger: 0 },
    };
    if a.expiration_ledger < now {
        AllowanceValue { amount: 0, expiration_ledger: a.expiration_ledger }
    } else {
        a
    }
}

/// Sets the allowance of `from` to `spender`.
///
/// Fails with `AllowanceExpiryInPast`, changing nothing, when a positive amount
/// would expire before ledger `now`.
pub fn write_allowance(
    t: &mut VeritixToken,
    from: AccountId,
    spender: AccountId,
    amount: i128,
    expiration_ledger: u32,
    now: u32,
) -> (r: Result<(), TokenError>)
    requires
        old(t).wf(),
    ensures
        final(t).wf(),
        r is Ok <==> !(amount > 0 && expiration_ledger < now),
        r is Ok ==> final(t)@ == old(t)@.with_allowance(
            from,
            spender,
            AllowanceValue { amount, expiration_ledger },
        ),
        r is Err ==> r == Err::<(), TokenError>(TokenError::AllowanceExpiryInPast) && final(t)@ == old(t)@,
{
    if amount > 0 && expiration_ledger < now {
        return Err(TokenError::AllowanceExpiryInPast);
    }
    let k = allowance_key_of(from, spender);
    t.allowances.insert(k, AllowanceValue { amount, expiration_ledger });
    Ok(())
}

/// The model after `spender` uses `amount` of the allowance of `from` on ledger `now`.
pub open spec fn after_spending_allowance(
    m: TokenModel,
    from: AccountId,
    spender: AccountId,
    amount: i128,
    now: u32,
) -> TokenModel {
    let a = m.allowance_at(from, spender, now);
    if amount > 0 {
        m.with_allowance(
            from,
            spender,
            AllowanceValue { amount: (a.amount - amount) as i128, expiration_ledger: a.expiration_ledger },
        )
    } else {
        m
    }
}

/// Uses `amount` of the allowance of `from` to `spender`.
///
/// Fails with `InsufficientAllowance`, changing nothing, when the allowance in
/// force on ledger `now` is smaller.
pub fn spend_allowance(
    t: &mut VeritixToken,
    from: AccountId,
    spender: AccountId,
    amount: i128,
    now: u32,
) -> (r: Result<(), TokenError>)
    requires
        old(t).wf(),
        amount >= 0,
    ensures
        final(t).wf(),
        r is Ok <==> amount <= old(t)@.allowance_at(from, spender, now).amount,
        r is Ok ==> final(t)@ == after_spending_allowance(old(t)@, from, spender, amount, now),
        r is Err ==> r == Err::<(), TokenError>(TokenError::InsufficientAllowance) && final(t)@ == old(t)@,
{
    let a = read_allowance(t, from, spender, now);
    if a.amount < amount {
        return Err(TokenError::InsufficientAllowance);
    }
    if amount > 0 {
        let k = allowance_key_of(from, spender);
        t.allowances.insert(k, AllowanceValue { amount: a.amount - amount, expiration_ledger: a.expiration_ledger });
    }
    Ok(())
}

} // verus!
