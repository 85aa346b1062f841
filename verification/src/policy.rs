use vstd::prelude::*;

verus! {

/// Longest agent identifier the registry accepts, in bytes.
pub const MAX_AGENT_ID_BYTES: usize = 64;

/// Welcome bonus of points seeded into every newly created wallet.
pub const WELCOME_POINTS: u64 = 100;

/// Flat bonus credited to the destination wallet of an agent-to-agent
/// transfer, independent of the amount moved.
pub const AGENT_RECEIVE_POINTS: u64 = 5;

/// Protocol fee skimmed off every transfer: one part in 200 (0.5%),
/// rounded down by integer division.
pub open spec fn fee_of(amount: u64) -> u64 {
    (amount as int / 200) as u64
}

/// The portion of a transfer that reaches the stated recipient: the amount
/// less the fee. The division remainder implicitly stays with the sender
/// side of the split, so no value is created or destroyed.
pub open spec fn send_amount_of(amount: u64) -> u64 {
    (amount - fee_of(amount)) as u64
}

/// Points earned by the sender of a native-value transfer: one point per
/// 100_000_000 base units, floored at 1 and capped at 10.
pub open spec fn sol_points_of(amount: u64) -> u64 {
    let raw = amount as int / 100_000_000;
    if raw < 1 {
        1u64
    } else if raw > 10 {
        10u64
    } else {
        raw as u64
    }
}

/// Points earned by the sender of a token transfer: one point per 100_000
/// raw token units, floored at 2 and capped at 20. The divisor is smaller
/// than the native one because a raw token unit is worth far less than a
/// native base unit, which keeps reward density comparable.
pub open spec fn token_points_of(amount: u64) -> u64 {
    let raw = amount as int / 100_000;
    if raw < 2 {
        2u64
    } else if raw > 20 {
        20u64
    } else {
        raw as u64
    }
}

/// Splits an amount into the protocol fee and the amount forwarded to the
/// recipient. The two parts always add back to the original amount.
pub fn split_fee(amount: u64) -> (r: (u64, u64))
    ensures
        r.0 == fee_of(amount),
        r.1 == send_amount_of(amount),
        r.0 + r.1 == amount,
{
    let fee = amount / 200;
    (fee, amount - fee)
}

/// Points accrued by the sender of a native-value transfer of `amount`.
pub fn sol_points_earned(amount: u64) -> (r: u64)
    ensures
        r == sol_points_of(amount),
        1 <= r <= 10,
{
    let raw = amount / 100_000_000;
    if raw < 1 {
        1
    } else if raw > 10 {
        10
    } else {
        raw
    }
}

/// Points accrued by the sender of a token transfer of `amount` raw units.
pub fn token_points_earned(amount: u64) -> (r: u64)
    ensures
        r == token_points_of(amount),
        2 <= r <= 20,
{
    let raw = amount / 100_000;
    if raw < 2 {
        2
    } else if raw > 20 {
        20
    } else {
        raw
    }
}

/// Whether a native balance can cover a transfer of `amount` while keeping
/// the retained-balance floor, computed without overflow.
pub fn native_send_allowed(balance: u64, amount: u64, min_balance: u64) -> (r: bool)
    ensures
        r == (balance as int >= amount + min_balance),
{
    balance >= amount && balance - amount >= min_balance
}

/// The fee split conserves value exactly: for every amount, the fee and the
/// forwarded amount add back to the amount, and the fee never exceeds it.
pub proof fn lemma_fee_split_conserves(amount: u64)
    ensures
        fee_of(amount) + send_amount_of(amount) == amount,
        fee_of(amount) <= amount,
{
}

} // verus!
