//! Staking ledger.
//!
//! A singleton [`TokenInfo`] record caps the token's circulating
//! supply, and one [`StakeAccount`] per holder tracks a stake
//! position: the staked balance, the accrual window's start, and the
//! cumulative rewards paid. Rewards accrue at 10% per year of the
//! staked balance, computed in integer fixed point with an explicit
//! floor so that every execution of the same transition is
//! bit-identical.
//!
//! Paying rewards restarts the accrual window: both a claim and an
//! unstake that pays rewards set `last_stake_time` to the clock
//! reading they were given, so time already paid for is never paid
//! again.
//!
//! As in [`crate::arcade`], each operation is a pure transition with a
//! spec-level twin stating its full outcome; the runtime supplies the
//! clock reading and applies the next record value atomically.

use vstd::prelude::*;

use crate::identity::AccountId;
use crate::sums::sum_amounts;

verus! {

/// Why a staking transition was refused. Every error leaves the
/// records unchanged.
#[derive(Clone, Copy, PartialEq, Eq, Debug)]
pub enum ErrorCode {
    /// A mint would push the circulating supply above the hard cap.
    ExceedsMaxSupply,
    /// An unstake asked for more than the position holds.
    InsufficientStake,
    /// A claim found no accrued rewards.
    NoRewards,
    /// A balance or counter would leave the 64-bit range.
    Overflow,
}

/// The ledger's singleton token record.
#[derive(Clone, Copy, PartialEq, Eq, Debug)]
pub struct TokenInfo {
    /// Identity permitted to mint; enforced by the runtime's account
    /// binding.
    pub authority: AccountId,
    /// Hard cap the circulating supply may never exceed.
    pub total_supply: u64,
    /// Running total of units minted so far.
    pub circulating_supply: u64,
}

/// One holder's stake position. Created on first stake and kept even
/// when the staked balance returns to zero, so the reward history
/// survives.
#[derive(Clone, Copy, PartialEq, Eq, Debug)]
pub struct StakeAccount {
    /// The holder this position belongs to.
    pub user: AccountId,
    /// Units currently staked.
    pub amount: u64,
    /// Start of the current accrual window, in seconds since epoch.
    /// Set by every stake and by every transition that pays rewards.
    pub last_stake_time: i64,
    /// Clock reading of the most recent claim.
    pub last_claim_time: i64,
    /// Cumulative rewards ever paid to this position.
    pub total_rewards: u64,
}

/// Accrual divisor: rewards are `staked * elapsed_seconds /
/// RATE_DENOMINATOR`, which is a 10% annual rate over the 31,536,000
/// seconds of a 365-day year, floored.
pub const RATE_DENOMINATOR: u64 = 315_360_000;

/// Rewards accrued by a balance of `amount` from `last_stake_time`
/// to `now`, as an unbounded integer: zero when no time has passed
/// (or the clock reads earlier than the window start), else
/// `floor(amount * elapsed / RATE_DENOMINATOR)`.
pub open spec fn accrued_rewards(amount: u64, last_stake_time: i64, now: i64) -> int {
    if now <= last_stake_time {
        0
    } else {
        (amount * (now - last_stake_time)) / (RATE_DENOMINATOR as int)
    }
}

/// Outcome of a reward computation: the accrued amount, or `Overflow`
/// when it does not fit the 64-bit range.
pub open spec fn rewards_outcome(p: StakeAccount, now: i64) -> Result<u64, ErrorCode> {
    let acc = accrued_rewards(p.amount, p.last_stake_time, now);
    if acc > u64::MAX {
        Err(ErrorCode::Overflow)
    } else {
        Ok(acc as u64)
    }
}

/// Outcome of a mint against the hard cap: refused when the new
/// circulating supply would exceed `total_supply`.
pub open spec fn mint_step(t: TokenInfo, amount: u64) -> (Result<(), ErrorCode>, TokenInfo) {
    if t.circulating_supply + amount > t.total_supply {
        (Err(ErrorCode::ExceedsMaxSupply), t)
    } else {
        (Ok(()), TokenInfo { circulating_supply: (t.circulating_supply + amount) as u64, ..t })
    }
}

/// Outcome of a stake: the position takes the holder's identity, the
/// balance grows by `amount`, and the accrual window restarts at
/// `now`. Refused only when the balance would overflow.
pub open spec fn stake_step(p: StakeAccount, user: AccountId, amount: u64, now: i64) -> (
    Result<(), ErrorCode>,
    StakeAccount,
) {
    if p.amount + amount > u64::MAX {
        (Err(ErrorCode::Overflow), p)
    } else {
        (
            Ok(()),
            StakeAccount {
                user,
                amount: (p.amount + amount) as u64,
                last_stake_time: now,
                ..p
            },
        )
    }
}

/// Outcome of an unstake: rewards accrue on the full balance held
/// before the withdrawal, the payout is `amount` plus those rewards,
/// the balance shrinks by `amount`, and the accrual window restarts at
/// `now`.
pub open spec fn unstake_step(p: StakeAccount, amount: u64, now: i64) -> (
    Result<u64, ErrorCode>,
    StakeAccount,
) {
    if p.amount < amount {
        (Err(ErrorCode::InsufficientStake), p)
    } else {
        let acc = accrued_rewards(p.amount, p.last_stake_time, now);
        if acc + amount > u64::MAX || p.total_rewards + acc > u64::MAX {
            (Err(ErrorCode::Overflow), p)
        } else {
            (
                Ok((amount + acc) as u64),
                StakeAccount {
                    amount: (p.amount - amount) as u64,
                    total_rewards: (p.total_rewards + acc) as u64,
                    last_stake_time: now,
                    ..p
                },
            )
        }
    }
}

/// Outcome of a claim: refused with `NoRewards` when nothing has
/// accrued; otherwise the accrued rewards are paid, recorded in
/// `total_rewards`, and both the accrual window and `last_claim_time`
/// move to `now`.
pub open spec fn claim_step(p: StakeAccount, now: i64) -> (Result<u64, ErrorCode>, StakeAccount) {
    let acc = accrued_rewards(p.amount, p.last_stake_time, now);
    if acc == 0 {
        (Err(ErrorCode::NoRewards), p)
    } else if acc > u64::MAX || p.total_rewards + acc > u64::MAX {
        (Err(ErrorCode::Overflow), p)
    } else {
        (
            Ok(acc as u64),
            StakeAccount {
                total_rewards: (p.total_rewards + acc) as u64,
                last_stake_time: now,
                last_claim_time: now,
                ..p
            },
        )
    }
}

/// Creates the ledger's token record with the given hard cap and
/// nothing in circulation.
pub fn initialize(authority: AccountId, total_supply: u64) -> (t: TokenInfo)
    ensures
        t == (TokenInfo { authority, total_supply, circulating_supply: 0 }),
{
    TokenInfo { authority, total_supply, circulating_supply: 0 }
}

/// A holder's fresh, empty position: the create half of the
/// create-or-load semantics the storage collaborator offers.
pub fn new_position(user: AccountId) -> (p: StakeAccount)
    ensures
        p == (StakeAccount {
            user,
            amount: 0,
            last_stake_time: 0,
            last_claim_time: 0,
            total_rewards: 0,
        }),
{
    StakeAccount { user, amount: 0, last_stake_time: 0, last_claim_time: 0, total_rewards: 0 }
}

/// Admits a mint of `amount` units against the hard cap: succeeds
/// exactly when the new circulating supply stays within
/// `total_supply`, so the cap invariant holds after every admitted
/// mint whatever held before.
pub fn mint_tokens(info: &mut TokenInfo, amount: u64) -> (r: Result<(), ErrorCode>)
    ensures
        (r, *final(info)) == mint_step(*old(info), amount),
        r is Ok <==> old(info).circulating_supply + amount <= old(info).total_supply,
        r is Ok ==> final(info).circulating_supply <= final(info).total_supply,
        r is Err ==> *final(info) == *old(info),
{
    if amount > info.total_supply || info.circulating_supply > info.total_supply - amount {
        return Err(ErrorCode::ExceedsMaxSupply);
    }
    info.circulating_supply = info.circulating_supply + amount;
    Ok(())
}

/// Rewards accrued by `position` at clock reading `now`, floored
/// integer fixed point; `Overflow` when the accrued amount does not
/// fit the 64-bit range.
pub fn calculate_rewards(position: &StakeAccount, now: i64) -> (r: Result<u64, ErrorCode>)
    ensures
        r == rewards_outcome(*position, now),
{
    if now <= position.last_stake_time {
        return Ok(0);
    }
    let elapsed: u128 = ((now as i128) - (position.last_stake_time as i128)) as u128;
    let amount: u128 = position.amount as u128;
    proof {
        assert(amount * elapsed < 0x100000000000000000000000000000000) by (nonlinear_arith)
            requires
                amount < 0x10000000000000000,
                elapsed < 0x10000000000000000,
        ;
    }
    let raw: u128 = amount * elapsed / (RATE_DENOMINATOR as u128);
    if raw > u64::MAX as u128 {
        Err(ErrorCode::Overflow)
    } else {
        Ok(raw as u64)
    }
}

/// Stakes `amount` more units for `user`: the position records the
/// holder, the balance grows by `amount`, and the accrual window
/// restarts at `now`. The matching vault deposit is the runtime's
/// value transfer; refused only when the balance would overflow.
pub fn stake(position: &mut StakeAccount, user: AccountId, amount: u64, now: i64) -> (r: Result<
    (),
    ErrorCode,
>)
    ensures
        (r, *final(position)) == stake_step(*old(position), user, amount, now),
        r is Ok <==> old(position).amount + amount <= u64::MAX,
        r is Err ==> *final(position) == *old(position),
{
    if amount > u64::MAX - position.amount {
        return Err(ErrorCode::Overflow);
    }
    position.user = user;
    position.amount = position.amount + amount;
    position.last_stake_time = now;
    Ok(())
}

/// Withdraws `amount` staked units plus the rewards accrued on the
/// full balance: returns the total payout the vault owes the holder.
/// Refused with `InsufficientStake` when the position holds less than
/// `amount`, with the position untouched.
pub fn unstake(position: &mut StakeAccount, amount: u64, now: i64) -> (r: Result<u64, ErrorCode>)
    ensures
        (r, *final(position)) == unstake_step(*old(position), amount, now),
        amount > old(position).amount ==> r == Err::<u64, ErrorCode>(
            ErrorCode::InsufficientStake,
        ),
        r is Ok <==> ({
            let acc = accrued_rewards(old(position).amount, old(position).last_stake_time, now);
            amount <= old(position).amount && acc + amount <= u64::MAX && old(
                position,
            ).total_rewards + acc <= u64::MAX
        }),
        r is Err ==> *final(position) == *old(position),
{
    if position.amount < amount {
        return Err(ErrorCode::InsufficientStake);
    }
    let snapshot = *position;
    let acc = match calculate_rewards(&snapshot, now) {
        Ok(a) => a,
        Err(e) => {
            return Err(e);
        },
    };
    if acc > u64::MAX - amount {
        return Err(ErrorCode::Overflow);
    }
    if acc > u64::MAX - position.total_rewards {
        return Err(ErrorCode::Overflow);
    }
    position.amount = position.amount - amount;
    position.total_rewards = position.total_rewards + acc;
    position.last_stake_time = now;
    Ok(amount + acc)
}

/// Pays out the rewards accrued so far: refused with `NoRewards` when
/// nothing has accrued; on success the payout is recorded in
/// `total_rewards` and the accrual window restarts at `now`, so the
/// same second's accrual cannot be paid twice.
pub fn claim_rewards(position: &mut StakeAccount, now: i64) -> (r: Result<u64, ErrorCode>)
    ensures
        (r, *final(position)) == claim_step(*old(position), now),
        r is Ok <==> ({
            let acc = accrued_rewards(old(position).amount, old(position).last_stake_time, now);
            0 < acc && acc <= u64::MAX && old(position).total_rewards + acc <= u64::MAX
        }),
        r is Err ==> *final(position) == *old(position),
{
    let snapshot = *position;
    let acc = match calculate_rewards(&snapshot, now) {
        Ok(a) => a,
        Err(e) => {
            return Err(e);
        },
    };
    if acc == 0 {
        return Err(ErrorCode::NoRewards);
    }
    if acc > u64::MAX - position.total_rewards {
        return Err(ErrorCode::Overflow);
    }
    position.total_rewards = position.total_rewards + acc;
    position.last_stake_time = now;
    position.last_claim_time = now;
    Ok(acc)
}

/// Law: at the instant the accrual window starts — in particular right
/// after any stake, claim or unstake, all of which restart it — the
/// accrued rewards are zero.
pub proof fn lemma_no_accrual_without_elapsed_time(amount: u64, now: i64)
    ensures
        accrued_rewards(amount, now, now) == 0,
{
}

/// Law: a second claim within the same second as a successful one
/// fails with `NoRewards` and changes nothing: the first claim moved
/// the accrual window to its clock reading, so no time remains unpaid.
pub proof fn lemma_second_claim_same_second_fails(p: StakeAccount, now: i64)
    requires
        claim_step(p, now).0 is Ok,
    ensures
        claim_step(claim_step(p, now).1, now) == (
            Err::<u64, ErrorCode>(ErrorCode::NoRewards),
            claim_step(p, now).1,
        ),
{
}

/// Law: staking `x` and immediately unstaking `x` — same clock reading,
/// so zero elapsed time — pays back exactly `x` with zero rewards, and
/// returns the staked balance and the reward history to what they were.
pub proof fn lemma_stake_then_unstake_round_trip(
    p: StakeAccount,
    user: AccountId,
    x: u64,
    now: i64,
)
    requires
        stake_step(p, user, x, now).0 is Ok,
    ensures
        unstake_step(stake_step(p, user, x, now).1, x, now).0 == Ok::<u64, ErrorCode>(x),
        unstake_step(stake_step(p, user, x, now).1, x, now).1.amount == p.amount,
        unstake_step(stake_step(p, user, x, now).1, x, now).1.total_rewards == p.total_rewards,
{
}

/// The token record after a sequence of mint requests, each applied to
/// the previous outcome.
pub open spec fn apply_mints(t: TokenInfo, amounts: Seq<u64>) -> TokenInfo
    decreases amounts.len(),
{
    if amounts.len() == 0 {
        t
    } else {
        mint_step(apply_mints(t, amounts.drop_last()), amounts.last()).1
    }
}

/// Every mint in the sequence stays within the hard cap when applied
/// in order.
pub open spec fn mints_admitted(t: TokenInfo, amounts: Seq<u64>) -> bool
    decreases amounts.len(),
{
    amounts.len() == 0 || (mints_admitted(t, amounts.drop_last()) && mint_step(
        apply_mints(t, amounts.drop_last()),
        amounts.last(),
    ).0 is Ok)
}

/// Law: after any admitted sequence of mints, the circulating supply
/// is the starting supply plus the sum of the minted amounts, the hard
/// cap has not moved, and at every intermediate step the cap held.
pub proof fn lemma_mint_sequence_supply(t: TokenInfo, amounts: Seq<u64>)
    requires
        mints_admitted(t, amounts),
    ensures
        apply_mints(t, amounts).circulating_supply == t.circulating_supply + sum_amounts(amounts),
        apply_mints(t, amounts).total_supply == t.total_supply,
        apply_mints(t, amounts).authority == t.authority,
        forall|i: int|
            0 < i <= amounts.len() ==> #[trigger] apply_mints(
                t,
                amounts.take(i),
            ).circulating_supply <= t.total_supply,
    decreases amounts.len(),
{
    if amounts.len() > 0 {
        lemma_mint_sequence_supply(t, amounts.drop_last());
        assert(amounts.take(amounts.len() as int) =~= amounts);
        assert forall|i: int| 0 < i <= amounts.len() implies #[trigger] apply_mints(
            t,
            amounts.take(i),
        ).circulating_supply <= t.total_supply by {
            if i < amounts.len() {
                assert(amounts.drop_last().take(i) =~= amounts.take(i));
            }
        }
    }
}

} // verus!
