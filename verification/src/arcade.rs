//! Supply/price controller.
//!
//! A singleton [`Config`] record carries the administrator identity,
//! the governed fungible-unit descriptor, a target price, running
//! mint/burn totals and a pause gate. Each operation is a pure
//! transition: it takes the record's current value and returns the
//! call's result together with the record's next value. The runtime
//! applies the next value only when the whole invocation — including
//! the external value-transfer it wraps — succeeds, so a transition
//! observed by later calls is always one of these.
//!
//! Each transition has a spec-level twin (`mint_step`, `burn_step`,
//! `purchase_step`) that states the full outcome; the executable
//! function's contract says it returns exactly that outcome.

use vstd::prelude::*;

use crate::identity::AccountId;
use crate::sums::sum_amounts;

verus! {

/// Why a controller transition was refused. Every error leaves the
/// configuration record unchanged.
#[derive(Clone, Copy, PartialEq, Eq, Debug)]
pub enum ErrorCode {
    /// The pause gate is closed: mint, burn and purchase are disabled.
    ProgramPaused,
    /// A zero quantity was requested.
    InvalidAmount,
    /// The running counter would leave the 64-bit range.
    Overflow,
}

/// The closed set of services a purchase can record.
#[derive(Clone, Copy, PartialEq, Eq, Debug)]
pub enum ServiceType {
    Chat,
    CodeExecution,
    RagDocument,
    ImageGen,
    AgentEvolution,
    VoiceSynthesis,
}

/// The controller's singleton configuration record.
#[derive(Clone, Copy, PartialEq, Eq, Debug)]
pub struct Config {
    /// Identity permitted to mint and to change price or pause;
    /// equality against the caller is enforced by the runtime's
    /// account binding before a transition runs.
    pub authority: AccountId,
    /// Descriptor of the fungible unit this configuration governs.
    pub mint: AccountId,
    /// Administrator-set target price in micro-USD (1_000_000 = $1).
    pub target_price_usd: u64,
    /// Running total of units ever minted; never decreases.
    pub total_minted: u64,
    /// Running total of units ever burned; never decreases.
    pub total_burned: u64,
    /// Emergency gate: while set, mint, burn and purchase are refused.
    pub is_paused: bool,
}

/// Usage event returned by a successful purchase, for the runtime's
/// event sink.
#[derive(Clone, Copy, PartialEq, Eq, Debug)]
pub struct ServicePurchased {
    pub user: AccountId,
    pub service_type: ServiceType,
    pub amount: u64,
    pub timestamp: i64,
}

/// Read-only statistics snapshot.
#[derive(Clone, Copy, PartialEq, Eq, Debug)]
pub struct TokenStats {
    pub total_minted: u64,
    pub total_burned: u64,
    /// `total_minted - total_burned`, saturated at zero for display.
    pub circulating_supply: u64,
    pub target_price_usd: u64,
    pub is_paused: bool,
}

/// Outcome of a mint request: the call's result and the record's next
/// value. On any error the record is unchanged.
pub open spec fn mint_step(c: Config, amount: u64) -> (Result<(), ErrorCode>, Config) {
    if c.is_paused {
        (Err(ErrorCode::ProgramPaused), c)
    } else if amount == 0 {
        (Err(ErrorCode::InvalidAmount), c)
    } else if c.total_minted + amount > u64::MAX {
        (Err(ErrorCode::Overflow), c)
    } else {
        (Ok(()), Config { total_minted: (c.total_minted + amount) as u64, ..c })
    }
}

/// Outcome of a burn request, the mirror of [`mint_step`] on
/// `total_burned`.
pub open spec fn burn_step(c: Config, amount: u64) -> (Result<(), ErrorCode>, Config) {
    if c.is_paused {
        (Err(ErrorCode::ProgramPaused), c)
    } else if amount == 0 {
        (Err(ErrorCode::InvalidAmount), c)
    } else if c.total_burned + amount > u64::MAX {
        (Err(ErrorCode::Overflow), c)
    } else {
        (Ok(()), Config { total_burned: (c.total_burned + amount) as u64, ..c })
    }
}

/// Outcome of a service purchase: a burn that, when it succeeds, also
/// yields the usage event to emit.
pub open spec fn purchase_step(
    c: Config,
    user: AccountId,
    service_type: ServiceType,
    amount: u64,
    now: i64,
) -> (Result<ServicePurchased, ErrorCode>, Config) {
    if c.is_paused {
        (Err(ErrorCode::ProgramPaused), c)
    } else if amount == 0 {
        (Err(ErrorCode::InvalidAmount), c)
    } else if c.total_burned + amount > u64::MAX {
        (Err(ErrorCode::Overflow), c)
    } else {
        (
            Ok(ServicePurchased { user, service_type, amount, timestamp: now }),
            Config { total_burned: (c.total_burned + amount) as u64, ..c },
        )
    }
}

/// The circulating supply a stats query reports: the difference of the
/// two counters, saturated at zero.
pub open spec fn reported_circulating(total_minted: u64, total_burned: u64) -> u64 {
    if total_minted >= total_burned {
        (total_minted - total_burned) as u64
    } else {
        0
    }
}

/// Creates the controller's configuration: given price, zeroed
/// counters, unpaused. The runtime guards against a second
/// initialization of the same record.
pub fn initialize(authority: AccountId, mint: AccountId, target_price_usd: u64) -> (c: Config)
    ensures
        c == (Config {
            authority,
            mint,
            target_price_usd,
            total_minted: 0,
            total_burned: 0,
            is_paused: false,
        }),
{
    Config { authority, mint, target_price_usd, total_minted: 0, total_burned: 0, is_paused: false }
}

/// Admits a mint of `amount` fresh units: refused while paused, for a
/// zero amount, or when `total_minted` would overflow; otherwise adds
/// `amount` to `total_minted` and changes nothing else.
pub fn mint_tokens(config: &mut Config, amount: u64) -> (r: Result<(), ErrorCode>)
    ensures
        (r, *final(config)) == mint_step(*old(config), amount),
        r is Ok <==> (!old(config).is_paused && amount > 0 && old(config).total_minted + amount
            <= u64::MAX),
        r is Err ==> *final(config) == *old(config),
{
    if config.is_paused {
        return Err(ErrorCode::ProgramPaused);
    }
    if amount == 0 {
        return Err(ErrorCode::InvalidAmount);
    }
    if amount > u64::MAX - config.total_minted {
        return Err(ErrorCode::Overflow);
    }
    config.total_minted = config.total_minted + amount;
    Ok(())
}

/// Admits a burn of `amount` held units: refused while paused, for a
/// zero amount, or when `total_burned` would overflow; otherwise adds
/// `amount` to `total_burned` and changes nothing else. That the
/// caller actually holds the burned units is enforced by the external
/// value-transfer primitive, not by this counter.
pub fn burn_tokens(config: &mut Config, amount: u64) -> (r: Result<(), ErrorCode>)
    ensures
        (r, *final(config)) == burn_step(*old(config), amount),
        r is Ok <==> (!old(config).is_paused && amount > 0 && old(config).total_burned + amount
            <= u64::MAX),
        r is Err ==> *final(config) == *old(config),
{
    if config.is_paused {
        return Err(ErrorCode::ProgramPaused);
    }
    if amount == 0 {
        return Err(ErrorCode::InvalidAmount);
    }
    if amount > u64::MAX - config.total_burned {
        return Err(ErrorCode::Overflow);
    }
    config.total_burned = config.total_burned + amount;
    Ok(())
}

/// A burn that records a service purchase: on success it returns the
/// usage event `{user, service_type, amount, timestamp: now}` for the
/// runtime's event sink, with `now` the runtime clock's reading.
pub fn purchase_service(
    config: &mut Config,
    user: AccountId,
    service_type: ServiceType,
    amount: u64,
    now: i64,
) -> (r: Result<ServicePurchased, ErrorCode>)
    ensures
        (r, *final(config)) == purchase_step(*old(config), user, service_type, amount, now),
        r is Ok <==> (!old(config).is_paused && amount > 0 && old(config).total_burned + amount
            <= u64::MAX),
        r is Err ==> *final(config) == *old(config),
{
    if config.is_paused {
        return Err(ErrorCode::ProgramPaused);
    }
    if amount == 0 {
        return Err(ErrorCode::InvalidAmount);
    }
    if amount > u64::MAX - config.total_burned {
        return Err(ErrorCode::Overflow);
    }
    config.total_burned = config.total_burned + amount;
    Ok(ServicePurchased { user, service_type, amount, timestamp: now })
}

/// Overwrites the target price; administrator-only by the runtime's
/// account binding, unconditional here.
pub fn update_price(config: &mut Config, new_price_usd: u64)
    ensures
        *final(config) == (Config { target_price_usd: new_price_usd, ..*old(config) }),
{
    config.target_price_usd = new_price_usd;
}

/// Opens or closes the emergency pause gate; administrator-only by the
/// runtime's account binding, unconditional here.
pub fn set_pause(config: &mut Config, paused: bool)
    ensures
        *final(config) == (Config { is_paused: paused, ..*old(config) }),
{
    config.is_paused = paused;
}

/// Pure read of the counters. The reported circulating supply is the
/// difference of the two totals saturated at zero, so it is never a
/// wrapped-around value even if the record is inconsistent.
pub fn get_stats(config: &Config) -> (stats: TokenStats)
    ensures
        stats == (TokenStats {
            total_minted: config.total_minted,
            total_burned: config.total_burned,
            circulating_supply: reported_circulating(config.total_minted, config.total_burned),
            target_price_usd: config.target_price_usd,
            is_paused: config.is_paused,
        }),
        config.total_burned >= config.total_minted ==> stats.circulating_supply == 0,
{
    let circulating_supply: u64 = if config.total_minted >= config.total_burned {
        config.total_minted - config.total_burned
    } else {
        0
    };
    TokenStats {
        total_minted: config.total_minted,
        total_burned: config.total_burned,
        circulating_supply,
        target_price_usd: config.target_price_usd,
        is_paused: config.is_paused,
    }
}

/// Law: while the pause gate is closed, mint, burn and purchase all
/// fail with `ProgramPaused` and leave the record untouched.
pub proof fn lemma_pause_gates_transitions(
    c: Config,
    user: AccountId,
    service_type: ServiceType,
    amount: u64,
    now: i64,
)
    requires
        c.is_paused,
    ensures
        mint_step(c, amount) == (Err::<(), ErrorCode>(ErrorCode::ProgramPaused), c),
        burn_step(c, amount) == (Err::<(), ErrorCode>(ErrorCode::ProgramPaused), c),
        purchase_step(c, user, service_type, amount, now) == (
            Err::<ServicePurchased, ErrorCode>(ErrorCode::ProgramPaused),
            c,
        ),
{
}

/// Law: a purchase moves the record exactly as the burn of the same
/// amount does, and is admitted exactly when that burn is.
pub proof fn lemma_purchase_burns(
    c: Config,
    user: AccountId,
    service_type: ServiceType,
    amount: u64,
    now: i64,
)
    ensures
        purchase_step(c, user, service_type, amount, now).1 == burn_step(c, amount).1,
        purchase_step(c, user, service_type, amount, now).0 is Ok <==> burn_step(
            c,
            amount,
        ).0 is Ok,
{
}

/// The record after a sequence of mint requests, each applied to the
/// previous outcome.
pub open spec fn apply_mints(c: Config, amounts: Seq<u64>) -> Config
    decreases amounts.len(),
{
    if amounts.len() == 0 {
        c
    } else {
        mint_step(apply_mints(c, amounts.drop_last()), amounts.last()).1
    }
}

/// Every mint in the sequence is admitted when applied in order.
pub open spec fn mints_admitted(c: Config, amounts: Seq<u64>) -> bool
    decreases amounts.len(),
{
    amounts.len() == 0 || (mints_admitted(c, amounts.drop_last()) && mint_step(
        apply_mints(c, amounts.drop_last()),
        amounts.last(),
    ).0 is Ok)
}

/// Law: after any admitted sequence of mints, `total_minted` is the
/// starting total plus the sum of the minted amounts, and no other
/// field has moved.
pub proof fn lemma_mint_sequence_total(c: Config, amounts: Seq<u64>)
    requires
        mints_admitted(c, amounts),
    ensures
        apply_mints(c, amounts).total_minted == c.total_minted + sum_amounts(amounts),
        apply_mints(c, amounts) == (Config {
            total_minted: apply_mints(c, amounts).total_minted,
            ..c
        }),
    decreases amounts.len(),
{
    if amounts.len() > 0 {
        lemma_mint_sequence_total(c, amounts.drop_last());
    }
}

/// The record after a sequence of burn requests.
pub open spec fn apply_burns(c: Config, amounts: Seq<u64>) -> Config
    decreases amounts.len(),
{
    if amounts.len() == 0 {
        c
    } else {
        burn_step(apply_burns(c, amounts.drop_last()), amounts.last()).1
    }
}

/// Every burn in the sequence is admitted when applied in order.
pub open spec fn burns_admitted(c: Config, amounts: Seq<u64>) -> bool
    decreases amounts.len(),
{
    amounts.len() == 0 || (burns_admitted(c, amounts.drop_last()) && burn_step(
        apply_burns(c, amounts.drop_last()),
        amounts.last(),
    ).0 is Ok)
}

/// Law: after any admitted sequence of burns, `total_burned` is the
/// starting total plus the sum of the burned amounts, and no other
/// field has moved.
pub proof fn lemma_burn_sequence_total(c: Config, amounts: Seq<u64>)
    requires
        burns_admitted(c, amounts),
    ensures
        apply_burns(c, amounts).total_burned == c.total_burned + sum_amounts(amounts),
        apply_burns(c, amounts) == (Config {
            total_burned: apply_burns(c, amounts).total_burned,
            ..c
        }),
    decreases amounts.len(),
{
    if amounts.len() > 0 {
        lemma_burn_sequence_total(c, amounts.drop_last());
    }
}

/// Law: no burn request, admitted or refused, ever decreases
/// `total_burned`; along any sequence of requests the counter is
/// monotonically non-decreasing.
pub proof fn lemma_burn_never_decreases(c: Config, amount: u64)
    ensures
        burn_step(c, amount).1.total_burned >= c.total_burned,
{
}

/// Law: along an admitted burn sequence, every prefix's `total_burned`
/// is at most the final one.
pub proof fn lemma_burn_sequence_monotonic(c: Config, amounts: Seq<u64>, i: int)
    requires
        burns_admitted(c, amounts),
        0 <= i <= amounts.len(),
    ensures
        apply_burns(c, amounts.take(i)).total_burned <= apply_burns(c, amounts).total_burned,
    decreases amounts.len(),
{
    if i == amounts.len() {
        assert(amounts.take(i) =~= amounts);
    } else {
        assert(amounts.drop_last().take(i) =~= amounts.take(i));
        lemma_burn_sequence_monotonic(c, amounts.drop_last(), i);
    }
}

} // verus!
