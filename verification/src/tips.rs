//! Tip escrow: submission, settlement, and refunds.
//!
//! A tip locks its payment in a dedicated escrow account until a terminal
//! decision: settlement into the treasuries, an authority refund, or a
//! permissionless timeout refund available to the tipper once the wait
//! period has elapsed.  Submission is rate-limited per wallet.

use vstd::prelude::*;

use crate::addr::{addr_eq, is_zero_addr, zero_addr, Address};
use crate::errors::WunderlandError;
use crate::state::{
    Enclave, EnclaveTreasury, GlobalTreasury, ProgramConfig, TipAnchor, TipEscrow, TipSourceType,
    TipStatus, TipperRateLimit, Wallet, MAX_TIPS_PER_HOUR, MAX_TIPS_PER_MINUTE, TIP_MIN_AMOUNT,
    spec_derive_priority,
};

verus! {

/// Seconds in the per-minute rate window.
pub const MINUTE_WINDOW_SECONDS: i64 = 60;

/// Seconds in the per-hour rate window.
pub const HOUR_WINDOW_SECONDS: i64 = 3600;

/// Seconds a tip must stay pending before its tipper may claim a timeout
/// refund.
pub const TIP_TIMEOUT_SECONDS: i64 = 1800;

/// The rate-limit record as it stands at `now`, before counting a new
/// submission: a never-used record is initialized fresh for `tipper`, and
/// each counter whose window has passed resets to zero with its reset time
/// pushed to one window past `now`.
pub open spec fn rate_windows_rolled(
    rl: TipperRateLimit,
    tipper: Address,
    now: i64,
) -> TipperRateLimit {
    let base = if rl.tipper@ == zero_addr() {
        TipperRateLimit {
            tipper,
            tips_this_minute: 0,
            tips_this_hour: 0,
            minute_reset_at: (now + MINUTE_WINDOW_SECONDS) as i64,
            hour_reset_at: (now + HOUR_WINDOW_SECONDS) as i64,
        }
    } else {
        rl
    };
    let minute_rolled = if now >= base.minute_reset_at {
        TipperRateLimit {
            tips_this_minute: 0,
            minute_reset_at: (now + MINUTE_WINDOW_SECONDS) as i64,
            ..base
        }
    } else {
        base
    };
    if now >= minute_rolled.hour_reset_at {
        TipperRateLimit {
            tips_this_hour: 0,
            hour_reset_at: (now + HOUR_WINDOW_SECONDS) as i64,
            ..minute_rolled
        }
    } else {
        minute_rolled
    }
}

/// Whether a submission at `now` hits a ceiling, and which one: the
/// (possibly reset) minute counter is checked first, then the hour counter.
pub open spec fn rate_limit_error(
    rl: TipperRateLimit,
    tipper: Address,
    now: i64,
) -> Option<WunderlandError> {
    let eff = rate_windows_rolled(rl, tipper, now);
    if eff.tips_this_minute >= MAX_TIPS_PER_MINUTE {
        Some(WunderlandError::RateLimitMinuteExceeded)
    } else if eff.tips_this_hour >= MAX_TIPS_PER_HOUR {
        Some(WunderlandError::RateLimitHourExceeded)
    } else {
        None
    }
}

/// The rate-limit record after an accepted submission at `now`: the rolled
/// record with both counters incremented.
pub open spec fn rate_limit_after(rl: TipperRateLimit, tipper: Address, now: i64) -> TipperRateLimit {
    let eff = rate_windows_rolled(rl, tipper, now);
    TipperRateLimit {
        tips_this_minute: (eff.tips_this_minute + 1) as u16,
        tips_this_hour: (eff.tips_this_hour + 1) as u16,
        ..eff
    }
}

/// Counts one tip submission by `tipper` at time `now` against its
/// rate-limit record: both window counters must be under their ceilings
/// after any due resets; a ceiling violation fails without mutating state.
pub fn note_tip_submission(rl: &mut TipperRateLimit, tipper: &Address, now: i64) -> (r: Result<
    (),
    WunderlandError,
>)
    requires
        now <= i64::MAX - HOUR_WINDOW_SECONDS,
        old(rl).tipper@ == zero_addr() || old(rl).tipper@ == tipper@,
    ensures
        match r {
            Ok(()) => rate_limit_error(*old(rl), *tipper, now) is None && *final(rl)
                == rate_limit_after(*old(rl), *tipper, now),
            Err(e) => Some(e) == rate_limit_error(*old(rl), *tipper, now) && *final(rl) == *old(
                rl,
            ),
        },
{
    let mut eff = *rl;
    if is_zero_addr(&eff.tipper) {
        eff = TipperRateLimit {
            tipper: *tipper,
            tips_this_minute: 0,
            tips_this_hour: 0,
            minute_reset_at: now + MINUTE_WINDOW_SECONDS,
            hour_reset_at: now + HOUR_WINDOW_SECONDS,
        };
    }
    if now >= eff.minute_reset_at {
        eff.tips_this_minute = 0;
        eff.minute_reset_at = now + MINUTE_WINDOW_SECONDS;
    }
    if now >= eff.hour_reset_at {
        eff.tips_this_hour = 0;
        eff.hour_reset_at = now + HOUR_WINDOW_SECONDS;
    }
    if eff.tips_this_minute >= MAX_TIPS_PER_MINUTE {
        return Err(WunderlandError::RateLimitMinuteExceeded);
    }
    if eff.tips_this_hour >= MAX_TIPS_PER_HOUR {
        return Err(WunderlandError::RateLimitHourExceeded);
    }
    eff.tips_this_minute = eff.tips_this_minute + 1;
    eff.tips_this_hour = eff.tips_this_hour + 1;
    *rl = eff;
    Ok(())
}

/// The exact outcome of a tip submission's checks: the amount floor, then
/// the rate limiter, then the target enclave's liveness (`None` target
/// means a global tip).
pub open spec fn submit_tip_error(
    rl: TipperRateLimit,
    tipper: Wallet,
    target: Option<Enclave>,
    amount: u64,
    now: i64,
) -> Option<WunderlandError> {
    if amount < TIP_MIN_AMOUNT {
        Some(WunderlandError::TipBelowMinimum)
    } else if rate_limit_error(rl, tipper.address, now) is Some {
        rate_limit_error(rl, tipper.address, now)
    } else {
        match target {
            Option::None => Option::<WunderlandError>::None,
            Option::Some(e) => if !e.is_active {
                Some(WunderlandError::EnclaveInactive)
            } else {
                None
            },
        }
    }
}

/// Submits a tip: checks the amount floor and the rate limiter, validates
/// the target enclave when one is given, then locks the payment in a fresh
/// escrow account.  The tipper pays the tip amount plus the new escrow
/// account's minimum reserve.  On failure nothing is mutated.
pub fn submit_tip(
    rate_limit: &mut TipperRateLimit,
    tipper: &mut Wallet,
    target_enclave: Option<&Enclave>,
    content_hash: [u8; 32],
    amount: u64,
    source_type: u8,
    tip_nonce: u64,
    now: i64,
    tip_address: Address,
    escrow_min_reserve: u64,
) -> (r: Result<(TipAnchor, TipEscrow), WunderlandError>)
    requires
        now <= i64::MAX - HOUR_WINDOW_SECONDS,
        old(rate_limit).tipper@ == zero_addr() || old(rate_limit).tipper@ == old(tipper).address@,
        old(tipper).lamports >= escrow_min_reserve + amount,
    ensures
        match r {
            Ok((tip, escrow)) => {
                let target_view = match target_enclave {
                    Option::None => Option::<Enclave>::None,
                    Option::Some(e) => Some(*e),
                };
                &&& submit_tip_error(*old(rate_limit), *old(tipper), target_view, amount, now)
                    is None
                &&& *final(rate_limit) == rate_limit_after(
                    *old(rate_limit),
                    old(tipper).address,
                    now,
                )
                &&& final(tipper).address == old(tipper).address
                &&& final(tipper).lamports == old(tipper).lamports - escrow_min_reserve - amount
                &&& tip.address == tip_address
                &&& tip.tipper == old(tipper).address
                &&& tip.content_hash == content_hash
                &&& tip.amount == amount
                &&& tip.priority == spec_derive_priority(amount)
                &&& tip.source_type == (if source_type == 1 {
                    TipSourceType::Url
                } else {
                    TipSourceType::Text
                })
                &&& (match target_enclave {
                    Option::None => tip.target_enclave@ == zero_addr(),
                    Option::Some(e) => tip.target_enclave == e.address,
                })
                &&& tip.tip_nonce == tip_nonce
                &&& tip.created_at == now
                &&& tip.status == TipStatus::Pending
                &&& escrow.tip == tip_address
                &&& escrow.amount == amount
                &&& escrow.lamports == escrow_min_reserve + amount
                &&& escrow.covered(escrow_min_reserve)
            },
            Err(e) => {
                let target_view = match target_enclave {
                    Option::None => Option::<Enclave>::None,
                    Option::Some(en) => Some(*en),
                };
                &&& Some(e) == submit_tip_error(
                    *old(rate_limit),
                    *old(tipper),
                    target_view,
                    amount,
                    now,
                )
                &&& *final(rate_limit) == *old(rate_limit)
                &&& *final(tipper) == *old(tipper)
            },
        },
{
    if amount < TIP_MIN_AMOUNT {
        return Err(WunderlandError::TipBelowMinimum);
    }
    let tipper_address = tipper.address;
    let mut rl_tmp = *rate_limit;
    match note_tip_submission(&mut rl_tmp, &tipper_address, now) {
        Ok(()) => (),
        Err(e) => {
            return Err(e);
        },
    }
    match target_enclave {
        Option::None => (),
        Option::Some(enclave) => {
            if !enclave.is_active {
                return Err(WunderlandError::EnclaveInactive);
            }
        },
    }
    let priority = TipAnchor::derive_priority(amount);
    let target_address: Address = match target_enclave {
        Option::None => crate::addr::zero_address(),
        Option::Some(enclave) => enclave.address,
    };
    let tip = TipAnchor {
        address: tip_address,
        tipper: tipper_address,
        content_hash,
        amount,
        priority,
        source_type: if source_type == 1 {
            TipSourceType::Url
        } else {
            TipSourceType::Text
        },
        target_enclave: target_address,
        tip_nonce,
        created_at: now,
        status: TipStatus::Pending,
    };
    let escrow = TipEscrow { tip: tip_address, amount, lamports: escrow_min_reserve + amount };
    *rate_limit = rl_tmp;
    tipper.lamports = tipper.lamports - escrow_min_reserve - amount;
    Ok((tip, escrow))
}

/// The truncating 70% treasury share of a settled amount.
pub open spec fn tip_treasury_share(amount: u64) -> int {
    amount * 70 / 100
}

/// Computes the treasury's 70% share of a settled amount, rounding down.
pub fn treasury_share(amount: u64) -> (r: u64)
    ensures
        r == tip_treasury_share(amount),
        r <= amount,
{
    (amount / 100) * 70 + (amount % 100) * 70 / 100
}

/// The two shares of an enclave-targeted settlement always recompose the
/// settled amount exactly: the enclave party receives precisely what the
/// truncating 70% treasury share leaves over.
pub proof fn lemma_tip_split_exact(amount: u64)
    ensures
        0 <= tip_treasury_share(amount) <= amount,
        tip_treasury_share(amount) + (amount - tip_treasury_share(amount)) == amount,
{
    assert(amount * 70 / 100 <= amount) by (nonlinear_arith);
    assert(amount * 70 / 100 >= 0) by (nonlinear_arith);
}

/// The exact outcome of settling a global tip's checks.
pub open spec fn settle_tip_global_error(
    config: ProgramConfig,
    authority: Address,
    tip: TipAnchor,
    treasury: GlobalTreasury,
) -> Option<WunderlandError> {
    if authority@ != config.authority@ {
        Some(WunderlandError::UnauthorizedAuthority)
    } else if tip.status != TipStatus::Pending {
        Some(WunderlandError::TipNotPending)
    } else if tip.target_enclave@ != zero_addr() {
        Some(WunderlandError::InvalidTargetEnclave)
    } else if treasury.lamports + tip.amount > u64::MAX {
        Some(WunderlandError::ArithmeticOverflow)
    } else if treasury.total_collected + tip.amount > u64::MAX {
        Some(WunderlandError::ArithmeticOverflow)
    } else {
        None
    }
}

/// Settles a global tip: the full escrowed amount moves to the global
/// treasury.  Authority-only.  On failure nothing is mutated.
pub fn settle_tip_global(
    config: &ProgramConfig,
    authority: &Address,
    tip: &mut TipAnchor,
    escrow: &mut TipEscrow,
    treasury: &mut GlobalTreasury,
    min_reserve: u64,
) -> (r: Result<(), WunderlandError>)
    requires
        old(escrow).tip@ == old(tip).address@,
        old(escrow).amount == old(tip).amount,
        old(escrow).covered(min_reserve),
    ensures
        match r {
            Ok(()) => {
                &&& settle_tip_global_error(*config, *authority, *old(tip), *old(treasury))
                    is None
                &&& *final(tip) == (TipAnchor { status: TipStatus::Settled, ..*old(tip) })
                &&& *final(escrow) == (TipEscrow {
                    amount: 0,
                    lamports: (old(escrow).lamports - old(escrow).amount) as u64,
                    ..*old(escrow)
                })
                &&& final(escrow).lamports >= min_reserve
                &&& *final(treasury) == (GlobalTreasury {
                    total_collected: (old(treasury).total_collected + old(escrow).amount) as u64,
                    lamports: (old(treasury).lamports + old(escrow).amount) as u64,
                    ..*old(treasury)
                })
                &&& final(treasury).lamports - old(treasury).lamports == old(escrow).amount
            },
            Err(e) => {
                &&& Some(e) == settle_tip_global_error(*config, *authority, *old(tip), *old(
                    treasury,
                ))
                &&& *final(tip) == *old(tip)
                &&& *final(escrow) == *old(escrow)
                &&& *final(treasury) == *old(treasury)
            },
        },
{
    if !addr_eq(authority, &config.authority) {
        return Err(WunderlandError::UnauthorizedAuthority);
    }
    if !(tip.status == TipStatus::Pending) {
        return Err(WunderlandError::TipNotPending);
    }
    if !is_zero_addr(&tip.target_enclave) {
        return Err(WunderlandError::InvalidTargetEnclave);
    }
    let amount = escrow.amount;
    let new_treasury_lamports = match treasury.lamports.checked_add(amount) {
        Some(v) => v,
        None => {
            return Err(WunderlandError::ArithmeticOverflow);
        },
    };
    let new_collected = match treasury.total_collected.checked_add(amount) {
        Some(v) => v,
        None => {
            return Err(WunderlandError::ArithmeticOverflow);
        },
    };
    escrow.lamports = escrow.lamports - amount;
    treasury.lamports = new_treasury_lamports;
    treasury.total_collected = new_collected;
    tip.status = TipStatus::Settled;
    escrow.amount = 0;
    Ok(())
}

/// The exact outcome of settling an enclave-targeted tip's checks.
pub open spec fn settle_tip_enclave_error(
    config: ProgramConfig,
    authority: Address,
    tip: TipAnchor,
    treasury: GlobalTreasury,
    enclave: Enclave,
    enclave_treasury: EnclaveTreasury,
) -> Option<WunderlandError> {
    let share = tip_treasury_share(tip.amount);
    if authority@ != config.authority@ {
        Some(WunderlandError::UnauthorizedAuthority)
    } else if tip.status != TipStatus::Pending {
        Some(WunderlandError::TipNotPending)
    } else if tip.target_enclave@ == zero_addr() || enclave.address@ != tip.target_enclave@ {
        Some(WunderlandError::InvalidTargetEnclave)
    } else if !enclave.is_active {
        Some(WunderlandError::EnclaveInactive)
    } else if enclave_treasury.enclave@ != enclave.address@ {
        Some(WunderlandError::InvalidEnclaveTreasury)
    } else if treasury.lamports + share > u64::MAX {
        Some(WunderlandError::ArithmeticOverflow)
    } else if treasury.total_collected + share > u64::MAX {
        Some(WunderlandError::ArithmeticOverflow)
    } else if enclave_treasury.lamports + (tip.amount - share) > u64::MAX {
        Some(WunderlandError::ArithmeticOverflow)
    } else {
        None
    }
}

/// Settles an enclave-targeted tip: the escrowed amount splits 70/30
/// between the global treasury and the enclave's treasury, the enclave
/// share being exactly the remainder so the two always sum to the amount.
/// Authority-only.  On failure nothing is mutated.
pub fn settle_tip_enclave(
    config: &ProgramConfig,
    authority: &Address,
    tip: &mut TipAnchor,
    escrow: &mut TipEscrow,
    treasury: &mut GlobalTreasury,
    enclave: &Enclave,
    enclave_treasury: &mut EnclaveTreasury,
    min_reserve: u64,
) -> (r: Result<(), WunderlandError>)
    requires
        old(escrow).tip@ == old(tip).address@,
        old(escrow).amount == old(tip).amount,
        old(escrow).covered(min_reserve),
    ensures
        match r {
            Ok(()) => {
                let share = tip_treasury_share(old(tip).amount);
                &&& settle_tip_enclave_error(
                    *config,
                    *authority,
                    *old(tip),
                    *old(treasury),
                    *enclave,
                    *old(enclave_treasury),
                ) is None
                &&& *final(tip) == (TipAnchor { status: TipStatus::Settled, ..*old(tip) })
                &&& *final(escrow) == (TipEscrow {
                    amount: 0,
                    lamports: (old(escrow).lamports - old(escrow).amount) as u64,
                    ..*old(escrow)
                })
                &&& final(escrow).lamports >= min_reserve
                &&& *final(treasury) == (GlobalTreasury {
                    total_collected: (old(treasury).total_collected + share) as u64,
                    lamports: (old(treasury).lamports + share) as u64,
                    ..*old(treasury)
                })
                &&& *final(enclave_treasury) == (EnclaveTreasury {
                    lamports: (old(enclave_treasury).lamports + (old(tip).amount - share)) as u64,
                    ..*old(enclave_treasury)
                })
                &&& (final(treasury).lamports - old(treasury).lamports) + (final(enclave_treasury).lamports
                    - old(enclave_treasury).lamports) == old(escrow).amount
            },
            Err(e) => {
                &&& Some(e) == settle_tip_enclave_error(
                    *config,
                    *authority,
                    *old(tip),
                    *old(treasury),
                    *enclave,
                    *old(enclave_treasury),
                )
                &&& *final(tip) == *old(tip)
                &&& *final(escrow) == *old(escrow)
                &&& *final(treasury) == *old(treasury)
                &&& *final(enclave_treasury) == *old(enclave_treasury)
            },
        },
{
    if !addr_eq(authority, &config.authority) {
        return Err(WunderlandError::UnauthorizedAuthority);
    }
    if !(tip.status == TipStatus::Pending) {
        return Err(WunderlandError::TipNotPending);
    }
    if is_zero_addr(&tip.target_enclave) || !addr_eq(&enclave.address, &tip.target_enclave) {
        return Err(WunderlandError::InvalidTargetEnclave);
    }
    if !enclave.is_active {
        return Err(WunderlandError::EnclaveInactive);
    }
    if !addr_eq(&enclave_treasury.enclave, &enclave.address) {
        return Err(WunderlandError::InvalidEnclaveTreasury);
    }
    let amount = escrow.amount;
    let share = treasury_share(amount);
    let enclave_share = amount - share;
    let new_treasury_lamports = match treasury.lamports.checked_add(share) {
        Some(v) => v,
        None => {
            return Err(WunderlandError::ArithmeticOverflow);
        },
    };
    let new_collected = match treasury.total_collected.checked_add(share) {
        Some(v) => v,
        None => {
            return Err(WunderlandError::ArithmeticOverflow);
        },
    };
    let new_enclave_lamports = match enclave_treasury.lamports.checked_add(enclave_share) {
        Some(v) => v,
        None => {
            return Err(WunderlandError::ArithmeticOverflow);
        },
    };
    escrow.lamports = escrow.lamports - amount;
    treasury.lamports = new_treasury_lamports;
    treasury.total_collected = new_collected;
    enclave_treasury.lamports = new_enclave_lamports;
    tip.status = TipStatus::Settled;
    escrow.amount = 0;
    Ok(())
}

/// The exact outcome of an authority refund's checks.
pub open spec fn refund_tip_error(
    config: ProgramConfig,
    authority: Address,
    tip: TipAnchor,
    tipper: Wallet,
) -> Option<WunderlandError> {
    if authority@ != config.authority@ {
        Some(WunderlandError::UnauthorizedAuthority)
    } else if tip.status != TipStatus::Pending {
        Some(WunderlandError::TipNotPending)
    } else if tipper.lamports + tip.amount > u64::MAX {
        Some(WunderlandError::ArithmeticOverflow)
    } else {
        None
    }
}

/// Refunds a pending tip in full to its tipper.  Authority-only.  On
/// failure nothing is mutated.
pub fn refund_tip(
    config: &ProgramConfig,
    authority: &Address,
    tip: &mut TipAnchor,
    escrow: &mut TipEscrow,
    tipper: &mut Wallet,
    min_reserve: u64,
) -> (r: Result<(), WunderlandError>)
    requires
        old(escrow).tip@ == old(tip).address@,
        old(escrow).amount == old(tip).amount,
        old(escrow).covered(min_reserve),
        old(tipper).address@ == old(tip).tipper@,
    ensures
        match r {
            Ok(()) => {
                &&& refund_tip_error(*config, *authority, *old(tip), *old(tipper)) is None
                &&& *final(tip) == (TipAnchor { status: TipStatus::Refunded, ..*old(tip) })
                &&& *final(escrow) == (TipEscrow {
                    amount: 0,
                    lamports: (old(escrow).lamports - old(escrow).amount) as u64,
                    ..*old(escrow)
                })
                &&& final(escrow).lamports >= min_reserve
                &&& *final(tipper) == (Wallet {
                    lamports: (old(tipper).lamports + old(escrow).amount) as u64,
                    ..*old(tipper)
                })
            },
            Err(e) => {
                &&& Some(e) == refund_tip_error(*config, *authority, *old(tip), *old(tipper))
                &&& *final(tip) == *old(tip)
                &&& *final(escrow) == *old(escrow)
                &&& *final(tipper) == *old(tipper)
            },
        },
{
    if !addr_eq(authority, &config.authority) {
        return Err(WunderlandError::UnauthorizedAuthority);
    }
    if !(tip.status == TipStatus::Pending) {
        return Err(WunderlandError::TipNotPending);
    }
    let amount = escrow.amount;
    let new_tipper_lamports = match tipper.lamports.checked_add(amount) {
        Some(v) => v,
        None => {
            return Err(WunderlandError::ArithmeticOverflow);
        },
    };
    escrow.lamports = escrow.lamports - amount;
    tipper.lamports = new_tipper_lamports;
    tip.status = TipStatus::Refunded;
    escrow.amount = 0;
    Ok(())
}

/// The exact outcome of a timeout refund's checks: only the original
/// tipper may claim, only a pending tip, and only once the wait period
/// has fully elapsed.
pub open spec fn claim_timeout_refund_error(
    tip: TipAnchor,
    tipper: Wallet,
    now: i64,
) -> Option<WunderlandError> {
    if tipper.address@ != tip.tipper@ {
        Some(WunderlandError::UnauthorizedOwner)
    } else if tip.status != TipStatus::Pending {
        Some(WunderlandError::TipNotPending)
    } else if now - tip.created_at > i64::MAX || now - tip.created_at < i64::MIN {
        Some(WunderlandError::ArithmeticOverflow)
    } else if now - tip.created_at < TIP_TIMEOUT_SECONDS {
        Some(WunderlandError::TipNotTimedOut)
    } else if tipper.lamports + tip.amount > u64::MAX {
        Some(WunderlandError::ArithmeticOverflow)
    } else {
        None
    }
}

/// Claims a timeout refund: the original tipper (and nobody else) may
/// reclaim a pending tip's full escrow once the wait period has elapsed,
/// with no authority involved.  On failure nothing is mutated.
pub fn claim_timeout_refund(
    tip: &mut TipAnchor,
    escrow: &mut TipEscrow,
    tipper: &mut Wallet,
    now: i64,
    min_reserve: u64,
) -> (r: Result<(), WunderlandError>)
    requires
        old(escrow).tip@ == old(tip).address@,
        old(escrow).amount == old(tip).amount,
        old(escrow).covered(min_reserve),
    ensures
        match r {
            Ok(()) => {
                &&& claim_timeout_refund_error(*old(tip), *old(tipper), now) is None
                &&& *final(tip) == (TipAnchor { status: TipStatus::Refunded, ..*old(tip) })
                &&& *final(escrow) == (TipEscrow {
                    amount: 0,
                    lamports: (old(escrow).lamports - old(escrow).amount) as u64,
                    ..*old(escrow)
                })
                &&& final(escrow).lamports >= min_reserve
                &&& *final(tipper) == (Wallet {
                    lamports: (old(tipper).lamports + old(escrow).amount) as u64,
                    ..*old(tipper)
                })
            },
            Err(e) => {
                &&& Some(e) == claim_timeout_refund_error(*old(tip), *old(tipper), now)
                &&& *final(tip) == *old(tip)
                &&& *final(escrow) == *old(escrow)
                &&& *final(tipper) == *old(tipper)
            },
        },
{
    if !addr_eq(&tipper.address, &tip.tipper) {
        return Err(WunderlandError::UnauthorizedOwner);
    }
    if !(tip.status == TipStatus::Pending) {
        return Err(WunderlandError::TipNotPending);
    }
    let elapsed = match now.checked_sub(tip.created_at) {
        Some(v) => v,
        None => {
            return Err(WunderlandError::ArithmeticOverflow);
        },
    };
    if elapsed < TIP_TIMEOUT_SECONDS {
        return Err(WunderlandError::TipNotTimedOut);
    }
    let amount = escrow.amount;
    let new_tipper_lamports = match tipper.lamports.checked_add(amount) {
        Some(v) => v,
        None => {
            return Err(WunderlandError::ArithmeticOverflow);
        },
    };
    escrow.lamports = escrow.lamports - amount;
    tipper.lamports = new_tipper_lamports;
    tip.status = TipStatus::Refunded;
    escrow.amount = 0;
    Ok(())
}

/// In one fresh minute window the limiter admits exactly three
/// submissions: the first three are counted, the fourth — still inside
/// the window — is refused with the minute-ceiling error, and a
/// submission at or after the window's reset time is admitted again at
/// once.
pub proof fn lemma_rate_limit_minute_window(
    rl0: TipperRateLimit,
    tipper: Address,
    t1: i64,
    t2: i64,
    t3: i64,
    t4: i64,
    t5: i64,
)
    requires
        rl0.tipper@ == zero_addr(),
        tipper@ != zero_addr(),
        t1 <= t2 <= t3 <= t4,
        t4 < t1 + MINUTE_WINDOW_SECONDS,
        t1 + MINUTE_WINDOW_SECONDS <= t5,
        t5 <= i64::MAX - HOUR_WINDOW_SECONDS,
    ensures
        rate_limit_error(rl0, tipper, t1) is None,
        rate_limit_error(rate_limit_after(rl0, tipper, t1), tipper, t2) is None,
        rate_limit_error(
            rate_limit_after(rate_limit_after(rl0, tipper, t1), tipper, t2),
            tipper,
            t3,
        ) is None,
        rate_limit_error(
            rate_limit_after(
                rate_limit_after(rate_limit_after(rl0, tipper, t1), tipper, t2),
                tipper,
                t3,
            ),
            tipper,
            t4,
        ) == Some(WunderlandError::RateLimitMinuteExceeded),
        rate_limit_error(
            rate_limit_after(
                rate_limit_after(rate_limit_after(rl0, tipper, t1), tipper, t2),
                tipper,
                t3,
            ),
            tipper,
            t5,
        ) is None,
{
}

} // verus!
