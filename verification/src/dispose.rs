//! The recycling ledger: one disposal as a single all-or-nothing transaction.
//!
//! A disposal destroys the user's dead tokens, pays the reward out of the
//! program's reserve, counts the disposal at the station and writes the
//! receipt. Either all four happen, or none of them does.

use vstd::prelude::*;
use crate::error::ErrorCode;
use crate::pubkey::Pubkey;
use crate::record::{RecycleEvent, RecycleRecord};
use crate::reward::{calculate_nom_reward, calculate_xp_points, nom_reward, xp_points};
use crate::station::{record_disposal, StationAccount};
use crate::token::{burn, burn_spec, transfer, transfer_spec, TokenAccount};

verus! {

/// Smallest death index a disposal may carry.
pub const MIN_DEATH_INDEX: u8 = 1;

/// Largest death index a disposal may carry.
pub const MAX_DEATH_INDEX: u8 = 100;

/// Everything one disposal reads and writes.
#[derive(Clone, Debug, PartialEq, Eq)]
pub struct DisposeDeadCoin {
    /// Who disposes of the tokens.
    pub user: Pubkey,
    /// The station at which they are disposed of.
    pub station: StationAccount,
    /// The token type to destroy.
    pub dead_coin_mint: Pubkey,
    /// The user's balance of dead tokens.
    pub user_dead_coin_account: TokenAccount,
    /// The token type of the reward.
    pub nom_mint: Pubkey,
    /// The user's balance of reward tokens.
    pub user_nom_account: TokenAccount,
    /// The reserve out of which rewards are paid.
    pub program_nom_account: TokenAccount,
    /// The identity that controls the reserve. It belongs to the program and
    /// to no user.
    pub program_authority: Pubkey,
    /// The slot of the receipt: empty before the disposal, filled by it.
    pub recycle_record: Option<RecycleRecord>,
}

impl DisposeDeadCoin {
    /// The station exists, and each token account holds the token type and
    /// belongs to the owner that its role calls for.
    pub open spec fn bindings_match(self) -> bool {
        &&& self.station.data is Some
        &&& self.user_dead_coin_account.is_bound_to(self.dead_coin_mint, self.user)
        &&& self.user_nom_account.is_bound_to(self.nom_mint, self.user)
        &&& self.program_nom_account.is_bound_to(self.nom_mint, self.program_authority)
    }

    /// Tests `bindings_match`.
    pub fn check_bindings(&self) -> (ok: bool)
        ensures
            ok == self.bindings_match(),
    {
        self.station.data.is_some() && self.user_dead_coin_account.has_binding(
            &self.dead_coin_mint,
            &self.user,
        ) && self.user_nom_account.has_binding(&self.nom_mint, &self.user)
            && self.program_nom_account.has_binding(&self.nom_mint, &self.program_authority)
    }
}

/// The death index lies in 1..=100.
pub open spec fn valid_death_index(death_index: u8) -> bool {
    MIN_DEATH_INDEX <= death_index <= MAX_DEATH_INDEX
}

/// Why a disposal is refused before anything is moved, if it is. The checks
/// come in this order and the first failure wins: amount, death index,
/// station and bindings, receipt slot.
pub open spec fn validation_error(ctx: DisposeDeadCoin, amount: u64, death_index: u8) -> Option<
    ErrorCode,
> {
    if amount == 0 {
        Some(ErrorCode::InvalidAmount)
    } else if !valid_death_index(death_index) {
        Some(ErrorCode::InvalidSeverity)
    } else if !ctx.bindings_match() {
        Some(ErrorCode::AccountMismatch)
    } else if ctx.recycle_record is Some {
        Some(ErrorCode::AlreadyExists)
    } else {
        None
    }
}

/// Why a disposal fails, if it does: a refusal at validation, else a
/// rejected burn, else a rejected reward transfer, else a station count that
/// cannot rise.
pub open spec fn disposal_error(ctx: DisposeDeadCoin, amount: u64, death_index: u8) -> Option<
    ErrorCode,
> {
    if let Some(e) = validation_error(ctx, amount, death_index) {
        Some(e)
    } else if let Err(cause) = burn_spec(ctx.user_dead_coin_account, amount) {
        Some(ErrorCode::BurnFailed(cause))
    } else if let Err(cause) = transfer_spec(
        ctx.program_nom_account,
        ctx.user_nom_account,
        nom_reward(amount, death_index) as u64,
    ) {
        Some(ErrorCode::TransferFailed(cause))
    } else if ctx.station.data->0.recycled_count == u64::MAX {
        Some(ErrorCode::Overflow)
    } else {
        None
    }
}

/// The receipt of a disposal: the identities come from `ctx`, the amounts
/// from the arguments and the reward calculator.
pub open spec fn disposal_record(ctx: DisposeDeadCoin, amount: u64, death_index: u8, now: i64) -> RecycleRecord {
    RecycleRecord {
        user: ctx.user,
        station: ctx.station.key,
        dead_coin_mint: ctx.dead_coin_mint,
        amount,
        death_index,
        nom_tokens_reward: nom_reward(amount, death_index) as u64,
        xp_points: xp_points(amount, death_index) as u64,
        timestamp: now,
    }
}

/// The state that a successful disposal leaves behind.
pub open spec fn disposed(ctx: DisposeDeadCoin, amount: u64, death_index: u8, now: i64) -> DisposeDeadCoin {
    let reward = nom_reward(amount, death_index);
    DisposeDeadCoin {
        user: ctx.user,
        station: StationAccount {
            key: ctx.station.key,
            data: Some(ctx.station.data->0.counted()),
        },
        dead_coin_mint: ctx.dead_coin_mint,
        user_dead_coin_account: ctx.user_dead_coin_account.with_amount(
            ctx.user_dead_coin_account.amount - amount,
        ),
        nom_mint: ctx.nom_mint,
        user_nom_account: ctx.user_nom_account.with_amount(ctx.user_nom_account.amount + reward),
        program_nom_account: ctx.program_nom_account.with_amount(
            ctx.program_nom_account.amount - reward,
        ),
        program_authority: ctx.program_authority,
        recycle_record: Some(disposal_record(ctx, amount, death_index, now)),
    }
}

/// The state after a call of `dispose_dead_coin`: that of a successful
/// disposal if nothing fails, the state before the call if anything does.
pub open spec fn state_after(ctx: DisposeDeadCoin, amount: u64, death_index: u8, now: i64) -> DisposeDeadCoin {
    if disposal_error(ctx, amount, death_index) is Some {
        ctx
    } else {
        disposed(ctx, amount, death_index, now)
    }
}

/// What a call of `dispose_dead_coin` returns: the first failure, or the
/// event that mirrors the receipt.
pub open spec fn disposal_result(ctx: DisposeDeadCoin, amount: u64, death_index: u8, now: i64) -> Result<
    RecycleEvent,
    ErrorCode,
> {
    match disposal_error(ctx, amount, death_index) {
        Some(e) => Err(e),
        None => Ok(disposal_record(ctx, amount, death_index, now).event_spec()),
    }
}

/// Disposes of `amount` dead tokens of the user at the station of `ctx`, with
/// the given death index, at time `now`.
///
/// On success the user's dead tokens are burnt, the reward is moved from the
/// reserve to the user, the station's count is one higher, the receipt slot
/// holds the receipt, and the event to publish is returned. On failure the
/// error says which check or step failed first, and `ctx` is as it was: a
/// burn that went through is undone when a later step fails.
pub fn dispose_dead_coin(ctx: &mut DisposeDeadCoin, amount: u64, death_index: u8, now: i64) -> (res:
    Result<RecycleEvent, ErrorCode>)
    ensures
        res == disposal_result(*old(ctx), amount, death_index, now),
        *final(ctx) == state_after(*old(ctx), amount, death_index, now),
        res is Err ==> *final(ctx) == *old(ctx),
{
    if amount == 0 {
        return Err(ErrorCode::InvalidAmount);
    }
    if death_index < MIN_DEATH_INDEX || death_index > MAX_DEATH_INDEX {
        return Err(ErrorCode::InvalidSeverity);
    }
    if !ctx.check_bindings() {
        return Err(ErrorCode::AccountMismatch);
    }
    if ctx.recycle_record.is_some() {
        return Err(ErrorCode::AlreadyExists);
    }
    let nom_tokens_reward: u64 = calculate_nom_reward(amount, death_index);
    let xp_points: u64 = calculate_xp_points(amount, death_index);

    // The balances are worked on in copies and written back only once every
    // step has succeeded.
    let mut source = ctx.user_dead_coin_account;
    match burn(&mut source, amount) {
        Ok(()) => {},
        Err(cause) => {
            return Err(ErrorCode::BurnFailed(cause));
        },
    }
    let mut reserve = ctx.program_nom_account;
    let mut destination = ctx.user_nom_account;
    match transfer(&mut reserve, &mut destination, nom_tokens_reward) {
        Ok(()) => {},
        Err(cause) => {
            return Err(ErrorCode::TransferFailed(cause));
        },
    }
    match &mut ctx.station.data {
        Some(station) => {
            match record_disposal(station) {
                Ok(()) => {},
                Err(e) => {
                    return Err(e);
                },
            }
        },
        None => {
            return Err(ErrorCode::AccountMismatch);
        },
    }
    ctx.user_dead_coin_account = source;
    ctx.program_nom_account = reserve;
    ctx.user_nom_account = destination;
    let record = RecycleRecord {
        user: ctx.user,
        station: ctx.station.key,
        dead_coin_mint: ctx.dead_coin_mint,
        amount,
        death_index,
        nom_tokens_reward,
        xp_points,
        timestamp: now,
    };
    ctx.recycle_record = Some(record);
    Ok(record.event())
}

/// A disposal of nothing is refused as `InvalidAmount`, and changes nothing.
pub proof fn lemma_zero_amount_rejected(ctx: DisposeDeadCoin, death_index: u8, now: i64)
    ensures
        disposal_result(ctx, 0, death_index, now) == Err::<RecycleEvent, ErrorCode>(
            ErrorCode::InvalidAmount,
        ),
        state_after(ctx, 0, death_index, now) == ctx,
{
}

/// A disposal of a positive amount with a death index outside 1..=100 is
/// refused as `InvalidSeverity`, and changes nothing.
pub proof fn lemma_death_index_out_of_range_rejected(
    ctx: DisposeDeadCoin,
    amount: u64,
    death_index: u8,
    now: i64,
)
    requires
        amount > 0,
        death_index == 0 || death_index > 100,
    ensures
        disposal_result(ctx, amount, death_index, now) == Err::<RecycleEvent, ErrorCode>(
            ErrorCode::InvalidSeverity,
        ),
        state_after(ctx, amount, death_index, now) == ctx,
{
}

/// Whatever fails, nothing changes: no balance moves, the station's count
/// stays, and no receipt is written.
pub proof fn lemma_failure_changes_nothing(
    ctx: DisposeDeadCoin,
    amount: u64,
    death_index: u8,
    now: i64,
)
    requires
        disposal_result(ctx, amount, death_index, now) is Err,
    ensures
        state_after(ctx, amount, death_index, now) == ctx,
{
}

/// A successful disposal raises the station's count by exactly one, writes
/// one receipt whose fields are the inputs and the computed reward and
/// experience points, returns the event that mirrors it, lowers the user's
/// dead-token balance by the amount, raises the user's reward balance by the
/// reward and lowers the reserve by the same.
pub proof fn lemma_successful_disposal(
    ctx: DisposeDeadCoin,
    amount: u64,
    death_index: u8,
    now: i64,
)
    requires
        disposal_result(ctx, amount, death_index, now) is Ok,
    ensures
        ({
            let after = state_after(ctx, amount, death_index, now);
            let reward = nom_reward(amount, death_index);
            let record = RecycleRecord {
                user: ctx.user,
                station: ctx.station.key,
                dead_coin_mint: ctx.dead_coin_mint,
                amount,
                death_index,
                nom_tokens_reward: reward as u64,
                xp_points: (10 * reward) as u64,
                timestamp: now,
            };
            &&& amount > 0
            &&& 1 <= death_index <= 100
            &&& ctx.station.data is Some
            &&& ctx.recycle_record is None
            &&& after.station.key == ctx.station.key
            &&& after.station.data is Some
            &&& after.station.data->0.recycled_count == ctx.station.data->0.recycled_count + 1
            &&& after.station.data->0 == ctx.station.data->0.counted()
            &&& ctx.station.data->0.wf() ==> after.station.data->0.wf()
            &&& after.recycle_record == Some(record)
            &&& record.nom_tokens_reward == reward
            &&& record.xp_points == 10 * reward
            &&& disposal_result(ctx, amount, death_index, now) == Ok::<RecycleEvent, ErrorCode>(
                record.event_spec(),
            )
            &&& after.user_dead_coin_account.amount == ctx.user_dead_coin_account.amount - amount
            &&& after.user_nom_account.amount == ctx.user_nom_account.amount + reward
            &&& after.program_nom_account.amount == ctx.program_nom_account.amount - reward
            &&& after.bindings_match()
            &&& after.user == ctx.user
            &&& after.dead_coin_mint == ctx.dead_coin_mint
            &&& after.nom_mint == ctx.nom_mint
            &&& after.program_authority == ctx.program_authority
        }),
{
    crate::reward::lemma_reward_bounded(amount, death_index);
}

/// When the burn would go through and the reward transfer is rejected, the
/// disposal fails as `TransferFailed` with the cause, and the burn is undone:
/// the user's dead-token balance, the station's count and the receipt slot
/// are as before.
pub proof fn lemma_failed_transfer_undoes_burn(
    ctx: DisposeDeadCoin,
    amount: u64,
    death_index: u8,
    now: i64,
)
    requires
        validation_error(ctx, amount, death_index) is None,
        burn_spec(ctx.user_dead_coin_account, amount) is Ok,
        transfer_spec(
            ctx.program_nom_account,
            ctx.user_nom_account,
            nom_reward(amount, death_index) as u64,
        ) is Err,
    ensures
        disposal_result(ctx, amount, death_index, now) == Err::<RecycleEvent, ErrorCode>(
            ErrorCode::TransferFailed(
                transfer_spec(
                    ctx.program_nom_account,
                    ctx.user_nom_account,
                    nom_reward(amount, death_index) as u64,
                )->Err_0,
            ),
        ),
        state_after(ctx, amount, death_index, now) == ctx,
        state_after(ctx, amount, death_index, now).user_dead_coin_account.amount
            == ctx.user_dead_coin_account.amount,
        state_after(ctx, amount, death_index, now).recycle_record is None,
{
}

/// A receipt is written once: no call changes or removes a receipt that is
/// already in its slot.
pub proof fn lemma_receipt_is_write_once(
    ctx: DisposeDeadCoin,
    amount: u64,
    death_index: u8,
    now: i64,
)
    requires
        ctx.recycle_record is Some,
    ensures
        disposal_result(ctx, amount, death_index, now) is Err,
        state_after(ctx, amount, death_index, now).recycle_record == ctx.recycle_record,
{
}

/// The station's count never falls: a call leaves it as it was or raises it
/// by one.
pub proof fn lemma_count_never_falls(ctx: DisposeDeadCoin, amount: u64, death_index: u8, now: i64)
    requires
        ctx.station.data is Some,
    ensures
        ({
            let after = state_after(ctx, amount, death_index, now);
            let before = ctx.station.data->0.recycled_count;
            &&& after.station.data is Some
            &&& after.station.data->0.recycled_count == before
                || after.station.data->0.recycled_count == before + 1
        }),
{
}

/// Two disposals at the same station, one after the other, each of them
/// successful, leave the station's count two higher: no increment is lost.
/// The second disposal may come from another user, with other accounts; it
/// need only find the station as the first one left it.
pub proof fn lemma_two_disposals_count_twice(
    first: DisposeDeadCoin,
    first_amount: u64,
    first_death_index: u8,
    first_now: i64,
    second: DisposeDeadCoin,
    second_amount: u64,
    second_death_index: u8,
    second_now: i64,
)
    requires
        disposal_result(first, first_amount, first_death_index, first_now) is Ok,
        second.station == state_after(first, first_amount, first_death_index, first_now).station,
        disposal_result(second, second_amount, second_death_index, second_now) is Ok,
    ensures
        state_after(
            second,
            second_amount,
            second_death_index,
            second_now,
        ).station.data->0.recycled_count == first.station.data->0.recycled_count + 2,
{
}

} // verus!
