//! A reputation ledger for autonomous agents.
//!
//! Agents stake value behind other agents as vouches. A score is computed for
//! each agent from the stake and vouches it received, the disputes it lost
//! and its age. A vouch can be challenged in a dispute, on which one
//! authority rules. Vouched agents sell skills, and each sale is split
//! between the author and the author's backers.
//!
//! Every operation is a transition on the records it is handed: it either
//! applies all its changes or refuses with an error and changes nothing. The
//! operations under [`instructions`] take the time as an argument. The
//! functions of this module decide first whether the operation refuses, and
//! only then read the time from the runtime's clock and run the operation.

pub mod accounting;
pub mod arith;
pub mod clock;
pub mod funds;
pub mod identity;
pub mod instructions;
pub mod ledger;
pub mod lifecycle;
pub mod state;
pub mod text;

use clock::{unix_timestamp, Failure};
use instructions::{
    CreateSkillListing, CreateVouch, InitializeConfig, OpenDispute, PurchaseSkill,
    PurchaseSkillWithDistribution, RegisterAgent, ResolveDispute, RevokeVouch,
};
use state::DisputeRuling;
use vstd::prelude::*;

verus! {

/// Sets the global parameters, once.
pub fn initialize_config(
    ctx: &mut InitializeConfig,
    min_stake: u64,
    dispute_bond: u64,
    slash_percentage: u8,
    cooldown_period: i64,
) -> (result: Result<(), instructions::initialize_config::ErrorCode>)
    ensures
        match old(ctx).refusal(slash_percentage) {
            Some(error) => result == Err::<(), instructions::initialize_config::ErrorCode>(error)
                && *final(ctx) == *old(ctx),
            None => result is Ok && *final(ctx) == old(ctx).applied(
                min_stake,
                dispute_bond,
                slash_percentage,
                cooldown_period,
            ),
        },
{
    instructions::initialize_config::handler(
        ctx,
        min_stake,
        dispute_bond,
        slash_percentage,
        cooldown_period,
    )
}

/// Registers the caller as an agent, now. A call that the operation refuses is
/// refused whether or not the time can be read. Where the call is refused or
/// the time cannot be read, nothing changes.
pub fn register_agent(ctx: &mut RegisterAgent, metadata_uri: String) -> (result: Result<
    (),
    Failure<instructions::register_agent::ErrorCode>,
>)
    ensures
        match old(ctx).refusal(metadata_uri@) {
            Some(error) => {
                &&& result == Err::<(), Failure<instructions::register_agent::ErrorCode>>(
                    Failure::Refused(error),
                )
                &&& *final(ctx) == *old(ctx)
            },
            None => match result {
                Ok(_) => exists|now: i64| *final(ctx) == #[trigger] old(ctx).applied(metadata_uri, now),
                Err(Failure::ClockUnavailable(_)) => *final(ctx) == *old(ctx),
                Err(Failure::Refused(_)) => false,
            },
        },
{
    if let Some(error) = ctx.check(&metadata_uri) {
        return Err(Failure::Refused(error));
    }
    let now = match unix_timestamp() {
        Ok(now) => now,
        Err(error) => { return Err(Failure::ClockUnavailable(error)); },
    };
    match instructions::register_agent::handler(ctx, metadata_uri, now) {
        Ok(()) => Ok(()),
        Err(error) => Err(Failure::Refused(error)),
    }
}

/// Creates a vouch of `stake_amount` by the voucher for the vouchee, now. A call that the operation refuses is
/// refused whether or not the time can be read. Where the call is refused or
/// the time cannot be read, nothing changes.
pub fn vouch(ctx: &mut CreateVouch, stake_amount: u64) -> (result: Result<
    (),
    Failure<instructions::vouch::ErrorCode>,
>)
    ensures
        match old(ctx).refusal(stake_amount) {
            Some(error) => {
                &&& result == Err::<(), Failure<instructions::vouch::ErrorCode>>(
                    Failure::Refused(error),
                )
                &&& *final(ctx) == *old(ctx)
            },
            None => match result {
                Ok(_) => exists|now: i64| *final(ctx) == #[trigger] old(ctx).applied(stake_amount, now),
                Err(Failure::ClockUnavailable(_)) => *final(ctx) == *old(ctx),
                Err(Failure::Refused(_)) => false,
            },
        },
        old(ctx).voucher_profile.authority == old(ctx).vouchee_profile.authority ==> {
            &&& result == Err::<(), Failure<instructions::vouch::ErrorCode>>(
                Failure::Refused(instructions::vouch::ErrorCode::CannotVouchForSelf),
            )
            &&& *final(ctx) == *old(ctx)
        },
        old(ctx).voucher_profile.authority != old(ctx).vouchee_profile.authority && stake_amount
            < old(ctx).config.min_stake ==> {
            &&& result == Err::<(), Failure<instructions::vouch::ErrorCode>>(
                Failure::Refused(instructions::vouch::ErrorCode::StakeBelowMinimum),
            )
            &&& *final(ctx) == *old(ctx)
        },
{
    if let Some(error) = ctx.check(stake_amount) {
        return Err(Failure::Refused(error));
    }
    let now = match unix_timestamp() {
        Ok(now) => now,
        Err(error) => { return Err(Failure::ClockUnavailable(error)); },
    };
    match instructions::vouch::handler(ctx, stake_amount, now) {
        Ok(()) => Ok(()),
        Err(error) => Err(Failure::Refused(error)),
    }
}

/// Revokes a vouch and returns its stake to the voucher, now. A call that the operation refuses is
/// refused whether or not the time can be read. Where the call is refused or
/// the time cannot be read, nothing changes.
pub fn revoke_vouch(ctx: &mut RevokeVouch) -> (result: Result<
    (),
    Failure<instructions::revoke_vouch::ErrorCode>,
>)
    ensures
        match old(ctx).refusal() {
            Some(error) => {
                &&& result == Err::<(), Failure<instructions::revoke_vouch::ErrorCode>>(
                    Failure::Refused(error),
                )
                &&& *final(ctx) == *old(ctx)
            },
            None => match result {
                Ok(_) => exists|now: i64| *final(ctx) == #[trigger] old(ctx).applied(now),
                Err(Failure::ClockUnavailable(_)) => *final(ctx) == *old(ctx),
                Err(Failure::Refused(_)) => false,
            },
        },
{
    if let Some(error) = ctx.check() {
        return Err(Failure::Refused(error));
    }
    let now = match unix_timestamp() {
        Ok(now) => now,
        Err(error) => { return Err(Failure::ClockUnavailable(error)); },
    };
    match instructions::revoke_vouch::handler(ctx, now) {
        Ok(()) => Ok(()),
        Err(error) => Err(Failure::Refused(error)),
    }
}

/// Opens a dispute against a vouch, now. A call that the operation refuses is
/// refused whether or not the time can be read. Where the call is refused or
/// the time cannot be read, nothing changes.
pub fn open_dispute(ctx: &mut OpenDispute, evidence_uri: String) -> (result: Result<
    (),
    Failure<instructions::open_dispute::ErrorCode>,
>)
    ensures
        match old(ctx).refusal(evidence_uri@) {
            Some(error) => {
                &&& result == Err::<(), Failure<instructions::open_dispute::ErrorCode>>(
                    Failure::Refused(error),
                )
                &&& *final(ctx) == *old(ctx)
            },
            None => match result {
                Ok(_) => exists|now: i64| *final(ctx) == #[trigger] old(ctx).applied(evidence_uri, now),
                Err(Failure::ClockUnavailable(_)) => *final(ctx) == *old(ctx),
                Err(Failure::Refused(_)) => false,
            },
        },
{
    if let Some(error) = ctx.check(&evidence_uri) {
        return Err(Failure::Refused(error));
    }
    let now = match unix_timestamp() {
        Ok(now) => now,
        Err(error) => { return Err(Failure::ClockUnavailable(error)); },
    };
    match instructions::open_dispute::handler(ctx, evidence_uri, now) {
        Ok(()) => Ok(()),
        Err(error) => Err(Failure::Refused(error)),
    }
}

/// Rules on a dispute, now. A call that the operation refuses is
/// refused whether or not the time can be read. Where the call is refused or
/// the time cannot be read, nothing changes.
pub fn resolve_dispute(ctx: &mut ResolveDispute, ruling: DisputeRuling) -> (result: Result<
    (),
    Failure<instructions::resolve_dispute::ErrorCode>,
>)
    ensures
        match old(ctx).refusal(ruling) {
            Some(error) => {
                &&& result == Err::<(), Failure<instructions::resolve_dispute::ErrorCode>>(
                    Failure::Refused(error),
                )
                &&& *final(ctx) == *old(ctx)
            },
            None => match result {
                Ok(_) => exists|now: i64| *final(ctx) == #[trigger] old(ctx).applied(ruling, now),
                Err(Failure::ClockUnavailable(_)) => *final(ctx) == *old(ctx),
                Err(Failure::Refused(_)) => false,
            },
        },
{
    if let Some(error) = ctx.check(ruling) {
        return Err(Failure::Refused(error));
    }
    let now = match unix_timestamp() {
        Ok(now) => now,
        Err(error) => { return Err(Failure::ClockUnavailable(error)); },
    };
    match instructions::resolve_dispute::handler(ctx, ruling, now) {
        Ok(()) => Ok(()),
        Err(error) => Err(Failure::Refused(error)),
    }
}

/// Lists a skill for sale by the caller, now. A call that the operation refuses is
/// refused whether or not the time can be read. Where the call is refused or
/// the time cannot be read, nothing changes.
pub fn create_skill_listing(ctx: &mut CreateSkillListing, skill_uri: String, name: String, description: String, price_lamports: u64) -> (result: Result<
    (),
    Failure<instructions::create_skill_listing::ErrorCode>,
>)
    ensures
        match old(ctx).refusal(skill_uri@, name@, description@, price_lamports) {
            Some(error) => {
                &&& result == Err::<(), Failure<instructions::create_skill_listing::ErrorCode>>(
                    Failure::Refused(error),
                )
                &&& *final(ctx) == *old(ctx)
            },
            None => match result {
                Ok(_) => exists|now: i64| *final(ctx) == #[trigger] old(ctx).applied(skill_uri, name, description, price_lamports, now),
                Err(Failure::ClockUnavailable(_)) => *final(ctx) == *old(ctx),
                Err(Failure::Refused(_)) => false,
            },
        },
{
    if let Some(error) = ctx.check(&skill_uri, &name, &description, price_lamports) {
        return Err(Failure::Refused(error));
    }
    let now = match unix_timestamp() {
        Ok(now) => now,
        Err(error) => { return Err(Failure::ClockUnavailable(error)); },
    };
    match instructions::create_skill_listing::handler(ctx, skill_uri, name, description, price_lamports, now) {
        Ok(()) => Ok(()),
        Err(error) => Err(Failure::Refused(error)),
    }
}

/// Buys a skill, now, without paying the author's backers. A call that the operation refuses is
/// refused whether or not the time can be read. Where the call is refused or
/// the time cannot be read, nothing changes.
pub fn purchase_skill(ctx: &mut PurchaseSkill) -> (result: Result<
    (),
    Failure<instructions::purchase_skill::ErrorCode>,
>)
    ensures
        match old(ctx).refusal() {
            Some(error) => {
                &&& result == Err::<(), Failure<instructions::purchase_skill::ErrorCode>>(
                    Failure::Refused(error),
                )
                &&& *final(ctx) == *old(ctx)
            },
            None => match result {
                Ok(_) => exists|now: i64| *final(ctx) == #[trigger] old(ctx).applied(now),
                Err(Failure::ClockUnavailable(_)) => *final(ctx) == *old(ctx),
                Err(Failure::Refused(_)) => false,
            },
        },
{
    if let Some(error) = ctx.check() {
        return Err(Failure::Refused(error));
    }
    let now = match unix_timestamp() {
        Ok(now) => now,
        Err(error) => { return Err(Failure::ClockUnavailable(error)); },
    };
    match instructions::purchase_skill::handler(ctx, now) {
        Ok(()) => Ok(()),
        Err(error) => Err(Failure::Refused(error)),
    }
}

/// Buys a skill, now, and pays the author's backers at once. A call that the operation refuses is
/// refused whether or not the time can be read. Where the call is refused or
/// the time cannot be read, nothing changes.
pub fn purchase_skill_with_distribution(ctx: &mut PurchaseSkillWithDistribution) -> (result: Result<
    (),
    Failure<instructions::purchase_skill::ErrorCode>,
>)
    ensures
        match old(ctx).refusal() {
            Some(error) => {
                &&& result == Err::<(), Failure<instructions::purchase_skill::ErrorCode>>(
                    Failure::Refused(error),
                )
                &&& *final(ctx) == *old(ctx)
            },
            None => match result {
                Ok(_) => exists|now: i64| #[trigger] old(ctx).is_applied(*final(ctx), now),
                Err(Failure::ClockUnavailable(_)) => *final(ctx) == *old(ctx),
                Err(Failure::Refused(_)) => false,
            },
        },
{
    if let Some(error) = ctx.check() {
        return Err(Failure::Refused(error));
    }
    let now = match unix_timestamp() {
        Ok(now) => now,
        Err(error) => { return Err(Failure::ClockUnavailable(error)); },
    };
    match instructions::purchase_skill::handler_with_distribution(ctx, now) {
        Ok(()) => Ok(()),
        Err(error) => Err(Failure::Refused(error)),
    }
}

} // verus!
