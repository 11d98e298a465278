use reputation_oracle::identity::Identity;
use reputation_oracle::instructions::revoke_vouch;
use reputation_oracle::instructions::vouch;
use reputation_oracle::instructions::{CreateVouch, RevokeVouch};
use reputation_oracle::state::{AgentProfile, ReputationConfig, Vouch, VouchStatus};

fn vouching_key(n: u8) -> Identity {
    Identity::new([n; 32])
}

fn vouching_config() -> ReputationConfig {
    ReputationConfig {
        authority: vouching_key(9),
        min_stake: 100,
        dispute_bond: 50,
        slash_percentage: 50,
        cooldown_period: 3600,
        stake_weight: 1,
        vouch_weight: 100,
        dispute_penalty: 500,
        longevity_bonus: 10,
    }
}

fn vouching_profile(n: u8) -> AgentProfile {
    AgentProfile {
        authority: vouching_key(n),
        metadata_uri: String::from("ipfs://agent"),
        reputation_score: 0,
        total_vouches_received: 0,
        total_vouches_given: 0,
        total_staked_for: 0,
        disputes_won: 0,
        disputes_lost: 0,
        registered_at: 0,
    }
}

fn creation(voucher: u8, vouchee: u8, balance: u64) -> CreateVouch {
    CreateVouch {
        vouch: None,
        vouch_escrow: 0,
        voucher_profile: vouching_profile(voucher),
        vouchee_profile: vouching_profile(vouchee),
        config: vouching_config(),
        voucher_balance: balance,
    }
}

fn revocation(done: &CreateVouch) -> RevokeVouch {
    RevokeVouch {
        vouch: done.vouch.unwrap(),
        vouch_escrow: done.vouch_escrow,
        voucher_profile: done.voucher_profile.clone(),
        vouchee_profile: done.vouchee_profile.clone(),
        config: done.config,
        voucher_balance: done.voucher_balance,
    }
}

#[test]
fn creating_a_vouch_locks_the_stake_and_updates_both_records() {
    let mut ctx = creation(1, 2, 5000);
    assert_eq!(vouch::handler(&mut ctx, 1000, 86400), Ok(()));
    assert_eq!(
        ctx.vouch,
        Some(Vouch {
            voucher: vouching_key(1),
            vouchee: vouching_key(2),
            stake_amount: 1000,
            created_at: 86400,
            status: VouchStatus::Active,
            cumulative_revenue: 0,
            last_payout_at: 86400,
        })
    );
    assert_eq!(ctx.vouch_escrow, 1000);
    assert_eq!(ctx.voucher_balance, 4000);
    assert_eq!(ctx.voucher_profile.total_vouches_given, 1);
    assert_eq!(ctx.voucher_profile.total_vouches_received, 0);
    assert_eq!(ctx.voucher_profile.total_staked_for, 0);
    assert_eq!(ctx.voucher_profile.reputation_score, 0);
    assert_eq!(ctx.vouchee_profile.total_vouches_received, 1);
    assert_eq!(ctx.vouchee_profile.total_vouches_given, 0);
    assert_eq!(ctx.vouchee_profile.total_staked_for, 1000);
    // 1000 * 1 + 1 * 100 + 1 day * 10
    assert_eq!(ctx.vouchee_profile.reputation_score, 1110);
    assert_eq!(ctx.config, vouching_config());
}

#[test]
fn a_stake_at_the_minimum_is_accepted() {
    let mut ctx = creation(1, 2, 100);
    assert_eq!(vouch::handler(&mut ctx, 100, 0), Ok(()));
    assert_eq!(ctx.voucher_balance, 0);
    assert_eq!(ctx.vouch_escrow, 100);
}

#[test]
fn a_stake_below_the_minimum_is_refused_and_nothing_changes() {
    let mut ctx = creation(1, 2, 5000);
    let before = ctx.clone();
    assert_eq!(vouch::handler(&mut ctx, 99, 0), Err(vouch::ErrorCode::StakeBelowMinimum));
    assert_eq!(ctx, before);
    assert_eq!(vouch::handler(&mut ctx, 0, 0), Err(vouch::ErrorCode::StakeBelowMinimum));
    assert_eq!(ctx, before);
}

#[test]
fn vouching_for_oneself_is_refused_for_any_stake() {
    for stake in [0u64, 1, 99, 100, 1000, u64::MAX] {
        let mut ctx = creation(3, 3, 5000);
        let before = ctx.clone();
        assert_eq!(vouch::handler(&mut ctx, stake, 0), Err(vouch::ErrorCode::CannotVouchForSelf));
        assert_eq!(ctx, before);
    }
}

#[test]
fn a_second_active_vouch_for_the_same_pair_is_refused() {
    let mut ctx = creation(1, 2, 5000);
    assert_eq!(vouch::handler(&mut ctx, 1000, 0), Ok(()));
    let before = ctx.clone();
    assert_eq!(vouch::handler(&mut ctx, 1000, 1), Err(vouch::ErrorCode::DuplicateVouch));
    assert_eq!(ctx, before);
    // a stake below the minimum is reported first
    assert_eq!(vouch::handler(&mut ctx, 1, 1), Err(vouch::ErrorCode::StakeBelowMinimum));
    assert_eq!(ctx, before);
}

#[test]
fn refusals_to_vouch_come_in_a_fixed_order() {
    let mut ctx = creation(1, 2, 0);
    assert_eq!(vouch::handler(&mut ctx, 5000, 0), Err(vouch::ErrorCode::InsufficientFunds));
    ctx.voucher_balance = 5000;
    assert_eq!(vouch::handler(&mut ctx, 1000, 0), Ok(()));
    ctx.voucher_balance = 0;
    assert_eq!(vouch::handler(&mut ctx, 1000, 0), Err(vouch::ErrorCode::DuplicateVouch));
    assert_eq!(vouch::handler(&mut ctx, 99, 0), Err(vouch::ErrorCode::StakeBelowMinimum));
    ctx.vouchee_profile = vouching_profile(1);
    assert_eq!(vouch::handler(&mut ctx, 99, 0), Err(vouch::ErrorCode::CannotVouchForSelf));
}

#[test]
fn the_check_decides_as_the_operation_does() {
    let ctx = creation(1, 2, 5000);
    assert_eq!(ctx.check(1000), None);
    assert_eq!(ctx.check(99), Some(vouch::ErrorCode::StakeBelowMinimum));
    assert_eq!(ctx.check(5001), Some(vouch::ErrorCode::InsufficientFunds));
    assert_eq!(creation(3, 3, 5000).check(1000), Some(vouch::ErrorCode::CannotVouchForSelf));
    let mut done = creation(1, 2, 5000);
    assert_eq!(vouch::handler(&mut done, 1000, 0), Ok(()));
    assert_eq!(done.check(1000), Some(vouch::ErrorCode::DuplicateVouch));
    let back = revocation(&done);
    assert_eq!(back.check(), None);
    let mut stranger = revocation(&done);
    stranger.voucher_profile = vouching_profile(4);
    assert_eq!(stranger.check(), Some(revoke_vouch::ErrorCode::UnauthorizedVouchRevocation));
    let mut ended = revocation(&done);
    ended.vouch.status = VouchStatus::Revoked;
    assert_eq!(ended.check(), Some(revoke_vouch::ErrorCode::VouchNotActive));
    let mut empty = revocation(&done);
    empty.vouch_escrow = 0;
    assert_eq!(empty.check(), Some(revoke_vouch::ErrorCode::InsufficientFunds));
}

#[test]
fn a_new_vouch_can_follow_a_revoked_one() {
    let mut ctx = creation(1, 2, 5000);
    assert_eq!(vouch::handler(&mut ctx, 1000, 0), Ok(()));
    let mut back = revocation(&ctx);
    assert_eq!(revoke_vouch::handler(&mut back, 10), Ok(()));
    let mut again = CreateVouch {
        vouch: Some(back.vouch),
        vouch_escrow: back.vouch_escrow,
        voucher_profile: back.voucher_profile.clone(),
        vouchee_profile: back.vouchee_profile.clone(),
        config: back.config,
        voucher_balance: back.voucher_balance,
    };
    assert_eq!(vouch::handler(&mut again, 200, 20), Ok(()));
    assert_eq!(again.vouch.unwrap().status, VouchStatus::Active);
    assert_eq!(again.vouch.unwrap().stake_amount, 200);
    assert_eq!(again.vouch.unwrap().created_at, 20);
    assert_eq!(again.vouchee_profile.total_staked_for, 200);
    assert_eq!(again.voucher_balance, 4800);
}

#[test]
fn a_voucher_who_cannot_pay_is_refused() {
    let mut ctx = creation(1, 2, 999);
    let before = ctx.clone();
    assert_eq!(vouch::handler(&mut ctx, 1000, 0), Err(vouch::ErrorCode::InsufficientFunds));
    assert_eq!(ctx, before);
}

#[test]
fn revoking_returns_the_stake_and_lowers_both_records() {
    let mut ctx = creation(1, 2, 5000);
    assert_eq!(vouch::handler(&mut ctx, 1000, 0), Ok(()));
    let mut back = revocation(&ctx);
    assert_eq!(revoke_vouch::handler(&mut back, 2 * 86400), Ok(()));
    assert_eq!(back.vouch.status, VouchStatus::Revoked);
    assert_eq!(back.vouch.stake_amount, 1000);
    assert_eq!(back.vouch.voucher, vouching_key(1));
    assert_eq!(back.vouch.vouchee, vouching_key(2));
    assert_eq!(back.vouch_escrow, 0);
    assert_eq!(back.voucher_balance, 5000);
    assert_eq!(back.voucher_profile.total_vouches_given, 0);
    assert_eq!(back.vouchee_profile.total_vouches_received, 0);
    assert_eq!(back.vouchee_profile.total_staked_for, 0);
    // only two days of age are left to count
    assert_eq!(back.vouchee_profile.reputation_score, 20);
}

#[test]
fn the_cooldown_does_not_hold_a_revocation_back() {
    let mut ctx = creation(1, 2, 5000);
    assert_eq!(vouch::handler(&mut ctx, 1000, 1000), Ok(()));
    let mut back = revocation(&ctx);
    // well within the configured 3600 seconds
    assert_eq!(revoke_vouch::handler(&mut back, 1001), Ok(()));
    assert_eq!(back.voucher_balance, 5000);
}

#[test]
fn only_the_voucher_may_revoke() {
    let mut ctx = creation(1, 2, 5000);
    assert_eq!(vouch::handler(&mut ctx, 1000, 0), Ok(()));
    let mut back = revocation(&ctx);
    back.voucher_profile = vouching_profile(4);
    let before = back.clone();
    assert_eq!(
        revoke_vouch::handler(&mut back, 0),
        Err(revoke_vouch::ErrorCode::UnauthorizedVouchRevocation)
    );
    assert_eq!(back, before);
}

#[test]
fn only_an_active_vouch_can_be_revoked() {
    for status in [
        VouchStatus::Revoked,
        VouchStatus::Disputed,
        VouchStatus::Slashed,
        VouchStatus::Vindicated,
    ] {
        let mut ctx = creation(1, 2, 5000);
        assert_eq!(vouch::handler(&mut ctx, 1000, 0), Ok(()));
        let mut back = revocation(&ctx);
        back.vouch.status = status;
        let before = back.clone();
        assert_eq!(revoke_vouch::handler(&mut back, 0), Err(revoke_vouch::ErrorCode::VouchNotActive));
        assert_eq!(back, before);
    }
}

#[test]
fn a_stranger_is_told_so_before_the_status_is_looked_at() {
    let mut ctx = creation(1, 2, 5000);
    assert_eq!(vouch::handler(&mut ctx, 1000, 0), Ok(()));
    let mut back = revocation(&ctx);
    back.vouch.status = VouchStatus::Revoked;
    back.voucher_profile = vouching_profile(4);
    assert_eq!(
        revoke_vouch::handler(&mut back, 0),
        Err(revoke_vouch::ErrorCode::UnauthorizedVouchRevocation)
    );
}

#[test]
fn a_vouch_that_does_not_hold_its_stake_cannot_be_revoked() {
    let mut ctx = creation(1, 2, 5000);
    assert_eq!(vouch::handler(&mut ctx, 1000, 0), Ok(()));
    let mut back = revocation(&ctx);
    back.vouch_escrow = 999;
    let before = back.clone();
    assert_eq!(revoke_vouch::handler(&mut back, 0), Err(revoke_vouch::ErrorCode::InsufficientFunds));
    assert_eq!(back, before);
    let mut back = revocation(&ctx);
    back.voucher_balance = u64::MAX;
    let before = back.clone();
    assert_eq!(revoke_vouch::handler(&mut back, 0), Err(revoke_vouch::ErrorCode::InsufficientFunds));
    assert_eq!(back, before);
}

#[test]
fn recorded_stake_follows_the_active_vouches() {
    // three vouchers back agent 5; vouches are created and revoked in turn,
    // and after each call the record is held against the vouches
    let config = vouching_config();
    let mut vouchee = vouching_profile(5);
    let mut vouches: Vec<Vouch> = Vec::new();
    let stakes = [(1u8, 300u64), (2, 700), (3, 150)];
    let backing = |vouches: &Vec<Vouch>| -> u64 {
        vouches
            .iter()
            .filter(|v| v.vouchee == vouching_key(5) && v.status == VouchStatus::Active)
            .map(|v| v.stake_amount)
            .sum()
    };
    for (voucher, stake) in stakes {
        let mut ctx = CreateVouch {
            vouch: None,
            vouch_escrow: 0,
            voucher_profile: vouching_profile(voucher),
            vouchee_profile: vouchee.clone(),
            config,
            voucher_balance: 10_000,
        };
        assert_eq!(vouch::handler(&mut ctx, stake, 0), Ok(()));
        vouchee = ctx.vouchee_profile.clone();
        vouches.push(ctx.vouch.unwrap());
        assert_eq!(vouchee.total_staked_for, backing(&vouches));
    }
    assert_eq!(vouchee.total_staked_for, 1150);
    assert_eq!(vouchee.total_vouches_received, 3);
    // a refused call changes nothing
    let mut refused = CreateVouch {
        vouch: None,
        vouch_escrow: 0,
        voucher_profile: vouching_profile(4),
        vouchee_profile: vouchee.clone(),
        config,
        voucher_balance: 10_000,
    };
    assert_eq!(vouch::handler(&mut refused, 10, 0), Err(vouch::ErrorCode::StakeBelowMinimum));
    assert_eq!(refused.vouchee_profile, vouchee);
    assert_eq!(vouchee.total_staked_for, backing(&vouches));
    for place in [1usize, 0, 2] {
        let mut voucher_profile = vouching_profile(stakes[place].0);
        voucher_profile.total_vouches_given = 1;
        let mut ctx = RevokeVouch {
            vouch: vouches[place],
            vouch_escrow: stakes[place].1,
            voucher_profile,
            vouchee_profile: vouchee.clone(),
            config,
            voucher_balance: 0,
        };
        assert_eq!(revoke_vouch::handler(&mut ctx, 0), Ok(()));
        vouchee = ctx.vouchee_profile.clone();
        vouches[place] = ctx.vouch;
        assert_eq!(vouchee.total_staked_for, backing(&vouches));
    }
    assert_eq!(vouchee.total_staked_for, 0);
    assert_eq!(vouchee.total_vouches_received, 0);
}

#[test]
fn backing_counts_active_vouches_for_the_agent_only() {
    let vouch = Vouch {
        voucher: vouching_key(1),
        vouchee: vouching_key(2),
        stake_amount: 10,
        created_at: 0,
        status: VouchStatus::Active,
        cumulative_revenue: 0,
        last_payout_at: 0,
    };
    assert!(vouch.is_backing(&vouching_key(2)));
    assert!(!vouch.is_backing(&vouching_key(1)));
    let disputed = Vouch { status: VouchStatus::Disputed, ..vouch };
    assert!(!disputed.is_backing(&vouching_key(2)));
    let vouches = vec![
        vouch,
        disputed,
        Vouch { stake_amount: 5, ..vouch },
        Vouch { vouchee: vouching_key(3), stake_amount: 1000, ..vouch },
        Vouch { status: VouchStatus::Revoked, stake_amount: 7, ..vouch },
    ];
    assert_eq!(
        reputation_oracle::state::vouch::total_backing_stake(&vouches, &vouching_key(2)),
        15
    );
    assert_eq!(
        reputation_oracle::state::vouch::total_backing_stake(&vouches, &vouching_key(3)),
        1000
    );
    assert_eq!(
        reputation_oracle::state::vouch::total_backing_stake(&vouches, &vouching_key(4)),
        0
    );
    let large = vec![Vouch { stake_amount: u64::MAX, ..vouch }, Vouch { stake_amount: u64::MAX, ..vouch }];
    assert_eq!(
        reputation_oracle::state::vouch::total_backing_stake(&large, &vouching_key(2)),
        2 * (u64::MAX as u128)
    );
}
