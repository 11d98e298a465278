use reputation_oracle::funds::Wallet;
use reputation_oracle::identity::Identity;
use reputation_oracle::instructions::open_dispute;
use reputation_oracle::instructions::resolve_dispute;
use reputation_oracle::instructions::revoke_vouch;
use reputation_oracle::instructions::{OpenDispute, ResolveDispute, RevokeVouch};
use reputation_oracle::state::{
    AgentProfile, Dispute, DisputeRuling, DisputeStatus, ReputationConfig, Vouch, VouchStatus,
};

fn dispute_key(n: u8) -> Identity {
    Identity::new([n; 32])
}

fn dispute_config() -> ReputationConfig {
    ReputationConfig {
        authority: dispute_key(9),
        min_stake: 100,
        dispute_bond: 250,
        slash_percentage: 50,
        cooldown_period: 3600,
        stake_weight: 1,
        vouch_weight: 100,
        dispute_penalty: 500,
        longevity_bonus: 10,
    }
}

fn dispute_profile(n: u8) -> AgentProfile {
    AgentProfile {
        authority: dispute_key(n),
        metadata_uri: String::from("ipfs://agent"),
        reputation_score: 0,
        total_vouches_received: 0,
        total_vouches_given: 0,
        total_staked_for: 0,
        disputes_won: 0,
        disputes_lost: 0,
        registered_at: 0,
    }
}

fn active_vouch() -> Vouch {
    Vouch {
        voucher: dispute_key(1),
        vouchee: dispute_key(2),
        stake_amount: 1000,
        created_at: 5,
        status: VouchStatus::Active,
        cumulative_revenue: 17,
        last_payout_at: 5,
    }
}

fn opening() -> OpenDispute {
    OpenDispute {
        dispute: None,
        dispute_escrow: 0,
        vouch: active_vouch(),
        vouch_key: dispute_key(40),
        config: dispute_config(),
        challenger: Wallet { owner: dispute_key(3), balance: 600 },
    }
}

fn resolution(opened: &OpenDispute) -> ResolveDispute {
    let mut voucher_profile = dispute_profile(1);
    voucher_profile.total_vouches_given = 1;
    let mut vouchee_profile = dispute_profile(2);
    vouchee_profile.total_vouches_received = 1;
    vouchee_profile.total_staked_for = 1000;
    vouchee_profile.reputation_score = 1100;
    ResolveDispute {
        dispute: opened.dispute.clone().unwrap(),
        dispute_escrow: opened.dispute_escrow,
        vouch: opened.vouch,
        voucher_profile,
        vouchee_profile,
        config: opened.config,
        authority: dispute_key(9),
        challenger_balance: opened.challenger.balance,
    }
}

fn opened() -> OpenDispute {
    let mut ctx = opening();
    assert_eq!(open_dispute::handler(&mut ctx, String::from("ipfs://evidence"), 77), Ok(()));
    ctx
}

#[test]
fn opening_a_dispute_takes_the_bond_and_marks_the_vouch() {
    let ctx = opened();
    assert_eq!(
        ctx.dispute,
        Some(Dispute {
            vouch: dispute_key(40),
            challenger: dispute_key(3),
            evidence_uri: String::from("ipfs://evidence"),
            status: DisputeStatus::Open,
            ruling: None,
            created_at: 77,
            resolved_at: None,
        })
    );
    assert_eq!(ctx.dispute_escrow, 250);
    assert_eq!(ctx.challenger, Wallet { owner: dispute_key(3), balance: 350 });
    assert_eq!(ctx.vouch, Vouch { status: VouchStatus::Disputed, ..active_vouch() });
    assert_eq!(ctx.config, dispute_config());
    assert_eq!(ctx.vouch_key, dispute_key(40));
}

#[test]
fn a_second_dispute_on_the_same_vouch_is_refused() {
    let first = opened();
    let mut second = OpenDispute {
        dispute: None,
        dispute_escrow: 0,
        vouch: first.vouch,
        vouch_key: first.vouch_key,
        config: first.config,
        challenger: Wallet { owner: dispute_key(4), balance: 600 },
    };
    let before = second.clone();
    assert_eq!(
        open_dispute::handler(&mut second, String::from("ipfs://more"), 78),
        Err(open_dispute::ErrorCode::VouchNotActive)
    );
    assert_eq!(second, before);
    // and on the very same records
    let mut same = first.clone();
    assert_eq!(
        open_dispute::handler(&mut same, String::from("ipfs://more"), 78),
        Err(open_dispute::ErrorCode::VouchNotActive)
    );
    assert_eq!(same, first);
}

#[test]
fn a_disputed_vouch_cannot_be_revoked() {
    let first = opened();
    assert_eq!(first.vouch.status, VouchStatus::Disputed);
    let mut voucher_profile = dispute_profile(1);
    voucher_profile.total_vouches_given = 1;
    let mut back = RevokeVouch {
        vouch: first.vouch,
        vouch_escrow: 1000,
        voucher_profile,
        vouchee_profile: dispute_profile(2),
        config: first.config,
        voucher_balance: 0,
    };
    let before = back.clone();
    assert_eq!(revoke_vouch::handler(&mut back, 80), Err(revoke_vouch::ErrorCode::VouchNotActive));
    assert_eq!(back, before);
}

#[test]
fn only_an_active_vouch_can_be_disputed() {
    for status in [
        VouchStatus::Revoked,
        VouchStatus::Disputed,
        VouchStatus::Slashed,
        VouchStatus::Vindicated,
    ] {
        let mut ctx = opening();
        ctx.vouch.status = status;
        let before = ctx.clone();
        assert_eq!(
            open_dispute::handler(&mut ctx, String::from("e"), 0),
            Err(open_dispute::ErrorCode::VouchNotActive)
        );
        assert_eq!(ctx, before);
    }
}

#[test]
fn evidence_is_bounded_in_bytes() {
    let mut ctx = opening();
    assert_eq!(open_dispute::handler(&mut ctx, "e".repeat(200), 0), Ok(()));
    let mut ctx = opening();
    let before = ctx.clone();
    assert_eq!(
        open_dispute::handler(&mut ctx, "e".repeat(201), 0),
        Err(open_dispute::ErrorCode::EvidenceUriTooLong)
    );
    assert_eq!(ctx, before);
    // 67 characters of three bytes each are 201 bytes
    assert_eq!(
        open_dispute::handler(&mut ctx, "\u{20AC}".repeat(67), 0),
        Err(open_dispute::ErrorCode::EvidenceUriTooLong)
    );
    assert_eq!(open_dispute::handler(&mut ctx, "\u{20AC}".repeat(66), 0), Ok(()));
}

#[test]
fn a_vouch_that_is_not_active_is_reported_before_long_evidence() {
    let mut ctx = opening();
    ctx.vouch.status = VouchStatus::Revoked;
    assert_eq!(
        open_dispute::handler(&mut ctx, "e".repeat(500), 0),
        Err(open_dispute::ErrorCode::VouchNotActive)
    );
}

#[test]
fn a_challenger_who_cannot_cover_the_bond_is_refused() {
    let mut ctx = opening();
    ctx.challenger.balance = 249;
    let before = ctx.clone();
    assert_eq!(
        open_dispute::handler(&mut ctx, String::from("e"), 0),
        Err(open_dispute::ErrorCode::InsufficientFunds)
    );
    assert_eq!(ctx, before);
    ctx.challenger.balance = 250;
    assert_eq!(open_dispute::handler(&mut ctx, String::from("e"), 0), Ok(()));
    assert_eq!(ctx.challenger.balance, 0);
}

#[test]
fn slashing_accounts_for_the_whole_stake_and_returns_the_bond() {
    let opened = opened();
    let mut ctx = resolution(&opened);
    // half of the stake of 1000 is slashed
    assert_eq!(ctx.vouch.slash_amount(&ctx.config), 500);
    assert_eq!(resolve_dispute::handler(&mut ctx, DisputeRuling::SlashVoucher, 2 * 86400), Ok(()));
    assert_eq!(
        ctx.dispute,
        Dispute {
            vouch: dispute_key(40),
            challenger: dispute_key(3),
            evidence_uri: String::from("ipfs://evidence"),
            status: DisputeStatus::Resolved,
            ruling: Some(DisputeRuling::SlashVoucher),
            created_at: 77,
            resolved_at: Some(2 * 86400),
        }
    );
    assert_eq!(ctx.vouch, Vouch { status: VouchStatus::Slashed, ..active_vouch() });
    assert_eq!(ctx.voucher_profile.disputes_lost, 1);
    assert_eq!(ctx.voucher_profile.disputes_won, 0);
    assert_eq!(ctx.voucher_profile.total_vouches_given, 0);
    assert_eq!(ctx.vouchee_profile.total_vouches_received, 0);
    // the full stake leaves the vouchee's count, not the slashed half
    assert_eq!(ctx.vouchee_profile.total_staked_for, 0);
    assert_eq!(ctx.vouchee_profile.reputation_score, 20);
    // the whole bond is back with the challenger
    assert_eq!(ctx.challenger_balance, 600);
    assert_eq!(ctx.dispute_escrow, 0);
}

#[test]
fn slashing_rescores_the_voucher_too() {
    let opened = opened();
    let mut ctx = resolution(&opened);
    // the voucher is itself vouched for: 900 * 1 + 1 * 100, no disputes lost
    ctx.voucher_profile.total_staked_for = 900;
    ctx.voucher_profile.total_vouches_received = 1;
    ctx.voucher_profile.reputation_score = 1000;
    assert_eq!(ctx.voucher_profile.compute_reputation(&ctx.config, 0), 1000);
    assert_eq!(resolve_dispute::handler(&mut ctx, DisputeRuling::SlashVoucher, 0), Ok(()));
    assert_eq!(ctx.voucher_profile.disputes_lost, 1);
    // the dispute lost takes 500 off the score that the record carries
    assert_eq!(ctx.voucher_profile.reputation_score, 500);
    assert_eq!(
        ctx.voucher_profile.reputation_score,
        ctx.voucher_profile.compute_reputation(&ctx.config, 0)
    );
    assert_eq!(ctx.voucher_profile.total_staked_for, 900);
    assert_eq!(ctx.voucher_profile.total_vouches_received, 1);
}

#[test]
fn vindicating_leaves_the_scores_as_they_are() {
    let opened = opened();
    let mut ctx = resolution(&opened);
    ctx.voucher_profile.total_staked_for = 900;
    ctx.voucher_profile.total_vouches_received = 1;
    ctx.voucher_profile.reputation_score = 1000;
    assert_eq!(resolve_dispute::handler(&mut ctx, DisputeRuling::Vindicate, 0), Ok(()));
    assert_eq!(ctx.voucher_profile.reputation_score, 1000);
    assert_eq!(ctx.vouchee_profile.reputation_score, 1100);
}

#[test]
fn the_check_of_a_dispute_decides_as_the_operation_does() {
    let first = opening();
    assert_eq!(first.check(&String::from("e")), None);
    assert_eq!(first.check(&"e".repeat(201)), Some(open_dispute::ErrorCode::EvidenceUriTooLong));
    let opened = opened();
    assert_eq!(opened.check(&String::from("e")), Some(open_dispute::ErrorCode::VouchNotActive));
    let ruling = resolution(&opened);
    assert_eq!(ruling.check(DisputeRuling::SlashVoucher), None);
    assert_eq!(ruling.check(DisputeRuling::Vindicate), None);
    let mut unauthorized = resolution(&opened);
    unauthorized.authority = dispute_key(1);
    assert_eq!(
        unauthorized.check(DisputeRuling::Vindicate),
        Some(resolve_dispute::ErrorCode::UnauthorizedResolver)
    );
    let mut empty = resolution(&opened);
    empty.dispute_escrow = 0;
    assert_eq!(
        empty.check(DisputeRuling::SlashVoucher),
        Some(resolve_dispute::ErrorCode::InsufficientFunds)
    );
    assert_eq!(empty.check(DisputeRuling::Vindicate), None);
}

#[test]
fn slashing_takes_the_full_stake_off_a_larger_total() {
    let opened = opened();
    let mut ctx = resolution(&opened);
    ctx.vouchee_profile.total_staked_for = 4000;
    ctx.vouchee_profile.total_vouches_received = 3;
    ctx.voucher_profile.disputes_lost = 6;
    assert_eq!(resolve_dispute::handler(&mut ctx, DisputeRuling::SlashVoucher, 0), Ok(()));
    assert_eq!(ctx.vouchee_profile.total_staked_for, 3000);
    assert_eq!(ctx.vouchee_profile.total_vouches_received, 2);
    assert_eq!(ctx.vouchee_profile.reputation_score, 3200);
    assert_eq!(ctx.voucher_profile.disputes_lost, 7);
}

#[test]
fn vindicating_counts_a_win_and_keeps_the_bond() {
    let opened = opened();
    let mut ctx = resolution(&opened);
    let before = ctx.clone();
    assert_eq!(resolve_dispute::handler(&mut ctx, DisputeRuling::Vindicate, 99), Ok(()));
    assert_eq!(ctx.dispute.status, DisputeStatus::Resolved);
    assert_eq!(ctx.dispute.ruling, Some(DisputeRuling::Vindicate));
    assert_eq!(ctx.dispute.resolved_at, Some(99));
    assert_eq!(ctx.vouch, Vouch { status: VouchStatus::Vindicated, ..active_vouch() });
    assert_eq!(ctx.voucher_profile.disputes_won, 1);
    assert_eq!(ctx.voucher_profile.disputes_lost, 0);
    assert_eq!(ctx.voucher_profile.total_vouches_given, 1);
    assert_eq!(ctx.vouchee_profile, before.vouchee_profile);
    assert_eq!(ctx.vouchee_profile.total_staked_for, 1000);
    // the bond stays with the dispute
    assert_eq!(ctx.challenger_balance, 350);
    assert_eq!(ctx.dispute_escrow, 250);
}

#[test]
fn only_the_authority_may_rule() {
    let opened = opened();
    let mut ctx = resolution(&opened);
    ctx.authority = dispute_key(1);
    let before = ctx.clone();
    for ruling in [DisputeRuling::SlashVoucher, DisputeRuling::Vindicate] {
        assert_eq!(
            resolve_dispute::handler(&mut ctx, ruling, 0),
            Err(resolve_dispute::ErrorCode::UnauthorizedResolver)
        );
        assert_eq!(ctx, before);
    }
}

#[test]
fn a_dispute_is_ruled_on_once() {
    for first in [DisputeRuling::SlashVoucher, DisputeRuling::Vindicate] {
        for second in [DisputeRuling::SlashVoucher, DisputeRuling::Vindicate] {
            let opened = opened();
            let mut ctx = resolution(&opened);
            assert_eq!(resolve_dispute::handler(&mut ctx, first, 0), Ok(()));
            let before = ctx.clone();
            assert_eq!(
                resolve_dispute::handler(&mut ctx, second, 1),
                Err(resolve_dispute::ErrorCode::DisputeNotOpen)
            );
            assert_eq!(ctx, before);
        }
    }
}

#[test]
fn only_a_disputed_vouch_can_be_ruled_on() {
    for status in [
        VouchStatus::Active,
        VouchStatus::Revoked,
        VouchStatus::Slashed,
        VouchStatus::Vindicated,
    ] {
        let opened = opened();
        let mut ctx = resolution(&opened);
        ctx.vouch.status = status;
        let before = ctx.clone();
        assert_eq!(
            resolve_dispute::handler(&mut ctx, DisputeRuling::Vindicate, 0),
            Err(resolve_dispute::ErrorCode::VouchNotDisputed)
        );
        assert_eq!(ctx, before);
    }
}

#[test]
fn refusals_to_rule_come_in_a_fixed_order() {
    let opened = opened();
    let mut ctx = resolution(&opened);
    ctx.dispute.status = DisputeStatus::Resolved;
    ctx.vouch.status = VouchStatus::Active;
    ctx.authority = dispute_key(1);
    assert_eq!(
        resolve_dispute::handler(&mut ctx, DisputeRuling::Vindicate, 0),
        Err(resolve_dispute::ErrorCode::DisputeNotOpen)
    );
    ctx.dispute.status = DisputeStatus::Open;
    assert_eq!(
        resolve_dispute::handler(&mut ctx, DisputeRuling::Vindicate, 0),
        Err(resolve_dispute::ErrorCode::VouchNotDisputed)
    );
    ctx.vouch.status = VouchStatus::Disputed;
    assert_eq!(
        resolve_dispute::handler(&mut ctx, DisputeRuling::Vindicate, 0),
        Err(resolve_dispute::ErrorCode::UnauthorizedResolver)
    );
}

#[test]
fn a_dispute_that_does_not_hold_the_bond_cannot_return_it() {
    let opened = opened();
    let mut ctx = resolution(&opened);
    ctx.dispute_escrow = 249;
    let before = ctx.clone();
    assert_eq!(
        resolve_dispute::handler(&mut ctx, DisputeRuling::SlashVoucher, 0),
        Err(resolve_dispute::ErrorCode::InsufficientFunds)
    );
    assert_eq!(ctx, before);
    ctx.dispute_escrow = 250;
    ctx.challenger_balance = u64::MAX - 249;
    let before = ctx.clone();
    assert_eq!(
        resolve_dispute::handler(&mut ctx, DisputeRuling::SlashVoucher, 0),
        Err(resolve_dispute::ErrorCode::InsufficientFunds)
    );
    assert_eq!(ctx, before);
    // vindicating moves nothing and so needs nothing
    ctx.dispute_escrow = 0;
    assert_eq!(resolve_dispute::handler(&mut ctx, DisputeRuling::Vindicate, 0), Ok(()));
}

#[test]
fn the_slashed_part_is_a_percentage_rounded_down() {
    let mut config = dispute_config();
    let mut vouch = active_vouch();
    assert_eq!(vouch.slash_amount(&config), 500);
    config.slash_percentage = 0;
    assert_eq!(vouch.slash_amount(&config), 0);
    config.slash_percentage = 100;
    assert_eq!(vouch.slash_amount(&config), 1000);
    config.slash_percentage = 33;
    vouch.stake_amount = 10;
    assert_eq!(vouch.slash_amount(&config), 3);
    vouch.stake_amount = u64::MAX;
    config.slash_percentage = 50;
    assert_eq!(vouch.slash_amount(&config), u64::MAX / 2);
    config.slash_percentage = 100;
    assert_eq!(vouch.slash_amount(&config), u64::MAX);
}
