use agent_escrow::ident::Pubkey;
use agent_escrow::reputation::{
    attest, initialize_agent, record_task, AgentProfile, Attest, Attestation, ErrorCode,
    InitializeAgent, RecordTask, TaskRecord,
};

fn key(n: u64) -> Pubkey {
    Pubkey {
        w0: n,
        w1: 0,
        w2: 0,
        w3: 0,
    }
}

fn owner() -> Pubkey {
    key(10)
}

fn peer() -> Pubkey {
    key(11)
}

fn placeholder_profile() -> AgentProfile {
    AgentProfile {
        owner: key(0),
        agent_id: String::new(),
        reputation_score: 0,
        total_attestations: 0,
        positive_attestations: 0,
        tasks_completed: 0,
        tasks_failed: 0,
        metadata_uri: None,
        created_at: 0,
        bump: 0,
    }
}

fn placeholder_attestation() -> Attestation {
    Attestation {
        attester: key(0),
        target: key(0),
        rating: 0,
        comment: None,
        created_at: 0,
        bump: 0,
    }
}

fn placeholder_task() -> TaskRecord {
    TaskRecord {
        task_id: String::new(),
        agent: key(0),
        client: key(0),
        payment_amount: 0,
        success: false,
        created_at: 0,
        bump: 0,
    }
}

/// A freshly initialized profile owned by `owner()`: score 500, counters 0.
fn fresh_profile() -> AgentProfile {
    let mut ctx = InitializeAgent {
        agent_profile: placeholder_profile(),
        owner: owner(),
    };
    let r = initialize_agent(
        &mut ctx,
        "helper-bot".to_string(),
        Some("ipfs://profile".to_string()),
        7_000,
        254,
    );
    assert!(r.is_ok());
    ctx.agent_profile
}

fn attest_ctx(profile: AgentProfile, attester: Pubkey) -> Attest {
    Attest {
        attestation: placeholder_attestation(),
        target_profile: profile,
        attester,
    }
}

fn task_ctx(profile: AgentProfile) -> RecordTask {
    RecordTask {
        task_record: placeholder_task(),
        agent_profile: profile,
        client: peer(),
    }
}

#[test]
fn initialize_agent_starts_neutral() {
    let p = fresh_profile();
    assert_eq!(p.owner, owner());
    assert_eq!(p.agent_id, "helper-bot");
    assert_eq!(p.reputation_score, 500);
    assert_eq!(p.total_attestations, 0);
    assert_eq!(p.positive_attestations, 0);
    assert_eq!(p.tasks_completed, 0);
    assert_eq!(p.tasks_failed, 0);
    assert_eq!(p.metadata_uri, Some("ipfs://profile".to_string()));
    assert_eq!(p.created_at, 7_000);
    assert_eq!(p.bump, 254);
}

#[test]
fn initialize_agent_long_id_rejected() {
    let mut ctx = InitializeAgent {
        agent_profile: placeholder_profile(),
        owner: owner(),
    };
    let r = initialize_agent(&mut ctx, "a".repeat(65), None, 7_000, 254);
    assert_eq!(r, Err(ErrorCode::AgentIdTooLong));
    assert_eq!(ctx.agent_profile.reputation_score, 0);
    assert_eq!(ctx.agent_profile.agent_id, "");
}

#[test]
fn attest_positive_rating_counts_and_scores() {
    let mut ctx = attest_ctx(fresh_profile(), peer());
    let r = attest(&mut ctx, 30, Some("quick work".to_string()), 8_000, 7);
    assert!(r.is_ok());
    let p = &ctx.target_profile;
    assert_eq!(p.reputation_score, 560);
    assert_eq!(p.total_attestations, 1);
    assert_eq!(p.positive_attestations, 1);
    assert_eq!(p.tasks_completed, 0);
    let a = &ctx.attestation;
    assert_eq!(a.attester, peer());
    assert_eq!(a.target, owner());
    assert_eq!(a.rating, 30);
    assert_eq!(a.comment, Some("quick work".to_string()));
    assert_eq!(a.created_at, 8_000);
    assert_eq!(a.bump, 7);
}

#[test]
fn attest_zero_rating_counts_but_is_not_positive() {
    let mut ctx = attest_ctx(fresh_profile(), peer());
    let r = attest(&mut ctx, 0, None, 8_000, 7);
    assert!(r.is_ok());
    assert_eq!(ctx.target_profile.reputation_score, 500);
    assert_eq!(ctx.target_profile.total_attestations, 1);
    assert_eq!(ctx.target_profile.positive_attestations, 0);
}

#[test]
fn attest_negative_rating_lowers_score() {
    let mut ctx = attest_ctx(fresh_profile(), peer());
    let r = attest(&mut ctx, -50, None, 8_000, 7);
    assert!(r.is_ok());
    assert_eq!(ctx.target_profile.reputation_score, 400);
    assert_eq!(ctx.target_profile.total_attestations, 1);
    assert_eq!(ctx.target_profile.positive_attestations, 0);
}

#[test]
fn attest_boundary_ratings_accepted() {
    let mut ctx = attest_ctx(fresh_profile(), peer());
    assert!(attest(&mut ctx, 100, None, 8_000, 7).is_ok());
    assert_eq!(ctx.target_profile.reputation_score, 700);
    assert!(attest(&mut ctx, -100, None, 8_001, 8).is_ok());
    assert_eq!(ctx.target_profile.reputation_score, 500);
}

#[test]
fn attest_out_of_range_rating_rejected() {
    let mut ctx = attest_ctx(fresh_profile(), peer());
    assert_eq!(
        attest(&mut ctx, 101, None, 8_000, 7),
        Err(ErrorCode::InvalidRating)
    );
    assert_eq!(
        attest(&mut ctx, -101, None, 8_000, 7),
        Err(ErrorCode::InvalidRating)
    );
    assert_eq!(ctx.target_profile.reputation_score, 500);
    assert_eq!(ctx.target_profile.total_attestations, 0);
}

#[test]
fn attest_by_profile_owner_rejected() {
    let mut ctx = attest_ctx(fresh_profile(), owner());
    let r = attest(&mut ctx, 50, Some("me".to_string()), 8_000, 7);
    assert_eq!(r, Err(ErrorCode::SelfAttestation));
    assert_eq!(ctx.target_profile.reputation_score, 500);
    assert_eq!(ctx.target_profile.total_attestations, 0);
    assert_eq!(ctx.target_profile.positive_attestations, 0);
    assert_eq!(ctx.attestation.comment, None);
}

#[test]
fn score_clamps_at_zero_and_stays() {
    let mut ctx = attest_ctx(fresh_profile(), peer());
    let expected = [300u16, 100, 0, 0, 0];
    for (i, want) in expected.iter().enumerate() {
        let r = attest(&mut ctx, -100, None, 9_000 + i as i64, 7);
        assert!(r.is_ok());
        assert_eq!(ctx.target_profile.reputation_score, *want);
    }
    assert_eq!(ctx.target_profile.total_attestations, 5);
    assert_eq!(ctx.target_profile.positive_attestations, 0);
}

#[test]
fn score_clamps_at_cap_and_stays() {
    let mut ctx = attest_ctx(fresh_profile(), peer());
    let expected = [700u16, 900, 1000, 1000, 1000];
    for (i, want) in expected.iter().enumerate() {
        let r = attest(&mut ctx, 100, None, 9_000 + i as i64, 7);
        assert!(r.is_ok());
        assert_eq!(ctx.target_profile.reputation_score, *want);
    }
    assert_eq!(ctx.target_profile.total_attestations, 5);
    assert_eq!(ctx.target_profile.positive_attestations, 5);
}

#[test]
fn record_task_success_rewards_five() {
    let mut ctx = task_ctx(fresh_profile());
    let r = record_task(&mut ctx, "task-1".to_string(), 250, true, 9_500, 9);
    assert!(r.is_ok());
    assert_eq!(ctx.agent_profile.reputation_score, 505);
    assert_eq!(ctx.agent_profile.tasks_completed, 1);
    assert_eq!(ctx.agent_profile.tasks_failed, 0);
    let t = &ctx.task_record;
    assert_eq!(t.task_id, "task-1");
    assert_eq!(t.agent, owner());
    assert_eq!(t.client, peer());
    assert_eq!(t.payment_amount, 250);
    assert!(t.success);
    assert_eq!(t.created_at, 9_500);
    assert_eq!(t.bump, 9);
}

#[test]
fn record_task_failure_costs_ten() {
    let mut ctx = task_ctx(fresh_profile());
    let r = record_task(&mut ctx, "task-2".to_string(), 250, false, 9_500, 9);
    assert!(r.is_ok());
    assert_eq!(ctx.agent_profile.reputation_score, 490);
    assert_eq!(ctx.agent_profile.tasks_completed, 0);
    assert_eq!(ctx.agent_profile.tasks_failed, 1);
    assert!(!ctx.task_record.success);
}

#[test]
fn record_task_score_clamps_at_both_ends() {
    // drive the score to the cap, then the success reward must saturate
    let mut actx = attest_ctx(fresh_profile(), peer());
    for i in 0..3 {
        assert!(attest(&mut actx, 100, None, 9_000 + i, 7).is_ok());
    }
    assert_eq!(actx.target_profile.reputation_score, 1000);
    let mut ctx = task_ctx(actx.target_profile);
    assert!(record_task(&mut ctx, "t".to_string(), 1, true, 9_600, 9).is_ok());
    assert_eq!(ctx.agent_profile.reputation_score, 1000);

    // drive it to the floor, then the failure penalty must saturate
    let mut bctx = attest_ctx(fresh_profile(), peer());
    for i in 0..3 {
        assert!(attest(&mut bctx, -100, None, 9_000 + i, 7).is_ok());
    }
    assert_eq!(bctx.target_profile.reputation_score, 0);
    let mut dctx = task_ctx(bctx.target_profile);
    assert!(record_task(&mut dctx, "u".to_string(), 1, true, 9_600, 9).is_ok());
    assert_eq!(dctx.agent_profile.reputation_score, 5);
    assert!(record_task(&mut dctx, "v".to_string(), 1, false, 9_601, 9).is_ok());
    assert_eq!(dctx.agent_profile.reputation_score, 0);
}

#[test]
fn record_task_long_id_rejected() {
    let mut ctx = task_ctx(fresh_profile());
    let r = record_task(&mut ctx, "t".repeat(65), 250, true, 9_500, 9);
    assert_eq!(r, Err(ErrorCode::TaskIdTooLong));
    assert_eq!(ctx.agent_profile.reputation_score, 500);
    assert_eq!(ctx.agent_profile.tasks_completed, 0);
    assert_eq!(ctx.task_record.task_id, "");
}
