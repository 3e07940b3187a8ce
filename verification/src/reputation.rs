//! The reputation engine: an agent profile whose bounded score is mutated
//! by peer attestations and by task outcomes, under anti-abuse constraints.
//!
//! The score always lies in `[0, MAX_SCORE]` and starts at the neutral
//! midpoint. An attestation moves it by twice its rating, a successful task
//! raises it by a small reward, a failed task lowers it by twice that, and
//! every update clamps the result to the legal range. Self-attestation is
//! rejected, and all counters only ever grow.

use crate::ident::{byte_len, opt_byte_len, opt_view, Pubkey};
use vstd::prelude::*;

verus! {

/// Longest permitted agent identifier, in UTF-8 bytes.
pub const MAX_AGENT_ID_BYTES: usize = 64;

/// Longest permitted task identifier, in UTF-8 bytes.
pub const MAX_TASK_ID_BYTES: usize = 64;

/// Longest permitted profile metadata reference, in UTF-8 bytes.
pub const MAX_METADATA_URI_BYTES: usize = 200;

/// Longest permitted attestation comment, in UTF-8 bytes.
pub const MAX_COMMENT_BYTES: usize = 280;

/// Upper bound of the reputation score; the lower bound is zero.
pub const MAX_SCORE: u16 = 1000;

/// Score of a freshly initialized profile: the neutral midpoint.
pub const INITIAL_SCORE: u16 = 500;

/// Most negative rating an attestation may carry.
pub const MIN_RATING: i8 = -100;

/// Most positive rating an attestation may carry.
pub const MAX_RATING: i8 = 100;

/// Score gained for a successfully completed task.
pub const TASK_SUCCESS_REWARD: u16 = 5;

/// Score lost for a failed task: failures weigh twice as heavily as
/// successes, biasing the score toward caution.
pub const TASK_FAILURE_PENALTY: u16 = 10;

/// Every way a reputation operation can be rejected. Each failure leaves
/// all state untouched and is reported with its own kind.
#[derive(PartialEq, Eq, Structural, Clone, Copy, Debug)]
pub enum ErrorCode {
    /// The agent identifier exceeds [`MAX_AGENT_ID_BYTES`].
    AgentIdTooLong,
    /// The task identifier exceeds [`MAX_TASK_ID_BYTES`].
    TaskIdTooLong,
    /// The rating lies outside `[MIN_RATING, MAX_RATING]`.
    InvalidRating,
    /// The attester tried to attest to their own profile.
    SelfAttestation,
}

/// One agent profile: the controlling identity, the bounded score, and the
/// monotonically non-decreasing counters fed by the two signal sources.
#[derive(Debug, Clone)]
pub struct AgentProfile {
    pub owner: Pubkey,
    pub agent_id: String,
    pub reputation_score: u16,
    pub total_attestations: u32,
    pub positive_attestations: u32,
    pub tasks_completed: u32,
    pub tasks_failed: u32,
    pub metadata_uri: Option<String>,
    pub created_at: i64,
    pub bump: u8,
}

impl AgentProfile {
    /// Well-formedness: what initialization establishes and every update
    /// preserves. In particular the score never leaves `[0, MAX_SCORE]`.
    pub open spec fn wf(self) -> bool {
        &&& self.reputation_score <= MAX_SCORE
        &&& self.positive_attestations <= self.total_attestations
        &&& byte_len(self.agent_id@) <= MAX_AGENT_ID_BYTES
        &&& opt_byte_len(opt_view(self.metadata_uri)) <= MAX_METADATA_URI_BYTES
    }
}

/// One immutable peer attestation, appended per update and never mutated.
#[derive(Debug, Clone)]
pub struct Attestation {
    pub attester: Pubkey,
    pub target: Pubkey,
    pub rating: i8,
    pub comment: Option<String>,
    pub created_at: i64,
    pub bump: u8,
}

/// One immutable task outcome record, appended per update and never
/// mutated.
#[derive(Debug, Clone)]
pub struct TaskRecord {
    pub task_id: String,
    pub agent: Pubkey,
    pub client: Pubkey,
    pub payment_amount: u64,
    pub success: bool,
    pub created_at: i64,
    pub bump: u8,
}

/// Clamps an intermediate score into the legal range `[0, MAX_SCORE]`.
pub open spec fn clamp_score(x: int) -> int {
    if x < 0 {
        0
    } else if x > MAX_SCORE {
        MAX_SCORE as int
    } else {
        x
    }
}

/// Score after one attestation: the rating enters with double weight, and
/// the result is clamped on every update.
pub open spec fn attested_score(score: int, rating: int) -> int {
    clamp_score(score + rating * 2)
}

/// Score after one recorded task outcome.
pub open spec fn task_score(score: int, success: bool) -> int {
    if success {
        clamp_score(score + TASK_SUCCESS_REWARD)
    } else {
        clamp_score(score - TASK_FAILURE_PENALTY)
    }
}

/// The validation outcome of a profile initialization.
pub open spec fn initialize_check(agent_id: Seq<char>) -> Result<(), ErrorCode> {
    if byte_len(agent_id) > MAX_AGENT_ID_BYTES {
        Err(ErrorCode::AgentIdTooLong)
    } else {
        Ok(())
    }
}

/// The validation outcome of an attestation: the rating bound is tested
/// first, then self-attestation is rejected.
pub open spec fn attest_check(rating: i8, attester: Pubkey, target_owner: Pubkey) -> Result<
    (),
    ErrorCode,
> {
    if !(MIN_RATING <= rating && rating <= MAX_RATING) {
        Err(ErrorCode::InvalidRating)
    } else if attester == target_owner {
        Err(ErrorCode::SelfAttestation)
    } else {
        Ok(())
    }
}

/// The validation outcome of recording a task.
pub open spec fn record_task_check(task_id: Seq<char>) -> Result<(), ErrorCode> {
    if byte_len(task_id) > MAX_TASK_ID_BYTES {
        Err(ErrorCode::TaskIdTooLong)
    } else {
        Ok(())
    }
}

/// The two profiles agree in every field.
pub open spec fn profile_eq(a: AgentProfile, b: AgentProfile) -> bool {
    &&& b.owner == a.owner
    &&& b.agent_id@ == a.agent_id@
    &&& b.reputation_score == a.reputation_score
    &&& b.total_attestations == a.total_attestations
    &&& b.positive_attestations == a.positive_attestations
    &&& b.tasks_completed == a.tasks_completed
    &&& b.tasks_failed == a.tasks_failed
    &&& opt_view(b.metadata_uri) == opt_view(a.metadata_uri)
    &&& b.created_at == a.created_at
    &&& b.bump == a.bump
}

/// The two attestation records agree in every field.
pub open spec fn attestation_eq(a: Attestation, b: Attestation) -> bool {
    &&& b.attester == a.attester
    &&& b.target == a.target
    &&& b.rating == a.rating
    &&& opt_view(b.comment) == opt_view(a.comment)
    &&& b.created_at == a.created_at
    &&& b.bump == a.bump
}

/// The two task records agree in every field.
pub open spec fn task_record_eq(a: TaskRecord, b: TaskRecord) -> bool {
    &&& b.task_id@ == a.task_id@
    &&& b.agent == a.agent
    &&& b.client == a.client
    &&& b.payment_amount == a.payment_amount
    &&& b.success == a.success
    &&& b.created_at == a.created_at
    &&& b.bump == a.bump
}

/// The accounts taking part in profile initialization. The hosting runtime
/// authenticates `owner` as the signer and allocates `agent_profile` at its
/// derived address.
pub struct InitializeAgent {
    pub agent_profile: AgentProfile,
    pub owner: Pubkey,
}

/// The profile a successful initialization leaves behind: neutral score,
/// all counters zero, the given identity and metadata.
pub open spec fn initialized(
    pre: InitializeAgent,
    post: InitializeAgent,
    agent_id: Seq<char>,
    metadata_uri: Option<Seq<char>>,
    now: i64,
    bump: u8,
) -> bool {
    let p = post.agent_profile;
    &&& p.owner == pre.owner
    &&& p.agent_id@ == agent_id
    &&& p.reputation_score == INITIAL_SCORE
    &&& p.total_attestations == 0
    &&& p.positive_attestations == 0
    &&& p.tasks_completed == 0
    &&& p.tasks_failed == 0
    &&& opt_view(p.metadata_uri) == metadata_uri
    &&& p.created_at == now
    &&& p.bump == bump
    &&& post.owner == pre.owner
}

/// Creates a fresh agent profile with the neutral score and zeroed
/// counters. A rejected request leaves the context exactly as it was.
pub fn initialize_agent(
    ctx: &mut InitializeAgent,
    agent_id: String,
    metadata_uri: Option<String>,
    now: i64,
    bump: u8,
) -> (r: Result<(), ErrorCode>)
    requires
        // the stored metadata reference must fit the record's allocated space
        initialize_check(agent_id@) is Ok ==> opt_byte_len(opt_view(metadata_uri))
            <= MAX_METADATA_URI_BYTES,
    ensures
        r == initialize_check(agent_id@),
        r is Ok ==> initialized(*old(ctx), *final(ctx), agent_id@, opt_view(metadata_uri), now, bump),
        r is Ok ==> final(ctx).agent_profile.wf(),
        r is Err ==> profile_eq(old(ctx).agent_profile, final(ctx).agent_profile)
            && final(ctx).owner == old(ctx).owner,
{
    if crate::ident::text_byte_len(agent_id.as_str()) > MAX_AGENT_ID_BYTES {
        return Err(ErrorCode::AgentIdTooLong);
    }

    ctx.agent_profile.owner = ctx.owner;
    ctx.agent_profile.agent_id = agent_id;
    ctx.agent_profile.reputation_score = INITIAL_SCORE;
    ctx.agent_profile.total_attestations = 0;
    ctx.agent_profile.positive_attestations = 0;
    ctx.agent_profile.tasks_completed = 0;
    ctx.agent_profile.tasks_failed = 0;
    ctx.agent_profile.metadata_uri = metadata_uri;
    ctx.agent_profile.created_at = now;
    ctx.agent_profile.bump = bump;

    Ok(())
}

/// The accounts taking part in an attestation. The runtime authenticates
/// `attester` as the signer, locates the target profile, and allocates
/// `attestation` at an address derived from the target's pre-increment
/// attestation count, so each attestation gets a distinct address in
/// sequence order.
pub struct Attest {
    pub attestation: Attestation,
    pub target_profile: AgentProfile,
    pub attester: Pubkey,
}

/// The effect of a successful attestation on the target profile and the
/// appended record: the total count grows by one, the positive count grows
/// exactly when the rating is strictly positive, and the score moves by
/// twice the rating, clamped.
pub open spec fn attested(
    pre: Attest,
    post: Attest,
    rating: i8,
    comment: Option<Seq<char>>,
    now: i64,
    bump: u8,
) -> bool {
    let p0 = pre.target_profile;
    let p1 = post.target_profile;
    let a = post.attestation;
    &&& p1.total_attestations == p0.total_attestations + 1
    &&& p1.positive_attestations == p0.positive_attestations + (
    if rating > 0 {
        1int
    } else {
        0int
    })
    &&& p1.reputation_score == attested_score(p0.reputation_score as int, rating as int)
    &&& p1.owner == p0.owner
    &&& p1.agent_id@ == p0.agent_id@
    &&& p1.tasks_completed == p0.tasks_completed
    &&& p1.tasks_failed == p0.tasks_failed
    &&& opt_view(p1.metadata_uri) == opt_view(p0.metadata_uri)
    &&& p1.created_at == p0.created_at
    &&& p1.bump == p0.bump
    &&& a.attester == pre.attester
    &&& a.target == p0.owner
    &&& a.rating == rating
    &&& opt_view(a.comment) == comment
    &&& a.created_at == now
    &&& a.bump == bump
    &&& post.attester == pre.attester
}

/// Applies one peer attestation to the target profile and appends the
/// immutable attestation record.
///
/// Self-attestation is rejected, and a rejected request leaves the profile
/// and the record exactly as they were.
pub fn attest(
    ctx: &mut Attest,
    rating: i8,
    comment: Option<String>,
    now: i64,
    bump: u8,
) -> (r: Result<(), ErrorCode>)
    requires
        old(ctx).target_profile.wf(),
        // the stored comment must fit the record's allocated space
        attest_check(rating, old(ctx).attester, old(ctx).target_profile.owner) is Ok
            ==> opt_byte_len(opt_view(comment)) <= MAX_COMMENT_BYTES,
        // the attestation counters cannot exceed their machine type
        attest_check(rating, old(ctx).attester, old(ctx).target_profile.owner) is Ok ==> old(
            ctx,
        ).target_profile.total_attestations < u32::MAX,
    ensures
        r == attest_check(rating, old(ctx).attester, old(ctx).target_profile.owner),
        final(ctx).target_profile.wf(),
        r is Ok ==> attested(*old(ctx), *final(ctx), rating, opt_view(comment), now, bump),
        r is Err ==> profile_eq(old(ctx).target_profile, final(ctx).target_profile)
            && attestation_eq(old(ctx).attestation, final(ctx).attestation) && final(ctx).attester
            == old(ctx).attester,
{
    if !(rating >= MIN_RATING && rating <= MAX_RATING) {
        return Err(ErrorCode::InvalidRating);
    }
    if ctx.attester == ctx.target_profile.owner {
        return Err(ErrorCode::SelfAttestation);
    }

    ctx.attestation.attester = ctx.attester;
    ctx.attestation.target = ctx.target_profile.owner;
    ctx.attestation.rating = rating;
    ctx.attestation.comment = comment;
    ctx.attestation.created_at = now;
    ctx.attestation.bump = bump;

    ctx.target_profile.total_attestations = ctx.target_profile.total_attestations + 1;
    if rating > 0 {
        ctx.target_profile.positive_attestations = ctx.target_profile.positive_attestations + 1;
    }

    // widen before adding so the double-weighted rating cannot overflow
    let widened: i32 = (ctx.target_profile.reputation_score as i32) + (rating as i32) * 2;
    let clamped: i32 = if widened < 0 {
        0
    } else if widened > MAX_SCORE as i32 {
        MAX_SCORE as i32
    } else {
        widened
    };
    ctx.target_profile.reputation_score = clamped as u16;

    Ok(())
}

/// The accounts taking part in recording a task outcome. The runtime
/// authenticates `client` as the signer, locates the agent profile, and
/// allocates `task_record` at its derived address.
pub struct RecordTask {
    pub task_record: TaskRecord,
    pub agent_profile: AgentProfile,
    pub client: Pubkey,
}

/// The effect of a successful task recording: exactly one outcome counter
/// grows by one, the score moves by the corresponding clamped step, and the
/// immutable task record is appended.
pub open spec fn task_recorded(
    pre: RecordTask,
    post: RecordTask,
    task_id: Seq<char>,
    payment_amount: u64,
    success: bool,
    now: i64,
    bump: u8,
) -> bool {
    let p0 = pre.agent_profile;
    let p1 = post.agent_profile;
    let t = post.task_record;
    &&& t.task_id@ == task_id
    &&& t.agent == p0.owner
    &&& t.client == pre.client
    &&& t.payment_amount == payment_amount
    &&& t.success == success
    &&& t.created_at == now
    &&& t.bump == bump
    &&& p1.tasks_completed == p0.tasks_completed + (
    if success {
        1int
    } else {
        0int
    })
    &&& p1.tasks_failed == p0.tasks_failed + (
    if success {
        0int
    } else {
        1int
    })
    &&& p1.reputation_score == task_score(p0.reputation_score as int, success)
    &&& p1.owner == p0.owner
    &&& p1.agent_id@ == p0.agent_id@
    &&& p1.total_attestations == p0.total_attestations
    &&& p1.positive_attestations == p0.positive_attestations
    &&& opt_view(p1.metadata_uri) == opt_view(p0.metadata_uri)
    &&& p1.created_at == p0.created_at
    &&& p1.bump == p0.bump
    &&& post.client == pre.client
}

/// Records one task outcome against the agent profile and appends the
/// immutable task record.
///
/// A success rewards the score by [`TASK_SUCCESS_REWARD`]; a failure
/// penalizes it by [`TASK_FAILURE_PENALTY`]; both steps clamp at the range
/// bounds. A rejected request leaves the profile and the record exactly as
/// they were.
pub fn record_task(
    ctx: &mut RecordTask,
    task_id: String,
    payment_amount: u64,
    success: bool,
    now: i64,
    bump: u8,
) -> (r: Result<(), ErrorCode>)
    requires
        old(ctx).agent_profile.wf(),
        // the outcome counters cannot exceed their machine type
        record_task_check(task_id@) is Ok && success ==> old(ctx).agent_profile.tasks_completed
            < u32::MAX,
        record_task_check(task_id@) is Ok && !success ==> old(ctx).agent_profile.tasks_failed
            < u32::MAX,
    ensures
        r == record_task_check(task_id@),
        final(ctx).agent_profile.wf(),
        r is Ok ==> task_recorded(*old(ctx), *final(ctx), task_id@, payment_amount, success, now, bump),
        r is Err ==> profile_eq(old(ctx).agent_profile, final(ctx).agent_profile) && task_record_eq(
            old(ctx).task_record,
            final(ctx).task_record,
        ) && final(ctx).client == old(ctx).client,
{
    if crate::ident::text_byte_len(task_id.as_str()) > MAX_TASK_ID_BYTES {
        return Err(ErrorCode::TaskIdTooLong);
    }

    ctx.task_record.task_id = task_id;
    ctx.task_record.agent = ctx.agent_profile.owner;
    ctx.task_record.client = ctx.client;
    ctx.task_record.payment_amount = payment_amount;
    ctx.task_record.success = success;
    ctx.task_record.created_at = now;
    ctx.task_record.bump = bump;

    if success {
        ctx.agent_profile.tasks_completed = ctx.agent_profile.tasks_completed + 1;
        let raised: u32 = (ctx.agent_profile.reputation_score as u32) + (
        TASK_SUCCESS_REWARD as u32);
        let capped: u32 = if raised > MAX_SCORE as u32 {
            MAX_SCORE as u32
        } else {
            raised
        };
        ctx.agent_profile.reputation_score = capped as u16;
    } else {
        ctx.agent_profile.tasks_failed = ctx.agent_profile.tasks_failed + 1;
        let lowered: i32 = (ctx.agent_profile.reputation_score as i32) - (
        TASK_FAILURE_PENALTY as i32);
        let floored: i32 = if lowered < 0 {
            0
        } else {
            lowered
        };
        ctx.agent_profile.reputation_score = floored as u16;
    }

    Ok(())
}

/// Law: the clamped score always lies in the legal range, whatever the
/// intermediate value.
pub proof fn lemma_clamp_in_range(x: int)
    ensures
        0 <= clamp_score(x) <= MAX_SCORE,
{
}

/// Law: every attestation leaves the score in the legal range, whatever the
/// starting score and rating.
pub proof fn lemma_attested_score_in_range(score: int, rating: int)
    ensures
        0 <= attested_score(score, rating) <= MAX_SCORE,
{
}

/// Law: every task outcome leaves the score in the legal range, whatever
/// the starting score.
pub proof fn lemma_task_score_in_range(score: int, success: bool)
    ensures
        0 <= task_score(score, success) <= MAX_SCORE,
{
}

/// Law: an attestation whose attester owns the target profile is always
/// rejected as self-attestation, for every in-range rating; the engine's
/// contract then leaves the profile unchanged.
pub proof fn lemma_self_attestation_rejected(rating: i8, owner: Pubkey)
    requires
        MIN_RATING <= rating <= MAX_RATING,
    ensures
        attest_check(rating, owner, owner) == Err::<(), ErrorCode>(ErrorCode::SelfAttestation),
{
}

/// Law: an attestation by a distinct party with an in-range rating is
/// always accepted.
pub proof fn lemma_distinct_attester_accepted(rating: i8, attester: Pubkey, owner: Pubkey)
    requires
        MIN_RATING <= rating <= MAX_RATING,
        attester != owner,
    ensures
        attest_check(rating, attester, owner) == Ok::<(), ErrorCode>(()),
{
}

} // verus!
