//! The escrow engine: lifecycle of a single payment held in custody between
//! a client and an agent, gated by time and authorization.
//!
//! An escrow starts `Pending` and moves exactly once to a terminal state:
//! `Released` (funds to the agent) or `Refunded` (funds back to the client).
//! The client may release at any time; anyone may release once `release_at`
//! has passed; only the client may refund, and only after a fixed dispute
//! period beyond `release_at` has elapsed as well.

use crate::ident::{byte_len, Pubkey};
use crate::token::{token_frame, transfer, TokenAccount};
use vstd::prelude::*;

verus! {

/// Longest permitted escrow identifier, in UTF-8 bytes.
pub const MAX_ESCROW_ID_BYTES: usize = 64;

/// Seconds past `release_at` during which the client may not yet reclaim the
/// funds, so that the agent (or any relayer) always has a window in which a
/// release is possible before a refund becomes possible.
pub const DISPUTE_PERIOD_SECONDS: i64 = 86400;

/// Lifecycle state of an escrow. `Pending` is the only state from which a
/// transition is legal; the other two are terminal.
#[derive(PartialEq, Eq, Structural, Clone, Copy, Debug)]
pub enum EscrowStatus {
    Pending,
    Released,
    Refunded,
}

impl Default for EscrowStatus {
    /// A fresh escrow is pending.
    fn default() -> (r: Self)
        ensures
            r == EscrowStatus::Pending,
    {
        EscrowStatus::Pending
    }
}

/// Every way an escrow operation can be rejected. Each failure leaves all
/// state untouched and is reported with its own kind.
#[derive(PartialEq, Eq, Structural, Clone, Copy, Debug)]
pub enum ErrorCode {
    /// The escrowed amount must be positive.
    InvalidAmount,
    /// The escrow identifier exceeds [`MAX_ESCROW_ID_BYTES`].
    EscrowIdTooLong,
    /// The escrow is already in a terminal state.
    EscrowNotPending,
    /// A caller other than the client tried to release before `release_at`.
    ReleaseTimeNotReached,
    /// A caller other than the client tried to refund.
    Unauthorized,
    /// The client tried to refund before the dispute period elapsed.
    DisputePeriodActive,
}

/// One escrow record: the two parties, the custodied asset and quantity,
/// the lifecycle state, and the two timestamps that gate release and refund.
#[derive(Debug, Clone)]
pub struct EscrowAccount {
    pub client: Pubkey,
    pub agent: Pubkey,
    pub mint: Pubkey,
    pub amount: u64,
    pub status: EscrowStatus,
    pub created_at: i64,
    pub release_at: i64,
    pub escrow_id: String,
    pub bump: u8,
}

impl EscrowAccount {
    /// Well-formedness: what creation establishes and every transition
    /// preserves.
    pub open spec fn wf(self) -> bool {
        &&& self.amount > 0
        &&& byte_len(self.escrow_id@) <= MAX_ESCROW_ID_BYTES
    }
}

/// All fields of the escrow record except `status` agree.
pub open spec fn escrow_frame(a: EscrowAccount, b: EscrowAccount) -> bool {
    &&& b.client == a.client
    &&& b.agent == a.agent
    &&& b.mint == a.mint
    &&& b.amount == a.amount
    &&& b.created_at == a.created_at
    &&& b.release_at == a.release_at
    &&& b.escrow_id@ == a.escrow_id@
    &&& b.bump == a.bump
}

/// The two escrow records agree in every field.
pub open spec fn escrow_eq(a: EscrowAccount, b: EscrowAccount) -> bool {
    &&& escrow_frame(a, b)
    &&& b.status == a.status
}

/// The validation outcome of a creation request: with which error, if any,
/// it is rejected. Checks run in this order: amount first, then the
/// identifier bound.
pub open spec fn create_check(escrow_id: Seq<char>, amount: u64) -> Result<(), ErrorCode> {
    if amount == 0 {
        Err(ErrorCode::InvalidAmount)
    } else if byte_len(escrow_id) > MAX_ESCROW_ID_BYTES {
        Err(ErrorCode::EscrowIdTooLong)
    } else {
        Ok(())
    }
}

/// The authorization and state outcome of a release request. Release is a
/// single disjunctive gate: the client may release at any time, and anyone
/// may release once `now` has reached `release_at`.
pub open spec fn release_check(e: EscrowAccount, signer: Pubkey, now: i64) -> Result<
    (),
    ErrorCode,
> {
    if e.status != EscrowStatus::Pending {
        Err(ErrorCode::EscrowNotPending)
    } else if signer != e.client && now < e.release_at {
        Err(ErrorCode::ReleaseTimeNotReached)
    } else {
        Ok(())
    }
}

/// The authorization, state and timing outcome of a refund request: only
/// the client, and only once the dispute period past `release_at` has
/// elapsed.
pub open spec fn refund_check(e: EscrowAccount, signer: Pubkey, now: i64) -> Result<
    (),
    ErrorCode,
> {
    if e.status != EscrowStatus::Pending {
        Err(ErrorCode::EscrowNotPending)
    } else if signer != e.client {
        Err(ErrorCode::Unauthorized)
    } else if now < e.release_at + DISPUTE_PERIOD_SECONDS {
        Err(ErrorCode::DisputePeriodActive)
    } else {
        Ok(())
    }
}

/// The accounts taking part in escrow creation. The hosting runtime
/// authenticates `client` as the request's signer, allocates
/// `escrow_account` and the empty holding account `escrow_token_account` at
/// their derived addresses, and guarantees the constraints in [`Self::wf`].
pub struct CreateEscrow {
    pub escrow_account: EscrowAccount,
    pub escrow_token_account: TokenAccount,
    pub client: Pubkey,
    pub agent: Pubkey,
    pub mint: Pubkey,
    pub client_token_account: TokenAccount,
}

impl CreateEscrow {
    /// Account constraints the runtime enforces before the engine runs: the
    /// funding account belongs to the client and matches the escrowed
    /// asset, and the holding account is freshly allocated for that asset.
    pub open spec fn wf(self) -> bool {
        &&& self.client_token_account.owner == self.client
        &&& self.client_token_account.mint == self.mint
        &&& self.escrow_token_account.mint == self.mint
        &&& self.escrow_token_account.amount == 0
    }
}

/// The effect of a successful creation: the record is filled from the
/// request and the clock, it starts pending, and exactly `amount` moved
/// from the client's account into the holding account.
pub open spec fn created(
    pre: CreateEscrow,
    post: CreateEscrow,
    escrow_id: Seq<char>,
    amount: u64,
    release_after_seconds: i64,
    now: i64,
    bump: u8,
) -> bool {
    let e = post.escrow_account;
    &&& e.client == pre.client
    &&& e.agent == pre.agent
    &&& e.mint == pre.mint
    &&& e.amount == amount
    &&& e.status == EscrowStatus::Pending
    &&& e.created_at == now
    &&& e.release_at == now + release_after_seconds
    &&& e.escrow_id@ == escrow_id
    &&& e.bump == bump
    &&& post.escrow_token_account.amount == amount
    &&& token_frame(pre.escrow_token_account, post.escrow_token_account)
    &&& post.client_token_account.amount == pre.client_token_account.amount - amount
    &&& token_frame(pre.client_token_account, post.client_token_account)
    &&& post.client == pre.client
    &&& post.agent == pre.agent
    &&& post.mint == pre.mint
}

/// Nothing in the creation context changed.
pub open spec fn create_unchanged(pre: CreateEscrow, post: CreateEscrow) -> bool {
    &&& escrow_eq(pre.escrow_account, post.escrow_account)
    &&& post.escrow_token_account == pre.escrow_token_account
    &&& post.client_token_account == pre.client_token_account
    &&& post.client == pre.client
    &&& post.agent == pre.agent
    &&& post.mint == pre.mint
}

/// Creates the escrow: validates the request, fills the record, and moves
/// `amount` from the client's account into custody, all or nothing.
///
/// `now` is the runtime's clock reading for this operation and `bump` the
/// seed under which the runtime derived the record's address. A rejected
/// request leaves every account exactly as it was.
pub fn create_escrow(
    ctx: &mut CreateEscrow,
    escrow_id: String,
    amount: u64,
    release_after_seconds: i64,
    now: i64,
    bump: u8,
) -> (r: Result<(), ErrorCode>)
    requires
        old(ctx).wf(),
        // the release deadline must fit the timestamp type
        create_check(escrow_id@, amount) is Ok ==> i64::MIN <= now + release_after_seconds
            <= i64::MAX,
        // the ledger rejects the whole operation upstream when the client
        // cannot fund the transfer
        create_check(escrow_id@, amount) is Ok ==> old(ctx).client_token_account.amount
            >= amount,
    ensures
        r == create_check(escrow_id@, amount),
        r is Ok ==> created(*old(ctx), *final(ctx), escrow_id@, amount, release_after_seconds, now, bump),
        r is Ok ==> final(ctx).escrow_account.wf(),
        r is Err ==> create_unchanged(*old(ctx), *final(ctx)),
{
    if amount == 0 {
        return Err(ErrorCode::InvalidAmount);
    }
    if crate::ident::text_byte_len(escrow_id.as_str()) > MAX_ESCROW_ID_BYTES {
        return Err(ErrorCode::EscrowIdTooLong);
    }

    ctx.escrow_account.client = ctx.client;
    ctx.escrow_account.agent = ctx.agent;
    ctx.escrow_account.mint = ctx.mint;
    ctx.escrow_account.amount = amount;
    ctx.escrow_account.status = EscrowStatus::Pending;
    ctx.escrow_account.created_at = now;
    ctx.escrow_account.release_at = now + release_after_seconds;
    ctx.escrow_account.escrow_id = escrow_id;
    ctx.escrow_account.bump = bump;

    transfer(&mut ctx.client_token_account, &mut ctx.escrow_token_account, amount);

    Ok(())
}

/// The accounts taking part in a release. The runtime authenticates
/// `signer`, locates the escrow and its holding account by their derived
/// addresses, and guarantees the constraints in [`Self::wf`].
pub struct ReleaseEscrow {
    pub escrow_account: EscrowAccount,
    pub escrow_token_account: TokenAccount,
    pub agent_token_account: TokenAccount,
    pub signer: Pubkey,
}

impl ReleaseEscrow {
    /// Account constraints the runtime enforces, together with the custody
    /// invariant: while the escrow is pending, the holding account holds
    /// exactly the escrowed amount.
    pub open spec fn wf(self) -> bool {
        &&& self.escrow_account.wf()
        &&& self.agent_token_account.owner == self.escrow_account.agent
        &&& self.agent_token_account.mint == self.escrow_account.mint
        &&& self.escrow_token_account.mint == self.escrow_account.mint
        &&& self.escrow_account.status == EscrowStatus::Pending
            ==> self.escrow_token_account.amount == self.escrow_account.amount
    }
}

/// The effect of a successful release: the status becomes `Released`, the
/// holding account is emptied, and the full escrowed amount lands in the
/// agent's account. Nothing else changes.
pub open spec fn released(pre: ReleaseEscrow, post: ReleaseEscrow) -> bool {
    &&& escrow_frame(pre.escrow_account, post.escrow_account)
    &&& post.escrow_account.status == EscrowStatus::Released
    &&& post.escrow_token_account.amount == 0
    &&& token_frame(pre.escrow_token_account, post.escrow_token_account)
    &&& post.agent_token_account.amount == pre.agent_token_account.amount
        + pre.escrow_account.amount
    &&& token_frame(pre.agent_token_account, post.agent_token_account)
    &&& post.signer == pre.signer
}

/// Nothing in the release context changed.
pub open spec fn release_unchanged(pre: ReleaseEscrow, post: ReleaseEscrow) -> bool {
    &&& escrow_eq(pre.escrow_account, post.escrow_account)
    &&& post.escrow_token_account == pre.escrow_token_account
    &&& post.agent_token_account == pre.agent_token_account
    &&& post.signer == pre.signer
}

/// Releases the custodied funds to the agent.
///
/// The request passes exactly when the escrow is pending and either the
/// signer is the client (early voluntary release) or `now` has reached
/// `release_at` (default release by anyone); [`release_check`] evaluates
/// that disjunction as a whole before any mutation. A rejected request
/// leaves every account exactly as it was.
pub fn release_escrow(ctx: &mut ReleaseEscrow, now: i64) -> (r: Result<(), ErrorCode>)
    requires
        old(ctx).wf(),
        // the agent's balance must be able to take the payout
        release_check(old(ctx).escrow_account, old(ctx).signer, now) is Ok ==> old(
            ctx,
        ).agent_token_account.amount + old(ctx).escrow_account.amount <= u64::MAX,
    ensures
        r == release_check(old(ctx).escrow_account, old(ctx).signer, now),
        final(ctx).wf(),
        r is Ok ==> released(*old(ctx), *final(ctx)),
        r is Err ==> release_unchanged(*old(ctx), *final(ctx)),
{
    if ctx.escrow_account.status != EscrowStatus::Pending {
        return Err(ErrorCode::EscrowNotPending);
    }
    if ctx.signer != ctx.escrow_account.client {
        if now < ctx.escrow_account.release_at {
            return Err(ErrorCode::ReleaseTimeNotReached);
        }
    }

    let amount = ctx.escrow_account.amount;
    transfer(&mut ctx.escrow_token_account, &mut ctx.agent_token_account, amount);
    ctx.escrow_account.status = EscrowStatus::Released;

    Ok(())
}

/// The accounts taking part in a refund, mirrored from the release context
/// with the client's account as the destination.
pub struct RefundEscrow {
    pub escrow_account: EscrowAccount,
    pub escrow_token_account: TokenAccount,
    pub client_token_account: TokenAccount,
    pub signer: Pubkey,
}

impl RefundEscrow {
    /// Account constraints the runtime enforces, together with the custody
    /// invariant.
    pub open spec fn wf(self) -> bool {
        &&& self.escrow_account.wf()
        &&& self.client_token_account.owner == self.escrow_account.client
        &&& self.client_token_account.mint == self.escrow_account.mint
        &&& self.escrow_token_account.mint == self.escrow_account.mint
        &&& self.escrow_account.status == EscrowStatus::Pending
            ==> self.escrow_token_account.amount == self.escrow_account.amount
    }
}

/// The effect of a successful refund: the status becomes `Refunded`, the
/// holding account is emptied, and the full escrowed amount returns to the
/// client's account. Nothing else changes.
pub open spec fn refunded(pre: RefundEscrow, post: RefundEscrow) -> bool {
    &&& escrow_frame(pre.escrow_account, post.escrow_account)
    &&& post.escrow_account.status == EscrowStatus::Refunded
    &&& post.escrow_token_account.amount == 0
    &&& token_frame(pre.escrow_token_account, post.escrow_token_account)
    &&& post.client_token_account.amount == pre.client_token_account.amount
        + pre.escrow_account.amount
    &&& token_frame(pre.client_token_account, post.client_token_account)
    &&& post.signer == pre.signer
}

/// Nothing in the refund context changed.
pub open spec fn refund_unchanged(pre: RefundEscrow, post: RefundEscrow) -> bool {
    &&& escrow_eq(pre.escrow_account, post.escrow_account)
    &&& post.escrow_token_account == pre.escrow_token_account
    &&& post.client_token_account == pre.client_token_account
    &&& post.signer == pre.signer
}

/// Returns the custodied funds to the client.
///
/// Only the client may refund, and only once `now` has reached
/// `release_at + DISPUTE_PERIOD_SECONDS`: the dispute window is anchored at
/// the release deadline, so the agent always had a period in which anyone
/// could have released before the client can claw the funds back. A
/// rejected request leaves every account exactly as it was.
pub fn refund_escrow(ctx: &mut RefundEscrow, now: i64) -> (r: Result<(), ErrorCode>)
    requires
        old(ctx).wf(),
        // the client's balance must be able to take the refund
        refund_check(old(ctx).escrow_account, old(ctx).signer, now) is Ok ==> old(
            ctx,
        ).client_token_account.amount + old(ctx).escrow_account.amount <= u64::MAX,
    ensures
        r == refund_check(old(ctx).escrow_account, old(ctx).signer, now),
        final(ctx).wf(),
        r is Ok ==> refunded(*old(ctx), *final(ctx)),
        r is Err ==> refund_unchanged(*old(ctx), *final(ctx)),
{
    if ctx.escrow_account.status != EscrowStatus::Pending {
        return Err(ErrorCode::EscrowNotPending);
    }
    if ctx.signer != ctx.escrow_account.client {
        return Err(ErrorCode::Unauthorized);
    }
    // widen so the deadline arithmetic cannot overflow the timestamp type
    if (now as i128) < (ctx.escrow_account.release_at as i128) + (
    DISPUTE_PERIOD_SECONDS as i128) {
        return Err(ErrorCode::DisputePeriodActive);
    }

    let amount = ctx.escrow_account.amount;
    transfer(&mut ctx.escrow_token_account, &mut ctx.client_token_account, amount);
    ctx.escrow_account.status = EscrowStatus::Refunded;

    Ok(())
}

/// Law: a non-client caller before the release time is always rejected with
/// the timing error; the engine's contract then leaves all state unchanged.
pub proof fn lemma_release_non_client_early(e: EscrowAccount, signer: Pubkey, now: i64)
    requires
        e.status == EscrowStatus::Pending,
        signer != e.client,
        now < e.release_at,
    ensures
        release_check(e, signer, now) == Err::<(), ErrorCode>(ErrorCode::ReleaseTimeNotReached),
{
}

/// Law: a non-client caller at or after the release time is always allowed
/// to release a pending escrow.
pub proof fn lemma_release_non_client_due(e: EscrowAccount, signer: Pubkey, now: i64)
    requires
        e.status == EscrowStatus::Pending,
        now >= e.release_at,
    ensures
        release_check(e, signer, now) == Ok::<(), ErrorCode>(()),
{
}

/// Law: the client may release a pending escrow at any time, including
/// before the release time.
pub proof fn lemma_release_client_any_time(e: EscrowAccount, now: i64)
    requires
        e.status == EscrowStatus::Pending,
    ensures
        release_check(e, e.client, now) == Ok::<(), ErrorCode>(()),
{
}

/// Law: a caller other than the client can never refund, whatever the time.
pub proof fn lemma_refund_non_client(e: EscrowAccount, signer: Pubkey, now: i64)
    requires
        e.status == EscrowStatus::Pending,
        signer != e.client,
    ensures
        refund_check(e, signer, now) == Err::<(), ErrorCode>(ErrorCode::Unauthorized),
{
}

/// Law: the client cannot refund while the dispute period still runs.
pub proof fn lemma_refund_in_dispute_period(e: EscrowAccount, now: i64)
    requires
        e.status == EscrowStatus::Pending,
        now < e.release_at + DISPUTE_PERIOD_SECONDS,
    ensures
        refund_check(e, e.client, now) == Err::<(), ErrorCode>(ErrorCode::DisputePeriodActive),
{
}

/// Law: the client may refund a pending escrow once the dispute period past
/// the release time has elapsed.
pub proof fn lemma_refund_after_dispute_period(e: EscrowAccount, now: i64)
    requires
        e.status == EscrowStatus::Pending,
        now >= e.release_at + DISPUTE_PERIOD_SECONDS,
    ensures
        refund_check(e, e.client, now) == Ok::<(), ErrorCode>(()),
{
}

/// Law: a terminal escrow is truly terminal: both release and refund are
/// rejected with the state error, for every caller and at every time.
pub proof fn lemma_terminal_is_terminal(e: EscrowAccount, signer: Pubkey, now: i64)
    requires
        e.status != EscrowStatus::Pending,
    ensures
        release_check(e, signer, now) == Err::<(), ErrorCode>(ErrorCode::EscrowNotPending),
        refund_check(e, signer, now) == Err::<(), ErrorCode>(ErrorCode::EscrowNotPending),
{
}

/// Law: a release succeeds at most once. After a successful release, every
/// later release or refund attempt on the same escrow fails with the state
/// error.
pub proof fn lemma_release_once(
    pre: ReleaseEscrow,
    post: ReleaseEscrow,
    now: i64,
    signer2: Pubkey,
    now2: i64,
)
    requires
        release_check(pre.escrow_account, pre.signer, now) is Ok,
        released(pre, post),
    ensures
        release_check(post.escrow_account, signer2, now2) == Err::<(), ErrorCode>(
            ErrorCode::EscrowNotPending,
        ),
        refund_check(post.escrow_account, signer2, now2) == Err::<(), ErrorCode>(
            ErrorCode::EscrowNotPending,
        ),
{
}

/// Law: a refund succeeds at most once, in the same sense.
pub proof fn lemma_refund_once(
    pre: RefundEscrow,
    post: RefundEscrow,
    now: i64,
    signer2: Pubkey,
    now2: i64,
)
    requires
        refund_check(pre.escrow_account, pre.signer, now) is Ok,
        refunded(pre, post),
    ensures
        release_check(post.escrow_account, signer2, now2) == Err::<(), ErrorCode>(
            ErrorCode::EscrowNotPending,
        ),
        refund_check(post.escrow_account, signer2, now2) == Err::<(), ErrorCode>(
            ErrorCode::EscrowNotPending,
        ),
{
}

/// Law: a release neither creates nor destroys funds: what leaves the
/// holding account arrives, in full, in the agent's account.
pub proof fn lemma_release_conserves_funds(pre: ReleaseEscrow, post: ReleaseEscrow)
    requires
        pre.wf(),
        pre.escrow_account.status == EscrowStatus::Pending,
        released(pre, post),
    ensures
        post.escrow_token_account.amount + post.agent_token_account.amount
            == pre.escrow_token_account.amount + pre.agent_token_account.amount,
        post.agent_token_account.amount == pre.agent_token_account.amount
            + pre.escrow_account.amount,
{
}

/// Law: a refund neither creates nor destroys funds: what leaves the
/// holding account arrives, in full, back in the client's account.
pub proof fn lemma_refund_conserves_funds(pre: RefundEscrow, post: RefundEscrow)
    requires
        pre.wf(),
        pre.escrow_account.status == EscrowStatus::Pending,
        refunded(pre, post),
    ensures
        post.escrow_token_account.amount + post.client_token_account.amount
            == pre.escrow_token_account.amount + pre.client_token_account.amount,
        post.client_token_account.amount == pre.client_token_account.amount
            + pre.escrow_account.amount,
{
}

/// Law: whenever a refund is permitted, a release by any caller was already
/// permitted at the same moment — the dispute window opens only after the
/// anyone-may-release gate.
pub proof fn lemma_refund_implies_release_open(
    e: EscrowAccount,
    signer: Pubkey,
    other: Pubkey,
    now: i64,
)
    requires
        refund_check(e, signer, now) is Ok,
    ensures
        release_check(e, other, now) is Ok,
{
}

} // verus!
