use crate::address::Address;
use crate::authority::{Domain, ProgramAuthority};
use crate::error::NeptuError;
use crate::instruction::{authorize, authorizes, Instruction, Signer};
use vstd::prelude::*;

verus! {

/// What one user has claimed so far. The nonce last accepted is a watermark:
/// a later claim must come with a higher one.
#[derive(Clone, Copy, Debug, PartialEq, Eq)]
pub struct ClaimRecord {
    pub user: Address,
    pub last_nonce: u64,
    pub total_claimed: u64,
}

/// What a claim works on.
#[derive(Clone, Copy, Debug, PartialEq, Eq)]
pub struct ClaimRewards {
    /// The economy program.
    pub program_id: Address,
    /// Who claims.
    pub user: Address,
    /// The user's record: `None` before the first claim.
    pub claim_record: Option<ClaimRecord>,
    /// The token.
    pub neptu_mint: Address,
    /// The user's token balance, created where it is missing.
    pub user_neptu_account: Address,
    /// The balance that rewards are paid from.
    pub rewards_pool: Address,
    /// The account presented as the owner of the rewards pool.
    pub economy_authority: Address,
}

/// A claim that was found in order and is not paid yet: what was claimed, the
/// record as it will stand once the ledger has paid, and the requests that
/// pay.
#[derive(Debug, PartialEq, Eq)]
pub struct PendingClaim {
    pub amount: u64,
    pub nonce: u64,
    pub record: ClaimRecord,
    pub plan: Vec<Instruction>,
}

/// The record that accepting a claim leaves, or the reason why the claim is
/// not accepted. A claim must be for more than nothing. The first claim of a
/// user is accepted with any nonce; every later one needs a nonce above the
/// last accepted, and a total that still fits in sixty-four bits. A record
/// answers only to the user it is kept for.
pub open spec fn checked_claim(
    record: Option<ClaimRecord>,
    user: Address,
    amount: u64,
    nonce: u64,
) -> Result<ClaimRecord, NeptuError> {
    if amount == 0 {
        Err(NeptuError::InvalidAmount)
    } else {
        match record {
            None => Ok(ClaimRecord { user, last_nonce: nonce, total_claimed: amount }),
            Some(r) => if r.user != user {
                Err(NeptuError::Unauthorized)
            } else if nonce <= r.last_nonce {
                Err(NeptuError::NonceAlreadyUsed)
            } else if r.total_claimed + amount > u64::MAX {
                Err(NeptuError::Overflow)
            } else {
                Ok(
                    ClaimRecord {
                        user,
                        last_nonce: nonce,
                        total_claimed: (r.total_claimed + amount) as u64,
                    },
                )
            },
        }
    }
}

/// The record after a claim was handled: the new one where the claim was
/// accepted, the old one untouched where it was not.
pub open spec fn record_after(
    record: Option<ClaimRecord>,
    user: Address,
    amount: u64,
    nonce: u64,
) -> Option<ClaimRecord> {
    match checked_claim(record, user, amount, nonce) {
        Ok(r) => Some(r),
        Err(_) => record,
    }
}

/// The record after a run of claims by `user`, each given as its amount and
/// its nonce, handled in order.
pub open spec fn record_after_all(
    record: Option<ClaimRecord>,
    user: Address,
    claims: Seq<(u64, u64)>,
) -> Option<ClaimRecord>
    decreases claims.len(),
{
    if claims.len() == 0 {
        record
    } else {
        let before = record_after_all(record, user, claims.drop_last());
        record_after(before, user, claims.last().0, claims.last().1)
    }
}

/// Decides [`checked_claim`].
pub fn check_claim(record: &Option<ClaimRecord>, user: &Address, amount: u64, nonce: u64) -> (r:
    Result<ClaimRecord, NeptuError>)
    ensures
        r == checked_claim(*record, *user, amount, nonce),
{
    if amount == 0 {
        return Err(NeptuError::InvalidAmount);
    }
    match record {
        None => Ok(ClaimRecord { user: *user, last_nonce: nonce, total_claimed: amount }),
        Some(r) => {
            if r.user != *user {
                return Err(NeptuError::Unauthorized);
            }
            if nonce <= r.last_nonce {
                return Err(NeptuError::NonceAlreadyUsed);
            }
            match r.total_claimed.checked_add(amount) {
                Some(total_claimed) => Ok(
                    ClaimRecord { user: *user, last_nonce: nonce, total_claimed },
                ),
                None => Err(NeptuError::Overflow),
            }
        },
    }
}

/// The requests that pay a claim of `amount`: the user's balance is made sure
/// of, then the amount goes to it from the rewards pool under the economy's
/// identity. Nothing is minted.
pub open spec fn claim_payment(ctx: ClaimRewards, amount: u64, authority: ProgramAuthority) -> Seq<
    Instruction,
> {
    seq![
        Instruction::CreateTokenAccount {
            payer: ctx.user,
            account: ctx.user_neptu_account,
            owner: ctx.user,
            mint: ctx.neptu_mint,
        },
        Instruction::TransferTokens {
            from: ctx.rewards_pool,
            to: ctx.user_neptu_account,
            authority: Signer::Program(authority),
            amount,
        },
    ]
}

/// What [`claim_rewards`] answers when the derivation of the economy's
/// identity gave `authority`: the claim, the record to keep and the requests
/// that pay, or the rejection. The claim itself is judged first.
pub open spec fn claim_outcome(
    ctx: ClaimRewards,
    amount: u64,
    nonce: u64,
    authority: Option<ProgramAuthority>,
) -> Result<(u64, u64, ClaimRecord, Seq<Instruction>), NeptuError> {
    match checked_claim(ctx.claim_record, ctx.user, amount, nonce) {
        Err(e) => Err(e),
        Ok(record) => if authorizes(
            authority,
            Domain::Economy,
            ctx.program_id,
            ctx.economy_authority,
        ) {
            Ok((amount, nonce, record, claim_payment(ctx, amount, authority.unwrap())))
        } else {
            Err(NeptuError::Unauthorized)
        },
    }
}

/// An answer of [`claim_rewards`] with the plan as a sequence.
pub open spec fn pending_view(r: Result<PendingClaim, NeptuError>) -> Result<
    (u64, u64, ClaimRecord, Seq<Instruction>),
    NeptuError,
> {
    match r {
        Ok(pending) => Ok((pending.amount, pending.nonce, pending.record, pending.plan@)),
        Err(e) => Err(e),
    }
}

/// Judges a claim and plans its payment under the identity that the
/// derivation gave.
pub fn claim_rewards_signed_by(
    ctx: &ClaimRewards,
    amount: u64,
    nonce: u64,
    authority: Option<ProgramAuthority>,
) -> (r: Result<PendingClaim, NeptuError>)
    ensures
        pending_view(r) == claim_outcome(*ctx, amount, nonce, authority),
        r is Ok ==> authority == ProgramAuthority::derived(Domain::Economy, ctx.program_id),
{
    let record = match check_claim(&ctx.claim_record, &ctx.user, amount, nonce) {
        Ok(record) => record,
        Err(e) => {
            return Err(e);
        },
    };
    let signer = match authorize(
        authority,
        Domain::Economy,
        &ctx.program_id,
        &ctx.economy_authority,
    ) {
        Ok(a) => a,
        Err(e) => {
            return Err(e);
        },
    };
    let mut plan: Vec<Instruction> = Vec::new();
    plan.push(
        Instruction::CreateTokenAccount {
            payer: ctx.user,
            account: ctx.user_neptu_account,
            owner: ctx.user,
            mint: ctx.neptu_mint,
        },
    );
    plan.push(
        Instruction::TransferTokens {
            from: ctx.rewards_pool,
            to: ctx.user_neptu_account,
            authority: Signer::Program(signer),
            amount,
        },
    );
    assert(plan@ =~= claim_payment(*ctx, amount, signer));
    Ok(PendingClaim { amount, nonce, record, plan })
}

/// Judges a claim of `amount` reward tokens that comes with `nonce`, and plans
/// its payment from the rewards pool. The context is left as it is: the new
/// record is kept by [`settle_claim`] once the ledger has paid. The signature
/// is carried for the authority that co-signs the claim and is not examined
/// here.
pub fn claim_rewards(ctx: &ClaimRewards, amount: u64, nonce: u64, _signature: [u8; 64]) -> (r:
    Result<PendingClaim, NeptuError>)
    ensures
        pending_view(r) == claim_outcome(
            *ctx,
            amount,
            nonce,
            ProgramAuthority::derived(Domain::Economy, ctx.program_id),
        ),
{
    let authority = ProgramAuthority::derive(Domain::Economy, &ctx.program_id);
    claim_rewards_signed_by(ctx, amount, nonce, authority)
}

/// The record after a claim was settled on the ledger's report `paid`: the
/// claim takes effect, as far as it is still in order, where the ledger paid,
/// and the record stays as it was where the ledger did not.
pub open spec fn record_settled(
    record: Option<ClaimRecord>,
    user: Address,
    amount: u64,
    nonce: u64,
    paid: Result<(), NeptuError>,
) -> Option<ClaimRecord> {
    if paid is Ok {
        record_after(record, user, amount, nonce)
    } else {
        record
    }
}

/// Ends a claim on the ledger's report of its payment. Where the ledger paid,
/// the claim is judged once more against the record as it stands now, and
/// takes effect if it is still in order: a claim that was overtaken by a later
/// one is rejected here, so that the nonce never goes back. Where the ledger
/// did not pay, the context stays as it was and the ledger's reason is handed
/// on. So the record and the payment change together or not at all.
pub fn settle_claim(
    ctx: &mut ClaimRewards,
    pending: &PendingClaim,
    paid: Result<(), NeptuError>,
) -> (r: Result<(), NeptuError>)
    ensures
        *final(ctx) == (ClaimRewards {
            claim_record: record_settled(
                old(ctx).claim_record,
                old(ctx).user,
                pending.amount,
                pending.nonce,
                paid,
            ),
            ..*old(ctx)
        }),
        paid is Err ==> r == paid,
        paid is Ok ==> (r is Ok <==> checked_claim(
            old(ctx).claim_record,
            old(ctx).user,
            pending.amount,
            pending.nonce,
        ) is Ok),
        paid is Ok && r is Err ==> checked_claim(
            old(ctx).claim_record,
            old(ctx).user,
            pending.amount,
            pending.nonce,
        ) == Err::<ClaimRecord, NeptuError>(r.unwrap_err()),
{
    if paid.is_err() {
        return paid;
    }
    match check_claim(&ctx.claim_record, &ctx.user, pending.amount, pending.nonce) {
        Ok(record) => {
            ctx.claim_record = Some(record);
            paid
        },
        Err(e) => Err(e),
    }
}

/// A claim that is settled as paid on the context it was made for leaves the
/// record that the claim announced.
pub proof fn lemma_settled_as_announced(
    ctx: ClaimRewards,
    amount: u64,
    nonce: u64,
    authority: Option<ProgramAuthority>,
)
    requires
        claim_outcome(ctx, amount, nonce, authority) is Ok,
    ensures
        record_settled(ctx.claim_record, ctx.user, amount, nonce, Ok(())) == Some(
            claim_outcome(ctx, amount, nonce, authority).unwrap().2,
        ),
{
}

/// A claim for more than nothing, made under the economy's identity by the
/// owner of the record and with a total that fits, is accepted exactly when
/// there is no earlier claim or its nonce is above the last accepted one.
/// Otherwise it is rejected for its nonce.
pub proof fn lemma_claim_accepted_iff_nonce_advances(
    ctx: ClaimRewards,
    amount: u64,
    nonce: u64,
    authority: Option<ProgramAuthority>,
)
    requires
        amount > 0,
        authorizes(authority, Domain::Economy, ctx.program_id, ctx.economy_authority),
        ctx.claim_record matches Some(r) ==> r.user == ctx.user && r.total_claimed + amount
            <= u64::MAX,
    ensures
        claim_outcome(ctx, amount, nonce, authority) is Ok <==> (ctx.claim_record matches Some(r)
            ==> nonce > r.last_nonce),
        claim_outcome(ctx, amount, nonce, authority) is Err ==> claim_outcome(
            ctx,
            amount,
            nonce,
            authority,
        ) == Err::<(u64, u64, ClaimRecord, Seq<Instruction>), NeptuError>(
            NeptuError::NonceAlreadyUsed,
        ) && record_settled(ctx.claim_record, ctx.user, amount, nonce, Ok(()))
            == ctx.claim_record,
{
}

/// A claim for more than nothing that the record's owner makes, and whose
/// total fits, is accepted exactly when there is no earlier claim or its nonce
/// is above the last accepted one. A claim that is not accepted leaves the
/// record as it was.
pub proof fn lemma_accepted_iff_nonce_advances(
    record: Option<ClaimRecord>,
    user: Address,
    amount: u64,
    nonce: u64,
)
    requires
        amount > 0,
        record matches Some(r) ==> r.user == user && r.total_claimed + amount <= u64::MAX,
    ensures
        checked_claim(record, user, amount, nonce) is Ok <==> (record matches Some(r)
            ==> nonce > r.last_nonce),
        checked_claim(record, user, amount, nonce) is Err ==> checked_claim(
            record,
            user,
            amount,
            nonce,
        ) == Err::<ClaimRecord, NeptuError>(NeptuError::NonceAlreadyUsed) && record_after(
            record,
            user,
            amount,
            nonce,
        ) == record,
{
}

/// A claim that would carry the total past sixty-four bits is rejected as an
/// overflow, and the record keeps its nonce and its total.
pub proof fn lemma_overflow_rejected(record: ClaimRecord, amount: u64, nonce: u64)
    requires
        amount > 0,
        nonce > record.last_nonce,
        record.total_claimed + amount > u64::MAX,
    ensures
        checked_claim(Some(record), record.user, amount, nonce) == Err::<ClaimRecord, NeptuError>(
            NeptuError::Overflow,
        ),
        record_after(Some(record), record.user, amount, nonce) == Some(record),
{
}

/// An accepted claim sets the watermark to its nonce and adds its amount to
/// the total.
pub proof fn lemma_accepted_claim(
    record: Option<ClaimRecord>,
    user: Address,
    amount: u64,
    nonce: u64,
)
    requires
        checked_claim(record, user, amount, nonce) is Ok,
    ensures
        record_after(record, user, amount, nonce) matches Some(r) && r.user == user && r.last_nonce
            == nonce && r.total_claimed == amount + (match record {
            Some(before) => before.total_claimed as int,
            None => 0,
        }),
{
}

/// Whatever claims follow, a record stays, with its owner, and neither its
/// watermark nor its total ever goes down.
pub proof fn lemma_record_only_advances(record: ClaimRecord, user: Address, claims: Seq<(u64, u64)>)
    ensures
        record_after_all(Some(record), user, claims) matches Some(r) && r.user == record.user
            && r.last_nonce >= record.last_nonce && r.total_claimed >= record.total_claimed,
    decreases claims.len(),
{
    if claims.len() > 0 {
        lemma_record_only_advances(record, user, claims.drop_last());
    }
}

/// No nonce is accepted twice, and none below one that was accepted: once a
/// record stands at some nonce, then after any further claims a claim with
/// that nonce or a lower one is rejected, and changes nothing.
pub proof fn lemma_no_replay(
    record: ClaimRecord,
    claims: Seq<(u64, u64)>,
    amount: u64,
    nonce: u64,
)
    requires
        amount > 0,
        nonce <= record.last_nonce,
    ensures
        checked_claim(
            record_after_all(Some(record), record.user, claims),
            record.user,
            amount,
            nonce,
        ) == Err::<ClaimRecord, NeptuError>(NeptuError::NonceAlreadyUsed),
        record_after(
            record_after_all(Some(record), record.user, claims),
            record.user,
            amount,
            nonce,
        ) == record_after_all(Some(record), record.user, claims),
{
    lemma_record_only_advances(record, record.user, claims);
}

/// In a run of claims by a record's owner, the nonces of the accepted claims
/// rise strictly: a claim accepted later has a higher nonce than one accepted
/// earlier.
pub proof fn lemma_accepted_nonces_rise(
    record: Option<ClaimRecord>,
    user: Address,
    claims: Seq<(u64, u64)>,
    i: int,
    j: int,
)
    requires
        0 <= i < j < claims.len(),
        checked_claim(
            record_after_all(record, user, claims.take(i)),
            user,
            claims[i].0,
            claims[i].1,
        ) is Ok,
        checked_claim(
            record_after_all(record, user, claims.take(j)),
            user,
            claims[j].0,
            claims[j].1,
        ) is Ok,
    ensures
        claims[i].1 < claims[j].1,
{
    let before_i = record_after_all(record, user, claims.take(i));
    let at_i = record_after(before_i, user, claims[i].0, claims[i].1);
    lemma_accepted_claim(before_i, user, claims[i].0, claims[i].1);
    let accepted = at_i.unwrap();
    // The claims between the two, handled from the record that the earlier one left.
    let between = claims.subrange(i + 1, j);
    lemma_replay_splits(record, user, claims.take(j), i + 1);
    assert(claims.take(j).take(i + 1) =~= claims.take(i + 1));
    assert(claims.take(j).skip(i + 1) =~= between);
    assert(claims.take(i + 1).drop_last() =~= claims.take(i));
    assert(claims.take(i + 1).last() == claims[i]);
    assert(record_after_all(record, user, claims.take(i + 1)) == at_i);
    lemma_record_only_advances(accepted, user, between);
}

/// Handling a run of claims is handling its first part and then the rest.
pub proof fn lemma_replay_splits(
    record: Option<ClaimRecord>,
    user: Address,
    claims: Seq<(u64, u64)>,
    at: int,
)
    requires
        0 <= at <= claims.len(),
    ensures
        record_after_all(record, user, claims) == record_after_all(
            record_after_all(record, user, claims.take(at)),
            user,
            claims.skip(at),
        ),
    decreases claims.len(),
{
    if at == claims.len() {
        assert(claims.take(at) =~= claims);
        assert(claims.skip(at).len() == 0);
    } else {
        lemma_replay_splits(record, user, claims.drop_last(), at);
        assert(claims.drop_last().take(at) =~= claims.take(at));
        assert(claims.drop_last().skip(at) =~= claims.skip(at).drop_last());
        assert(claims.skip(at).last() == claims.last());
    }
}

} // verus!
