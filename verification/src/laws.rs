//! The guarantees the ledger is designed around, each stated in full
//! generality over the model of [`crate::model`] and proved from the
//! transition functions that the executable operations follow.

use vstd::prelude::*;
use crate::messages::IdentityAction;
use crate::messages::IdentityError;
use crate::messages::IdentityEvent;
use crate::model::action_step;
use crate::model::change_step;
use crate::model::check_step;
use crate::model::issue_step;
use crate::model::lemma_change_preserves_wf;
use crate::model::lemma_index_of_unique;
use crate::model::lemma_issue_preserves_wf;
use crate::model::lemma_verify_preserves_wf;
use crate::model::no_counter_overflow;
use crate::model::run;
use crate::model::verify_step;
use crate::model::LedgerModel;
use crate::types::all_zero;
use crate::types::DataModel;
use crate::types::InfoHash;
use crate::types::PieceId;
use crate::types::PublicKey;
use crate::types::Signature;

verus! {

/// No request ever lowers the id counter.
pub proof fn lemma_step_counter_monotonic(pre: LedgerModel, action: IdentityAction)
    requires
        pre.counter < PieceId::MAX,
    ensures
        pre.counter <= action_step(pre, action).post.counter,
{
}

/// Across a whole sequence of requests the id counter never decreases.
pub proof fn lemma_run_counter_monotonic(pre: LedgerModel, actions: Seq<IdentityAction>)
    requires
        no_counter_overflow(pre, actions),
    ensures
        pre.counter <= run(pre, actions).counter,
    decreases actions.len(),
{
    if actions.len() > 0 {
        let next = action_step(pre, actions[0]).post;
        lemma_step_counter_monotonic(pre, actions[0]);
        lemma_run_counter_monotonic(next, actions.drop_first());
    }
}

/// Law: piece ids are assigned monotonically. Whatever requests are
/// performed in between and whatever the subjects are, of two successful
/// issuances the later one is assigned a strictly larger piece id than
/// the earlier one — ids never repeat and never decrease.
pub proof fn lemma_issued_ids_monotonic(
    pre: LedgerModel,
    issuer1: PublicKey,
    signature1: Signature,
    subject1: PublicKey,
    data1: DataModel,
    between: Seq<IdentityAction>,
    issuer2: PublicKey,
    signature2: Signature,
    subject2: PublicKey,
    data2: DataModel,
)
    requires
        pre.counter < PieceId::MAX,
        issue_step(pre, issuer1, signature1, subject1, data1).result is Ok,
        no_counter_overflow(issue_step(pre, issuer1, signature1, subject1, data1).post, between),
        issue_step(
            run(issue_step(pre, issuer1, signature1, subject1, data1).post, between),
            issuer2,
            signature2,
            subject2,
            data2,
        ).result is Ok,
    ensures
        issue_step(pre, issuer1, signature1, subject1, data1).result == Ok::<
            IdentityEvent,
            IdentityError,
        >(IdentityEvent::ClaimIssued { issuer: issuer1, subject: subject1, piece_id: pre.counter }),
        issue_step(
            run(issue_step(pre, issuer1, signature1, subject1, data1).post, between),
            issuer2,
            signature2,
            subject2,
            data2,
        ).result == Ok::<IdentityEvent, IdentityError>(
            IdentityEvent::ClaimIssued {
                issuer: issuer2,
                subject: subject2,
                piece_id: run(
                    issue_step(pre, issuer1, signature1, subject1, data1).post,
                    between,
                ).counter,
            },
        ),
        pre.counter < run(issue_step(pre, issuer1, signature1, subject1, data1).post, between).counter,
{
    let m1 = issue_step(pre, issuer1, signature1, subject1, data1).post;
    lemma_run_counter_monotonic(m1, between);
}

/// Holds when a request carries the reserved all-zero value in one of
/// its key or signature fields.
pub open spec fn names_zero_key(action: IdentityAction) -> bool {
    match action {
        IdentityAction::IssueClaim { issuer, issuer_signature, subject, .. } => all_zero(issuer)
            || all_zero(subject) || all_zero(issuer_signature),
        IdentityAction::ClaimValidationStatus { validator, subject, .. } => all_zero(validator)
            || all_zero(subject),
        IdentityAction::VerifyClaim { verifier, verifier_signature, subject, .. } => all_zero(
            verifier,
        ) || all_zero(subject) || all_zero(verifier_signature),
        IdentityAction::CheckClaim { subject, .. } => all_zero(subject),
    }
}

/// Law: zero keys are rejected. A request that carries the reserved
/// all-zero value in any key or signature field fails with
/// [`IdentityError::InvalidKey`] and leaves the store exactly as it was.
pub proof fn lemma_zero_key_rejected(pre: LedgerModel, action: IdentityAction)
    requires
        names_zero_key(action),
    ensures
        action_step(pre, action).post == pre,
        action_step(pre, action).result == Err::<IdentityEvent, IdentityError>(
            IdentityError::InvalidKey,
        ),
{
}

/// Law: only the issuer or the subject may set a claim's validation
/// status. Where the claim exists and the keys are real, the request
/// succeeds exactly when the acting key is the claim's issuer or its
/// subject; any other key is refused with [`IdentityError::Unauthorized`]
/// and the store — the claim's flag included — stays as it was. On
/// success the stored claim carries the requested status.
pub proof fn lemma_change_status_authorization(
    pre: LedgerModel,
    validator: PublicKey,
    subject: PublicKey,
    piece_id: PieceId,
    status: bool,
)
    requires
        pre.wf(),
        !all_zero(validator),
        !all_zero(subject),
        pre.has_claim(subject, piece_id),
    ensures
        change_step(pre, validator, subject, piece_id, status).result is Ok <==> (validator
            == pre.claim_of(subject, piece_id).issuer || validator == subject),
        !(validator == pre.claim_of(subject, piece_id).issuer || validator == subject) ==> (
        change_step(pre, validator, subject, piece_id, status).result == Err::<
            IdentityEvent,
            IdentityError,
        >(IdentityError::Unauthorized) && change_step(
            pre,
            validator,
            subject,
            piece_id,
            status,
        ).post == pre),
        change_step(pre, validator, subject, piece_id, status).result is Ok ==> change_step(
            pre,
            validator,
            subject,
            piece_id,
            status,
        ).post.claim_of(subject, piece_id).data.valid == status,
{
    let i = pre.index_of(subject, piece_id);
    let step = change_step(pre, validator, subject, piece_id, status);
    if step.result is Ok {
        lemma_change_preserves_wf(pre, validator, subject, piece_id, status);
        lemma_index_of_unique(step.post, subject, piece_id, i);
    }
}

/// Law: nobody attests their own claim. Where the claim exists and the
/// keys and signature are real, attesting fails with
/// [`IdentityError::Unauthorized`] exactly when the attesting key is the
/// claim's issuer or its subject, and the store stays as it was; any
/// other key succeeds and is recorded on the claim.
pub proof fn lemma_self_verification_rejected(
    pre: LedgerModel,
    verifier: PublicKey,
    verifier_signature: Signature,
    subject: PublicKey,
    piece_id: PieceId,
)
    requires
        pre.wf(),
        !all_zero(verifier),
        !all_zero(subject),
        !all_zero(verifier_signature),
        pre.has_claim(subject, piece_id),
    ensures
        verify_step(pre, verifier, verifier_signature, subject, piece_id).result is Ok <==> !(
        verifier == pre.claim_of(subject, piece_id).issuer || verifier == subject),
        (verifier == pre.claim_of(subject, piece_id).issuer || verifier == subject) ==> (
        verify_step(pre, verifier, verifier_signature, subject, piece_id).result == Err::<
            IdentityEvent,
            IdentityError,
        >(IdentityError::Unauthorized) && verify_step(
            pre,
            verifier,
            verifier_signature,
            subject,
            piece_id,
        ).post == pre),
        verify_step(pre, verifier, verifier_signature, subject, piece_id).result is Ok
            ==> verify_step(
            pre,
            verifier,
            verifier_signature,
            subject,
            piece_id,
        ).post.claim_of(subject, piece_id).has_verifier(verifier),
{
    lemma_verifier_recorded_once(pre, verifier, verifier_signature, subject, piece_id);
}

/// Law: a successful attestation records the verifier exactly once.
/// After `verifier` attests, the stored claim lists its key — with the
/// signature it supplied — at exactly one position, however often the
/// same key attested before.
pub proof fn lemma_verifier_recorded_once(
    pre: LedgerModel,
    verifier: PublicKey,
    verifier_signature: Signature,
    subject: PublicKey,
    piece_id: PieceId,
)
    requires
        pre.wf(),
    ensures
        verify_step(pre, verifier, verifier_signature, subject, piece_id).result is Ok ==> {
            let claim = verify_step(
                pre,
                verifier,
                verifier_signature,
                subject,
                piece_id,
            ).post.claim_of(subject, piece_id);
            &&& claim.has_verifier(verifier)
            &&& claim.verifiers[claim.verifier_index(verifier)].signature == verifier_signature
            &&& forall|a: int, b: int|
                (0 <= a < claim.verifiers.len() && 0 <= b < claim.verifiers.len() && (
                #[trigger] claim.verifiers[a]).verifier == verifier && (
                #[trigger] claim.verifiers[b]).verifier == verifier) ==> a == b
        },
{
    let step = verify_step(pre, verifier, verifier_signature, subject, piece_id);
    if step.result is Ok {
        let i = pre.index_of(subject, piece_id);
        let c = pre.entries[i].claim;
        lemma_verify_preserves_wf(pre, verifier, verifier_signature, subject, piece_id);
        lemma_index_of_unique(step.post, subject, piece_id, i);
        let claim = step.post.claim_of(subject, piece_id);
        if c.has_verifier(verifier) {
            let j = c.verifier_index(verifier);
            crate::model::lemma_verifier_index_unique(claim, verifier, j);
        } else {
            let j = c.verifiers.len() as int;
            crate::model::lemma_verifier_index_unique(claim, verifier, j);
        }
        assert forall|a: int, b: int|
            (0 <= a < claim.verifiers.len() && 0 <= b < claim.verifiers.len() && (
            #[trigger] claim.verifiers[a]).verifier == verifier && (
            #[trigger] claim.verifiers[b]).verifier == verifier) implies a == b by {
            if a < b {
                assert(claim.verifiers[a].verifier != claim.verifiers[b].verifier);
            }
            if b < a {
                assert(claim.verifiers[b].verifier != claim.verifiers[a].verifier);
            }
        }
    }
}

/// Law: hash membership round-trips through issuance. A hash check
/// against a freshly issued claim answers `true` exactly for the hashes
/// the claim was issued with, and `false` for every other hash.
pub proof fn lemma_check_after_issue(
    pre: LedgerModel,
    issuer: PublicKey,
    issuer_signature: Signature,
    subject: PublicKey,
    data: DataModel,
    hash: InfoHash,
)
    requires
        pre.wf(),
        pre.counter < PieceId::MAX,
        issue_step(pre, issuer, issuer_signature, subject, data).result is Ok,
    ensures
        check_step(
            issue_step(pre, issuer, issuer_signature, subject, data).post,
            subject,
            pre.counter,
            hash,
        ) == Ok::<IdentityEvent, IdentityError>(
            IdentityEvent::CheckedClaim {
                subject,
                piece_id: pre.counter,
                status: data.hashed_info.contains(hash),
            },
        ),
{
    let post = issue_step(pre, issuer, issuer_signature, subject, data).post;
    lemma_issue_preserves_wf(pre, issuer, issuer_signature, subject, data);
    lemma_index_of_unique(post, subject, pre.counter, pre.entries.len() as int);
}

/// Law: issued ids stay below the counter. Whatever claim the store
/// holds, its id is strictly smaller than the id the next issuance will
/// assign — so a fresh id never collides with a stored one.
pub proof fn lemma_ids_below_counter(pre: LedgerModel, subject: PublicKey, piece_id: PieceId)
    requires
        pre.wf(),
        pre.has_claim(subject, piece_id),
    ensures
        piece_id < pre.counter,
{
    let i = pre.index_of(subject, piece_id);
    assert(pre.entries[i].piece_id < pre.counter);
}

/// Law: claims are never removed and their issuance record never
/// rewritten. Whatever request is performed, every stored claim is still
/// there afterwards, under the same id, with the same issuer, signature,
/// subject, fact hashes and issuance date — only the validation flag and
/// the attestation list can ever change, and only through their own
/// operations.
pub proof fn lemma_claims_persist(
    pre: LedgerModel,
    action: IdentityAction,
    subject: PublicKey,
    piece_id: PieceId,
)
    requires
        pre.wf(),
        pre.counter < PieceId::MAX,
        pre.has_claim(subject, piece_id),
    ensures
        action_step(pre, action).post.has_claim(subject, piece_id),
        action_step(pre, action).post.claim_of(subject, piece_id).issuer == pre.claim_of(
            subject,
            piece_id,
        ).issuer,
        action_step(pre, action).post.claim_of(subject, piece_id).issuer_signature == pre.claim_of(
            subject,
            piece_id,
        ).issuer_signature,
        action_step(pre, action).post.claim_of(subject, piece_id).subject == pre.claim_of(
            subject,
            piece_id,
        ).subject,
        action_step(pre, action).post.claim_of(subject, piece_id).data.hashed_info == pre.claim_of(
            subject,
            piece_id,
        ).data.hashed_info,
        action_step(pre, action).post.claim_of(subject, piece_id).data.issuance_date
            == pre.claim_of(subject, piece_id).data.issuance_date,
{
    let i = pre.index_of(subject, piece_id);
    let step = action_step(pre, action);
    let post = step.post;
    lemma_step_preserves_wf(pre, action);
    match action {
        IdentityAction::IssueClaim { .. } => {
            assert(post.entries[i] == pre.entries[i]);
            lemma_index_of_unique(post, subject, piece_id, i);
        },
        IdentityAction::ClaimValidationStatus { subject: s2, piece_id: p2, .. } => {
            if step.result is Ok {
                let j = pre.index_of(s2, p2);
                if i != j {
                    assert(post.entries[i] == pre.entries[i]);
                }
                assert(post.entries[i].claim.subject == subject);
                assert(post.entries[i].piece_id == piece_id);
                lemma_index_of_unique(post, subject, piece_id, i);
            }
        },
        IdentityAction::VerifyClaim { subject: s2, piece_id: p2, .. } => {
            if step.result is Ok {
                let j = pre.index_of(s2, p2);
                if i != j {
                    assert(post.entries[i] == pre.entries[i]);
                }
                assert(post.entries[i].claim.subject == subject);
                assert(post.entries[i].piece_id == piece_id);
                lemma_index_of_unique(post, subject, piece_id, i);
            }
        },
        IdentityAction::CheckClaim { .. } => {},
    }
}

/// Every request performed with counter headroom preserves
/// well-formedness of the store.
pub proof fn lemma_step_preserves_wf(pre: LedgerModel, action: IdentityAction)
    requires
        pre.wf(),
        pre.counter < PieceId::MAX,
    ensures
        action_step(pre, action).post.wf(),
{
    match action {
        IdentityAction::IssueClaim { issuer, issuer_signature, subject, data } => {
            lemma_issue_preserves_wf(pre, issuer, issuer_signature, subject, data@);
        },
        IdentityAction::ClaimValidationStatus { validator, subject, piece_id, status } => {
            lemma_change_preserves_wf(pre, validator, subject, piece_id, status);
        },
        IdentityAction::VerifyClaim { verifier, verifier_signature, subject, piece_id } => {
            lemma_verify_preserves_wf(pre, verifier, verifier_signature, subject, piece_id);
        },
        IdentityAction::CheckClaim { .. } => {},
    }
}

/// Law: a successful status change is immediately visible. After the
/// store accepts a status change, the stored claim — and with it every
/// query that reads the flag — reports the new status.
pub proof fn lemma_status_change_visible(
    pre: LedgerModel,
    validator: PublicKey,
    subject: PublicKey,
    piece_id: PieceId,
    status: bool,
)
    requires
        pre.wf(),
        change_step(pre, validator, subject, piece_id, status).result is Ok,
    ensures
        change_step(pre, validator, subject, piece_id, status).post.has_claim(subject, piece_id),
        change_step(pre, validator, subject, piece_id, status).post.claim_of(
            subject,
            piece_id,
        ).data.valid == status,
{
    let step = change_step(pre, validator, subject, piece_id, status);
    let i = pre.index_of(subject, piece_id);
    lemma_change_preserves_wf(pre, validator, subject, piece_id, status);
    lemma_index_of_unique(step.post, subject, piece_id, i);
}

} // verus!

