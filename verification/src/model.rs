//! The mathematical model of the store and the transition functions that
//! the executable operations are proved to follow, step for step.

use vstd::prelude::*;
use crate::messages::IdentityAction;
use crate::messages::IdentityError;
use crate::messages::IdentityEvent;
use crate::messages::NotFoundCause;
use crate::types::all_zero;
use crate::types::ClaimModel;
use crate::types::DataModel;
use crate::types::InfoHash;
use crate::types::PieceId;
use crate::types::PieceModel;
use crate::types::PublicKey;
use crate::types::Signature;
use crate::types::VerifierEntry;

verus! {

/// The abstract state of the store: the stored claims in order of
/// issuance, the id counter, and the owner's key.
#[verifier::ext_equal]
pub struct LedgerModel {
    /// The stored claims, in order of issuance.
    pub entries: Seq<PieceModel>,
    /// The id the next issued claim will receive.
    pub counter: PieceId,
    /// The key the store was created with.
    pub owner: PublicKey,
}

impl LedgerModel {
    /// Well-formedness of the store: the owner is a real key, piece ids
    /// grow strictly in issuance order and stay below the counter, and
    /// every stored claim is well formed.
    pub open spec fn wf(self) -> bool {
        &&& !all_zero(self.owner)
        &&& forall|i: int, j: int|
            0 <= i < j < self.entries.len() ==> (#[trigger] self.entries[i]).piece_id < (
            #[trigger] self.entries[j]).piece_id
        &&& forall|i: int|
            0 <= i < self.entries.len() ==> (#[trigger] self.entries[i]).piece_id < self.counter
        &&& forall|i: int| 0 <= i < self.entries.len() ==> (#[trigger] self.entries[i]).claim.wf()
    }

    /// Holds when the store has a claim about `subject` under `piece_id`.
    pub open spec fn has_claim(self, subject: PublicKey, piece_id: PieceId) -> bool {
        exists|i: int|
            0 <= i < self.entries.len() && (#[trigger] self.entries[i]).claim.subject == subject
                && self.entries[i].piece_id == piece_id
    }

    /// The position of that claim, when there is one. In a well-formed
    /// store the position is unique, since piece ids never repeat.
    pub open spec fn index_of(self, subject: PublicKey, piece_id: PieceId) -> int {
        choose|i: int|
            0 <= i < self.entries.len() && (#[trigger] self.entries[i]).claim.subject == subject
                && self.entries[i].piece_id == piece_id
    }

    /// The claim about `subject` stored under `piece_id`.
    pub open spec fn claim_of(self, subject: PublicKey, piece_id: PieceId) -> ClaimModel {
        self.entries[self.index_of(subject, piece_id)].claim
    }

    /// Holds when the store has at least one claim about `subject`.
    pub open spec fn has_subject(self, subject: PublicKey) -> bool {
        exists|i: int|
            0 <= i < self.entries.len() && (#[trigger] self.entries[i]).claim.subject == subject
    }

    /// The failure a lookup of `(subject, piece_id)` reports when the
    /// claim is absent.
    pub open spec fn lookup_failure(self, subject: PublicKey) -> IdentityError {
        if self.has_subject(subject) {
            IdentityError::NotFound(NotFoundCause::UnknownPiece)
        } else {
            IdentityError::NotFound(NotFoundCause::UnknownSubject)
        }
    }
}

/// In a well-formed store a piece id occurs at most once, so any position
/// holding `(subject, piece_id)` is the position [`LedgerModel::index_of`]
/// denotes.
pub proof fn lemma_index_of_unique(m: LedgerModel, subject: PublicKey, piece_id: PieceId, i: int)
    requires
        m.wf(),
        0 <= i < m.entries.len(),
        m.entries[i].claim.subject == subject,
        m.entries[i].piece_id == piece_id,
    ensures
        m.has_claim(subject, piece_id),
        m.index_of(subject, piece_id) == i,
{
    assert(m.has_claim(subject, piece_id));
    let k = m.index_of(subject, piece_id);
    if k < i {
        assert(m.entries[k].piece_id < m.entries[i].piece_id);
    }
    if i < k {
        assert(m.entries[i].piece_id < m.entries[k].piece_id);
    }
}

/// In a well-formed claim each verifier key occurs at most once, so any
/// position holding `key` is the position [`ClaimModel::verifier_index`]
/// denotes.
pub proof fn lemma_verifier_index_unique(c: ClaimModel, key: PublicKey, j: int)
    requires
        c.wf(),
        0 <= j < c.verifiers.len(),
        c.verifiers[j].verifier == key,
    ensures
        c.has_verifier(key),
        c.verifier_index(key) == j,
{
    assert(c.has_verifier(key));
    let k = c.verifier_index(key);
    if k < j {
        assert(c.verifiers[k].verifier != c.verifiers[j].verifier);
    }
    if j < k {
        assert(c.verifiers[j].verifier != c.verifiers[k].verifier);
    }
}

/// What one step leaves behind: the state after it and what it returned.
#[verifier::ext_equal]
pub struct StepOutcome {
    /// The store after the step.
    pub post: LedgerModel,
    /// The event or failure the step returned.
    pub result: Result<IdentityEvent, IdentityError>,
}

/// What issuing a claim does: with a zero issuer, subject or signature it
/// rejects the request and changes nothing; otherwise it appends a fresh
/// claim without attestations under the next id and advances the counter.
pub open spec fn issue_step(
    pre: LedgerModel,
    issuer: PublicKey,
    issuer_signature: Signature,
    subject: PublicKey,
    data: DataModel,
) -> StepOutcome {
    if all_zero(issuer) || all_zero(subject) || all_zero(issuer_signature) {
        StepOutcome { post: pre, result: Err(IdentityError::InvalidKey) }
    } else {
        let claim = ClaimModel {
            issuer,
            issuer_signature,
            subject,
            verifiers: Seq::empty(),
            data,
        };
        StepOutcome {
            post: LedgerModel {
                entries: pre.entries.push(PieceModel { piece_id: pre.counter, claim }),
                counter: (pre.counter + 1) as PieceId,
                owner: pre.owner,
            },
            result: Ok(
                IdentityEvent::ClaimIssued { issuer, subject, piece_id: pre.counter },
            ),
        }
    }
}

/// What changing a validation status does: zero keys are rejected, an
/// absent claim reports which half of the lookup failed, a party other
/// than the claim's issuer or subject is refused, and otherwise exactly
/// the located claim's flag is set. Setting the stored status again is
/// legal and returns the event once more.
pub open spec fn change_step(
    pre: LedgerModel,
    validator: PublicKey,
    subject: PublicKey,
    piece_id: PieceId,
    status: bool,
) -> StepOutcome {
    if all_zero(validator) || all_zero(subject) {
        StepOutcome { post: pre, result: Err(IdentityError::InvalidKey) }
    } else if !pre.has_claim(subject, piece_id) {
        StepOutcome { post: pre, result: Err(pre.lookup_failure(subject)) }
    } else {
        let i = pre.index_of(subject, piece_id);
        let c = pre.entries[i].claim;
        if c.issuer != validator && c.subject != validator {
            StepOutcome { post: pre, result: Err(IdentityError::Unauthorized) }
        } else {
            StepOutcome {
                post: LedgerModel {
                    entries: pre.entries.update(
                        i,
                        (PieceModel {
                            piece_id,
                            claim: ClaimModel { data: DataModel { valid: status, ..c.data }, ..c },
                        }),
                    ),
                    counter: pre.counter,
                    owner: pre.owner,
                },
                result: Ok(
                    IdentityEvent::ClaimValidationChanged { validator, subject, piece_id, status },
                ),
            }
        }
    }
}

/// What attesting a claim does: zero keys and signatures are rejected, an
/// absent claim reports which half of the lookup failed, the claim's own
/// issuer and subject are refused, and otherwise the verifier's entry is
/// stored — a repeated attestation by the same key overwrites its earlier
/// signature in place, so each verifier is listed at most once.
pub open spec fn verify_step(
    pre: LedgerModel,
    verifier: PublicKey,
    verifier_signature: Signature,
    subject: PublicKey,
    piece_id: PieceId,
) -> StepOutcome {
    if all_zero(verifier) || all_zero(subject) || all_zero(verifier_signature) {
        StepOutcome { post: pre, result: Err(IdentityError::InvalidKey) }
    } else if !pre.has_claim(subject, piece_id) {
        StepOutcome { post: pre, result: Err(pre.lookup_failure(subject)) }
    } else {
        let i = pre.index_of(subject, piece_id);
        let c = pre.entries[i].claim;
        if c.issuer == verifier || c.subject == verifier {
            StepOutcome { post: pre, result: Err(IdentityError::Unauthorized) }
        } else {
            let entry = VerifierEntry { verifier, signature: verifier_signature };
            let attested = if c.has_verifier(verifier) {
                c.verifiers.update(c.verifier_index(verifier), entry)
            } else {
                c.verifiers.push(entry)
            };
            StepOutcome {
                post: LedgerModel {
                    entries: pre.entries.update(
                        i,
                        (PieceModel {
                            piece_id,
                            claim: ClaimModel { verifiers: attested, ..c },
                        }),
                    ),
                    counter: pre.counter,
                    owner: pre.owner,
                },
                result: Ok(IdentityEvent::VerifiedClaim { verifier, subject, piece_id }),
            }
        }
    }
}

/// What a hash-membership check returns: a zero subject is rejected, an
/// absent claim reports which half of the lookup failed, and otherwise
/// the event says whether the hash belongs to the claim's fact set. The
/// store never changes.
pub open spec fn check_step(
    pre: LedgerModel,
    subject: PublicKey,
    piece_id: PieceId,
    hash: InfoHash,
) -> Result<IdentityEvent, IdentityError> {
    if all_zero(subject) {
        Err(IdentityError::InvalidKey)
    } else if !pre.has_claim(subject, piece_id) {
        Err(pre.lookup_failure(subject))
    } else {
        Ok(
            IdentityEvent::CheckedClaim {
                subject,
                piece_id,
                status: pre.claim_of(subject, piece_id).data.has_hash(hash),
            },
        )
    }
}

/// What one decoded request does to the store: the transition of the
/// operation it names. A hash check leaves the store as it is.
pub open spec fn action_step(pre: LedgerModel, action: IdentityAction) -> StepOutcome {
    match action {
        IdentityAction::IssueClaim { issuer, issuer_signature, subject, data } => issue_step(
            pre,
            issuer,
            issuer_signature,
            subject,
            data@,
        ),
        IdentityAction::ClaimValidationStatus { validator, subject, piece_id, status } => change_step(
            pre,
            validator,
            subject,
            piece_id,
            status,
        ),
        IdentityAction::VerifyClaim { verifier, verifier_signature, subject, piece_id } => verify_step(
            pre,
            verifier,
            verifier_signature,
            subject,
            piece_id,
        ),
        IdentityAction::CheckClaim { subject, piece_id, hash } => StepOutcome {
            post: pre,
            result: check_step(pre, subject, piece_id, hash),
        },
    }
}

/// The state the store reaches after performing a sequence of requests
/// in order, whether each of them succeeded or was rejected.
pub open spec fn run(pre: LedgerModel, actions: Seq<IdentityAction>) -> LedgerModel
    decreases actions.len(),
{
    if actions.len() == 0 {
        pre
    } else {
        run(action_step(pre, actions[0]).post, actions.drop_first())
    }
}

/// Holds when the id counter has headroom at every state the sequence
/// passes through — the counter is 128 bits wide, so every run a machine
/// can perform satisfies this.
pub open spec fn no_counter_overflow(pre: LedgerModel, actions: Seq<IdentityAction>) -> bool
    decreases actions.len(),
{
    actions.len() == 0 || (pre.counter < PieceId::MAX && no_counter_overflow(
        action_step(pre, actions[0]).post,
        actions.drop_first(),
    ))
}

/// Issuing preserves well-formedness: the fresh claim carries checked
/// keys and no attestations, its id is the old counter, which exceeds
/// every stored id and stays below the advanced counter.
pub proof fn lemma_issue_preserves_wf(
    pre: LedgerModel,
    issuer: PublicKey,
    issuer_signature: Signature,
    subject: PublicKey,
    data: DataModel,
)
    requires
        pre.wf(),
        pre.counter < PieceId::MAX,
    ensures
        issue_step(pre, issuer, issuer_signature, subject, data).post.wf(),
{
    let post = issue_step(pre, issuer, issuer_signature, subject, data).post;
    if !(all_zero(issuer) || all_zero(subject) || all_zero(issuer_signature)) {
        assert forall|i: int, j: int| 0 <= i < j < post.entries.len() implies (
        #[trigger] post.entries[i]).piece_id < (#[trigger] post.entries[j]).piece_id by {
            if j < pre.entries.len() {
                assert(pre.entries[i].piece_id < pre.entries[j].piece_id);
            } else {
                assert(pre.entries[i].piece_id < pre.counter);
            }
        }
        assert forall|i: int| 0 <= i < post.entries.len() implies (
        #[trigger] post.entries[i]).claim.wf() by {
            if i < pre.entries.len() {
                assert(pre.entries[i].claim.wf());
            }
        }
    }
}

/// Setting a validation status preserves well-formedness: only one
/// claim's flag changes, and well-formedness does not depend on it.
pub proof fn lemma_change_preserves_wf(
    pre: LedgerModel,
    validator: PublicKey,
    subject: PublicKey,
    piece_id: PieceId,
    status: bool,
)
    requires
        pre.wf(),
    ensures
        change_step(pre, validator, subject, piece_id, status).post.wf(),
{
    let post = change_step(pre, validator, subject, piece_id, status).post;
    assert forall|k: int| 0 <= k < post.entries.len() implies (
    #[trigger] post.entries[k]).claim.wf() by {
        assert(pre.entries[k].claim.wf());
    }
    assert forall|i: int, j: int| 0 <= i < j < post.entries.len() implies (
    #[trigger] post.entries[i]).piece_id < (#[trigger] post.entries[j]).piece_id by {
        assert(pre.entries[i].piece_id < pre.entries[j].piece_id);
    }
    assert forall|i: int| 0 <= i < post.entries.len() implies (#[trigger] post.entries[i]).piece_id
        < post.counter by {
        assert(pre.entries[i].piece_id < pre.counter);
    }
}

/// Attesting preserves well-formedness: the stored entry carries checked
/// keys, the attesting key differs from the claim's issuer and subject,
/// and an overwrite keeps the keys distinct while an append adds a key
/// that was not listed before.
pub proof fn lemma_verify_preserves_wf(
    pre: LedgerModel,
    verifier: PublicKey,
    verifier_signature: Signature,
    subject: PublicKey,
    piece_id: PieceId,
)
    requires
        pre.wf(),
    ensures
        verify_step(pre, verifier, verifier_signature, subject, piece_id).post.wf(),
{
    let step = verify_step(pre, verifier, verifier_signature, subject, piece_id);
    let post = step.post;
    if step.result is Ok {
        let i = pre.index_of(subject, piece_id);
        let c = pre.entries[i].claim;
        let nc = post.entries[i].claim;
        assert(c.wf());
        assert forall|a: int| 0 <= a < nc.verifiers.len() implies {
            &&& !all_zero((#[trigger] nc.verifiers[a]).verifier)
            &&& !all_zero(nc.verifiers[a].signature)
            &&& nc.verifiers[a].verifier != nc.issuer
            &&& nc.verifiers[a].verifier != nc.subject
        } by {
            if a < c.verifiers.len() && nc.verifiers[a] == c.verifiers[a] {
                assert(c.wf());
            }
        }
        assert forall|a: int, b: int| 0 <= a < b < nc.verifiers.len() implies (
        #[trigger] nc.verifiers[a]).verifier != (#[trigger] nc.verifiers[b]).verifier by {
            if !c.has_verifier(verifier) {
                if b == c.verifiers.len() {
                    assert(c.verifiers[a].verifier != verifier);
                }
            }
        }
        assert(nc.wf());
        assert forall|k: int| 0 <= k < post.entries.len() implies (
        #[trigger] post.entries[k]).claim.wf() by {
            if k != i {
                assert(pre.entries[k].claim.wf());
            }
        }
        assert forall|a: int, b: int| 0 <= a < b < post.entries.len() implies (
        #[trigger] post.entries[a]).piece_id < (#[trigger] post.entries[b]).piece_id by {
            assert(pre.entries[a].piece_id < pre.entries[b].piece_id);
        }
        assert forall|a: int| 0 <= a < post.entries.len() implies (
        #[trigger] post.entries[a]).piece_id < post.counter by {
            assert(pre.entries[a].piece_id < pre.counter);
        }
    }
}

} // verus!
