//! The claim store and its operations. Every mutating operation is proved
//! to follow the matching transition function of [`crate::model`] exactly:
//! one state change plus one event on success, or a typed rejection that
//! leaves the store untouched.

use vstd::prelude::*;
use crate::messages::IdentityError;
use crate::messages::IdentityEvent;
use crate::messages::IdentityAction;
use crate::messages::IdentityStateQuery;
use crate::messages::IdentityStateReply;
use crate::messages::NotFoundCause;
use crate::model::action_step;
use crate::model::change_step;
use crate::model::check_step;
use crate::model::issue_step;
use crate::model::lemma_index_of_unique;
use crate::model::lemma_verifier_index_unique;
use crate::model::verify_step;
use crate::model::LedgerModel;
use crate::types::all_zero;
use crate::types::bytes_all_zero;
use crate::types::bytes_eq;
use crate::types::Claim;
use crate::types::ClaimData;
use crate::types::contains_hash;
use crate::types::InfoHash;
use crate::types::PieceModel;
use crate::types::PieceId;
use crate::types::PublicKey;
use crate::types::Signature;
use crate::types::StoredClaim;
use crate::types::VerifierEntry;

verus! {

/// The authoritative store of claims.
///
/// Claims live in a vector ordered by issuance; since piece ids are
/// assigned from a counter that only grows, the order is also strictly
/// increasing in piece id, and a `(subject, piece_id)` pair denotes at
/// most one entry. The counter starts at `0`, so the first claim ever
/// issued receives piece id `0`.
pub struct IdentityStorage {
    claims: Vec<StoredClaim>,
    piece_counter: PieceId,
    owner: PublicKey,
}

impl View for IdentityStorage {
    type V = LedgerModel;

    closed spec fn view(&self) -> LedgerModel {
        LedgerModel {
            entries: self.claims@.map_values(|sc: StoredClaim| sc@),
            counter: self.piece_counter,
            owner: self.owner,
        }
    }
}

impl IdentityStorage {
    /// Creates an empty store owned by `owner`. The reserved zero key is
    /// rejected; the piece id counter starts at `0`.
    pub fn new(owner: PublicKey) -> (r: Result<IdentityStorage, IdentityError>)
        ensures
            r is Err <==> all_zero(owner),
            r matches Err(e) ==> e == IdentityError::InvalidKey,
            r matches Ok(l) ==> l@ == (LedgerModel {
                entries: Seq::<PieceModel>::empty(),
                counter: 0,
                owner,
            }) && l@.wf(),
    {
        if bytes_all_zero(&owner) {
            return Err(IdentityError::InvalidKey);
        }
        let l = IdentityStorage { claims: Vec::new(), piece_counter: 0, owner };
        proof {
            assert(l@ =~~= (LedgerModel {
                entries: Seq::<PieceModel>::empty(),
                counter: 0,
                owner,
            }));
        }
        Ok(l)
    }

    /// Finds the position of the claim about `subject` stored under
    /// `piece_id`, and reports whether the subject has any claim at all.
    fn locate(&self, subject: &PublicKey, piece_id: PieceId) -> (r: (Option<usize>, bool))
        ensures
            r.1 == self@.has_subject(*subject),
            r.0 matches Some(i) ==> 0 <= i < self@.entries.len()
                && self@.entries[i as int].claim.subject == *subject
                && self@.entries[i as int].piece_id == piece_id,
            r.0 is None ==> !self@.has_claim(*subject, piece_id),
    {
        let mut subject_seen = false;
        let mut i: usize = 0;
        while i < self.claims.len()
            invariant
                0 <= i <= self.claims.len(),
                self@.entries.len() == self.claims@.len(),
                forall|j: int|
                    0 <= j < self.claims@.len() ==> #[trigger] self@.entries[j] == self.claims@[j]@,
                forall|j: int|
                    0 <= j < i ==> !((#[trigger] self@.entries[j]).claim.subject == *subject
                        && self@.entries[j].piece_id == piece_id),
                subject_seen == exists|j: int|
                    0 <= j < i && (#[trigger] self@.entries[j]).claim.subject == *subject,
            decreases self.claims.len() - i,
        {
            if bytes_eq(&self.claims[i].claim.subject, subject) {
                subject_seen = true;
                assert((self@.entries[i as int]).claim.subject == *subject);
                if self.claims[i].piece_id == piece_id {
                    return (Some(i), true);
                }
            }
            i = i + 1;
        }
        proof {
            if self@.has_claim(*subject, piece_id) {
                let j = choose|j: int|
                    0 <= j < self@.entries.len() && (#[trigger] self@.entries[j]).claim.subject
                        == *subject && self@.entries[j].piece_id == piece_id;
                assert(false);
            }
        }
        (None, subject_seen)
    }

    /// Stores a new claim that `issuer` makes about `subject`.
    ///
    /// Rejects the reserved zero value in either key or in the signature
    /// with [`IdentityError::InvalidKey`] and changes nothing. Otherwise
    /// the claim is stored without attestations under the next piece id,
    /// the counter advances, and the returned event repeats the issuer,
    /// the subject and the assigned id. No uniqueness check is made
    /// against earlier claims: every issuance fills a fresh slot.
    pub fn issue_claim(
        &mut self,
        issuer: PublicKey,
        issuer_signature: Signature,
        subject: PublicKey,
        data: ClaimData,
    ) -> (r: Result<IdentityEvent, IdentityError>)
        requires
            old(self)@.wf(),
            old(self)@.counter < PieceId::MAX,
        ensures
            final(self)@.wf(),
            final(self)@ == issue_step(old(self)@, issuer, issuer_signature, subject, data@).post,
            r == issue_step(old(self)@, issuer, issuer_signature, subject, data@).result,
    {
        let ghost step = issue_step(old(self)@, issuer, issuer_signature, subject, data@);
        if bytes_all_zero(&issuer) || bytes_all_zero(&subject) || bytes_all_zero(
            &issuer_signature,
        ) {
            return Err(IdentityError::InvalidKey);
        }
        let piece_id = self.piece_counter;
        let claim = Claim { issuer, issuer_signature, subject, verifiers: Vec::new(), data };
        self.claims.push(StoredClaim { piece_id, claim });
        self.piece_counter = self.piece_counter + 1;
        proof {
            assert(self@ =~~= step.post);
            crate::model::lemma_issue_preserves_wf(old(self)@, issuer, issuer_signature, subject, data@);
        }
        Ok(IdentityEvent::ClaimIssued { issuer, subject, piece_id })
    }

    /// Sets the validation status of the claim about `subject` stored
    /// under `piece_id`.
    ///
    /// Rejects the reserved zero value in either key with
    /// [`IdentityError::InvalidKey`], an absent claim with
    /// [`IdentityError::NotFound`], and any `validator` other than the
    /// claim's issuer or subject with [`IdentityError::Unauthorized`];
    /// every rejection leaves the store unchanged. On success exactly the
    /// located claim's flag is set — storing the same status again is
    /// legal and returns the event once more.
    pub fn change_validation_status(
        &mut self,
        validator: PublicKey,
        subject: PublicKey,
        piece_id: PieceId,
        status: bool,
    ) -> (r: Result<IdentityEvent, IdentityError>)
        requires
            old(self)@.wf(),
        ensures
            final(self)@.wf(),
            final(self)@ == change_step(old(self)@, validator, subject, piece_id, status).post,
            r == change_step(old(self)@, validator, subject, piece_id, status).result,
    {
        let ghost pre = old(self)@;
        let ghost step = change_step(pre, validator, subject, piece_id, status);
        if bytes_all_zero(&validator) || bytes_all_zero(&subject) {
            return Err(IdentityError::InvalidKey);
        }
        let (found, subject_seen) = self.locate(&subject, piece_id);
        match found {
            None => Err(lookup_error(subject_seen)),
            Some(i) => {
                proof {
                    lemma_index_of_unique(pre, subject, piece_id, i as int);
                }
                let authorized = bytes_eq(&self.claims[i].claim.issuer, &validator) || bytes_eq(
                    &self.claims[i].claim.subject,
                    &validator,
                );
                if !authorized {
                    return Err(IdentityError::Unauthorized);
                }
                let mut sc = self.claims.remove(i);
                sc.claim.data.valid = status;
                self.claims.insert(i, sc);
                proof {
                    assert(self@.entries =~= pre.entries.update(i as int, self.claims@[i as int]@));
                    assert(self@ =~~= step.post);
                    crate::model::lemma_change_preserves_wf(pre, validator, subject, piece_id, status);
                }
                Ok(IdentityEvent::ClaimValidationChanged { validator, subject, piece_id, status })
            },
        }
    }

    /// Records `verifier`'s attestation of the claim about `subject`
    /// stored under `piece_id`.
    ///
    /// Rejects the reserved zero value in either key or in the signature
    /// with [`IdentityError::InvalidKey`], an absent claim with
    /// [`IdentityError::NotFound`], and the claim's own issuer or subject
    /// with [`IdentityError::Unauthorized`] — a party cannot attest its
    /// own claim; every rejection leaves the store unchanged. On success
    /// the verifier's key and signature are stored; a repeated
    /// attestation by the same key overwrites its earlier signature in
    /// place, so each verifier is listed at most once.
    pub fn verify_claim(
        &mut self,
        verifier: PublicKey,
        verifier_signature: Signature,
        subject: PublicKey,
        piece_id: PieceId,
    ) -> (r: Result<IdentityEvent, IdentityError>)
        requires
            old(self)@.wf(),
        ensures
            final(self)@.wf(),
            final(self)@ == verify_step(
                old(self)@,
                verifier,
                verifier_signature,
                subject,
                piece_id,
            ).post,
            r == verify_step(old(self)@, verifier, verifier_signature, subject, piece_id).result,
    {
        let ghost pre = old(self)@;
        let ghost step = verify_step(pre, verifier, verifier_signature, subject, piece_id);
        if bytes_all_zero(&verifier) || bytes_all_zero(&subject) || bytes_all_zero(
            &verifier_signature,
        ) {
            return Err(IdentityError::InvalidKey);
        }
        let (found, subject_seen) = self.locate(&subject, piece_id);
        match found {
            None => Err(lookup_error(subject_seen)),
            Some(i) => {
                proof {
                    lemma_index_of_unique(pre, subject, piece_id, i as int);
                }
                if bytes_eq(&self.claims[i].claim.issuer, &verifier) || bytes_eq(
                    &self.claims[i].claim.subject,
                    &verifier,
                ) {
                    return Err(IdentityError::Unauthorized);
                }
                let ghost c = pre.entries[i as int].claim;
                let mut sc = self.claims.remove(i);
                let pos = find_verifier(&sc.claim.verifiers, &verifier);
                let entry = VerifierEntry { verifier, signature: verifier_signature };
                match pos {
                    Some(j) => {
                        proof {
                            lemma_verifier_index_unique(c, verifier, j as int);
                        }
                        sc.claim.verifiers[j] = entry;
                    },
                    None => {
                        sc.claim.verifiers.push(entry);
                    },
                }
                self.claims.insert(i, sc);
                proof {
                    assert(self@.entries =~= pre.entries.update(i as int, self.claims@[i as int]@));
                    assert(self@ =~~= step.post);
                    crate::model::lemma_verify_preserves_wf(
                        pre,
                        verifier,
                        verifier_signature,
                        subject,
                        piece_id,
                    );
                }
                Ok(IdentityEvent::VerifiedClaim { verifier, subject, piece_id })
            },
        }
    }

    /// Answers whether `hash` belongs to the fact set of the claim about
    /// `subject` stored under `piece_id`, without revealing the rest of
    /// the set. A pure read: the store never changes.
    ///
    /// Rejects a zero subject with [`IdentityError::InvalidKey`] and an
    /// absent claim with [`IdentityError::NotFound`].
    pub fn check_claim_hash(
        &self,
        subject: PublicKey,
        piece_id: PieceId,
        hash: InfoHash,
    ) -> (r: Result<IdentityEvent, IdentityError>)
        requires
            self@.wf(),
        ensures
            r == check_step(self@, subject, piece_id, hash),
    {
        if bytes_all_zero(&subject) {
            return Err(IdentityError::InvalidKey);
        }
        let (found, subject_seen) = self.locate(&subject, piece_id);
        match found {
            None => Err(lookup_error(subject_seen)),
            Some(i) => {
                proof {
                    lemma_index_of_unique(self@, subject, piece_id, i as int);
                }
                let status = contains_hash(&self.claims[i].claim.data.hashed_info, &hash);
                Ok(IdentityEvent::CheckedClaim { subject, piece_id, status })
            },
        }
    }

    /// The validation status of the claim about `subject` stored under
    /// `piece_id`, or [`IdentityError::NotFound`] when it is absent — an
    /// absent claim is told apart from one whose status is `false`.
    pub fn validation_status(&self, subject: PublicKey, piece_id: PieceId) -> (r: Result<
        bool,
        IdentityError,
    >)
        requires
            self@.wf(),
        ensures
            self@.has_claim(subject, piece_id) ==> r == Ok::<bool, IdentityError>(
                self@.claim_of(subject, piece_id).data.valid,
            ),
            !self@.has_claim(subject, piece_id) ==> r == Err::<bool, IdentityError>(
                self@.lookup_failure(subject),
            ),
    {
        let (found, subject_seen) = self.locate(&subject, piece_id);
        match found {
            None => Err(lookup_error(subject_seen)),
            Some(i) => {
                proof {
                    lemma_index_of_unique(self@, subject, piece_id, i as int);
                }
                Ok(self.claims[i].claim.data.valid)
            },
        }
    }

    /// The issuance date of the claim about `subject` stored under
    /// `piece_id`, or [`IdentityError::NotFound`] when it is absent — an
    /// absent claim is told apart from one issued at timestamp `0`.
    pub fn issuance_date(&self, subject: PublicKey, piece_id: PieceId) -> (r: Result<
        u128,
        IdentityError,
    >)
        requires
            self@.wf(),
        ensures
            self@.has_claim(subject, piece_id) ==> r == Ok::<u128, IdentityError>(
                self@.claim_of(subject, piece_id).data.issuance_date,
            ),
            !self@.has_claim(subject, piece_id) ==> r == Err::<u128, IdentityError>(
                self@.lookup_failure(subject),
            ),
    {
        let (found, subject_seen) = self.locate(&subject, piece_id);
        match found {
            None => Err(lookup_error(subject_seen)),
            Some(i) => {
                proof {
                    lemma_index_of_unique(self@, subject, piece_id, i as int);
                }
                Ok(self.claims[i].claim.data.issuance_date)
            },
        }
    }

    /// A copy of the claim about `subject` stored under `piece_id`, or
    /// `None` when it is absent. Absence is a valid answer here, not a
    /// failure.
    pub fn claim(&self, subject: PublicKey, piece_id: PieceId) -> (r: Option<Claim>)
        requires
            self@.wf(),
        ensures
            r matches Some(c) ==> self@.has_claim(subject, piece_id) && c@ == self@.claim_of(
                subject,
                piece_id,
            ),
            r is None ==> !self@.has_claim(subject, piece_id),
    {
        let (found, _) = self.locate(&subject, piece_id);
        match found {
            None => None,
            Some(i) => {
                proof {
                    lemma_index_of_unique(self@, subject, piece_id, i as int);
                }
                Some(self.claims[i].claim.clone())
            },
        }
    }

    /// The attesting keys of the claim about `subject` stored under
    /// `piece_id`, in the order the attestations first arrived, or
    /// [`IdentityError::NotFound`] when the claim is absent — an absent
    /// claim is told apart from one that nobody has attested yet.
    pub fn verifiers(&self, subject: PublicKey, piece_id: PieceId) -> (r: Result<
        Vec<PublicKey>,
        IdentityError,
    >)
        requires
            self@.wf(),
        ensures
            self@.has_claim(subject, piece_id) ==> (r matches Ok(v) && v@ == self@.claim_of(
                subject,
                piece_id,
            ).verifier_keys()),
            !self@.has_claim(subject, piece_id) ==> r == Err::<Vec<PublicKey>, IdentityError>(
                self@.lookup_failure(subject),
            ),
    {
        let (found, subject_seen) = self.locate(&subject, piece_id);
        match found {
            None => Err(lookup_error(subject_seen)),
            Some(i) => {
                proof {
                    lemma_index_of_unique(self@, subject, piece_id, i as int);
                }
                let vs = &self.claims[i].claim.verifiers;
                let mut keys: Vec<PublicKey> = Vec::new();
                let mut k: usize = 0;
                while k < vs.len()
                    invariant
                        0 <= k <= vs.len(),
                        keys@.len() == k,
                        forall|j: int| 0 <= j < k ==> keys@[j] == (#[trigger] vs@[j]).verifier,
                    decreases vs.len() - k,
                {
                    keys.push(vs[k].verifier);
                    k = k + 1;
                }
                proof {
                    assert(keys@ =~= self@.claim_of(subject, piece_id).verifier_keys());
                }
                Ok(keys)
            },
        }
    }

    /// Copies of all claims stored for `subject`, in order of issuance
    /// (and so of strictly increasing piece id). An unknown subject gets
    /// the empty list; the lookup never fails and never alters the store.
    pub fn user_claims(&self, subject: PublicKey) -> (r: Vec<StoredClaim>)
        ensures
            r@.map_values(|sc: StoredClaim| sc@) == self@.entries.filter(
                |e: PieceModel| e.claim.subject == subject,
            ),
    {
        let ghost pred = |e: PieceModel| e.claim.subject == subject;
        let ghost f = |sc: StoredClaim| sc@;
        let mut out: Vec<StoredClaim> = Vec::new();
        let mut i: usize = 0;
        while i < self.claims.len()
            invariant
                0 <= i <= self.claims.len(),
                self@.entries.len() == self.claims@.len(),
                forall|j: int|
                    0 <= j < self.claims@.len() ==> #[trigger] self@.entries[j] == self.claims@[j]@,
                pred == (|e: PieceModel| e.claim.subject == subject),
                f == (|sc: StoredClaim| sc@),
                out@.map_values(f) == self@.entries.subrange(0, i as int).filter(pred),
            decreases self.claims.len() - i,
        {
            let ghost prefix = self@.entries.subrange(0, i as int);
            let ghost ext = self@.entries.subrange(0, i + 1 as int);
            let ghost out_before = out@;
            if bytes_eq(&self.claims[i].claim.subject, &subject) {
                out.push(self.claims[i].clone());
            }
            proof {
                reveal(Seq::filter);
                assert(ext.drop_last() =~= prefix);
                assert(ext.last() == self@.entries[i as int]);
                if pred(self@.entries[i as int]) {
                    assert(out@.map_values(f) =~= out_before.map_values(f).push(
                        self@.entries[i as int],
                    ));
                    assert(ext.filter(pred) == prefix.filter(pred).push(ext.last()));
                } else {
                    assert(ext.filter(pred) == prefix.filter(pred));
                }
                assert(out@.map_values(f) == ext.filter(pred));
            }
            i = i + 1;
        }
        proof {
            assert(self@.entries.subrange(0, self@.entries.len() as int) =~= self@.entries);
        }
        out
    }

    /// The id the next issued claim will receive. Every id handed out so
    /// far is strictly smaller.
    pub fn next_piece_id(&self) -> (r: PieceId)
        ensures
            r == self@.counter,
    {
        self.piece_counter
    }

    /// Performs one decoded mutating request: dispatches to the
    /// operation the action names and hands back its event or failure.
    pub fn handle(&mut self, action: IdentityAction) -> (r: Result<IdentityEvent, IdentityError>)
        requires
            old(self)@.wf(),
            action matches IdentityAction::IssueClaim { .. } ==> old(self)@.counter
                < PieceId::MAX,
        ensures
            final(self)@.wf(),
            final(self)@ == action_step(old(self)@, action).post,
            r == action_step(old(self)@, action).result,
    {
        match action {
            IdentityAction::IssueClaim { issuer, issuer_signature, subject, data } => self
                .issue_claim(issuer, issuer_signature, subject, data),
            IdentityAction::ClaimValidationStatus { validator, subject, piece_id, status } => self
                .change_validation_status(validator, subject, piece_id, status),
            IdentityAction::VerifyClaim { verifier, verifier_signature, subject, piece_id } => self
                .verify_claim(verifier, verifier_signature, subject, piece_id),
            IdentityAction::CheckClaim { subject, piece_id, hash } => self.check_claim_hash(
                subject,
                piece_id,
                hash,
            ),
        }
    }

    /// Answers one decoded read-only request. The store is never
    /// altered: looking up an unknown subject does not create an entry
    /// for it.
    pub fn state(&self, query: IdentityStateQuery) -> (r: Result<
        IdentityStateReply,
        IdentityError,
    >)
        requires
            self@.wf(),
        ensures
            match query {
                IdentityStateQuery::UserClaims(subject) => (r matches Ok(
                    IdentityStateReply::UserClaims(v),
                ) && v@.map_values(|sc: StoredClaim| sc@) == self@.entries.filter(
                    |e: PieceModel| e.claim.subject == subject,
                )),
                IdentityStateQuery::Claim(subject, piece_id) => (r matches Ok(
                    IdentityStateReply::Claim(c),
                ) && (match c {
                    Some(cl) => self@.has_claim(subject, piece_id) && cl@ == self@.claim_of(
                        subject,
                        piece_id,
                    ),
                    None => !self@.has_claim(subject, piece_id),
                })),
                IdentityStateQuery::Verifiers(subject, piece_id) => if self@.has_claim(
                    subject,
                    piece_id,
                ) {
                    (r matches Ok(IdentityStateReply::Verifiers(v)) && v@ == self@.claim_of(
                        subject,
                        piece_id,
                    ).verifier_keys())
                } else {
                    r == Err::<IdentityStateReply, IdentityError>(self@.lookup_failure(subject))
                },
                IdentityStateQuery::ValidationStatus(subject, piece_id) => if self@.has_claim(
                    subject,
                    piece_id,
                ) {
                    r == Ok::<IdentityStateReply, IdentityError>(
                        IdentityStateReply::ValidationStatus(
                            self@.claim_of(subject, piece_id).data.valid,
                        ),
                    )
                } else {
                    r == Err::<IdentityStateReply, IdentityError>(self@.lookup_failure(subject))
                },
                IdentityStateQuery::Date(subject, piece_id) => if self@.has_claim(
                    subject,
                    piece_id,
                ) {
                    r == Ok::<IdentityStateReply, IdentityError>(
                        IdentityStateReply::Date(
                            self@.claim_of(subject, piece_id).data.issuance_date,
                        ),
                    )
                } else {
                    r == Err::<IdentityStateReply, IdentityError>(self@.lookup_failure(subject))
                },
            },
    {
        match query {
            IdentityStateQuery::UserClaims(subject) => Ok(
                IdentityStateReply::UserClaims(self.user_claims(subject)),
            ),
            IdentityStateQuery::Claim(subject, piece_id) => Ok(
                IdentityStateReply::Claim(self.claim(subject, piece_id)),
            ),
            IdentityStateQuery::Verifiers(subject, piece_id) => {
                match self.verifiers(subject, piece_id) {
                    Ok(v) => Ok(IdentityStateReply::Verifiers(v)),
                    Err(e) => Err(e),
                }
            },
            IdentityStateQuery::ValidationStatus(subject, piece_id) => {
                match self.validation_status(subject, piece_id) {
                    Ok(b) => Ok(IdentityStateReply::ValidationStatus(b)),
                    Err(e) => Err(e),
                }
            },
            IdentityStateQuery::Date(subject, piece_id) => {
                match self.issuance_date(subject, piece_id) {
                    Ok(d) => Ok(IdentityStateReply::Date(d)),
                    Err(e) => Err(e),
                }
            },
        }
    }
}

/// The failure a missed lookup reports: an unknown piece id when the
/// subject has claims, an unknown subject when it has none.
fn lookup_error(subject_seen: bool) -> (e: IdentityError)
    ensures
        e == if subject_seen {
            IdentityError::NotFound(NotFoundCause::UnknownPiece)
        } else {
            IdentityError::NotFound(NotFoundCause::UnknownSubject)
        },
{
    if subject_seen {
        IdentityError::NotFound(NotFoundCause::UnknownPiece)
    } else {
        IdentityError::NotFound(NotFoundCause::UnknownSubject)
    }
}

/// Finds the position of `key`'s attestation in a claim's verifier list.
fn find_verifier(v: &Vec<VerifierEntry>, key: &PublicKey) -> (r: Option<usize>)
    ensures
        r matches Some(j) ==> 0 <= j < v@.len() && v@[j as int].verifier == *key,
        r is None ==> forall|j: int| 0 <= j < v@.len() ==> (#[trigger] v@[j]).verifier != *key,
{
    let mut i: usize = 0;
    while i < v.len()
        invariant
            0 <= i <= v.len(),
            forall|j: int| 0 <= j < i ==> (#[trigger] v@[j]).verifier != *key,
        decreases v.len() - i,
    {
        if bytes_eq(&v[i].verifier, key) {
            return Some(i);
        }
        i = i + 1;
    }
    None
}

} // verus!
