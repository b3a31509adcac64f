//! Behavioural tests of the claim ledger: issuance, status changes,
//! attestations, hash checks and the read-only queries.

use identity::ClaimData;
use identity::IdentityError;
use identity::IdentityEvent;
use identity::IdentityStorage;
use identity::NotFoundCause;
use identity::PublicKey;
use identity::Signature;

fn key(n: u8) -> PublicKey {
    let mut a = [0u8; 32];
    a[0] = n;
    a
}

fn sig(n: u8) -> Signature {
    let mut a = [0u8; 64];
    a[0] = n;
    a
}

fn hash(n: u8) -> [u8; 32] {
    let mut a = [0u8; 32];
    a[31] = n;
    a
}

fn empty_data() -> ClaimData {
    ClaimData::new(Vec::new(), 0, false)
}

fn fresh_ledger() -> IdentityStorage {
    IdentityStorage::new(key(99)).expect("a non-zero owner must be accepted")
}

#[test]
fn new_rejects_zero_owner() {
    match IdentityStorage::new([0u8; 32]) {
        Err(e) => assert_eq!(e, IdentityError::InvalidKey),
        Ok(_) => panic!("a zero owner must be rejected"),
    }
}

#[test]
fn first_piece_id_is_zero() {
    let mut ledger = fresh_ledger();
    let ev = ledger
        .issue_claim(key(1), sig(1), key(2), empty_data())
        .unwrap();
    assert_eq!(
        ev,
        IdentityEvent::ClaimIssued { issuer: key(1), subject: key(2), piece_id: 0 }
    );
}

#[test]
fn piece_ids_increase_across_subjects() {
    let mut ledger = fresh_ledger();
    let mut ids = Vec::new();
    for n in 1..=4u8 {
        let ev = ledger
            .issue_claim(key(n), sig(n), key(10 + n), empty_data())
            .unwrap();
        match ev {
            IdentityEvent::ClaimIssued { piece_id, .. } => ids.push(piece_id),
            other => panic!("unexpected event {:?}", other),
        }
    }
    assert_eq!(ids, vec![0, 1, 2, 3]);
}

#[test]
fn repeated_issuance_for_same_subject_fills_fresh_slots() {
    let mut ledger = fresh_ledger();
    ledger.issue_claim(key(1), sig(1), key(2), empty_data()).unwrap();
    ledger.issue_claim(key(1), sig(1), key(2), empty_data()).unwrap();
    let claims = ledger.user_claims(key(2));
    assert_eq!(claims.len(), 2);
    assert_eq!(claims[0].piece_id, 0);
    assert_eq!(claims[1].piece_id, 1);
}

#[test]
fn issue_rejects_zero_keys_and_signature() {
    let mut ledger = fresh_ledger();
    let zero_key = [0u8; 32];
    let zero_sig = [0u8; 64];
    assert_eq!(
        ledger.issue_claim(zero_key, sig(1), key(2), empty_data()),
        Err(IdentityError::InvalidKey)
    );
    assert_eq!(
        ledger.issue_claim(key(1), zero_sig, key(2), empty_data()),
        Err(IdentityError::InvalidKey)
    );
    assert_eq!(
        ledger.issue_claim(key(1), sig(1), zero_key, empty_data()),
        Err(IdentityError::InvalidKey)
    );
    assert!(ledger.user_claims(key(2)).is_empty());
}

#[test]
fn change_status_rejects_zero_keys() {
    let mut ledger = fresh_ledger();
    ledger.issue_claim(key(1), sig(1), key(2), empty_data()).unwrap();
    assert_eq!(
        ledger.change_validation_status([0u8; 32], key(2), 0, true),
        Err(IdentityError::InvalidKey)
    );
    assert_eq!(
        ledger.change_validation_status(key(1), [0u8; 32], 0, true),
        Err(IdentityError::InvalidKey)
    );
    assert_eq!(ledger.validation_status(key(2), 0), Ok(false));
}

#[test]
fn verify_rejects_zero_keys_and_signature() {
    let mut ledger = fresh_ledger();
    ledger.issue_claim(key(1), sig(1), key(2), empty_data()).unwrap();
    assert_eq!(
        ledger.verify_claim([0u8; 32], sig(3), key(2), 0),
        Err(IdentityError::InvalidKey)
    );
    assert_eq!(
        ledger.verify_claim(key(3), [0u8; 64], key(2), 0),
        Err(IdentityError::InvalidKey)
    );
    assert_eq!(
        ledger.verify_claim(key(3), sig(3), [0u8; 32], 0),
        Err(IdentityError::InvalidKey)
    );
    assert_eq!(ledger.verifiers(key(2), 0), Ok(Vec::new()));
}

#[test]
fn check_rejects_zero_subject() {
    let ledger = fresh_ledger();
    assert_eq!(
        ledger.check_claim_hash([0u8; 32], 0, hash(1)),
        Err(IdentityError::InvalidKey)
    );
}

#[test]
fn unknown_subject_and_unknown_piece_are_distinguished() {
    let mut ledger = fresh_ledger();
    ledger.issue_claim(key(1), sig(1), key(2), empty_data()).unwrap();
    assert_eq!(
        ledger.change_validation_status(key(1), key(7), 0, true),
        Err(IdentityError::NotFound(NotFoundCause::UnknownSubject))
    );
    assert_eq!(
        ledger.change_validation_status(key(1), key(2), 5, true),
        Err(IdentityError::NotFound(NotFoundCause::UnknownPiece))
    );
    assert_eq!(
        ledger.verify_claim(key(3), sig(3), key(7), 0),
        Err(IdentityError::NotFound(NotFoundCause::UnknownSubject))
    );
    assert_eq!(
        ledger.check_claim_hash(key(2), 5, hash(1)),
        Err(IdentityError::NotFound(NotFoundCause::UnknownPiece))
    );
}

#[test]
fn status_change_authorization() {
    let mut ledger = fresh_ledger();
    ledger.issue_claim(key(1), sig(1), key(2), empty_data()).unwrap();
    // A third party may not change the status, and the flag keeps its value.
    assert_eq!(
        ledger.change_validation_status(key(3), key(2), 0, true),
        Err(IdentityError::Unauthorized)
    );
    assert_eq!(ledger.validation_status(key(2), 0), Ok(false));
    // The issuer may.
    let ev = ledger.change_validation_status(key(1), key(2), 0, true).unwrap();
    assert_eq!(
        ev,
        IdentityEvent::ClaimValidationChanged {
            validator: key(1),
            subject: key(2),
            piece_id: 0,
            status: true,
        }
    );
    assert_eq!(ledger.validation_status(key(2), 0), Ok(true));
    // The subject may, and repeating the stored status is legal.
    ledger.change_validation_status(key(2), key(2), 0, true).unwrap();
    assert_eq!(ledger.validation_status(key(2), 0), Ok(true));
    ledger.change_validation_status(key(2), key(2), 0, false).unwrap();
    assert_eq!(ledger.validation_status(key(2), 0), Ok(false));
}

#[test]
fn self_verification_is_rejected() {
    let mut ledger = fresh_ledger();
    ledger.issue_claim(key(1), sig(1), key(2), empty_data()).unwrap();
    assert_eq!(
        ledger.verify_claim(key(1), sig(1), key(2), 0),
        Err(IdentityError::Unauthorized)
    );
    assert_eq!(
        ledger.verify_claim(key(2), sig(2), key(2), 0),
        Err(IdentityError::Unauthorized)
    );
    assert_eq!(ledger.verifiers(key(2), 0), Ok(Vec::new()));
    let ev = ledger.verify_claim(key(3), sig(3), key(2), 0).unwrap();
    assert_eq!(
        ev,
        IdentityEvent::VerifiedClaim { verifier: key(3), subject: key(2), piece_id: 0 }
    );
    assert_eq!(ledger.verifiers(key(2), 0), Ok(vec![key(3)]));
}

#[test]
fn reverification_overwrites_in_place() {
    let mut ledger = fresh_ledger();
    ledger.issue_claim(key(1), sig(1), key(2), empty_data()).unwrap();
    ledger.verify_claim(key(3), sig(3), key(2), 0).unwrap();
    ledger.verify_claim(key(4), sig(4), key(2), 0).unwrap();
    // The same verifier again: its entry is overwritten, not duplicated.
    ledger.verify_claim(key(3), sig(7), key(2), 0).unwrap();
    assert_eq!(ledger.verifiers(key(2), 0), Ok(vec![key(3), key(4)]));
    let claim = ledger.claim(key(2), 0).unwrap();
    assert_eq!(claim.verifiers.len(), 2);
    assert_eq!(claim.verifiers[0].verifier, key(3));
    assert_eq!(claim.verifiers[0].signature, sig(7));
    assert_eq!(claim.verifiers[1].verifier, key(4));
    assert_eq!(claim.verifiers[1].signature, sig(4));
}

#[test]
fn hash_membership_round_trip() {
    let mut ledger = fresh_ledger();
    let data = ClaimData::new(vec![hash(1), hash(2)], 77, true);
    ledger.issue_claim(key(1), sig(1), key(2), data).unwrap();
    assert_eq!(
        ledger.check_claim_hash(key(2), 0, hash(1)),
        Ok(IdentityEvent::CheckedClaim { subject: key(2), piece_id: 0, status: true })
    );
    assert_eq!(
        ledger.check_claim_hash(key(2), 0, hash(2)),
        Ok(IdentityEvent::CheckedClaim { subject: key(2), piece_id: 0, status: true })
    );
    assert_eq!(
        ledger.check_claim_hash(key(2), 0, hash(3)),
        Ok(IdentityEvent::CheckedClaim { subject: key(2), piece_id: 0, status: false })
    );
}

#[test]
fn claim_data_collapses_duplicates() {
    let mut ledger = fresh_ledger();
    let data = ClaimData::new(vec![hash(1), hash(2), hash(1)], 5, false);
    ledger.issue_claim(key(1), sig(1), key(2), data).unwrap();
    let claim = ledger.claim(key(2), 0).unwrap();
    assert_eq!(claim.data.hashed_info.len(), 2);
    assert!(claim.data.hashed_info.contains(&hash(1)));
    assert!(claim.data.hashed_info.contains(&hash(2)));
}

#[test]
fn issuance_date_is_stored() {
    let mut ledger = fresh_ledger();
    let data = ClaimData::new(Vec::new(), 123_456_789_u128, false);
    ledger.issue_claim(key(1), sig(1), key(2), data).unwrap();
    assert_eq!(ledger.issuance_date(key(2), 0), Ok(123_456_789_u128));
    assert_eq!(
        ledger.issuance_date(key(2), 1),
        Err(IdentityError::NotFound(NotFoundCause::UnknownPiece))
    );
}

#[test]
fn queries_on_absent_claims() {
    let ledger = fresh_ledger();
    assert!(ledger.user_claims(key(2)).is_empty());
    assert!(ledger.claim(key(2), 0).is_none());
    assert_eq!(
        ledger.verifiers(key(2), 0),
        Err(IdentityError::NotFound(NotFoundCause::UnknownSubject))
    );
    assert_eq!(
        ledger.validation_status(key(2), 0),
        Err(IdentityError::NotFound(NotFoundCause::UnknownSubject))
    );
    assert_eq!(
        ledger.issuance_date(key(2), 0),
        Err(IdentityError::NotFound(NotFoundCause::UnknownSubject))
    );
}

#[test]
fn lookups_never_create_entries() {
    let mut ledger = fresh_ledger();
    ledger.issue_claim(key(1), sig(1), key(2), empty_data()).unwrap();
    // Reads about an unknown subject must not grow the store.
    let _ = ledger.claim(key(7), 0);
    let _ = ledger.validation_status(key(7), 0);
    let _ = ledger.user_claims(key(7));
    assert!(ledger.user_claims(key(7)).is_empty());
    assert_eq!(ledger.user_claims(key(2)).len(), 1);
}

#[test]
fn user_claims_returns_full_copies() {
    let mut ledger = fresh_ledger();
    let data = ClaimData::new(vec![hash(9)], 42, true);
    ledger.issue_claim(key(1), sig(1), key(2), data).unwrap();
    ledger.verify_claim(key(3), sig(3), key(2), 0).unwrap();
    let claims = ledger.user_claims(key(2));
    assert_eq!(claims.len(), 1);
    let stored = &claims[0];
    assert_eq!(stored.piece_id, 0);
    assert_eq!(stored.claim.issuer, key(1));
    assert_eq!(stored.claim.issuer_signature, sig(1));
    assert_eq!(stored.claim.subject, key(2));
    assert_eq!(stored.claim.verifiers.len(), 1);
    assert_eq!(stored.claim.verifiers[0].verifier, key(3));
    assert_eq!(stored.claim.data.hashed_info, vec![hash(9)]);
    assert_eq!(stored.claim.data.issuance_date, 42);
    assert!(stored.claim.data.valid);
}

#[test]
fn counter_advances_only_on_success() {
    let mut ledger = fresh_ledger();
    assert_eq!(ledger.next_piece_id(), 0);
    ledger.issue_claim(key(1), sig(1), key(2), empty_data()).unwrap();
    assert_eq!(ledger.next_piece_id(), 1);
    let _ = ledger.issue_claim([0u8; 32], sig(1), key(2), empty_data());
    assert_eq!(ledger.next_piece_id(), 1);
    ledger.change_validation_status(key(1), key(2), 0, true).unwrap();
    ledger.verify_claim(key(3), sig(3), key(2), 0).unwrap();
    assert_eq!(ledger.next_piece_id(), 1);
}

#[test]
fn init_record_names_the_owner() {
    let init = identity::InitIdentity { owner_id: key(42) };
    assert!(IdentityStorage::new(init.owner_id).is_ok());
}

#[test]
fn end_to_end_scenario() {
    let mut ledger = fresh_ledger();
    let issuer = key(1);
    let subject = key(2);
    let verifier = key(3);
    let ev = ledger
        .issue_claim(issuer, sig(1), subject, ClaimData::new(Vec::new(), 0, false))
        .unwrap();
    assert_eq!(ev, IdentityEvent::ClaimIssued { issuer, subject, piece_id: 0 });
    let ev = ledger.change_validation_status(subject, subject, 0, true).unwrap();
    assert_eq!(
        ev,
        IdentityEvent::ClaimValidationChanged { validator: subject, subject, piece_id: 0, status: true }
    );
    assert_eq!(ledger.validation_status(subject, 0), Ok(true));
    let ev = ledger.verify_claim(verifier, sig(3), subject, 0).unwrap();
    assert_eq!(ev, IdentityEvent::VerifiedClaim { verifier, subject, piece_id: 0 });
    assert_eq!(ledger.verifiers(subject, 0), Ok(vec![verifier]));
}
