//! Tests of the decoded-request dispatchers: one mutating entry point
//! for actions and one read-only entry point for state queries.

use identity::ClaimData;
use identity::IdentityAction;
use identity::IdentityError;
use identity::IdentityEvent;
use identity::IdentityStateQuery;
use identity::IdentityStateReply;
use identity::IdentityStorage;
use identity::NotFoundCause;
use identity::PublicKey;
use identity::Signature;

fn key(n: u8) -> PublicKey {
    let mut a = [0u8; 32];
    a[0] = n;
    a
}

fn sig(n: u8) -> Signature {
    let mut a = [0u8; 64];
    a[0] = n;
    a
}

fn hash(n: u8) -> [u8; 32] {
    let mut a = [0u8; 32];
    a[31] = n;
    a
}

#[test]
fn handle_dispatches_every_action() {
    let mut ledger = IdentityStorage::new(key(99)).unwrap();
    let issued = ledger.handle(IdentityAction::IssueClaim {
        issuer: key(1),
        issuer_signature: sig(1),
        subject: key(2),
        data: ClaimData::new(vec![hash(5)], 9, false),
    });
    assert_eq!(
        issued,
        Ok(IdentityEvent::ClaimIssued { issuer: key(1), subject: key(2), piece_id: 0 })
    );
    let changed = ledger.handle(IdentityAction::ClaimValidationStatus {
        validator: key(2),
        subject: key(2),
        piece_id: 0,
        status: true,
    });
    assert_eq!(
        changed,
        Ok(IdentityEvent::ClaimValidationChanged {
            validator: key(2),
            subject: key(2),
            piece_id: 0,
            status: true,
        })
    );
    let verified = ledger.handle(IdentityAction::VerifyClaim {
        verifier: key(3),
        verifier_signature: sig(3),
        subject: key(2),
        piece_id: 0,
    });
    assert_eq!(
        verified,
        Ok(IdentityEvent::VerifiedClaim { verifier: key(3), subject: key(2), piece_id: 0 })
    );
    let checked = ledger.handle(IdentityAction::CheckClaim {
        subject: key(2),
        piece_id: 0,
        hash: hash(5),
    });
    assert_eq!(
        checked,
        Ok(IdentityEvent::CheckedClaim { subject: key(2), piece_id: 0, status: true })
    );
}

#[test]
fn handle_propagates_failures() {
    let mut ledger = IdentityStorage::new(key(99)).unwrap();
    let r = ledger.handle(IdentityAction::VerifyClaim {
        verifier: key(3),
        verifier_signature: sig(3),
        subject: key(2),
        piece_id: 0,
    });
    assert_eq!(r, Err(IdentityError::NotFound(NotFoundCause::UnknownSubject)));
    let r = ledger.handle(IdentityAction::IssueClaim {
        issuer: [0u8; 32],
        issuer_signature: sig(1),
        subject: key(2),
        data: ClaimData::new(Vec::new(), 0, false),
    });
    assert_eq!(r, Err(IdentityError::InvalidKey));
}

#[test]
fn state_answers_every_query() {
    let mut ledger = IdentityStorage::new(key(99)).unwrap();
    ledger
        .issue_claim(key(1), sig(1), key(2), ClaimData::new(vec![hash(5)], 11, true))
        .unwrap();
    ledger.verify_claim(key(3), sig(3), key(2), 0).unwrap();

    match ledger.state(IdentityStateQuery::UserClaims(key(2))) {
        Ok(IdentityStateReply::UserClaims(claims)) => {
            assert_eq!(claims.len(), 1);
            assert_eq!(claims[0].piece_id, 0);
        }
        other => panic!("unexpected reply {:?}", other),
    }
    match ledger.state(IdentityStateQuery::Claim(key(2), 0)) {
        Ok(IdentityStateReply::Claim(Some(claim))) => {
            assert_eq!(claim.issuer, key(1));
            assert_eq!(claim.subject, key(2));
        }
        other => panic!("unexpected reply {:?}", other),
    }
    assert_eq!(
        ledger.state(IdentityStateQuery::Verifiers(key(2), 0)),
        Ok(IdentityStateReply::Verifiers(vec![key(3)]))
    );
    assert_eq!(
        ledger.state(IdentityStateQuery::ValidationStatus(key(2), 0)),
        Ok(IdentityStateReply::ValidationStatus(true))
    );
    assert_eq!(
        ledger.state(IdentityStateQuery::Date(key(2), 0)),
        Ok(IdentityStateReply::Date(11))
    );
}

#[test]
fn state_reports_absence() {
    let mut ledger = IdentityStorage::new(key(99)).unwrap();
    assert_eq!(
        ledger.state(IdentityStateQuery::UserClaims(key(2))),
        Ok(IdentityStateReply::UserClaims(Vec::new()))
    );
    assert_eq!(
        ledger.state(IdentityStateQuery::Claim(key(2), 0)),
        Ok(IdentityStateReply::Claim(None))
    );
    assert_eq!(
        ledger.state(IdentityStateQuery::Verifiers(key(2), 0)),
        Err(IdentityError::NotFound(NotFoundCause::UnknownSubject))
    );
    ledger
        .issue_claim(key(1), sig(1), key(2), ClaimData::new(Vec::new(), 0, false))
        .unwrap();
    assert_eq!(
        ledger.state(IdentityStateQuery::ValidationStatus(key(2), 3)),
        Err(IdentityError::NotFound(NotFoundCause::UnknownPiece))
    );
    assert_eq!(
        ledger.state(IdentityStateQuery::Date(key(2), 3)),
        Err(IdentityError::NotFound(NotFoundCause::UnknownPiece))
    );
}
