//! The request, reply and failure records that the ledger exchanges with
//! its caller: every operation either returns a self-describing event or
//! rejects the request with a typed error.

use vstd::prelude::*;
use crate::types::Claim;
use crate::types::ClaimData;
use crate::types::InfoHash;
use crate::types::PieceId;
use crate::types::PublicKey;
use crate::types::Signature;
use crate::types::StoredClaim;

verus! {

/// Says which half of a `(subject, piece_id)` lookup failed, so that an
/// unknown subject can be told apart from an unknown piece id.
#[derive(Clone, Copy, Debug, PartialEq, Eq)]
pub enum NotFoundCause {
    /// The subject has no claims at all.
    UnknownSubject,
    /// The subject has claims, but none under the requested piece id.
    UnknownPiece,
}

/// Why an operation was rejected. Every rejection leaves the store exactly
/// as it was before the call.
#[derive(Clone, Copy, Debug, PartialEq, Eq)]
pub enum IdentityError {
    /// A public key or signature argument was the reserved all-zero value.
    InvalidKey,
    /// The referenced claim does not exist.
    NotFound(NotFoundCause),
    /// The acting party is not permitted to perform the request: a
    /// validator must be the claim's issuer or subject, and a verifier
    /// must be neither.
    Unauthorized,
}

/// The event a successful operation returns. Each event repeats the keys
/// and the id it concerns, so a caller that did not see the request can
/// still interpret it.
#[derive(Clone, Copy, Debug, PartialEq, Eq)]
pub enum IdentityEvent {
    /// A new claim was stored.
    ClaimIssued {
        /// The issuer's public key.
        issuer: PublicKey,
        /// The subject's public key.
        subject: PublicKey,
        /// The id the ledger assigned.
        piece_id: PieceId,
    },
    /// A claim's validation status was set.
    ClaimValidationChanged {
        /// The key that requested the change.
        validator: PublicKey,
        /// The subject's public key.
        subject: PublicKey,
        /// The claim's id.
        piece_id: PieceId,
        /// The status that is now stored.
        status: bool,
    },
    /// A third party attested a claim.
    VerifiedClaim {
        /// The attesting party's public key.
        verifier: PublicKey,
        /// The subject's public key.
        subject: PublicKey,
        /// The claim's id.
        piece_id: PieceId,
    },
    /// A membership check against a claim's fact set was answered.
    CheckedClaim {
        /// The subject's public key.
        subject: PublicKey,
        /// The claim's id.
        piece_id: PieceId,
        /// Whether the queried hash belongs to the claim's fact set.
        status: bool,
    },
}

/// One mutating request, as the transport hands it over after decoding.
#[derive(Debug, PartialEq, Eq)]
pub enum IdentityAction {
    /// Issue a new claim, either by a subject about itself or by an
    /// issuer on the subject's behalf.
    IssueClaim {
        /// The issuer's public key.
        issuer: PublicKey,
        /// The issuer's signature.
        issuer_signature: Signature,
        /// The subject's public key.
        subject: PublicKey,
        /// The claim's payload.
        data: ClaimData,
    },
    /// Set a claim's validation status. Only the claim's issuer or
    /// subject may do this.
    ClaimValidationStatus {
        /// The acting party's public key.
        validator: PublicKey,
        /// The subject's public key.
        subject: PublicKey,
        /// The claim's id.
        piece_id: PieceId,
        /// The status to store.
        status: bool,
    },
    /// Attest a claim. The claim's issuer and subject may not attest
    /// their own claim.
    VerifyClaim {
        /// The attesting party's public key.
        verifier: PublicKey,
        /// The attesting party's signature.
        verifier_signature: Signature,
        /// The subject's public key.
        subject: PublicKey,
        /// The claim's id.
        piece_id: PieceId,
    },
    /// Ask whether one hash belongs to a claim's fact set. A pure read,
    /// framed as an event for symmetry with the other operations.
    CheckClaim {
        /// The subject's public key.
        subject: PublicKey,
        /// The claim's id.
        piece_id: PieceId,
        /// The hash to look for.
        hash: InfoHash,
    },
}

/// One read-only request against the store.
#[derive(Clone, Copy, Debug, PartialEq, Eq)]
pub enum IdentityStateQuery {
    /// All claims stored for a subject.
    UserClaims(PublicKey),
    /// One claim, by subject and piece id.
    Claim(PublicKey, PieceId),
    /// The attesting keys of one claim.
    Verifiers(PublicKey, PieceId),
    /// The validation status of one claim.
    ValidationStatus(PublicKey, PieceId),
    /// The issuance date of one claim.
    Date(PublicKey, PieceId),
}

/// The answer to an [`IdentityStateQuery`].
///
/// Queries about a single absent claim answer with
/// [`IdentityError::NotFound`] rather than a zeroed default, so that a
/// caller can tell an absent claim from a claim whose status is `false`
/// or whose date is `0`; [`IdentityStateReply::UserClaims`] of an unknown
/// subject is the empty list, and [`IdentityStateReply::Claim`] reports
/// absence as `None`, never as a failure.
#[derive(Debug, PartialEq, Eq)]
pub enum IdentityStateReply {
    /// The claims stored for the subject, in order of issuance.
    UserClaims(Vec<StoredClaim>),
    /// The requested claim, or `None` when it is absent.
    Claim(Option<Claim>),
    /// The attesting keys of the claim, in the order they first attested.
    Verifiers(Vec<PublicKey>),
    /// The claim's validation status.
    ValidationStatus(bool),
    /// The claim's issuance date.
    Date(u128),
}

/// What the ledger is created from: the store owner's key, which must not
/// be the reserved zero value.
#[derive(Clone, Copy, Debug, PartialEq, Eq)]
pub struct InitIdentity {
    /// The owner's public key.
    pub owner_id: PublicKey,
}

} // verus!
