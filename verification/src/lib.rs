//! An in-memory ledger of identity claims.
//!
//! A claim is an assertion that one party (the issuer) makes about another
//! (the subject). The ledger stores claims keyed by subject and an
//! auto-incrementing piece id, lets the issuer or the subject toggle a
//! claim's validation status, lets third parties attest ("verify") a claim,
//! and answers membership queries against a claim's set of hashed facts
//! without revealing the whole set.
//!
//! Every operation is specified against a mathematical model of the store
//! (see [`model`]) and verified: mutations either perform exactly one state
//! change and return an event, or reject the request with a typed error and
//! leave the store untouched.

pub mod laws;
pub mod ledger;
pub mod messages;
pub mod model;
pub mod types;

pub use ledger::IdentityStorage;
pub use messages::IdentityAction;
pub use messages::IdentityError;
pub use messages::IdentityEvent;
pub use messages::IdentityStateQuery;
pub use messages::IdentityStateReply;
pub use messages::InitIdentity;
pub use messages::NotFoundCause;
pub use types::Claim;
pub use types::ClaimData;
pub use types::InfoHash;
pub use types::PieceId;
pub use types::PublicKey;
pub use types::Signature;
pub use types::StoredClaim;
pub use types::VerifierEntry;
