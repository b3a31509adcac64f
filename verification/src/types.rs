//! The data carried by claims: actor keys, signatures, hashed facts, and
//! the byte-array helpers that the ledger's checks are built on.

use vstd::prelude::*;

verus! {

/// An actor's identifier (issuer, subject, verifier or owner): 32 raw bytes.
/// The all-zero array is reserved and never names a valid actor.
pub type PublicKey = [u8; 32];

/// An opaque authorization artifact accompanying an action: 64 raw bytes.
/// The ledger never checks signatures cryptographically; it only rejects
/// the reserved all-zero value.
pub type Signature = [u8; 64];

/// A hash of one disclosed fact inside a claim's data set: 32 raw bytes.
pub type InfoHash = [u8; 32];

/// The identifier a claim receives at issuance: assigned from a counter
/// that only grows, so ids are unique across the whole store.
pub type PieceId = u128;

/// Holds whether a byte array is the reserved all-zero value.
pub open spec fn all_zero<const N: usize>(a: [u8; N]) -> bool {
    forall|i: int| 0 <= i < N ==> a[i] == 0
}

/// Decides whether a byte array is the reserved all-zero value.
pub fn bytes_all_zero<const N: usize>(a: &[u8; N]) -> (r: bool)
    ensures
        r == all_zero(*a),
{
    let mut i: usize = 0;
    while i < N
        invariant
            0 <= i <= N,
            forall|j: int| 0 <= j < i ==> a[j] == 0,
        decreases N - i,
    {
        if a[i] != 0 {
            return false;
        }
        i = i + 1;
    }
    true
}

/// Decides equality of two byte arrays.
pub fn bytes_eq<const N: usize>(a: &[u8; N], b: &[u8; N]) -> (r: bool)
    ensures
        r == (*a == *b),
{
    let mut i: usize = 0;
    while i < N
        invariant
            0 <= i <= N,
            forall|j: int| 0 <= j < i ==> a[j] == b[j],
        decreases N - i,
    {
        if a[i] != b[i] {
            assert(a[i as int] != b[i as int]);
            return false;
        }
        i = i + 1;
    }
    proof {
        assert(*a =~= *b);
    }
    true
}

/// Copies a vector of fact hashes.
pub fn copy_hashes(v: &Vec<InfoHash>) -> (r: Vec<InfoHash>)
    ensures
        r@ == v@,
{
    let mut r: Vec<InfoHash> = Vec::new();
    let mut i: usize = 0;
    while i < v.len()
        invariant
            0 <= i <= v.len(),
            r@ =~= v@.subrange(0, i as int),
        decreases v.len() - i,
    {
        r.push(v[i]);
        i = i + 1;
    }
    proof {
        assert(r@ =~= v@);
    }
    r
}

/// One attestation inside a claim: the verifier's key and the signature
/// it supplied.
#[derive(Clone, Copy, Debug, PartialEq, Eq)]
pub struct VerifierEntry {
    /// The attesting party's public key.
    pub verifier: PublicKey,
    /// The signature supplied with the attestation.
    pub signature: Signature,
}

/// Copies a vector of attestations.
pub fn copy_verifiers(v: &Vec<VerifierEntry>) -> (r: Vec<VerifierEntry>)
    ensures
        r@ == v@,
{
    let mut r: Vec<VerifierEntry> = Vec::new();
    let mut i: usize = 0;
    while i < v.len()
        invariant
            0 <= i <= v.len(),
            r@ =~= v@.subrange(0, i as int),
        decreases v.len() - i,
    {
        r.push(v[i]);
        i = i + 1;
    }
    proof {
        assert(r@ =~= v@);
    }
    r
}

/// The abstract content of a [`ClaimData`]: the hashes as a sequence, the
/// timestamp and the validity flag.
#[verifier::ext_equal]
pub struct DataModel {
    /// The hashes of the disclosed facts, in stored order.
    pub hashed_info: Seq<InfoHash>,
    /// When the claim was issued.
    pub issuance_date: u128,
    /// Whether the claim currently counts as valid.
    pub valid: bool,
}

impl DataModel {
    /// Holds when a fact hash belongs to the claim's disclosed set.
    pub open spec fn has_hash(self, hash: InfoHash) -> bool {
        self.hashed_info.contains(hash)
    }
}

/// The payload a claim is issued with: a set of hashed facts, the issuance
/// timestamp, and the validity flag.
///
/// The hashes are treated as a set: their order carries no meaning and
/// [`ClaimData::new`] collapses duplicates. The set is fixed at issuance;
/// no ledger operation ever rewrites it.
#[derive(Debug, PartialEq, Eq)]
pub struct ClaimData {
    /// Hashes of the disclosed facts (for example a hashed street or city).
    pub hashed_info: Vec<InfoHash>,
    /// When the claim was issued, as an opaque 128-bit timestamp.
    pub issuance_date: u128,
    /// Whether the claim currently counts as valid.
    pub valid: bool,
}

impl View for ClaimData {
    type V = DataModel;

    open spec fn view(&self) -> DataModel {
        DataModel {
            hashed_info: self.hashed_info@,
            issuance_date: self.issuance_date,
            valid: self.valid,
        }
    }
}

impl Clone for ClaimData {
    /// The copy carries the same hashes, timestamp and flag.
    fn clone(&self) -> (r: Self)
        ensures
            r@ == self@,
    {
        ClaimData {
            hashed_info: copy_hashes(&self.hashed_info),
            issuance_date: self.issuance_date,
            valid: self.valid,
        }
    }
}

impl ClaimData {
    /// Builds a claim payload, collapsing duplicate hashes so that the
    /// stored vector behaves as a set.
    pub fn new(hashed_info: Vec<InfoHash>, issuance_date: u128, valid: bool) -> (r: ClaimData)
        ensures
            r@.hashed_info.no_duplicates(),
            forall|h: InfoHash| r@.has_hash(h) <==> hashed_info@.contains(h),
            r@.issuance_date == issuance_date,
            r@.valid == valid,
    {
        let mut distinct: Vec<InfoHash> = Vec::new();
        let mut i: usize = 0;
        while i < hashed_info.len()
            invariant
                0 <= i <= hashed_info.len(),
                distinct@.no_duplicates(),
                forall|h: InfoHash|
                    distinct@.contains(h) <==> hashed_info@.subrange(0, i as int).contains(h),
            decreases hashed_info.len() - i,
        {
            let ghost prefix = hashed_info@.subrange(0, i as int);
            let ghost ext = hashed_info@.subrange(0, i + 1 as int);
            let h = hashed_info[i];
            let ghost before = distinct@;
            if !contains_hash(&distinct, &h) {
                distinct.push(h);
            }
            proof {
                assert(ext =~= prefix.push(hashed_info@[i as int]));
                assert forall|x: InfoHash| distinct@.contains(x) <==> ext.contains(x) by {
                    if distinct@.contains(x) {
                        if before.contains(x) {
                            let k = choose|k: int| 0 <= k < prefix.len() && #[trigger] prefix[k] == x;
                            assert(ext[k] == x);
                        } else {
                            assert(x == hashed_info@[i as int]);
                            assert(ext[i as int] == x);
                        }
                    }
                    if ext.contains(x) {
                        let k = choose|k: int| 0 <= k < ext.len() && #[trigger] ext[k] == x;
                        if k < i {
                            assert(prefix[k] == x);
                            assert(before.contains(x));
                        } else {
                            assert(x == hashed_info@[i as int]);
                            assert(before.contains(x) || distinct@.last() == x);
                        }
                        if before.contains(x) {
                            let k2 = choose|k2: int|
                                0 <= k2 < before.len() && #[trigger] before[k2] == x;
                            assert(distinct@[k2] == x);
                        }
                        assert(distinct@.contains(x));
                    }
                }
            }
            i = i + 1;
        }
        proof {
            assert(hashed_info@.subrange(0, hashed_info@.len() as int) =~= hashed_info@);
        }
        ClaimData { hashed_info: distinct, issuance_date, valid }
    }
}

/// The abstract content of a [`Claim`]: its actors, the attestations it
/// has collected, and its payload.
#[verifier::ext_equal]
pub struct ClaimModel {
    /// Who issued the claim.
    pub issuer: PublicKey,
    /// The issuer's signature.
    pub issuer_signature: Signature,
    /// Who the claim is about.
    pub subject: PublicKey,
    /// The attestations collected so far, in the order they first arrived.
    pub verifiers: Seq<VerifierEntry>,
    /// The claim's payload.
    pub data: DataModel,
}

impl ClaimModel {
    /// The attesting keys, in stored order.
    pub open spec fn verifier_keys(self) -> Seq<PublicKey> {
        self.verifiers.map_values(|e: VerifierEntry| e.verifier)
    }

    /// Holds when `key` has attested this claim.
    pub open spec fn has_verifier(self, key: PublicKey) -> bool {
        exists|i: int| 0 <= i < self.verifiers.len() && (#[trigger] self.verifiers[i]).verifier == key
    }

    /// The position of `key`'s attestation, when there is one.
    pub open spec fn verifier_index(self, key: PublicKey) -> int {
        choose|i: int| 0 <= i < self.verifiers.len() && (#[trigger] self.verifiers[i]).verifier == key
    }

    /// Well-formedness of a stored claim: no actor or signature is the
    /// reserved zero value, nobody attests their own claim, and each
    /// verifier attests at most once.
    pub open spec fn wf(self) -> bool {
        &&& !all_zero(self.issuer)
        &&& !all_zero(self.subject)
        &&& !all_zero(self.issuer_signature)
        &&& forall|i: int| 0 <= i < self.verifiers.len() ==> {
            &&& !all_zero((#[trigger] self.verifiers[i]).verifier)
            &&& !all_zero(self.verifiers[i].signature)
            &&& self.verifiers[i].verifier != self.issuer
            &&& self.verifiers[i].verifier != self.subject
        }
        &&& forall|i: int, j: int|
            0 <= i < j < self.verifiers.len() ==> (#[trigger] self.verifiers[i]).verifier != (
            #[trigger] self.verifiers[j]).verifier
    }
}

/// One assertion an issuer makes about a subject, together with the
/// attestations third parties have added to it.
#[derive(Debug, PartialEq, Eq)]
pub struct Claim {
    /// The issuer's public key. A subject may issue a claim about itself,
    /// in which case issuer and subject coincide.
    pub issuer: PublicKey,
    /// The issuer's signature.
    pub issuer_signature: Signature,
    /// The subject's public key.
    pub subject: PublicKey,
    /// The attestations, one per verifier key.
    pub verifiers: Vec<VerifierEntry>,
    /// The claim's payload.
    pub data: ClaimData,
}

impl View for Claim {
    type V = ClaimModel;

    open spec fn view(&self) -> ClaimModel {
        ClaimModel {
            issuer: self.issuer,
            issuer_signature: self.issuer_signature,
            subject: self.subject,
            verifiers: self.verifiers@,
            data: self.data@,
        }
    }
}

impl Clone for Claim {
    /// The copy describes the same claim.
    fn clone(&self) -> (r: Self)
        ensures
            r@ == self@,
    {
        let r = Claim {
            issuer: self.issuer,
            issuer_signature: self.issuer_signature,
            subject: self.subject,
            verifiers: copy_verifiers(&self.verifiers),
            data: self.data.clone(),
        };
        proof {
            assert(r@ =~= self@);
        }
        r
    }
}

/// The abstract content of a [`StoredClaim`].
#[verifier::ext_equal]
pub struct PieceModel {
    /// The id the ledger assigned at issuance.
    pub piece_id: PieceId,
    /// The claim stored under that id.
    pub claim: ClaimModel,
}

/// A claim together with the piece id the ledger assigned to it.
#[derive(Debug, PartialEq, Eq)]
pub struct StoredClaim {
    /// The id the ledger assigned at issuance.
    pub piece_id: PieceId,
    /// The claim stored under that id.
    pub claim: Claim,
}

impl View for StoredClaim {
    type V = PieceModel;

    open spec fn view(&self) -> PieceModel {
        PieceModel { piece_id: self.piece_id, claim: self.claim@ }
    }
}

impl Clone for StoredClaim {
    /// The copy carries the same id and claim.
    fn clone(&self) -> (r: Self)
        ensures
            r@ == self@,
    {
        let r = StoredClaim { piece_id: self.piece_id, claim: self.claim.clone() };
        proof {
            assert(r@ =~= self@);
        }
        r
    }
}

/// Decides whether a fact hash occurs in a vector of hashes.
pub fn contains_hash(v: &Vec<InfoHash>, hash: &InfoHash) -> (r: bool)
    ensures
        r == v@.contains(*hash),
{
    let mut i: usize = 0;
    while i < v.len()
        invariant
            0 <= i <= v.len(),
            forall|j: int| 0 <= j < i ==> v@[j] != *hash,
        decreases v.len() - i,
    {
        if bytes_eq(&v[i], hash) {
            return true;
        }
        i = i + 1;
    }
    false
}

} // verus!
