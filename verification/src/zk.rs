//! Privacy-preserving reputation statements: proof records, a reputation
//! commitment, and the statement-verdict logic.
//!
//! The zero-knowledge verifier itself is an external collaborator whose
//! cryptography is out of scope; the engine validates sizes, derives the
//! verdict for each statement, hashes the opaque proof blob for reference,
//! and stores the result. In place of a real verifier the verdict is
//! simulated directly against the prover's actual reputation, exactly as
//! the statement demands.

use vstd::prelude::*;

use crate::errors::ReputationError;
use crate::state::{AccountId, AgentProfile};
use vstd::bytes::{spec_u64_to_le_bytes, u64_to_le_bytes};

verus! {

/// Capacity in bytes of a stored verification key.
pub const MAX_VERIFICATION_KEY_LEN: usize = 1000;

/// Capacity in bytes of a submitted proof blob.
pub const MAX_PROOF_LEN: usize = 500;

/// Capacity of the public-input list of a proof.
pub const MAX_PUBLIC_INPUTS: usize = 10;

/// Length in bytes of a circuit or proof hash.
pub const PROOF_HASH_LEN: usize = 32;

/// The SHA-256 digest of a byte sequence, as computed by the hashing
/// collaborator. A function of the input bytes alone.
pub uninterp spec fn sha256_of(data: Seq<u8>) -> Seq<u8>;

/// Relies on `anchor_lang::solana_program::hash::hash`: the SHA-256 digest
/// of the input, 32 bytes, depending on the input bytes alone.
#[verifier::external_body]
fn sha256_digest(data: &[u8]) -> (r: Vec<u8>)
    ensures
        r@ == sha256_of(data@),
        r@.len() == PROOF_HASH_LEN,
{
    anchor_lang::solana_program::hash::hash(data).to_bytes().to_vec()
}

/// Relies on `anchor_lang::solana_program::hash::hashv`: per its source it
/// feeds each input slice in order into one SHA-256 computation, so the
/// digest is the SHA-256 of the concatenation (`hash(v)` is defined there
/// as `hashv(&[v])`).
#[verifier::external_body]
fn sha256_digest_pair(a: &[u8], b: &[u8]) -> (r: Vec<u8>)
    ensures
        r@ == sha256_of(a@ + b@),
        r@.len() == PROOF_HASH_LEN,
{
    anchor_lang::solana_program::hash::hashv(&[a, b]).to_bytes().to_vec()
}

/// The registered verification key for the proving circuit.
#[derive(Clone, Debug)]
pub struct ZKVerificationKey {
    pub authority: AccountId,
    /// Hash of the circuit; exactly `PROOF_HASH_LEN` bytes.
    pub circuit_hash: Vec<u8>,
    /// The verification key, at most `MAX_VERIFICATION_KEY_LEN` bytes.
    pub verification_key: Vec<u8>,
}

impl ZKVerificationKey {
    pub open spec fn wf(self) -> bool {
        &&& self.circuit_hash@.len() == PROOF_HASH_LEN
        &&& self.verification_key@.len() <= MAX_VERIFICATION_KEY_LEN
    }
}

/// One stored proof submission and its verdict.
#[derive(Clone, Debug)]
pub struct ZKProofRecord {
    pub prover: AccountId,
    pub statement: ZKStatement,
    /// SHA-256 of the submitted proof blob.
    pub proof_hash: Vec<u8>,
    pub verified: bool,
    pub verified_at: u64,
}

/// The closed set of statements an agent can prove about its reputation
/// without revealing the exact score.
#[derive(Clone, Copy, Debug, PartialEq, Eq, Structural)]
pub enum ZKStatement {
    /// The reputation exceeds the given threshold.
    ReputationAbove(u64),
    /// The reputation is below the given threshold.
    ReputationBelow(u64),
    /// The reputation lies strictly between the two bounds.
    ReputationInRange(u64, u64),
    /// The profile is active.
    IsActive,
    /// The profile has no negative vouches.
    NoNegativeVouches,
}

/// Registers the verification key. A key longer than its capacity is a hard
/// validation failure, never truncated.
pub fn initialize_zk_registry(
    authority: AccountId,
    circuit_hash: Vec<u8>,
    verification_key: Vec<u8>,
) -> (r: Result<ZKVerificationKey, ReputationError>)
    requires
        circuit_hash@.len() == PROOF_HASH_LEN,
    ensures
        match r {
            Ok(reg) => {
                &&& verification_key@.len() <= MAX_VERIFICATION_KEY_LEN
                &&& reg.authority == authority
                &&& reg.circuit_hash@ == circuit_hash@
                &&& reg.verification_key@ == verification_key@
                &&& reg.wf()
            },
            Err(e) => verification_key@.len() > MAX_VERIFICATION_KEY_LEN && e
                == ReputationError::InvalidParameter,
        },
{
    if verification_key.len() > MAX_VERIFICATION_KEY_LEN {
        return Err(ReputationError::InvalidParameter);
    }
    Ok(ZKVerificationKey { authority, circuit_hash, verification_key })
}

/// The verdict each statement earns given the prover's actual reputation
/// and the declared public inputs: the inputs must both match the statement
/// and be satisfied by the actual score. Statements about activity and
/// vouch history are accepted as submitted.
pub open spec fn zk_verdict(statement: ZKStatement, actual_reputation: u64, inputs: Seq<u64>) -> bool {
    match statement {
        ZKStatement::ReputationAbove(threshold) => inputs.len() >= 1 && actual_reputation
            > inputs[0] && inputs[0] == threshold,
        ZKStatement::ReputationBelow(threshold) => inputs.len() >= 1 && actual_reputation
            < inputs[0] && inputs[0] == threshold,
        ZKStatement::ReputationInRange(lower, upper) => inputs.len() >= 2 && actual_reputation
            > inputs[0] && actual_reputation < inputs[1] && inputs[0] == lower && inputs[1]
            == upper,
        ZKStatement::IsActive => true,
        ZKStatement::NoNegativeVouches => true,
    }
}

/// Evaluates a statement against the prover's actual reputation and the
/// declared public inputs.
pub fn simulate_zk_verification(
    statement: &ZKStatement,
    actual_reputation: u64,
    public_inputs: &[u64],
) -> (r: bool)
    ensures
        r == zk_verdict(*statement, actual_reputation, public_inputs@),
{
    match statement {
        ZKStatement::ReputationAbove(threshold) => {
            if public_inputs.len() >= 1 {
                let input_threshold = public_inputs[0];
                actual_reputation > input_threshold && input_threshold == *threshold
            } else {
                false
            }
        },
        ZKStatement::ReputationBelow(threshold) => {
            if public_inputs.len() >= 1 {
                let input_threshold = public_inputs[0];
                actual_reputation < input_threshold && input_threshold == *threshold
            } else {
                false
            }
        },
        ZKStatement::ReputationInRange(lower, upper) => {
            if public_inputs.len() >= 2 {
                actual_reputation > public_inputs[0] && actual_reputation < public_inputs[1]
                    && public_inputs[0] == *lower && public_inputs[1] == *upper
            } else {
                false
            }
        },
        ZKStatement::IsActive => true,
        ZKStatement::NoNegativeVouches => true,
    }
}

/// Validates a proof submission, derives its verdict, and builds the record
/// the caller persists: the statement, the SHA-256 reference hash of the
/// opaque proof blob, the verdict, and the submission time. Oversized blobs
/// and input lists fail closed.
pub fn submit_zk_proof(
    prover: AccountId,
    prover_profile: &AgentProfile,
    statement: ZKStatement,
    proof: Vec<u8>,
    public_inputs: Vec<u64>,
    now: u64,
) -> (r: Result<ZKProofRecord, ReputationError>)
    ensures
        match r {
            Ok(rec) => {
                &&& proof@.len() <= MAX_PROOF_LEN
                &&& public_inputs@.len() <= MAX_PUBLIC_INPUTS
                &&& rec.prover == prover
                &&& rec.statement == statement
                &&& rec.proof_hash@ == sha256_of(proof@)
                &&& rec.verified == zk_verdict(
                    statement,
                    prover_profile.reputation_score,
                    public_inputs@,
                )
                &&& rec.verified_at == now
            },
            Err(e) => {
                &&& (proof@.len() > MAX_PROOF_LEN || public_inputs@.len() > MAX_PUBLIC_INPUTS)
                &&& e == ReputationError::InvalidParameter
            },
        },
{
    if proof.len() > MAX_PROOF_LEN {
        return Err(ReputationError::InvalidParameter);
    }
    if public_inputs.len() > MAX_PUBLIC_INPUTS {
        return Err(ReputationError::InvalidParameter);
    }

    let verified = simulate_zk_verification(
        &statement,
        prover_profile.reputation_score,
        public_inputs.as_slice(),
    );
    let proof_hash = sha256_digest(proof.as_slice());

    Ok(ZKProofRecord { prover, statement, proof_hash, verified, verified_at: now })
}

/// Reads a stored proof record: the statement it makes and its verdict.
pub fn verify_zk_proof(record: &ZKProofRecord) -> (r: (ZKStatement, bool))
    ensures
        r.0 == record.statement,
        r.1 == record.verified,
{
    (record.statement, record.verified)
}

/// Commits to a reputation value under a nonce: the SHA-256 digest of the
/// little-endian bytes of the value followed by those of the nonce.
pub fn generate_reputation_commitment(reputation: u64, nonce: u64) -> (r: Vec<u8>)
    ensures
        r@ == sha256_of(spec_u64_to_le_bytes(reputation) + spec_u64_to_le_bytes(nonce)),
        r@.len() == PROOF_HASH_LEN,
{
    let rep_bytes = u64_to_le_bytes(reputation);
    let nonce_bytes = u64_to_le_bytes(nonce);
    sha256_digest_pair(rep_bytes.as_slice(), nonce_bytes.as_slice())
}

} // verus!
