//! Noir proving requests: which oracle hash a proof uses, and the circuit
//! bytecode read from a compiled circuit's JSON description. The prover
//! itself runs outside the library, on the requests built here.
use vstd::prelude::*;

verus! {

/// The string member `key` of the JSON object `text`, if `text` is a JSON
/// object with such a member.
pub uninterp spec fn json_member_str(text: Seq<char>, key: Seq<char>) -> Option<Seq<char>>;

/// Relies on `serde_json::from_str`, `Value::get` and `Value::as_str`: the
/// string member `key` of the JSON object `text`; `None` when `text` is not
/// JSON or the member is missing or not a string.
#[verifier::external_body]
fn string_member(text: &str, key: &str) -> (r: Option<String>)
    ensures
        r matches Some(s) ==> json_member_str(text@, key@) == Some(s@),
        r is None ==> json_member_str(text@, key@) is None,
{
    match serde_json::from_str::<serde_json::Value>(text) {
        Ok(v) => match v.get(key) {
            Some(f) => f.as_str().map(|s| s.to_string()),
            None => None,
        },
        Err(_) => None,
    }
}

/// The oracle hash of a proof system.
#[derive(Clone, Copy, Debug, PartialEq, Eq, Structural)]
pub enum OracleHash {
    /// Poseidon: fast, verified off-chain only.
    Poseidon,
    /// Keccak: verifiable on-chain by Solidity verifiers.
    Keccak { disable_zk: bool },
}

/// The hash used for proofs meant (or not) for on-chain verification.
pub open spec fn hash_for(on_chain: bool) -> OracleHash {
    if on_chain {
        OracleHash::Keccak { disable_zk: false }
    } else {
        OracleHash::Poseidon
    }
}

/// The oracle hash for proofs meant (or not) for on-chain verification.
pub fn oracle_hash(on_chain: bool) -> (r: OracleHash)
    ensures
        r == hash_for(on_chain),
{
    if on_chain {
        OracleHash::Keccak { disable_zk: false }
    } else {
        OracleHash::Poseidon
    }
}

/// The bytecode of a compiled circuit described by the JSON `circuit_json`.
pub open spec fn bytecode_of(circuit_json: Seq<char>) -> Option<Seq<char>> {
    json_member_str(circuit_json, "bytecode"@)
}

/// The circuit bytecode held by the JSON description `circuit_json`.
pub fn circuit_bytecode(circuit_json: &str) -> (r: Result<String, String>)
    ensures
        match bytecode_of(circuit_json@) {
            Some(b) => r is Ok && r->Ok_0@ == b,
            None => r is Err,
        },
{
    match string_member(circuit_json, "bytecode") {
        Some(b) => Ok(b),
        None => Err(String::from_str("circuit description has no bytecode")),
    }
}

/// A request to prove a circuit's execution on `inputs`.
pub struct ProofRequest {
    pub bytecode: String,
    pub srs_path: Option<String>,
    pub inputs: Vec<String>,
    pub hash: OracleHash,
    pub vk: Vec<u8>,
    pub low_memory_mode: bool,
}

/// A request to check `proof` against the verification key `vk`.
pub struct VerifyRequest {
    pub proof: Vec<u8>,
    pub vk: Vec<u8>,
    pub hash: OracleHash,
    pub low_memory_mode: bool,
}

/// A request for the verification key of a circuit.
pub struct KeyRequest {
    pub bytecode: String,
    pub srs_path: Option<String>,
    pub hash: OracleHash,
    pub low_memory_mode: bool,
}

/// The proof request for the circuit with `bytecode`.
pub fn proof_request(
    bytecode: String,
    srs_path: Option<String>,
    inputs: Vec<String>,
    on_chain: bool,
    vk: Vec<u8>,
    low_memory_mode: bool,
) -> (r: ProofRequest)
    ensures
        r.bytecode == bytecode,
        r.srs_path == srs_path,
        r.inputs == inputs,
        r.hash == hash_for(on_chain),
        r.vk == vk,
        r.low_memory_mode == low_memory_mode,
{
    ProofRequest { bytecode, srs_path, inputs, hash: oracle_hash(on_chain), vk, low_memory_mode }
}

/// The verification-key request for the circuit with `bytecode`.
pub fn key_request(bytecode: String, srs_path: Option<String>, on_chain: bool, low_memory_mode: bool) -> (r:
    KeyRequest)
    ensures
        r.bytecode == bytecode,
        r.srs_path == srs_path,
        r.hash == hash_for(on_chain),
        r.low_memory_mode == low_memory_mode,
{
    KeyRequest { bytecode, srs_path, hash: oracle_hash(on_chain), low_memory_mode }
}

/// Prepares a proof of the circuit described by `circuit_json` on `inputs`,
/// with Keccak as oracle hash when the proof is meant for on-chain
/// verification and Poseidon otherwise. Fails when the description holds no
/// bytecode.
pub fn generate_noir_proof(
    circuit_json: &str,
    srs_path: Option<String>,
    inputs: Vec<String>,
    on_chain: bool,
    vk: Vec<u8>,
    low_memory_mode: bool,
) -> (r: Result<ProofRequest, String>)
    ensures
        match bytecode_of(circuit_json@) {
            Some(b) => r is Ok && r->Ok_0.bytecode@ == b && r->Ok_0.srs_path == srs_path
                && r->Ok_0.inputs == inputs && r->Ok_0.hash == hash_for(on_chain) && r->Ok_0.vk == vk
                && r->Ok_0.low_memory_mode == low_memory_mode,
            None => r is Err,
        },
{
    let bytecode = circuit_bytecode(circuit_json)?;
    Ok(proof_request(bytecode, srs_path, inputs, on_chain, vk, low_memory_mode))
}

/// Prepares the check of `proof` for the circuit described by
/// `circuit_json`, with the oracle hash the proof was made with. Fails when
/// the description holds no bytecode.
pub fn verify_noir_proof(
    circuit_json: &str,
    proof: Vec<u8>,
    on_chain: bool,
    vk: Vec<u8>,
    low_memory_mode: bool,
) -> (r: Result<VerifyRequest, String>)
    ensures
        match bytecode_of(circuit_json@) {
            Some(_) => r is Ok && r->Ok_0.proof == proof && r->Ok_0.vk == vk && r->Ok_0.hash
                == hash_for(on_chain) && r->Ok_0.low_memory_mode == low_memory_mode,
            None => r is Err,
        },
{
    let _bytecode = circuit_bytecode(circuit_json)?;
    Ok(VerifyRequest { proof, vk, hash: oracle_hash(on_chain), low_memory_mode })
}

/// Prepares the computation of the verification key of the circuit
/// described by `circuit_json`, for proofs meant (or not) for on-chain
/// verification. Fails when the description holds no bytecode.
pub fn get_noir_verification_key(
    circuit_json: &str,
    srs_path: Option<String>,
    on_chain: bool,
    low_memory_mode: bool,
) -> (r: Result<KeyRequest, String>)
    ensures
        match bytecode_of(circuit_json@) {
            Some(b) => r is Ok && r->Ok_0.bytecode@ == b && r->Ok_0.srs_path == srs_path
                && r->Ok_0.hash == hash_for(on_chain) && r->Ok_0.low_memory_mode == low_memory_mode,
            None => r is Err,
        },
{
    let bytecode = circuit_bytecode(circuit_json)?;
    Ok(key_request(bytecode, srs_path, on_chain, low_memory_mode))
}

} // verus!
