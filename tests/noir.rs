use mopro::noir::{circuit_bytecode, OracleHash};
use mopro::{generate_noir_proof, get_noir_verification_key, greet, verify_noir_proof};

const CIRCUIT: &str = "{\"noir_version\":\"1.0.0\",\"bytecode\":\"H4sIAAAA\",\"abi\":{}}";

#[test]
fn greets_by_name() {
    assert_eq!(greet("Alice".to_string()), "Hi Mopro, Alice!");
}

#[test]
fn bytecode_is_read_from_the_circuit_description() {
    assert_eq!(circuit_bytecode(CIRCUIT).unwrap(), "H4sIAAAA");
    assert!(circuit_bytecode("{\"abi\":{}}").is_err());
    assert!(circuit_bytecode("{\"bytecode\": 3}").is_err());
    assert!(circuit_bytecode("not json").is_err());
}

#[test]
fn on_chain_proofs_use_keccak() {
    let inputs = vec!["3".to_string(), "5".to_string()];
    let req = generate_noir_proof(CIRCUIT, Some("srs".to_string()), inputs.clone(), true, vec![1, 2], false)
        .unwrap();
    assert_eq!(req.bytecode, "H4sIAAAA");
    assert_eq!(req.hash, OracleHash::Keccak { disable_zk: false });
    assert_eq!(req.inputs, inputs);
    assert_eq!(req.vk, vec![1, 2]);
    assert_eq!(req.srs_path.as_deref(), Some("srs"));
    let req = generate_noir_proof(CIRCUIT, None, inputs, false, vec![], true).unwrap();
    assert_eq!(req.hash, OracleHash::Poseidon);
    assert!(req.low_memory_mode);
}

#[test]
fn verification_and_key_requests_follow_the_hash_choice() {
    let v = verify_noir_proof(CIRCUIT, vec![9], false, vec![7], false).unwrap();
    assert_eq!(v.hash, OracleHash::Poseidon);
    assert_eq!(v.proof, vec![9]);
    assert_eq!(v.vk, vec![7]);
    let k = get_noir_verification_key(CIRCUIT, None, true, false).unwrap();
    assert_eq!(k.hash, OracleHash::Keccak { disable_zk: false });
    assert_eq!(k.bytecode, "H4sIAAAA");
    assert!(verify_noir_proof("{}", vec![], true, vec![], false).is_err());
    assert!(get_noir_verification_key("{}", None, false, false).is_err());
}
