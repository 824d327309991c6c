use xelis_rpc::admission::{admit_miner, Address, AdmissionError};

const KEY_HEX: &str = "ab00112233445566778899aabbccddeeff00112233445566778899aabbccddee";

fn mainnet_address() -> String {
    format!("xel:{}", KEY_HEX)
}

fn testnet_address() -> String {
    format!("xet:{}", KEY_HEX)
}

#[test]
fn invalid_address_is_rejected() {
    let r = admit_miner(true, "invalid", "worker", true);
    assert_eq!(r.err().unwrap(), AdmissionError::InvalidAddress);
}

#[test]
fn mainnet_address_on_testnet_node_is_rejected() {
    let addr = mainnet_address();
    let r = admit_miner(true, &addr, "worker", false);
    assert_eq!(r.err().unwrap(), AdmissionError::NetworkMismatch);
}

#[test]
fn testnet_address_on_mainnet_node_is_rejected() {
    let addr = testnet_address();
    let r = admit_miner(true, &addr, "worker", true);
    assert_eq!(r.err().unwrap(), AdmissionError::NetworkMismatch);
}

#[test]
fn worker_name_of_33_bytes_is_rejected_whatever_the_address() {
    let worker = "w".repeat(33);
    let r = admit_miner(true, "invalid", &worker, true);
    assert_eq!(r.err().unwrap(), AdmissionError::WorkerNameTooLong);
    let addr = mainnet_address();
    let r = admit_miner(true, &addr, &worker, true);
    assert_eq!(r.err().unwrap(), AdmissionError::WorkerNameTooLong);
}

#[test]
fn valid_miner_with_32_byte_worker_is_accepted() {
    let addr = mainnet_address();
    let worker = "w".repeat(32);
    let admission = admit_miner(true, &addr, &worker, true).unwrap();
    assert_eq!(admission.worker, worker);
    assert_eq!(admission.key.len(), 32);
    assert_eq!(admission.key[0], 0xab);
    assert_eq!(admission.key[1], 0x00);
    assert_eq!(admission.key[31], 0xee);
}

#[test]
fn testnet_miner_on_testnet_node_is_accepted() {
    let addr = testnet_address();
    assert!(admit_miner(true, &addr, "miner1", false).is_ok());
}

#[test]
fn disabled_mining_rejects_before_any_validation() {
    let addr = mainnet_address();
    let too_long = "w".repeat(40);
    assert_eq!(admit_miner(false, &addr, "worker", true).err().unwrap(), AdmissionError::MiningDisabled);
    assert_eq!(admit_miner(false, "invalid", &too_long, true).err().unwrap(), AdmissionError::MiningDisabled);
}

#[test]
fn integrated_address_is_not_normal() {
    let addr = format!("xel:{}{}", KEY_HEX, "0011");
    assert_eq!(admit_miner(true, &addr, "worker", true).err().unwrap(), AdmissionError::AddressNotNormal);
}

#[test]
fn address_parsing_reads_network_form_and_key() {
    let addr = mainnet_address();
    let a = Address::from_string(&addr).unwrap();
    assert!(a.is_mainnet());
    assert!(a.is_normal());
    let key = a.to_public_key();
    assert_eq!(key.len(), 32);
    assert_eq!(key[0], 0xab);

    let t = Address::from_string(&testnet_address()).unwrap();
    assert!(!t.is_mainnet());

    let integrated = format!("xel:{}{}", KEY_HEX, "ff");
    let i = Address::from_string(&integrated).unwrap();
    assert!(!i.is_normal());
}

#[test]
fn address_parsing_rejects_malformed_text() {
    assert!(Address::from_string("invalid").is_none());
    assert!(Address::from_string("").is_none());
    // wrong prefix
    assert!(Address::from_string(&format!("abc:{}", KEY_HEX)).is_none());
    // too short a payload
    assert!(Address::from_string("xel:abcdef").is_none());
    // an uppercase digit is not part of the alphabet
    let bad = format!("xel:{}", KEY_HEX.to_uppercase());
    assert!(Address::from_string(&bad).is_none());
}

#[test]
fn rejection_reasons_are_fixed_strings() {
    assert_eq!(AdmissionError::MiningDisabled.reason(), "GetWork server is not enabled");
    assert_eq!(AdmissionError::WorkerNameTooLong.reason(), "Worker name must be less or equal to 32 chars");
    assert_eq!(AdmissionError::InvalidAddress.reason(), "Invalid miner address for getwork server");
    assert_eq!(AdmissionError::AddressNotNormal.reason(), "Address should be in normal format");
    assert_eq!(AdmissionError::NetworkMismatch.reason(), "Address is not in same network state");
}
