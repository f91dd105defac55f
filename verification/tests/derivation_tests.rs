use aptos_deployer::address::Address;
use aptos_deployer::derivation::create_resource_address;
use aptos_deployer::errors::DeployError;

fn owner_one() -> Address {
    // The fixed 32-byte address 0x000...001.
    let mut bytes = vec![0u8; 32];
    bytes[31] = 1;
    Address::from_bytes(bytes).unwrap()
}

#[test]
fn derive_is_deterministic() {
    let owner = owner_one();
    let seed = b"vault-v1".to_vec();
    let a = create_resource_address(&owner, &seed);
    let b = create_resource_address(&owner, &seed);
    assert_eq!(a.bytes(), b.bytes());
}

#[test]
fn derive_is_seed_sensitive() {
    let owner = owner_one();
    let a = create_resource_address(&owner, &b"vault-v1".to_vec());
    let b = create_resource_address(&owner, &b"vault-v2".to_vec());
    assert_ne!(a.bytes(), b.bytes());
}

#[test]
fn derive_matches_golden_value() {
    let owner = owner_one();
    let derived = create_resource_address(&owner, &b"vault-v1".to_vec());
    let expected = b"0x1045260311bf6483d7adcbb4f11fffd0a53eb2995af90a8963031a52c81f70bf";
    assert_eq!(derived.to_hex_literal(), expected.to_vec());
}

#[test]
fn derive_with_empty_seed_differs_from_short_seed() {
    let owner = owner_one();
    let a = create_resource_address(&owner, &b"".to_vec());
    let b = create_resource_address(&owner, &b"a".to_vec());
    assert_ne!(a.bytes(), b.bytes());
}

#[test]
fn parse_accepts_short_prefixed_literal() {
    let parsed = Address::parse(&b"0x1".to_vec()).unwrap();
    assert_eq!(parsed.bytes(), owner_one().bytes());
}

#[test]
fn parse_accepts_full_prefixed_literal() {
    let full = b"0x0000000000000000000000000000000000000000000000000000000000000001";
    let parsed = Address::parse(&full.to_vec()).unwrap();
    assert_eq!(parsed.bytes(), owner_one().bytes());
}

#[test]
fn parse_accepts_bare_full_length_literal() {
    let full = b"0000000000000000000000000000000000000000000000000000000000000001";
    let parsed = Address::parse(&full.to_vec()).unwrap();
    assert_eq!(parsed.bytes(), owner_one().bytes());
}

#[test]
fn parse_rejects_bare_short_literal() {
    let r = Address::parse(&b"1".to_vec());
    assert!(matches!(r, Err(DeployError::InvalidAddress)));
}

#[test]
fn parse_rejects_wrong_length() {
    // Sixty-three bare digits: one short of an address.
    let shorter = b"000000000000000000000000000000000000000000000000000000000000001";
    assert!(matches!(Address::parse(&shorter.to_vec()), Err(DeployError::InvalidAddress)));
    // Sixty-five digits after the prefix: one over.
    let longer = b"0x00000000000000000000000000000000000000000000000000000000000000001";
    assert!(matches!(Address::parse(&longer.to_vec()), Err(DeployError::InvalidAddress)));
}

#[test]
fn parse_rejects_bad_digit() {
    assert!(matches!(Address::parse(&b"0xzz".to_vec()), Err(DeployError::InvalidAddress)));
}

#[test]
fn parse_rejects_empty_prefixed_literal() {
    assert!(matches!(Address::parse(&b"0x".to_vec()), Err(DeployError::InvalidAddress)));
}

#[test]
fn from_bytes_rejects_wrong_width() {
    assert!(matches!(Address::from_bytes(vec![0u8; 31]), Err(DeployError::InvalidAddress)));
    assert!(Address::from_bytes(vec![0u8; 32]).is_ok());
}

#[test]
fn to_hex_literal_spells_all_bytes() {
    let owner = owner_one();
    assert_eq!(
        owner.to_hex_literal(),
        b"0x0000000000000000000000000000000000000000000000000000000000000001".to_vec()
    );
}

#[test]
fn derived_hex_matches_hex_crate() {
    let owner = owner_one();
    let derived = create_resource_address(&owner, &b"vault-v1".to_vec());
    let ours = derived.to_hex_literal();
    let theirs = format!("0x{}", hex::encode(derived.bytes()));
    assert_eq!(ours, theirs.into_bytes());
}
