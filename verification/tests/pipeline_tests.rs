use aptos_deployer::address::Address;
use aptos_deployer::bindings::builder_bindings;
use aptos_deployer::derivation::create_resource_address;
use aptos_deployer::envelope::make_envelope;
use aptos_deployer::errors::DeployError;
use aptos_deployer::payload::{assemble, entry_function_id, type_argument_list, PayloadArg};
use aptos_deployer::pipeline::{complete_publish, plan_publish, welcome_message, BuildOutcome};

fn owner_one() -> Address {
    let mut bytes = vec![0u8; 32];
    bytes[31] = 1;
    Address::from_bytes(bytes).unwrap()
}

#[test]
fn bindings_are_exactly_two_and_never_swapped() {
    let owner = owner_one();
    let seed = b"vault-v1".to_vec();
    let derived = create_resource_address(&owner, &seed);
    let bindings = builder_bindings(&owner, &derived);
    assert_eq!(bindings.len(), 2);
    assert_eq!(bindings[0].name, "punkninja");
    assert_eq!(bindings[0].address.bytes(), derived.bytes());
    assert_eq!(bindings[1].name, "deployer");
    assert_eq!(bindings[1].address.bytes(), owner.bytes());
}

#[test]
fn plan_carries_derivation_and_bindings() {
    let wallet = b"0x1".to_vec();
    let plan = plan_publish("tokens".to_string(), &wallet, b"vault-v1".to_vec()).unwrap();
    assert_eq!(plan.module, "tokens");
    assert_eq!(plan.owner.bytes(), owner_one().bytes());
    let derived = create_resource_address(&owner_one(), &b"vault-v1".to_vec());
    assert_eq!(plan.derived.bytes(), derived.bytes());
    assert_eq!(plan.bindings.len(), 2);
    assert_eq!(plan.bindings[0].address.bytes(), derived.bytes());
    assert_eq!(plan.bindings[1].address.bytes(), owner_one().bytes());
}

#[test]
fn malformed_wallet_is_an_input_error_before_any_build() {
    let wallet = b"0x12zz".to_vec();
    let r = plan_publish("tokens".to_string(), &wallet, b"seed".to_vec());
    assert!(matches!(r, Err(DeployError::InvalidAddress)));
    // No plan exists, so no binding set was ever handed to a builder.
}

#[test]
fn build_failure_is_distinct_from_network_errors() {
    let outcome = BuildOutcome::Failed("no such module path".to_string());
    let r = complete_publish(b"seed".to_vec(), outcome);
    let e = r.err().unwrap();
    match &e {
        DeployError::BuildFailed(msg) => assert_eq!(msg, "no such module path"),
        other => panic!("expected a build error, got {:?}", other),
    }
    assert!(!matches!(
        e,
        DeployError::AccountFetchFailed
            | DeployError::ChainIdFetchFailed
            | DeployError::SubmissionRejected
            | DeployError::ConfirmationTimeout
    ));
}

#[test]
fn builder_failures_map_to_their_own_errors() {
    let r = complete_publish(b"s".to_vec(), BuildOutcome::PathNotFound);
    assert!(matches!(r, Err(DeployError::ModuleNotFound)));
    let r = complete_publish(b"s".to_vec(), BuildOutcome::MetadataMissing);
    assert!(matches!(r, Err(DeployError::MetadataExtractionFailed)));
}

#[test]
fn empty_metadata_is_rejected() {
    let outcome = BuildOutcome::Built { metadata: vec![], modules: vec![vec![1u8]] };
    let r = complete_publish(b"s".to_vec(), outcome);
    assert!(matches!(r, Err(DeployError::EmptyMetadata)));
}

#[test]
fn oversized_module_list_is_rejected() {
    let outcome = BuildOutcome::Built { metadata: vec![1u8], modules: vec![vec![0u8; 70000]] };
    let r = complete_publish(b"s".to_vec(), outcome);
    assert!(matches!(r, Err(DeployError::PayloadTooLarge)));
}

#[test]
fn payload_size_ceiling_is_exact() {
    // seed (4) + metadata (65532) lands exactly on the ceiling.
    let at_limit = assemble(b"seed".to_vec(), vec![0u8; 65532], vec![]);
    assert!(at_limit.is_ok());
    // One more byte in a module blob goes over it.
    let over = assemble(b"seed".to_vec(), vec![0u8; 65532], vec![vec![0u8]]);
    assert!(matches!(over, Err(DeployError::PayloadTooLarge)));
}

#[test]
fn argument_order_is_seed_metadata_modules() {
    let p = assemble(b"seed".to_vec(), b"meta".to_vec(), vec![vec![1u8], vec![2u8, 3u8]]).unwrap();
    let args = p.argument_list();
    assert_eq!(args.len(), 3);
    assert!(matches!(&args[0], PayloadArg::Bytes(b) if b == &b"seed".to_vec()));
    assert!(matches!(&args[1], PayloadArg::Bytes(b) if b == &b"meta".to_vec()));
    assert!(matches!(&args[2], PayloadArg::Vector(v) if v == &vec![vec![1u8], vec![2u8, 3u8]]));
}

#[test]
fn zero_modules_still_yield_an_empty_vector_argument() {
    let p = assemble(b"seed".to_vec(), b"meta".to_vec(), vec![]).unwrap();
    let args = p.argument_list();
    assert_eq!(args.len(), 3);
    assert!(matches!(&args[2], PayloadArg::Vector(v) if v.is_empty()));
    let text = p.text_arguments();
    assert!(text.module_hex.is_empty());
    let binary = p.binary_arguments();
    // An empty vector argument is present, spelled as a zero count.
    assert_eq!(binary.modules_bytes, vec![0u8]);
}

#[test]
fn entry_point_and_type_arguments_are_fixed() {
    assert_eq!(
        entry_function_id(),
        "0x1::resource_account::create_resource_account_and_publish_package"
    );
    assert!(type_argument_list().is_empty());
}

#[test]
fn envelope_fields_follow_the_fetched_state() {
    let p = assemble(b"s".to_vec(), b"m".to_vec(), vec![]).unwrap();
    let env = make_envelope(p, owner_one(), 5, 1_000_000, 4);
    assert_eq!(env.sequence_number, 6);
    assert_eq!(env.expiration_timestamp_secs, 1_000_010);
    assert_eq!(env.chain_id, 4);
    assert_eq!(env.max_gas_amount, 200_000);
    assert_eq!(env.sender.bytes(), owner_one().bytes());
    assert_eq!(env.payload.seed, b"s".to_vec());
}

#[test]
fn welcome_message_names_the_server() {
    assert_eq!(welcome_message(), "Welcome to use AptosDeployer");
}
