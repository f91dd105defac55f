//! The shared publish pipeline both front-ends call through: validate the
//! wallet, derive the resource address, fix the binding set, then fold the
//! external builder's outcome into the publish payload.

use vstd::prelude::*;
use vstd::string::StringExecFns;
use crate::address::{Address, parsed_address, valid_address_literal};
use crate::bindings::{builder_bindings, NamedAddressBinding};
use crate::derivation::{create_resource_address, derived_address_bytes};
use crate::errors::DeployError;
use crate::payload::{assemble, raw_argument_size, PayloadModel, PublishPayload, MAX_PAYLOAD_BYTES};

verus! {

/// What the external package builder reported, as plain values.
pub enum BuildOutcome {
    /// Compilation succeeded: serialized metadata and the module blobs.
    Built { metadata: Vec<u8>, modules: Vec<Vec<u8>> },
    /// The module path did not resolve to a package source.
    PathNotFound,
    /// The compiler reported a diagnostic, kept verbatim.
    Failed(String),
    /// The compiled package lacked well-formed metadata.
    MetadataMissing,
}

/// Everything settled before the package builder runs: the validated
/// owner, the derived resource address, the seed, and the binding set the
/// builder must compile against.
pub struct PublishPlan {
    pub module: String,
    pub owner: Address,
    pub derived: Address,
    pub seed: Vec<u8>,
    pub bindings: Vec<NamedAddressBinding>,
}

/// First half of a publish request, entirely before any external call:
/// validates the wallet string, derives the resource address, and fixes
/// the binding set. `Err(InvalidAddress)` exactly on a malformed wallet —
/// for such a request the package builder is never consulted.
pub fn plan_publish(module: String, wallet: &Vec<u8>, seed: Vec<u8>) -> (r: Result<
    PublishPlan,
    DeployError,
>)
    ensures
        r is Ok <==> valid_address_literal(wallet@),
        r is Err ==> r->Err_0 == DeployError::InvalidAddress,
        r is Ok ==> ({
            let plan = r->Ok_0;
            &&& plan.module@ == module@
            &&& plan.owner.wf()
            &&& plan.owner@ == parsed_address(wallet@)
            &&& plan.derived.wf()
            &&& plan.derived@ == derived_address_bytes(parsed_address(wallet@), seed@)
            &&& plan.seed@ == seed@
            &&& plan.bindings@.len() == 2
            &&& plan.bindings@[0].name@ == "punkninja"@
            &&& plan.bindings@[0].address@ == derived_address_bytes(parsed_address(wallet@), seed@)
            &&& plan.bindings@[1].name@ == "deployer"@
            &&& plan.bindings@[1].address@ == parsed_address(wallet@)
        }),
{
    let owner = match Address::parse(wallet) {
        Ok(a) => a,
        Err(e) => {
            return Err(e);
        },
    };
    let derived = create_resource_address(&owner, &seed);
    let bindings = builder_bindings(&owner, &derived);
    Ok(PublishPlan { module, owner, derived, seed, bindings })
}

/// Second half of a publish request: folds the package builder's outcome
/// into the payload. Each builder failure maps to its own build error —
/// payload assembly is never reached for one — and a built package is
/// assembled into the publish payload.
pub fn complete_publish(seed: Vec<u8>, outcome: BuildOutcome) -> (r: Result<
    PublishPayload,
    DeployError,
>)
    ensures
        outcome is PathNotFound ==> r == Err::<PublishPayload, DeployError>(
            DeployError::ModuleNotFound,
        ),
        outcome matches BuildOutcome::Failed(m) ==> r == Err::<PublishPayload, DeployError>(
            DeployError::BuildFailed(m),
        ),
        outcome is MetadataMissing ==> r == Err::<PublishPayload, DeployError>(
            DeployError::MetadataExtractionFailed,
        ),
        outcome matches BuildOutcome::Built { metadata, modules } ==> {
            &&& r is Ok <==> (metadata@.len() > 0 && raw_argument_size(
                seed@,
                metadata@,
                modules.deep_view(),
            ) <= MAX_PAYLOAD_BYTES)
            &&& r is Ok ==> r->Ok_0@ == (PayloadModel {
                seed: seed@,
                metadata: metadata@,
                modules: modules.deep_view(),
            })
            &&& r is Err ==> r->Err_0 == (if metadata@.len() == 0 {
                DeployError::EmptyMetadata
            } else {
                DeployError::PayloadTooLarge
            })
        },
{
    match outcome {
        BuildOutcome::Built { metadata, modules } => assemble(seed, metadata, modules),
        BuildOutcome::PathNotFound => Err(DeployError::ModuleNotFound),
        BuildOutcome::Failed(m) => Err(DeployError::BuildFailed(m)),
        BuildOutcome::MetadataMissing => Err(DeployError::MetadataExtractionFailed),
    }
}

/// Law: every failure of the package builder surfaces as a build error, and
/// no build error is a network error — the two classes stay
/// distinguishable.
pub proof fn lemma_build_errors_not_network(e: DeployError)
    ensures
        e.is_build_error() ==> !e.is_network_error(),
{
}

/// The greeting of the service's informational root endpoint.
pub fn welcome_message() -> (r: String)
    ensures
        r@ == "Welcome to use AptosDeployer"@,
{
    String::from_str("Welcome to use AptosDeployer")
}

} // verus!
