use vstd::prelude::*;

verus! {

/// Failure taxonomy of the deployment pipeline. Input errors are raised
/// before any external collaborator is consulted, build errors carry the
/// builder's diagnostic verbatim, and network errors belong only to the
/// submission path — the classes stay distinguishable by variant.
#[derive(Debug)]
pub enum DeployError {
    /// The wallet string does not spell a well-formed account address.
    InvalidAddress,
    /// The module path does not resolve to a package source.
    ModuleNotFound,
    /// The package builder reported a diagnostic, kept verbatim.
    BuildFailed(String),
    /// The compiled package lacked well-formed metadata.
    MetadataExtractionFailed,
    /// Payload assembly was handed empty package metadata.
    EmptyMetadata,
    /// The payload's arguments exceed the chain's transaction size ceiling.
    PayloadTooLarge,
    /// The signer's account state could not be fetched from the ledger.
    AccountFetchFailed,
    /// The chain identifier could not be fetched from the ledger.
    ChainIdFetchFailed,
    /// The network rejected the submitted transaction.
    SubmissionRejected,
    /// Finality was not observed within the polling budget.
    ConfirmationTimeout,
}

impl DeployError {
    /// Errors that originate in the package builder.
    pub open spec fn is_build_error(&self) -> bool {
        match *self {
            DeployError::ModuleNotFound => true,
            DeployError::BuildFailed(_) => true,
            DeployError::MetadataExtractionFailed => true,
            _ => false,
        }
    }

    /// Errors that originate in the ledger connection.
    pub open spec fn is_network_error(&self) -> bool {
        match *self {
            DeployError::AccountFetchFailed => true,
            DeployError::ChainIdFetchFailed => true,
            DeployError::SubmissionRejected => true,
            DeployError::ConfirmationTimeout => true,
            _ => false,
        }
    }
}

} // verus!
