//! The transaction envelope of the submission path: a publish payload
//! wrapped with sender, sequence number, expiration and gas ceiling for one
//! signing attempt.

use vstd::prelude::*;
use crate::address::Address;
use crate::payload::PublishPayload;

verus! {

/// Gas ceiling set on every submission attempt.
pub const MAX_GAS_AMOUNT: u64 = 200000;

/// Seconds the network is given to include the transaction before it is
/// dropped — deliberately a narrow window.
pub const EXPIRATION_WINDOW_SECS: u64 = 10;

/// A publish payload wrapped for one submission attempt. Created per
/// attempt, discarded after the network accepts or rejects it, never
/// reused.
pub struct TransactionEnvelope {
    pub sender: Address,
    pub sequence_number: u64,
    pub expiration_timestamp_secs: u64,
    pub chain_id: u8,
    pub max_gas_amount: u64,
    pub payload: PublishPayload,
}

/// Wraps a payload for submission: the fetched sequence number advanced by
/// one (the signer is assumed to have no other pending transaction), an
/// expiration a short window after `now_secs`, and the fixed gas ceiling.
pub fn make_envelope(
    payload: PublishPayload,
    sender: Address,
    fetched_sequence_number: u64,
    now_secs: u64,
    chain_id: u8,
) -> (r: TransactionEnvelope)
    requires
        sender.wf(),
        fetched_sequence_number < u64::MAX,
        now_secs + EXPIRATION_WINDOW_SECS <= u64::MAX,
    ensures
        r.sender@ == sender@,
        r.sequence_number == fetched_sequence_number + 1,
        r.expiration_timestamp_secs == now_secs + EXPIRATION_WINDOW_SECS,
        r.chain_id == chain_id,
        r.max_gas_amount == MAX_GAS_AMOUNT,
        r.payload@ == payload@,
{
    TransactionEnvelope {
        sender,
        sequence_number: fetched_sequence_number + 1,
        expiration_timestamp_secs: now_secs + EXPIRATION_WINDOW_SECS,
        chain_id,
        max_gas_amount: MAX_GAS_AMOUNT,
        payload,
    }
}

} // verus!
