//! What to store for the flag, and what to make of whatever a store returns
//! for the flag's key. Nothing here touches a store: each function takes what
//! was read as an argument and is verified for every value of it.

use crate::codec::{decoded_bool, deserialize_bool, encoded_bool, serialize_bool};
use crate::error::ContractError;
use crate::msg::ReadResponse;
use crate::response::{log, HandleResponse, LogAttribute};
use crate::storage::bytes_of;
use vstd::prelude::*;

verus! {

/// The verdict on what was read back right after writing the flag.
pub open spec fn readback_outcome(raw: Option<Seq<u8>>) -> Result<(), ContractError> {
    match raw {
        None => Err(ContractError::MissingAfterWrite),
        Some(bytes) => match decoded_bool(bytes) {
            None => Err(ContractError::Deserialization),
            Some(false) => Err(ContractError::Corruption),
            Some(true) => Ok(()),
        },
    }
}

/// The verdict on what was read back right after removing the flag.
pub open spec fn removal_outcome(raw: Option<Seq<u8>>) -> Result<(), ContractError> {
    match raw {
        None => Ok(()),
        Some(_) => Err(ContractError::NotRemoved),
    }
}

/// The answer to a read, from what the store holds under the flag's key.
pub open spec fn read_outcome(raw: Option<Seq<u8>>) -> Result<ReadResponse, ContractError> {
    match raw {
        None => Err(ContractError::KeyRemoved),
        Some(bytes) => match decoded_bool(bytes) {
            None => Err(ContractError::Deserialization),
            Some(val) => Ok(ReadResponse { val }),
        },
    }
}

/// The bytes that are stored for the flag: the encoding of `true`. A failure
/// of the encoder would be `Serialization`; for a boolean it has none.
pub fn flag_bytes() -> (r: Result<Vec<u8>, ContractError>)
    ensures
        r is Ok,
        r->Ok_0@ == encoded_bool(true),
{
    match serialize_bool(true) {
        Ok(bytes) => Ok(bytes),
        Err(_) => Err(ContractError::Serialization),
    }
}

/// Judges what the store returned for the flag's key right after the flag was
/// written. Only bytes that decode to `true` pass. Nothing found is
/// `MissingAfterWrite`, bytes that do not decode are `Deserialization`, and
/// bytes that decode to `false` are `Corruption`.
pub fn verify_readback(raw: Option<Vec<u8>>) -> (r: Result<(), ContractError>)
    ensures
        r == readback_outcome(bytes_of(raw)),
{
    match raw {
        None => Err(ContractError::MissingAfterWrite),
        Some(bytes) => match deserialize_bool(bytes.as_slice()) {
            Err(_) => Err(ContractError::Deserialization),
            Ok(false) => Err(ContractError::Corruption),
            Ok(true) => Ok(()),
        },
    }
}

/// Judges what the store returned for the flag's key right after the flag was
/// removed. Anything still found there is `NotRemoved`.
pub fn verify_removed(raw: Option<Vec<u8>>) -> (r: Result<(), ContractError>)
    ensures
        r == removal_outcome(bytes_of(raw)),
{
    match raw {
        None => Ok(()),
        Some(_) => Err(ContractError::NotRemoved),
    }
}

/// Answers a read from what the store returned for the flag's key. Nothing
/// found is `KeyRemoved`, bytes that do not decode are `Deserialization`, and
/// any decoded value, `false` too, is returned as it is.
pub fn read_response(raw: Option<Vec<u8>>) -> (r: Result<ReadResponse, ContractError>)
    ensures
        r == read_outcome(bytes_of(raw)),
{
    match raw {
        None => Err(ContractError::KeyRemoved),
        Some(bytes) => match deserialize_bool(bytes.as_slice()) {
            Err(_) => Err(ContractError::Deserialization),
            Ok(val) => Ok(ReadResponse { val }),
        },
    }
}

/// The acknowledgement of a removal: the one log entry `status` = `success`.
pub fn removal_response() -> (response: HandleResponse)
    ensures
        response.log@.len() == 1,
        response.log@[0]@ == ("status"@, "success"@),
{
    let mut entries: Vec<LogAttribute> = Vec::new();
    entries.push(log("status", "success"));
    HandleResponse { log: entries }
}

} // verus!
