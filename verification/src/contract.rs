//! The three entry points, over the in-memory storage of `cosmwasm_std`.
//!
//! The flag is written as `true` when the contract is instantiated, read back
//! at once to confirm that the store kept it, can be read by a query, and is
//! deleted by an execute request. A variant of the instantiation deletes the
//! flag again before it returns, to try the removal as well.
//!
//! Each entry point makes the calls into the store and leaves every decision
//! to `crate::decisions`, so a host with a storage of its own can make the same
//! calls and reach the same decisions.

use crate::error::ContractError;
use crate::lifecycle::{flag_state, stored_flag, with_flag_removed, with_flag_written, FlagState};
use crate::msg::{HandleMsg, InitMsg, QueryMsg, ReadResponse};
use crate::response::{HandleResponse, InitResponse};
use crate::decisions::{
    flag_bytes, read_outcome, read_response, removal_response, verify_readback, verify_removed,
};
use crate::state::{PREFIX_TEST, TEST_KEY};
use crate::storage::{entries, prefixed_get, prefixed_remove, prefixed_set};
use cosmwasm_std::MemoryStorage;
use vstd::prelude::*;

verus! {

/// Instantiates the contract: writes the flag, reads it back and checks it.
///
/// On this store the write is kept and the encoding round-trips, so the call
/// succeeds with an empty acknowledgement and leaves the flag present; no
/// other key changes.
pub fn init(storage: &mut MemoryStorage, _msg: InitMsg) -> (r: Result<InitResponse, ContractError>)
    ensures
        r is Ok,
        r->Ok_0.log@.len() == 0,
        entries(*final(storage)) == with_flag_written(entries(*old(storage))),
        flag_state(entries(*final(storage))) == FlagState::Present,
{
    let bytes = flag_bytes()?;
    prefixed_set(storage, PREFIX_TEST.as_slice(), TEST_KEY.as_slice(), bytes.as_slice());
    let raw = prefixed_get(storage, PREFIX_TEST.as_slice(), TEST_KEY.as_slice());
    verify_readback(raw)?;
    Ok(InitResponse::default())
}

/// Instantiates the contract and tries the removal too: writes the flag, reads
/// it back and checks it, deletes it, and checks that it is gone.
///
/// On this store the call succeeds with an empty acknowledgement and leaves
/// the flag absent; no other key changes.
pub fn init_with_self_test(storage: &mut MemoryStorage, _msg: InitMsg) -> (r: Result<
    InitResponse,
    ContractError,
>)
    ensures
        r is Ok,
        r->Ok_0.log@.len() == 0,
        entries(*final(storage)) == with_flag_removed(entries(*old(storage))),
        flag_state(entries(*final(storage))) == FlagState::Absent,
{
    let bytes = flag_bytes()?;
    prefixed_set(storage, PREFIX_TEST.as_slice(), TEST_KEY.as_slice(), bytes.as_slice());
    let raw = prefixed_get(storage, PREFIX_TEST.as_slice(), TEST_KEY.as_slice());
    verify_readback(raw)?;
    prefixed_remove(storage, PREFIX_TEST.as_slice(), TEST_KEY.as_slice());
    let raw = prefixed_get(storage, PREFIX_TEST.as_slice(), TEST_KEY.as_slice());
    verify_removed(raw)?;
    Ok(InitResponse::default())
}

/// Executes a request: deletes the flag, whether or not it is present.
///
/// The call never fails. It leaves the flag absent, changes no other key, and
/// acknowledges with the one log entry `status` = `success`.
pub fn handle(storage: &mut MemoryStorage, msg: HandleMsg) -> (r: Result<
    HandleResponse,
    ContractError,
>)
    ensures
        r is Ok,
        r->Ok_0.log@.len() == 1,
        r->Ok_0.log@[0]@ == ("status"@, "success"@),
        entries(*final(storage)) == with_flag_removed(entries(*old(storage))),
        flag_state(entries(*final(storage))) == FlagState::Absent,
{
    match msg {
        HandleMsg::Remove {} => {
            prefixed_remove(storage, PREFIX_TEST.as_slice(), TEST_KEY.as_slice());
            Ok(removal_response())
        },
    }
}

/// Answers a query: reads the flag.
///
/// A present key is decoded and returned; an absent key is `KeyRemoved`, and
/// stored bytes that do not decode are `Deserialization`. The store is only
/// read.
pub fn query(storage: &MemoryStorage, msg: QueryMsg) -> (r: Result<ReadResponse, ContractError>)
    ensures
        r == read_outcome(stored_flag(entries(*storage))),
{
    match msg {
        QueryMsg::Read {} => {
            let raw = prefixed_get(storage, PREFIX_TEST.as_slice(), TEST_KEY.as_slice());
            read_response(raw)
        },
    }
}

} // verus!
