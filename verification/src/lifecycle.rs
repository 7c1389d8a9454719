//! The life of the flag's key, as a model over what the store holds, and what
//! follows from it for any sequence of the contract's operations.
//!
//! The contracts of the entry points say how each operation changes the
//! store in terms of `with_flag_written` and `with_flag_removed`, and what a
//! read returns in terms of `read_outcome`. The lemmas here relate those.

use crate::codec::{decoded_bool, encoded_bool};
use crate::decisions::{read_outcome, readback_outcome, removal_outcome};
use crate::error::ContractError;
use crate::msg::ReadResponse;
use crate::state::{PREFIX_TEST, TEST_KEY};
use crate::storage::{lookup, namespaced_key};
use vstd::prelude::*;

verus! {

/// The two states of the flag's key.
pub enum FlagState {
    Present,
    Absent,
}

/// The raw key of the flag in the underlying store.
pub open spec fn flag_key() -> Seq<u8> {
    namespaced_key(PREFIX_TEST@, TEST_KEY@)
}

/// What the store holds under the flag's key.
pub open spec fn stored_flag(entries: Map<Seq<u8>, Seq<u8>>) -> Option<Seq<u8>> {
    lookup(entries, flag_key())
}

/// Whether the flag's key is present.
pub open spec fn flag_state(entries: Map<Seq<u8>, Seq<u8>>) -> FlagState {
    if entries.contains_key(flag_key()) {
        FlagState::Present
    } else {
        FlagState::Absent
    }
}

/// The key is absent, or holds exactly the encoding of a boolean.
pub open spec fn flag_well_formed(entries: Map<Seq<u8>, Seq<u8>>) -> bool {
    match stored_flag(entries) {
        None => true,
        Some(bytes) => bytes == encoded_bool(true) || bytes == encoded_bool(false),
    }
}

/// The store once the flag has been written: the key holds the encoding of
/// `true`, and every other key is as before.
pub open spec fn with_flag_written(entries: Map<Seq<u8>, Seq<u8>>) -> Map<Seq<u8>, Seq<u8>> {
    entries.insert(flag_key(), encoded_bool(true))
}

/// The store once the flag has been removed: the key is absent, and every
/// other key is as before.
pub open spec fn with_flag_removed(entries: Map<Seq<u8>, Seq<u8>>) -> Map<Seq<u8>, Seq<u8>> {
    entries.remove(flag_key())
}

/// Writing makes the key present and removing makes it absent, whatever the
/// state before.
pub proof fn lemma_transitions(entries: Map<Seq<u8>, Seq<u8>>)
    ensures
        flag_state(with_flag_written(entries)) == FlagState::Present,
        flag_state(with_flag_removed(entries)) == FlagState::Absent,
{
}

/// After the flag has been written, the check of the readback passes and a
/// read answers `true`.
pub proof fn lemma_read_after_write(entries: Map<Seq<u8>, Seq<u8>>)
    ensures
        readback_outcome(stored_flag(with_flag_written(entries))) == Ok::<(), ContractError>(()),
        read_outcome(stored_flag(with_flag_written(entries))) == Ok::<ReadResponse, ContractError>(
            ReadResponse { val: true },
        ),
{
}

/// Removing twice leaves the same store as removing once, and the key is
/// absent after either removal.
pub proof fn lemma_remove_is_idempotent(entries: Map<Seq<u8>, Seq<u8>>)
    ensures
        with_flag_removed(with_flag_removed(entries)) == with_flag_removed(entries),
        flag_state(with_flag_removed(entries)) == FlagState::Absent,
        flag_state(with_flag_removed(with_flag_removed(entries))) == FlagState::Absent,
{
    assert(with_flag_removed(with_flag_removed(entries)) =~= with_flag_removed(entries));
}

/// After a removal a read fails with `KeyRemoved`: whatever the key held
/// before, also a freshly written flag, is no longer returned.
pub proof fn lemma_read_after_remove(entries: Map<Seq<u8>, Seq<u8>>)
    ensures
        read_outcome(stored_flag(with_flag_removed(entries))) == Err::<ReadResponse, ContractError>(
            ContractError::KeyRemoved,
        ),
{
}

/// Writing the flag and then removing it leaves the store as a removal alone
/// does: the key is absent, the check of the removal passes, and a read right
/// after fails with `KeyRemoved`.
pub proof fn lemma_write_then_remove(entries: Map<Seq<u8>, Seq<u8>>)
    ensures
        with_flag_removed(with_flag_written(entries)) == with_flag_removed(entries),
        flag_state(with_flag_removed(with_flag_written(entries))) == FlagState::Absent,
        removal_outcome(stored_flag(with_flag_removed(with_flag_written(entries)))) == Ok::<
            (),
            ContractError,
        >(()),
        read_outcome(stored_flag(with_flag_removed(with_flag_written(entries)))) == Err::<
            ReadResponse,
            ContractError,
        >(ContractError::KeyRemoved),
{
    assert(with_flag_removed(with_flag_written(entries)) =~= with_flag_removed(entries));
}

/// A readback that decodes to `false` is never accepted: the check fails with
/// `Corruption`.
pub proof fn lemma_false_readback_is_corruption(bytes: Seq<u8>)
    requires
        decoded_bool(bytes) == Some(false),
    ensures
        readback_outcome(Some(bytes)) == Err::<(), ContractError>(ContractError::Corruption),
{
}

/// A read is valid exactly in the state `Present`: it fails with `KeyRemoved`
/// if and only if the key is absent.
pub proof fn lemma_read_fails_iff_absent(entries: Map<Seq<u8>, Seq<u8>>)
    ensures
        flag_state(entries) == FlagState::Absent <==> read_outcome(stored_flag(entries)) == Err::<
            ReadResponse,
            ContractError,
        >(ContractError::KeyRemoved),
{
}

/// Writing and removing keep the key well formed and change no other key.
pub proof fn lemma_only_the_flag_changes(entries: Map<Seq<u8>, Seq<u8>>, other: Seq<u8>)
    requires
        other != flag_key(),
    ensures
        flag_well_formed(with_flag_written(entries)),
        flag_well_formed(with_flag_removed(entries)),
        lookup(with_flag_written(entries), other) == lookup(entries, other),
        lookup(with_flag_removed(entries), other) == lookup(entries, other),
{
}

/// While the key is well formed a read cannot fail with `Deserialization`.
pub proof fn lemma_well_formed_flag_decodes(entries: Map<Seq<u8>, Seq<u8>>)
    requires
        flag_well_formed(entries),
    ensures
        read_outcome(stored_flag(entries)) != Err::<ReadResponse, ContractError>(
            ContractError::Deserialization,
        ),
{
}

} // verus!
