//! The key-value store behind the flag: `cosmwasm_std`'s in-memory storage,
//! reached through the namespaced views of `cosmwasm_storage`.
//!
//! Nothing in this file is proved. Each function states what the outside code
//! does, and the rest of the crate is verified against those statements.

use cosmwasm_std::{MemoryStorage, ReadonlyStorage, Storage};
use cosmwasm_storage::{PrefixedStorage, ReadonlyPrefixedStorage};
use vstd::prelude::*;

verus! {

/// `cosmwasm_std::MemoryStorage`, an ordered map from byte keys to byte
/// values. Its field is private, so the type is opaque here.
#[verifier::external_type_specification]
#[verifier::external_body]
pub struct ExMemoryStorage(MemoryStorage);

/// What a storage holds: every raw key that is present, with its value.
pub uninterp spec fn entries(storage: MemoryStorage) -> Map<Seq<u8>, Seq<u8>>;

/// The longest namespace that `cosmwasm_storage` can prefix a key with.
pub const MAX_NAMESPACE_LEN: usize = 0xFFFF;

/// The raw key under which a namespaced view of `cosmwasm_storage` files
/// `key`: the length of `namespace` as two bytes, high byte first, then the
/// namespace, then the key. Meant for namespaces of at most
/// `MAX_NAMESPACE_LEN` bytes.
pub open spec fn namespaced_key(namespace: Seq<u8>, key: Seq<u8>) -> Seq<u8> {
    seq![(namespace.len() / 256) as u8, (namespace.len() % 256) as u8] + namespace + key
}

/// The value found under `key`, if the key is present.
pub open spec fn lookup(entries: Map<Seq<u8>, Seq<u8>>, key: Seq<u8>) -> Option<Seq<u8>> {
    if entries.contains_key(key) {
        Some(entries[key])
    } else {
        None
    }
}

/// A looked-up value as bytes.
pub open spec fn bytes_of(raw: Option<Vec<u8>>) -> Option<Seq<u8>> {
    match raw {
        Some(bytes) => Some(bytes@),
        None => None,
    }
}

/// `Storage::set` on the view that `PrefixedStorage::new` opens on `storage`
/// for `namespace`. The view prefixes the key as `namespaced_key` says and
/// hands it on to the in-memory storage, which inserts a copy of `value` into
/// its map: the raw key then holds `value`, replacing what was there, and no
/// other key changes. Opening the view panics on a namespace longer than
/// `MAX_NAMESPACE_LEN`.
#[verifier::external_body]
pub(crate) fn prefixed_set(storage: &mut MemoryStorage, namespace: &[u8], key: &[u8], value: &[u8])
    requires
        namespace@.len() <= MAX_NAMESPACE_LEN,
    ensures
        entries(*final(storage)) == entries(*old(storage)).insert(
            namespaced_key(namespace@, key@),
            value@,
        ),
{
    PrefixedStorage::new(namespace, storage).set(key, value)
}

/// `Storage::remove` on the view that `PrefixedStorage::new` opens on
/// `storage` for `namespace`. The in-memory storage removes the raw key from
/// its map, which does nothing if the key is absent, and no other key changes.
/// Opening the view panics on a namespace longer than `MAX_NAMESPACE_LEN`.
#[verifier::external_body]
pub(crate) fn prefixed_remove(storage: &mut MemoryStorage, namespace: &[u8], key: &[u8])
    requires
        namespace@.len() <= MAX_NAMESPACE_LEN,
    ensures
        entries(*final(storage)) == entries(*old(storage)).remove(namespaced_key(namespace@, key@)),
{
    PrefixedStorage::new(namespace, storage).remove(key)
}

/// `ReadonlyStorage::get` on the view that `ReadonlyPrefixedStorage::new`
/// opens on `storage` for `namespace`. The in-memory storage returns a copy of
/// the value that its map holds under the raw key, or `None` when the key is
/// absent. Opening the view panics on a namespace longer than
/// `MAX_NAMESPACE_LEN`.
#[verifier::external_body]
pub(crate) fn prefixed_get(storage: &MemoryStorage, namespace: &[u8], key: &[u8]) -> (raw: Option<
    Vec<u8>,
>)
    requires
        namespace@.len() <= MAX_NAMESPACE_LEN,
    ensures
        bytes_of(raw) == lookup(entries(*storage), namespaced_key(namespace@, key@)),
{
    ReadonlyPrefixedStorage::new(namespace, storage).get(key)
}

} // verus!
