//! Where the flag lives: one namespace, and one key inside it.

use vstd::prelude::*;

verus! {

/// Namespace of the region that holds the flag: the bytes of `test`.
pub const PREFIX_TEST: [u8; 4] = [116, 101, 115, 116];

/// Key of the flag inside the namespace: the bytes of `flag`.
pub const TEST_KEY: [u8; 4] = [102, 108, 97, 103];

} // verus!
