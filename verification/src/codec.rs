//! The flag's encoding: `bincode2` under its default configuration, which
//! writes a boolean as one byte.
//!
//! The two functions that call `bincode2` are not proved: each states what the
//! outside code does, and the rest of the crate is verified against those
//! statements.

use vstd::prelude::*;

verus! {

/// `bincode2::ErrorKind`, the reason an encoding or a decoding failed. The
/// crate reads none of it.
#[verifier::external_type_specification]
#[verifier::external_body]
pub struct ExErrorKind(bincode2::ErrorKind);

/// The encoding of a boolean: the single byte 1 for `true`, 0 for `false`.
pub open spec fn encoded_bool(val: bool) -> Seq<u8> {
    seq![if val { 1u8 } else { 0u8 }]
}

/// The boolean that `bytes` decode to. Only the first byte is read: 1 is
/// `true`, 0 is `false`; any other first byte, or no byte at all, decodes to
/// nothing. Bytes after the first are ignored.
pub open spec fn decoded_bool(bytes: Seq<u8>) -> Option<bool> {
    if bytes.len() == 0 {
        None
    } else if bytes[0] == 1 {
        Some(true)
    } else if bytes[0] == 0 {
        Some(false)
    } else {
        None
    }
}

/// Decoding undoes encoding, for both values.
pub proof fn lemma_encoding_round_trips(val: bool)
    ensures
        decoded_bool(encoded_bool(val)) == Some(val),
{
}

/// `bincode2::serialize` on a boolean. The default configuration sets no size
/// limit, and the one byte is written into a vector, which takes whatever it
/// is given: no step of the call can fail, and it returns the encoding.
#[verifier::external_body]
pub(crate) fn serialize_bool(val: bool) -> (r: Result<Vec<u8>, Box<bincode2::ErrorKind>>)
    ensures
        r is Ok,
        r->Ok_0@ == encoded_bool(val),
{
    bincode2::serialize(&val)
}

/// `bincode2::deserialize` to a boolean. It reads one byte, fails if there is
/// none or if the byte is neither 0 nor 1, and never looks at what follows: it
/// succeeds exactly on the inputs that `decoded_bool` gives a value for, and
/// returns that value.
#[verifier::external_body]
pub(crate) fn deserialize_bool(bytes: &[u8]) -> (r: Result<bool, Box<bincode2::ErrorKind>>)
    ensures
        r is Ok <==> decoded_bool(bytes@) is Some,
        r is Ok ==> Some(r->Ok_0) == decoded_bool(bytes@),
{
    bincode2::deserialize(bytes)
}

} // verus!
