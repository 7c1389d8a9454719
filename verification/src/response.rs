//! What the entry points hand back on success.

use vstd::prelude::*;

verus! {

/// One entry of a response's log: a key and its value.
#[derive(Clone, Debug, PartialEq, Eq)]
pub struct LogAttribute {
    pub key: String,
    pub value: String,
}

impl View for LogAttribute {
    type V = (Seq<char>, Seq<char>);

    open spec fn view(&self) -> (Seq<char>, Seq<char>) {
        (self.key@, self.value@)
    }
}

/// A log entry with the given key and value.
pub fn log(key: &str, value: &str) -> (attribute: LogAttribute)
    ensures
        attribute@ == (key@, value@),
{
    LogAttribute { key: key.to_owned(), value: value.to_owned() }
}

/// Acknowledgement of an instantiation.
#[derive(Clone, Debug, PartialEq, Eq)]
pub struct InitResponse {
    pub log: Vec<LogAttribute>,
}

impl Default for InitResponse {
    /// The empty acknowledgement.
    fn default() -> (response: Self)
        ensures
            response.log@.len() == 0,
    {
        InitResponse { log: Vec::new() }
    }
}

/// Acknowledgement of an execute request.
#[derive(Clone, Debug, PartialEq, Eq)]
pub struct HandleResponse {
    pub log: Vec<LogAttribute>,
}

} // verus!
