use vstd::prelude::*;
use vstd::string::StringExecFns;

verus! {

/// Why a payload failed to decode: the field (or whole payload) whose shape
/// was wrong, and a short description of the shape that was expected.
#[derive(Debug, Clone, PartialEq, Eq)]
pub struct DecodeError {
    pub field: String,
    pub expected: String,
}

impl DecodeError {
    pub fn new(field: &str, expected: &str) -> (r: DecodeError)
        ensures
            r.field@ == field@,
            r.expected@ == expected@,
    {
        DecodeError { field: String::from_str(field), expected: String::from_str(expected) }
    }
}

/// The one configuration mistake the client rejects at construction time:
/// a password supplied without a username.
#[derive(Debug, Clone, PartialEq, Eq)]
pub enum ConfigError {
    PasswordWithoutUsername,
}

} // verus!
