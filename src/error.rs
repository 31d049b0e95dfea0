//! The error type shared by the server's components.
use vstd::prelude::*;
use vstd::string::*;

verus! {

/// What went wrong, with a human-readable detail.
#[derive(Debug)]
pub enum LuciuzError {
    Config(String),
    Io(String),
    Runtime(String),
}

impl LuciuzError {
    /// The detail text carried by the error.
    pub open spec fn detail(&self) -> Seq<char> {
        match self {
            LuciuzError::Config(s) => s@,
            LuciuzError::Io(s) => s@,
            LuciuzError::Runtime(s) => s@,
        }
    }

    /// The label that a rendered message starts with.
    pub open spec fn label(&self) -> Seq<char> {
        match self {
            LuciuzError::Config(_) => "configuration error: "@,
            LuciuzError::Io(_) => "io error: "@,
            LuciuzError::Runtime(_) => "runtime error: "@,
        }
    }

    /// The message shown to an operator: the kind's label, then the detail.
    pub fn message(&self) -> (r: String)
        ensures
            r@ == self.label() + self.detail(),
    {
        match self {
            LuciuzError::Config(s) => String::from_str("configuration error: ").concat(s.as_str()),
            LuciuzError::Io(s) => String::from_str("io error: ").concat(s.as_str()),
            LuciuzError::Runtime(s) => String::from_str("runtime error: ").concat(s.as_str()),
        }
    }
}

} // verus!
