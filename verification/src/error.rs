//! The errors that a handle operation signals to the host.

use vstd::prelude::*;

verus! {

/// The classification under which the host raises an error.
#[derive(Clone, Copy, Debug, PartialEq, Eq, Structural)]
pub enum Kind {
    /// A value is not of the kind that the operation asked for.
    TypeError,
}

impl Kind {
    /// The name by which the host knows the classification.
    pub open spec fn name_spec(self) -> Seq<char> {
        match self {
            Kind::TypeError => "TypeError"@,
        }
    }

    /// The name by which the host knows the classification.
    pub fn name(self) -> (name: &'static str)
        ensures
            name@ == self.name_spec(),
    {
        match self {
            Kind::TypeError => "TypeError",
        }
    }
}

/// An error to be raised in the host: a classification and a message.
#[derive(Clone, Copy, Debug, PartialEq, Eq)]
pub struct Error {
    kind: Kind,
    message: &'static str,
}

impl Error {
    /// The classification of the error.
    pub closed spec fn kind_spec(self) -> Kind {
        self.kind
    }

    /// The message of the error.
    pub closed spec fn message_spec(self) -> Seq<char> {
        self.message@
    }

    /// Whether this is the error of a failed narrowing: a type error with the
    /// message "type error".
    pub open spec fn is_type_error(self) -> bool {
        &&& self.kind_spec() == Kind::TypeError
        &&& self.message_spec() == "type error"@
    }

    /// The error with the given classification and message.
    pub fn new(kind: Kind, message: &'static str) -> (e: Error)
        ensures
            e.kind_spec() == kind,
            e.message_spec() == message@,
    {
        Error { kind, message }
    }

    /// The classification of the error.
    pub fn kind(&self) -> (kind: Kind)
        ensures
            kind == self.kind_spec(),
    {
        self.kind
    }

    /// The message of the error.
    pub fn message(&self) -> (message: &'static str)
        ensures
            message@ == self.message_spec(),
    {
        self.message
    }
}

} // verus!
