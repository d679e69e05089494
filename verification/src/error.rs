//! The error types of the library.

use vstd::prelude::*;

verus! {

/// A general-purpose error for service methods: the error branch of a
/// fallible method, carried to the caller by every protocol.
#[derive(Debug, Clone, PartialEq, Eq)]
pub enum RpcError {
    /// An internal server error or a logic failure, with its message.
    InternalError(String),
}

impl RpcError {
    /// The message that the error carries.
    pub open spec fn message(self) -> Seq<char> {
        match self {
            RpcError::InternalError(m) => m@,
        }
    }

    /// The textual description of the error: a fixed prefix, then the message.
    pub open spec fn description_text(self) -> Seq<char> {
        "Internal server error: "@ + self.message()
    }

    /// The textual description that adapters put on the wire.
    pub fn description(&self) -> (text: String)
        ensures
            text@ == self.description_text(),
    {
        match self {
            RpcError::InternalError(m) => String::from_str("Internal server error: ").concat(
                m.as_str(),
            ),
        }
    }
}

impl From<String> for RpcError {
    /// Wraps the textual form of any failure as an internal error.
    fn from(err: String) -> (e: RpcError) {
        RpcError::InternalError(err)
    }
}

impl vstd::std_specs::convert::FromSpecImpl<String> for RpcError {
    open spec fn obeys_from_spec() -> bool {
        true
    }

    open spec fn from_spec(err: String) -> RpcError {
        RpcError::InternalError(err)
    }
}

/// Why a method could not be registered with a contract.
#[derive(Debug, Clone, Copy, PartialEq, Eq, Structural)]
pub enum ContractError {
    /// The contract already holds a method of that name.
    DuplicateMethodName,
    /// Two parameters of the method share a name.
    DuplicateParameterName,
    /// The route leaves a parameter without a role, gives it more than one,
    /// or names something that is no parameter of the method.
    AmbiguousParameterRole,
}

/// Why the listeners could not be started.
#[derive(Debug, Clone, Copy, PartialEq, Eq, Structural)]
pub enum OrchestratorError {
    /// The scheduler rejected a listener task.
    SpawnFailed,
}

} // verus!
