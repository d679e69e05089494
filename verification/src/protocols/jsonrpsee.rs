//! The JSON-RPC 2.0 adapter: every method under its own name, every reply
//! a generic value or an error object.

use vstd::prelude::*;
use crate::contract::Contract;
use crate::contract::MethodEntry;
use crate::protocols::dispatch_table;
use crate::protocols::lists_methods;
use crate::protocols::offers;
use crate::protocols::select;
use crate::protocols::selects;
use crate::protocols::wire_interface;
use crate::protocols::Adapter;
use crate::protocols::CallParams;
use crate::protocols::DispatchEntry;
use crate::protocols::MethodOutcome;
use crate::protocols::Protocol;
use crate::protocols::Selection;
use crate::protocols::WireInterface;

verus! {

/// The code of the error "method not found".
pub const METHOD_NOT_FOUND_CODE: i32 = -32601;

/// The code of the error "invalid params".
pub const INVALID_PARAMS_CODE: i32 = -32602;

/// The code of the error "internal error".
pub const INTERNAL_ERROR_CODE: i32 = -32603;

/// The JSON-RPC protocol.
#[derive(Debug, Clone, Copy)]
pub struct JsonRpSee;

/// The error object of a JSON-RPC response.
#[derive(Debug, Clone, PartialEq, Eq)]
pub struct RpcErrorObject {
    pub code: i32,
    pub message: String,
    pub data: Option<String>,
}

/// The methods that the adapter dispatches to, by name.
#[derive(Debug)]
pub struct JsonRpcAdapter {
    pub methods: Vec<DispatchEntry>,
}

/// A call that the adapter lets through.
#[derive(Debug, Clone, PartialEq, Eq)]
pub struct JsonRpcCall {
    pub method: usize,
    pub arguments: Vec<String>,
}

/// `error` is the object with this code and message, and no data.
pub open spec fn is_error(error: RpcErrorObject, code: i32, message: Seq<char>) -> bool {
    error.code == code && error.message@ == message && error.data.is_none()
}

/// `reply` carries `outcome`: the value where there is one, and an internal
/// error for the error of the method and for a value that was not encoded.
pub open spec fn reply_of(outcome: MethodOutcome, reply: Result<String, RpcErrorObject>) -> bool {
    match outcome {
        MethodOutcome::Plain(Ok(v)) => reply == Ok::<String, RpcErrorObject>(v),
        MethodOutcome::Success(Ok(v)) => reply == Ok::<String, RpcErrorObject>(v),
        MethodOutcome::Plain(Err(m)) => reply.is_err() && is_error(
            reply.unwrap_err(),
            INTERNAL_ERROR_CODE,
            "Failed to serialize RPC response: "@ + m@,
        ),
        MethodOutcome::Success(Err(m)) => reply.is_err() && is_error(
            reply.unwrap_err(),
            INTERNAL_ERROR_CODE,
            m@,
        ),
        MethodOutcome::Failure(e) => reply.is_err() && is_error(
            reply.unwrap_err(),
            INTERNAL_ERROR_CODE,
            e.description_text(),
        ),
    }
}

/// What a client reads from a reply: the value, or the message of the error.
pub open spec fn reading_of(reply: Result<String, RpcErrorObject>) -> Result<String, String> {
    match reply {
        Ok(v) => Ok(v),
        Err(e) => Err(e.message),
    }
}

impl JsonRpcAdapter {
    /// The table lists the methods of `entries`.
    pub open spec fn plans_contract(&self, entries: Seq<MethodEntry>) -> bool {
        lists_methods(self.methods@, entries)
    }

    /// `call` is what the adapter makes of a request: the call of the method
    /// with that very name, with the arguments in declared order, or the error
    /// "method not found", or "invalid params" where the method does not take
    /// what the request brings.
    pub open spec fn dispatches(
        &self,
        method: Seq<char>,
        params: CallParams,
        call: Result<JsonRpcCall, RpcErrorObject>,
    ) -> bool {
        match call {
            Ok(c) => selects(
                self.methods@,
                method,
                params,
                (Selection::Call { method: c.method, arguments: c.arguments }),
            ),
            Err(e) => {
                ||| selects(self.methods@, method, params, Selection::UnknownMethod) && is_error(
                    e,
                    METHOD_NOT_FOUND_CODE,
                    "Method not found"@,
                )
                ||| selects(self.methods@, method, params, Selection::InvalidParams) && is_error(
                    e,
                    INVALID_PARAMS_CODE,
                    "Invalid params"@,
                )
            },
        }
    }

    /// Finds the method that a request names. No method is called for a
    /// request that the adapter turns down.
    pub fn dispatch(&self, method: &str, params: CallParams) -> (call: Result<
        JsonRpcCall,
        RpcErrorObject,
    >)
        ensures
            self.dispatches(method@, params, call),
    {
        let name = String::from_str(method);
        match select(&self.methods, &name, params) {
            Selection::Call { method, arguments } => Ok(JsonRpcCall { method, arguments }),
            Selection::UnknownMethod => Err(
                RpcErrorObject {
                    code: METHOD_NOT_FOUND_CODE,
                    message: String::from_str("Method not found"),
                    data: None,
                },
            ),
            Selection::InvalidParams => Err(
                RpcErrorObject {
                    code: INVALID_PARAMS_CODE,
                    message: String::from_str("Invalid params"),
                    data: None,
                },
            ),
        }
    }
}

impl JsonRpSee {
    /// The dispatch table of the contract.
    pub fn adapter(&self, contract: &Contract) -> (table: JsonRpcAdapter)
        ensures
            table.plans_contract(contract.entries()),
    {
        JsonRpcAdapter { methods: dispatch_table(contract) }
    }

    /// The internal error with this message.
    pub fn internal_error(&self, message: String) -> (error: RpcErrorObject)
        ensures
            error.message == message,
            is_error(error, INTERNAL_ERROR_CODE, message@),
    {
        RpcErrorObject { code: INTERNAL_ERROR_CODE, message, data: None }
    }

    /// The reply that carries an outcome.
    pub fn reply(&self, outcome: MethodOutcome) -> (reply: Result<String, RpcErrorObject>)
        ensures
            reply_of(outcome, reply),
    {
        match outcome {
            MethodOutcome::Plain(Ok(v)) => Ok(v),
            MethodOutcome::Success(Ok(v)) => Ok(v),
            MethodOutcome::Plain(Err(m)) => Err(
                self.internal_error(
                    String::from_str("Failed to serialize RPC response: ").concat(m.as_str()),
                ),
            ),
            MethodOutcome::Success(Err(m)) => Err(self.internal_error(m)),
            MethodOutcome::Failure(e) => Err(self.internal_error(e.description())),
        }
    }

    /// What a client reads from a reply.
    pub fn read_reply(&self, reply: Result<String, RpcErrorObject>) -> (read: Result<String, String>)
        ensures
            read == reading_of(reply),
    {
        match reply {
            Ok(v) => Ok(v),
            Err(e) => Err(e.message),
        }
    }
}

impl Protocol for JsonRpSee {
    /// Every method of the contract under its own name, with its parameters,
    /// returning a generic value.
    fn transform_trait(&self, contract: &Contract) -> (interface: WireInterface)
        ensures
            offers(interface.methods@, contract.entries(), true),
    {
        wire_interface(contract, true)
    }

    /// The dispatch table of the contract.
    fn transform_impl(&self, contract: &Contract) -> (adapter: Adapter)
        ensures
            match adapter {
                Adapter::JsonRpc(table) => table.plans_contract(contract.entries()),
                _ => false,
            },
    {
        Adapter::JsonRpc(self.adapter(contract))
    }
}

} // verus!
