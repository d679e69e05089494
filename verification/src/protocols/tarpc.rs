//! The stream adapter: framed requests on a lasting connection, each
//! answered by a frame that bears the token of its request.

use vstd::prelude::*;
use crate::contract::Contract;
use crate::contract::MethodEntry;
use crate::error::RpcError;
use crate::protocols::dispatch_table;
use crate::protocols::lists_methods;
use crate::protocols::offers;
use crate::protocols::select;
use crate::protocols::selects;
use crate::protocols::wire_interface;
use crate::protocols::Adapter;
use crate::protocols::CallParams;
use crate::protocols::DispatchEntry;
use crate::protocols::MethodOutcome;
use crate::protocols::Protocol;
use crate::protocols::Selection;
use crate::protocols::WireInterface;

verus! {

/// The stream protocol.
#[derive(Debug, Clone, Copy)]
pub struct Tarpc;

/// The methods that the adapter serves, by name.
#[derive(Debug)]
pub struct StreamAdapter {
    pub methods: Vec<DispatchEntry>,
}

/// One request on a connection: the token that its response will bear, the
/// name of the method, and the arguments by position.
#[derive(Debug, Clone, PartialEq, Eq)]
pub struct RequestFrame {
    pub token: u64,
    pub method: String,
    pub arguments: Vec<String>,
}

/// What a response carries.
#[derive(Debug, Clone, PartialEq, Eq)]
pub enum FramePayload {
    /// The value that the method returned.
    Value(String),
    /// The error of the method, as it stands, or the internal error that
    /// bears the message of the encoder.
    Error(RpcError),
}

/// One response on a connection.
#[derive(Debug, Clone, PartialEq, Eq)]
pub struct ResponseFrame {
    pub token: u64,
    pub payload: FramePayload,
}

/// What the worker of a connection met.
#[derive(Debug, Clone, PartialEq, Eq)]
pub enum WorkerEvent {
    /// A request was read.
    Frame(RequestFrame),
    /// What was read is no frame.
    Malformed,
    /// The connection was reset or has ended.
    Closed,
}

/// What the worker of a connection does next.
#[derive(Debug, Clone, PartialEq, Eq)]
pub enum WorkerAction {
    /// Call the method, then answer under the token.
    Invoke { token: u64, method: usize, arguments: Vec<String> },
    /// End this worker, and no other.
    Stop,
}

/// The frame that answers the request with this token: the value, or the
/// error of the method, or the message of the encoder that could not write
/// the value.
pub open spec fn frame_of(token: u64, outcome: MethodOutcome) -> ResponseFrame {
    match outcome {
        MethodOutcome::Plain(Ok(v)) => ResponseFrame { token, payload: FramePayload::Value(v) },
        MethodOutcome::Success(Ok(v)) => ResponseFrame { token, payload: FramePayload::Value(v) },
        MethodOutcome::Plain(Err(m)) => ResponseFrame {
            token,
            payload: FramePayload::Error(RpcError::InternalError(m)),
        },
        MethodOutcome::Success(Err(m)) => ResponseFrame {
            token,
            payload: FramePayload::Error(RpcError::InternalError(m)),
        },
        MethodOutcome::Failure(e) => ResponseFrame { token, payload: FramePayload::Error(e) },
    }
}

/// What a client reads from a frame.
pub open spec fn reading_of(frame: ResponseFrame) -> Result<String, RpcError> {
    match frame.payload {
        FramePayload::Value(v) => Ok(v),
        FramePayload::Error(m) => Err(m),
    }
}

impl StreamAdapter {
    /// The table lists the methods of `entries`.
    pub open spec fn plans_contract(&self, entries: Seq<MethodEntry>) -> bool {
        lists_methods(self.methods@, entries)
    }

    /// `action` is what the worker does after `event`: it calls the method
    /// that a frame names, with the frame's token and arguments, and stops on
    /// anything else, a frame that names no method or brings the wrong number
    /// of arguments included.
    pub open spec fn steps(&self, event: WorkerEvent, action: WorkerAction) -> bool {
        match event {
            WorkerEvent::Frame(frame) => {
                let params = CallParams::Positional(frame.arguments);
                match action {
                    WorkerAction::Invoke { token, method, arguments } => token == frame.token
                        && selects(
                        self.methods@,
                        frame.method@,
                        params,
                        (Selection::Call { method, arguments }),
                    ),
                    WorkerAction::Stop => selects(
                        self.methods@,
                        frame.method@,
                        params,
                        Selection::UnknownMethod,
                    ) || selects(self.methods@, frame.method@, params, Selection::InvalidParams),
                }
            },
            WorkerEvent::Malformed => action == WorkerAction::Stop,
            WorkerEvent::Closed => action == WorkerAction::Stop,
        }
    }

    /// What the worker of a connection does after `event`.
    pub fn step(&self, event: WorkerEvent) -> (action: WorkerAction)
        ensures
            self.steps(event, action),
    {
        match event {
            WorkerEvent::Frame(frame) => {
                let token = frame.token;
                match select(&self.methods, &frame.method, CallParams::Positional(frame.arguments)) {
                    Selection::Call { method, arguments } => WorkerAction::Invoke {
                        token,
                        method,
                        arguments,
                    },
                    Selection::UnknownMethod => WorkerAction::Stop,
                    Selection::InvalidParams => WorkerAction::Stop,
                }
            },
            WorkerEvent::Malformed => WorkerAction::Stop,
            WorkerEvent::Closed => WorkerAction::Stop,
        }
    }
}

impl Tarpc {
    /// The dispatch table of the contract.
    pub fn adapter(&self, contract: &Contract) -> (table: StreamAdapter)
        ensures
            table.plans_contract(contract.entries()),
    {
        StreamAdapter { methods: dispatch_table(contract) }
    }

    /// The frame that answers the request with this token.
    pub fn respond(&self, token: u64, outcome: MethodOutcome) -> (frame: ResponseFrame)
        ensures
            frame == frame_of(token, outcome),
    {
        match outcome {
            MethodOutcome::Plain(Ok(v)) => ResponseFrame { token, payload: FramePayload::Value(v) },
            MethodOutcome::Success(Ok(v)) => ResponseFrame {
                token,
                payload: FramePayload::Value(v),
            },
            MethodOutcome::Plain(Err(m)) => ResponseFrame {
                token,
                payload: FramePayload::Error(RpcError::InternalError(m)),
            },
            MethodOutcome::Success(Err(m)) => ResponseFrame {
                token,
                payload: FramePayload::Error(RpcError::InternalError(m)),
            },
            MethodOutcome::Failure(e) => ResponseFrame { token, payload: FramePayload::Error(e) },
        }
    }

    /// What a client reads from a frame.
    pub fn read_frame(&self, frame: ResponseFrame) -> (read: Result<String, RpcError>)
        ensures
            read == reading_of(frame),
    {
        match frame.payload {
            FramePayload::Value(v) => Ok(v),
            FramePayload::Error(m) => Err(m),
        }
    }
}

impl Protocol for Tarpc {
    /// Every method of the contract as it is declared: its name, its
    /// parameters, and what it returns.
    fn transform_trait(&self, contract: &Contract) -> (interface: WireInterface)
        ensures
            offers(interface.methods@, contract.entries(), false),
    {
        wire_interface(contract, false)
    }

    /// The dispatch table of the contract.
    fn transform_impl(&self, contract: &Contract) -> (adapter: Adapter)
        ensures
            match adapter {
                Adapter::Stream(table) => table.plans_contract(contract.entries()),
                _ => false,
            },
    {
        Adapter::Stream(self.adapter(contract))
    }
}

} // verus!
