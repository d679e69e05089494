//! The most common items, for one import.

pub use crate::builder::ServerBuilder;
pub use crate::contract::Contract;
pub use crate::contract::MethodSignature;
pub use crate::contract::RouteMetadata;
pub use crate::error::RpcError;
pub use crate::protocols::multi_rpc_impl;
pub use crate::protocols::multi_rpc_trait;
pub use crate::protocols::rest;
pub use crate::runner::ServerRunner;
