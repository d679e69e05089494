//! One service contract, served over several wire protocols.
//!
//! A [`contract::Contract`] lists the methods of a service; [`attribute`]
//! reads the route that a method declares. Each protocol in [`protocols`]
//! turns the contract into an adapter: a table that decides, for every
//! inbound request, which method runs with which arguments, and how the
//! outcome goes back onto the wire. [`builder`] and [`runner`] hold the
//! lifecycle of the listeners that serve those adapters, and [`laws`] states
//! what holds across all of them.

pub mod attribute;
pub mod builder;
pub mod contract;
pub mod error;
pub mod laws;
pub mod path;
pub mod prelude;
pub mod protocols;
pub mod runner;
pub mod text;
