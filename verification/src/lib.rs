//! Causal-event-consistency and secured-execution core of a peer-to-peer
//! application runtime.
//!
//! Independent agents author entries to a personal hash chain, publish them to
//! a shared validating DHT, and invoke sandboxed application logic ("zome
//! functions") under capability-based authorization.  This crate holds the
//! verified heart of that runtime:
//!
//! * an action-driven consistency tracker that predicts and later confirms the
//!   DHT-visible side effects of locally authored actions ([`consistency`]);
//! * the capability-request verification protocol gating zome function
//!   execution ([`call_zome_function`]);
//! * the decision logic of the asynchronous call-to-completion bridge;
//! * pending-request bookkeeping for network round-trips ([`network`]);
//! * the identifier bookkeeping of the keystore ([`keystore`]).
//!
//! Transport, threading and file glue live outside the library; the library
//! works on plain values and read-only state snapshots.

pub mod action;
pub mod address;
pub mod agent;
pub mod call_zome_function;
pub mod cap;
pub mod consistency;
pub mod dna;
pub mod entry;
pub mod error;
pub mod json;
pub mod keystore;
pub mod network;
pub mod signature;
pub mod state;
pub mod zome_call;
