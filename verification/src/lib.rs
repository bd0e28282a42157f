//! Payment and invoice lifecycle engine for a Lightning wallet that delegates
//! settlement to an external federated custodial ledger.
//!
//! The library holds the verified core: idempotent operation-identifier
//! derivation, hexadecimal encoding and decoding of hashes and preimages,
//! the bearer-credential gate, the classification of operation-log lookups,
//! the settlement state machines for inbound and outbound payments, and the
//! translation of engine outcomes into boundary replies. The asynchronous
//! ledger session itself (federation join, gateway selection, operation
//! subscriptions) is an external collaborator reached from the surrounding
//! application, which feeds its observations to the functions here as plain
//! values.

pub mod auth;
pub mod boundary;
pub mod hexcode;
pub mod opid;
pub mod pay;
pub mod receive;
pub mod types;
