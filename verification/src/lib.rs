//! Delegated-authority updates for assets of a ledger-backed asset registry.
//!
//! A collection's creator holds one collection-scoped delegate: a keyless
//! address derived deterministically from a fixed label, the collection's
//! identity and a disambiguation byte. A request to rename an asset is
//! authorized against the collection's persisted authority record, and on
//! success exactly one call is issued into the external asset-registry
//! program, signed by re-supplying the delegate's seed material.

pub mod address;
pub mod pda;
pub mod state;
pub mod update;
