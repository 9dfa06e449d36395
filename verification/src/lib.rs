//! A shared, mutable record with reference-counted ownership and a
//! runtime-checked exclusive-mutation discipline.
//!
//! The crate models one mutable record (`record::SharedData`) that several
//! logical owners share through a counting handle (`handle::SharedHandle`).
//! Mutation goes through a lease state machine: any number of read leases may
//! be outstanding at once, but a write lease excludes every other lease.

pub mod decimal;
pub mod handle;
pub mod record;
