//! A typed bridge between a native query-execution core and a host runtime
//! that actually performs database operations.
//!
//! The host side is reached only through opaque deferred values, so every
//! operation here is split in two: a verified function that builds the typed
//! request to hand to the host, and a verified function that takes the settled
//! host reply and turns it into a typed result while maintaining the
//! transaction-lifecycle bookkeeping (state machine and active-transaction
//! gauge). The unverified rim that actually crosses the runtime boundary lives
//! outside this library.

pub mod codec;
pub mod datamodel;
pub mod proxy;
pub mod types;
