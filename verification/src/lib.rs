//! Settlement of a two-party token escrow.
//!
//! A maker has locked asset A in a vault that no key controls: its authority is
//! an address derived from the escrow record. A taker settles by paying asset B
//! to the maker and receiving the vault's asset A, after which the vault and the
//! record are gone. [`take::Take`] holds one such settlement and carries it out,
//! wholly or not at all; [`authority`] derives the vault's authority; [`laws`]
//! states what every settlement obeys.

pub mod address;
pub mod authority;
pub mod laws;
pub mod state;
pub mod take;
