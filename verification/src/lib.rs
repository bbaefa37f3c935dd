//! A minimal append-tally ledger: it records one vote per eligible identity
//! against a growing vector of per-option counters, and exposes an
//! always-consistent read of the current tallies.
//!
//! The core is split in two: [`tally`] holds the mathematical model of the
//! tally vector (zero-padded growth and a single-slot increment, with the
//! lemmas that relate sums, elements and updates), and [`poll`] holds the
//! ballot store itself together with the poll registry of option labels.

pub mod poll;
pub mod tally;
