//! An SSH authentication-method probe: it asks a server which authentication
//! methods it still offers after a declined keyboard-interactive attempt, and
//! classifies the answer as public-key only or as a finding.
//!
//! The library holds the decisions; the network exchange is driven by a caller
//! that performs each [`probe::ProbeAction`] and reports back a
//! [`probe::ProbeEvent`].

pub mod method;
pub mod outcome;
pub mod probe;
pub mod host_key;
pub mod verbosity;
