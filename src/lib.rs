//! Verified core of a bearer-token authentication validator for a database
//! server: the module state lifecycle, the token verifier and the decision
//! that the host-facing callbacks hand back.

pub mod claims;
pub mod token;
pub mod state;
pub mod adapter;
pub mod guarantees;
