//! Token-weighted governance over a collectively owned treasury.
//!
//! A group ("DAO") issues a voting-weight token, members open treasury
//! proposals and vote with their token balance, and an approved proposal
//! authorizes a single transfer out of the treasury.  The treasury and the
//! token mint are owned by keyless identities derived deterministically from
//! a namespace tag and a parent identity, so no single private key can move
//! the funds.

pub mod error;
pub mod gov;
pub mod laws;
pub mod pda;
pub mod state;
pub mod table;
