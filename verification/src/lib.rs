//! Verified core of a token staking program: pool and master-account state,
//! the validation rules for pool parameters, and the decisions that each
//! instruction takes (which error it returns, how the pool state changes,
//! which token or lamport movements it asks for).

pub mod clock;
pub mod errors;
pub mod state;
pub mod instructions;
pub mod laws;
