//! Query authentication for a state-holding service: viewing keys, signed
//! permits and permit revocation, over explicit state.

pub mod contract;
pub mod crypto;
pub mod msg;
pub mod permit;
pub mod state;
pub mod viewing_key;
