pub mod error;
pub mod state;
pub mod pda;
pub mod instruction;
pub mod ledger;
pub mod utils;
pub mod processor;
pub mod laws;
