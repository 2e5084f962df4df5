pub mod contract;
pub mod error;
pub mod laws;
pub mod ledger;
pub mod msg;
pub mod sale;
pub mod state;
pub mod token;
