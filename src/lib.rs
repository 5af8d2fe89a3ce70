//! A two-party token swap escrow: the decisions of its three instructions,
//! the escrow record's byte layout and the address that ties the record to
//! its maker, each stated as a contract and proved.
pub mod address;
pub mod bytes;
pub mod error;
pub mod instructions;
pub mod state;
