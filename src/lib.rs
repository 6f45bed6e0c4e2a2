//! A token ledger state-transition engine: instruction codec, account
//! layouts, authorization guard and the balance-changing operations.
pub mod error;
pub mod codec;
pub mod layout;
pub mod account;
pub mod processor;
pub mod lamport_token;
pub mod greeting;
