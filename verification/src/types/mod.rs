//! The structured records of the protocol and their wire formats.
pub mod account_book;
pub mod intent;
