//! Validation rules of an account book: a ledger that commits the revenue of
//! one sale channel to a sparse Merkle root and shares it out among a
//! platform, an author and tiered buyers.
//!
//! Four programs judge a transaction, each from its own side:
//!
//! - [`account_book`] judges the creation of a ledger, a sale and a
//!   withdrawal;
//! - [`buy_intent`] and [`withdrawal_intent`] judge the escrow records that
//!   precede a sale and a withdrawal;
//! - [`dob_selling`] judges the listing that hands a digital object over
//!   against its payment.
//!
//! Every program is a function of the transaction alone, which it reads from
//! an arena of plain values ([`tx`]). The records that the transaction
//! carries are decoded by [`types`] and [`spore`]; [`udt_info`] checks that
//! the token is conserved; [`account_book_proof`] checks Merkle proofs; and
//! [`since`] compares elapsed time with an expiry.
pub mod account_book;
pub mod account_book_proof;
pub mod buy_intent;
pub mod dob_selling;
pub mod error;
pub mod hash;
pub mod since;
pub mod spore;
pub mod tx;
pub mod types;
pub mod udt_info;
pub mod utils;
pub mod wire;
pub mod withdrawal_intent;
