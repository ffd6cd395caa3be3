//! An in-memory ledger of buy and sell commands.
//!
//! A command is admitted against an escrow deposit, filed under an id that is
//! never used again, and may then be certified by accounts other than its
//! owner. The ledger is an explicit value: every operation takes it, the
//! caller and the deposit as arguments.
//!
//! - [`record`], [`account`]: the data and its mathematical views.
//! - [`escrow`]: the rule that decides whether a deposit backs a command.
//! - [`guard`]: who may create and who may certify.
//! - [`quality`]: the certification section of a command.
//! - [`model`]: the ledger as a mathematical value, and what each call does
//!   to it.
//! - [`ledger`]: the ledger itself.
//! - [`theorems`]: what holds over whole histories of calls.
//! - [`response`]: holding a record that was read back against the order.
//! - [`wire`]: amounts as decimal text.

pub mod account;
pub mod error;
pub mod escrow;
pub mod guard;
pub mod ledger;
pub mod model;
pub mod quality;
pub mod record;
pub mod response;
pub mod theorems;
pub mod wire;
