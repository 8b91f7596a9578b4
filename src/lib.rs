//! A post-condition balance guard: checks that each of a list of ledger
//! accounts holds at least a caller-chosen minimum balance, and fails the
//! whole check when any of them falls short.

pub mod account;
pub mod builder;
pub mod engine;
pub mod laws;

pub use account::{
    asset_identity, classify, native_identity, AccountHandle, AccountKind, BalanceRecord,
    ClassificationError, ClassifiedAccount,
};
pub use builder::{AccountMeta, AccountZipper};
pub use engine::{verify, CheckRecord, VerificationReport, ZipperError};
