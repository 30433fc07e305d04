//! A collateralized-lending ledger with machine-checked contracts.
//!
//! Borrowers lock collateral with a pawn shop account and get a loan against
//! it from a loan package. A scan at the start of every block reassesses each
//! open loan by its loan-to-value ratio and its dates: it warns, extends an
//! expired loan against a fee, or hands the loan over to liquidation, which the
//! liquidation account later settles out of the proceeds of an auction.
//!
//! - [`primitives`], [`math`], [`error`], [`system`]: scalar types and
//!   precisions, scaled arithmetic, errors, and the origin of a call.
//! - [`assets`], [`saga`]: the asset ledger, and ledger steps that are undone
//!   when a later step fails.
//! - [`package`], [`loan`], [`health`]: loan packages, loans, and the health of
//!   one loan.
//! - [`engine`], [`admin`], [`registry`], [`origination`], [`servicing`],
//!   [`scanner`], [`settlement`], [`validate`]: the state of the engine and
//!   what is done to it.
//! - [`sums`], [`books`], [`laws`]: what is proved of the books.
//! - [`mock`]: a small runtime with fixed starting values.
pub mod admin;
pub mod assets;
pub mod books;
pub mod engine;
pub mod error;
pub mod health;
pub mod laws;
pub mod loan;
pub mod math;
pub mod mock;
pub mod origination;
pub mod package;
pub mod primitives;
pub mod registry;
pub mod saga;
pub mod scanner;
pub mod servicing;
pub mod settlement;
pub mod sums;
pub mod system;
pub mod validate;
