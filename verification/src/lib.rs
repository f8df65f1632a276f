//! Usage of a metered relay service, made ready for a status line.
//!
//! Two providers report usage in two shapes; `api::usage` turns either into
//! the same figures. `api::plan` orders subscription plans, `api::reconcile`
//! rebuilds a usage record from them where the one that was fetched cannot
//! be shown, and `api::cache` says how fresh a cached record is. `segments`
//! decides what each segment of the status line shows. Amounts are
//! `decimal::Decimal`s: whole numbers of millionths.
//!
//! The crate reads no file and sends no request: it is handed what was
//! read and what came back, and says what follows from it.

pub mod api;
pub mod cli;
pub mod config;
pub mod decimal;
pub mod json;
pub mod order;
pub mod search;
pub mod segments;
pub mod text;
pub mod translation;
pub mod ui;
pub mod wrapper;
