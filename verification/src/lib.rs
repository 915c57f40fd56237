//! Daily price movement of monitored tickers, turned into an exclusive role
//! for each monitored identity.
//!
//! The library decides and never performs: it is told what was fetched and
//! answers with what to do next. A driver does the fetching, the role
//! mutations and the waiting.
//!
//! - [`calendar`] places a timestamp on its trading day.
//! - [`change`] finds the two quotes that a daily change is measured between.
//! - [`roles`] maps the sign of the change to a role and plans the mutations.
//! - [`reconcile`] leads one attempt for one subject, request by request.
//! - [`scheduler`] leads the passes over all subjects, with retries.
//! - [`config`] holds what a deployment fixes.
//! - [`error`] names what can go wrong.

pub mod calendar;
pub mod change;
pub mod config;
pub mod error;
pub mod reconcile;
pub mod roles;
pub mod scheduler;
