//! Credit metering and send authorisation for a multi-tenant email service.
//!
//! - `calendar`: UTC instants as calendar fields, and month boundaries.
//! - `pricing`: plans and their monthly credit allotments.
//! - `ledger`: a company's metering account: lazy monthly reset, credit
//!   check and deduction.
//! - `sending`: authorisation of public send requests, message content, the
//!   queued attempt and the delivery status of its log row.
//! - `accounts`, `keys`, `onboarding`, `templates`, `team`: the request
//!   checks and decisions of the remaining endpoints.
//! - `logging`: the text and severity of the service's log lines.
pub mod calendar;
pub mod pricing;
pub mod ledger;
pub mod sending;
pub mod errors;
pub mod accounts;
pub mod keys;
pub mod onboarding;
pub mod templates;
pub mod team;
pub mod logging;
