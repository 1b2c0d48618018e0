//! Owasu: turns Alertmanager and Uptime Kuma webhooks into Seatalk messages.
//!
//! This crate holds the verified core of the adapter: the request and
//! configuration models, the text that is sent to Seatalk for each kind of
//! alert, and the replies that the HTTP layer gives for each outcome.

pub mod decimal;
pub mod domain;
pub mod model;
pub mod cli;
pub mod configuration;
pub mod error;
pub mod extractor;
pub mod handler;
pub mod log;
