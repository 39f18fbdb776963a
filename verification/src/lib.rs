//! Vote counting for tweet identifiers.
//!
//! Votes live in an external key-value store whose entries expire a week
//! after their latest increment. This crate holds the rules: the threshold
//! policy, the commands sent to the store and the order in which they go,
//! the errors that store failures become, and the small static pages
//! served beside the counting interface.

pub mod config;
pub mod error;
pub mod history;
pub mod pages;
pub mod policy;
pub mod service;
pub mod store;
