//! Hookly's domain logic: identifiers, credentials and their envelopes, request
//! validation, error mapping, authentication decisions and the decision steps of
//! the services, each with its contract.
pub mod common;
pub mod config;
pub mod email;
pub mod error;
pub mod features;
