//! A verified core for a newsletter subscription service.
//!
//! The library holds the domain validation rules, the token and credential
//! logic, and the subscription state machine, each with a contract. The
//! persistence store is modelled as an in-memory collection of rows; the
//! surrounding process performs the actual transport and hands the library
//! plain values.

pub mod admin;
pub mod authentication;
pub mod configuration;
pub mod domain;
pub mod email;
pub mod login;
pub mod newsletters;
pub mod store;
pub mod subscriptions;
pub mod subscriptions_confirm;
pub mod strutil;
