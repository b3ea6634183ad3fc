//! A verified account-lockdown library.
//!
//! The library drives a one-shot compromise-recovery procedure against two
//! web services: a primary account provider and a secondary email provider.
//! It rotates both credentials, revokes third-party grants, checks the
//! recovery-contact surface, and assembles a credential bundle.  All network
//! traffic is performed by the caller; the library supplies the verified
//! decision logic as explicit state machines plus the pure helpers they use.

pub mod bundle;
pub mod contact;
pub mod errors;
pub mod flow;
pub mod form;
pub mod grants;
pub mod mail;
pub mod scrape;
pub mod secret;
