//! An authorized post service: users and posts under the schema's
//! constraints, and the rule that only a post's author may change it.
pub mod entity;
pub mod error;
pub mod laws;
pub mod request;
pub mod service;
pub mod state;
pub mod store;
