//! A bridge between an untrusted front-end and a fixed table of backend
//! commands.

pub mod bridge;
pub mod call;
pub mod error;
pub mod handlers;
pub mod laws;
pub mod lifecycle;
pub mod outcome;
pub mod payload;
pub mod registry;
pub mod text;
