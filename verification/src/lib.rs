//! Verified core of a small service that mails one-time verification codes.
//!
//! The library decides; the program around it performs the network I/O.

pub mod handlers;
pub mod mailer;
pub mod middleware;
pub mod models;
pub mod text;
