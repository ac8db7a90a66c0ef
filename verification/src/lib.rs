//! The rules of a password manager server: device enrolment over X25519 and
//! AES-256-GCM, session checks, password storage and the admin console.

pub mod chance;
pub mod client;
pub mod config;
pub mod console;
pub mod crypto;
pub mod domain;
pub mod error;
pub mod laws;
pub mod net;
pub mod outside;
pub mod routes;
pub mod text;
pub mod time;
