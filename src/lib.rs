//! Client-side access layer for a remote time-tracking server: credential
//! records, the authenticated request protocol with a single silent token
//! refresh, the login exchange, and the small value types the UI exchanges.

pub mod client;
pub mod clock;
pub mod credentials;
pub mod datatypes;
pub mod error;
pub mod guarantees;
pub mod http;
pub mod json;
pub mod login;

pub use error::Error;
