//! Authentication and authorization core for a user-management backend:
//! credential hashing, signed time-bounded tokens, request guards, and the
//! role rules shared by the REST and GraphQL surfaces.
//!
//! The trusted boundary is small and explicit: wrappers around the hashing
//! and signing crates, the clock, id generation, and the text conversions
//! they need. Everything else — the JSON wire forms, the token pipeline,
//! the credential service, the guards, and the account store — is verified
//! against exact contracts.

pub mod auth;
pub mod cfg;
pub mod claims;
pub mod clock;
pub mod dto;
pub mod enums;
pub mod errors;
pub mod guards;
pub mod health;
pub mod ids;
pub mod middleware;
pub mod password;
pub mod store;
pub mod text;
pub mod token;
pub mod users;
