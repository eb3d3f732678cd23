//! Identity and access core of an emote-sharing backend: a time-ordered
//! identifier allocator, a bearer-token session resolver, a role-based
//! authorization gate, and a translator from data-store constraint
//! violations to domain errors.

pub mod auth;
pub mod error;
pub mod models;
pub mod snowflake;
