//! A small user-management core: a permission model, identity-claim
//! conversion, an in-memory user store with idempotent upsert, and an
//! authorization gate composing them behind query and mutation façades.

pub mod auth;
pub mod error;
pub mod mutation;
pub mod permissions;
pub mod query;
pub mod store;
pub mod user;
