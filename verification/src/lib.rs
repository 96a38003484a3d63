//! Admission control for policy resources: decides whether a proposed
//! `Server` or `AuthorizationPolicy` may be stored, given the servers that
//! were admitted before it.

pub mod admission;
pub mod document;
pub mod index;
pub mod labels;
pub mod laws;
pub mod named;
pub mod policy;
pub mod review;
pub mod schema;
pub mod text;
pub mod wire;
