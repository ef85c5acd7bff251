//! Verified core of a small user-management HTTP service.
//!
//! The library covers the request-to-storage pipeline: the data model of a
//! user row, an in-memory repository with exact contracts for every
//! operation, pure view functions that project users into JSON response
//! bodies with the password redacted, and the handler logic that maps each
//! repository outcome to an HTTP status code and body.  Everything that
//! touches the network or a real database (routing, connection pooling, the
//! SQL backend) lives outside this crate and hands the library plain values.

pub mod errors;
pub mod handler;
pub mod json;
pub mod model;
pub mod ping;
pub mod repository;
pub mod view;
