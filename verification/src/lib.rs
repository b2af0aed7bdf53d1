//! Authentication and authorization core of the devices backend.
//!
//! - [`password`] turns a username and password into the id of a verified
//!   user, doing the same work whether or not the username is known.
//! - [`token`] frames, signs and checks session tokens.
//! - [`routes::login`] builds the claims that a login issues.
//! - [`middlewares::authentication_layer`] decides on each request whether
//!   its token admits it to a route, and as whom.
//! - [`errors`] is the taxonomy of failures and how each is reported.
//! - [`configuration`], [`models`], [`repositories`] and [`startup`] hold the
//!   data these work on.
//! - [`bindings`] states what is trusted of the crates that are called.
//!
//! The library reads the system clock and nothing else of its surroundings.
//! A token's payload is a sequence of bytes here; turning claims into such
//! bytes and back is left to the caller.

pub mod bindings;
pub mod configuration;
pub mod errors;
pub mod middlewares;
pub mod models;
pub mod password;
pub mod repositories;
pub mod routes;
pub mod startup;
pub mod token;
