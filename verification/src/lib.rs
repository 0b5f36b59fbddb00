//! Decorator validators: validation nodes that wrap an inner validator with a
//! user-supplied Python callable applied before, after, or around the inner
//! validation.

pub mod errors;
pub mod host;
pub mod validator;
pub mod decorator;
pub mod theorems;
