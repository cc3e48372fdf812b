//! A container for one secret string whose backing memory is overwritten
//! with zeros on request and when the container is dropped.
//!
//! [`ZeroizedString`] is the container. Its abstract state and the laws of
//! its lifecycle live in [`model`]. The overwrite itself is done by the
//! `zeroize` crate; the module `erase` states what is assumed of it.

mod erase;
pub mod error;
pub mod model;
pub mod zeroized_string;

pub use error::ModuleError;
pub use zeroized_string::ZeroizedString;
