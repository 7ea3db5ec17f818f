//! An adapter layer that lets a simulated blockchain engine drive arbitrary
//! contract implementations through one uniform, byte-oriented interface.
//!
//! Each contract brings its own message and error types per entry point.  A
//! [`wrapper::ContractWrapper`] erases those types behind the six operations of
//! the uniform interface: it decodes incoming byte envelopes into the concrete
//! message types, invokes the stored callbacks, and normalizes results and
//! errors into one shape.  Contracts written against the baseline (extension
//! free) environment can be bridged into a caller that uses custom message and
//! query extensions.

pub mod context;
pub mod errors;
pub mod laws;
pub mod lift;
pub mod slots;
pub mod types;
pub mod wrapper;

pub use errors::{ContractError, EntryPoint};
pub use wrapper::{Contract, ContractWrapper};
