//! Verified decision core of a PJRT plugin adapter.
//!
//! A PJRT plugin is a dynamically loaded native module that implements device
//! discovery, program compilation, on-device buffers and program execution
//! behind a versioned C ABI. The unverified shell of this crate loads the
//! plugin and moves pointers across the boundary; every decision the adapter
//! makes — argument validation, version negotiation, interpretation of what
//! the plugin returned, protocol-violation detection, and the lifecycle of
//! every plugin-owned object — is a verified function in this library,
//! stated over plain values.
//!
//! A foreign pointer appears here as its address, with zero standing for
//! null; a variable-length output appears as a [`raw::RawArray`], the copy
//! the shell took beside its nullability and count. The shell performs each
//! foreign call between a `plan_`-style function that validates it and an
//! `interpret_`/`finish_`-style function that holds the plugin to its
//! contract and records the outcome.

pub mod abi;
pub mod attr;
pub mod buffer;
pub mod client;
pub mod compile;
pub mod context;
pub mod device;
pub mod error;
pub mod event;
pub mod executable;
pub mod handle;
pub mod loader;
pub mod memory;
pub mod raw;
pub mod stream;
pub mod topology;
pub mod transfer;
pub mod utils;

pub use error::PJRTError;
pub use error::PJRTErrorKind;
