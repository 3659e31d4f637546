//! Ownership and configuration of a device resource pool, the object that a
//! vector-search index is bound to in order to run on an accelerator.
//!
//! The native engine is reached from outside this crate: the library holds the
//! pool's handle as an opaque address-sized token together with a record of
//! the configuration that the engine has accepted, and decides, from the
//! status code that each native call reports, what the pool becomes and what
//! its caller is told.

pub mod error;
pub mod gpu;

pub use error::{check_config, ConfigStep, GpuError, NATIVE_OK};
pub use gpu::{GpuConfig, GpuResources, StandardGpuResources, TempMemory};
