//! Switchable-graphics management for dual-GPU laptops.
//!
//! The crate discovers graphics devices on the PCI bus, classifies them by
//! vendor, and exposes the decisions behind switching the machine between
//! graphics modes: driver unbind / device removal, kernel-module
//! configuration, and runtime power-management probing.  Hardware mutation
//! and file writes are left to an unverified shell around this library; every
//! decision that leads to them is made here, under contract.

pub mod device;
pub mod error;
pub mod graphics;
pub mod mode;
pub mod pci;
pub mod probe;
pub mod text;

pub use device::GraphicsDevice;
pub use error::GraphicsDeviceError;
pub use graphics::Graphics;
pub use mode::GraphicsMode;
