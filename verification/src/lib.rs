//! Typed readouts of a Windows machine: battery, kernel, memory, general
//! system facts, product identity, installed packages and network address.
//!
//! Each accessor turns what one facility of the operating system answered
//! into a typed result or a typed failure. What the Win32 API, the registry,
//! the management instrumentation, the environment and the file system
//! answered is handed in by the caller; the list of network interfaces and
//! the database of Winget are read here.

pub mod battery;
pub mod error;
pub mod general;
pub mod kernel;
pub mod memory;
pub mod network;
pub mod package;
pub mod product;
pub mod query;
pub mod text;

pub use battery::WindowsBatteryReadout;
pub use error::ReadoutError;
pub use general::WindowsGeneralReadout;
pub use kernel::WindowsKernelReadout;
pub use memory::WindowsMemoryReadout;
pub use network::WindowsNetworkReadout;
pub use package::WindowsPackageReadout;
pub use product::WindowsProductReadout;
