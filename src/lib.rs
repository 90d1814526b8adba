//! Serial-port (USB-COM) plug and unplug tracking.
//!
//! The library holds the decisions of the device-notification pipeline: the
//! registry values that describe connected ports, the events that a listener
//! emits, the state machine that correlates arrivals with removals, and the
//! bookkeeping of waits and listener lifecycles. The operating system calls
//! that feed it live outside the library.

pub mod wchar;
pub mod registry;
pub mod dispatch;
pub mod keyed;
pub mod tracking;
pub mod signal;

pub use dispatch::{rescan, PlugEvent};
pub use registry::{scan, PortMeta, RegistryError};
pub use tracking::track;
