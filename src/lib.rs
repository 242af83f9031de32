//! Session protocol, value decoding, support-image selection, debug relay and
//! launch-script logic for a handle-based mobile device manager.
//!
//! Native calls and I/O are performed by the caller; this crate decides what to
//! call next and what each native answer means.

pub mod error;
pub mod value;
pub mod session;
pub mod mount;
pub mod relay;
pub mod device;
pub mod registry;
pub mod launch;
pub mod apps;
pub mod android;
