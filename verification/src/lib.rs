//! A lifetime-safety layer for handle-based native libraries whose objects
//! form parent/child ownership chains (device, lockdownd client, service,
//! image mounter). Every wrapper object stores a [`memory_lock::Lock`]
//! instead of a raw handle; before any native call the lock's whole ancestor
//! chain is checked, and releasing a wrapper marks only its own cell dead,
//! so use of a freed handle becomes a typed error instead of undefined
//! behavior.

pub mod error;
pub mod lockdownd;
pub mod memory_lock;
