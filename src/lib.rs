//! An in-process notification relay: a registry of addressable devices and a
//! bounded first-in, first-out delivery channel drained by one consumer.
pub mod channel;
pub mod laws;
pub mod registry;
pub mod relay;

pub use channel::{Received, MAX_CAPACITY};
pub use registry::{Device, Registry};
pub use relay::{Notifier, NotifyError, DEFAULT_CAPACITY};
