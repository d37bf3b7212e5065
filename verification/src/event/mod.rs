//! Server events and the bookkeeping of who listens to them.
pub mod types;
pub mod bus;

pub use bus::{EventBus, SubscriberId};
pub use types::FtpEvent;
