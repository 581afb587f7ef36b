//! A minimal logging facade: severity levels, a threshold filter, a registry
//! of subscribers in one of two modes (a single write-once slot, or a growable
//! ordered list with an optional capacity), and dispatch to the subscribers.
//!
//! Every function of the library is verified against its contract.

pub mod error;
pub mod laws;
pub mod level;
pub mod logger;
pub mod message;
pub mod registry;
pub mod subscriber;

pub use error::BarelogError;
pub use level::Level;
pub use message::render_message;
pub use logger::{get_max_level, log, log_at, notify_all, recipients, set_max_level, Logger, LoggerModel};
pub use registry::{Registry, RegistryModel};
pub use subscriber::{add_subscriber, get_subscriber, get_subscribers, set_subscriber, Subscriber};
