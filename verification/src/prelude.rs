//! The items most callers need.
pub use crate::client::client::{Action, Event, MossClient, Phase, Stage};
pub use crate::client::config::MossConfig;
pub use crate::client::error::{ErrorKind, MossError};
pub use crate::client::language::MossLanguage;
pub use crate::client::session::{Loaded, Transport};
