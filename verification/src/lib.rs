pub mod dispatch;
pub mod error;
pub mod example;
pub mod handle_registry;
pub mod json;
pub mod media;
pub mod message;
pub mod plugin;
pub mod text;
pub mod wire;

pub use error::{Error, ErrorKind};
pub use media::{MediaEvent, MediaKind, MediaProtocol};
pub use message::{IncomingMessage, Jsep, MessageResponse, OutgoingMessage};
pub use plugin::{Handle, Plugin};
