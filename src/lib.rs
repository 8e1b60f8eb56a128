//! Typed, validated building blocks for outbound chat-webhook messages, and
//! their encoding into the structured wire form that the remote API expects.
//!
//! Text is escaped when it is made, colors are checked when they are made,
//! and encoding a message cannot fail: an unset optional part contributes
//! no key at all to the encoded object.

pub mod color;
pub mod message;
pub mod text;
pub mod time;
pub mod wire;

pub use color::{ColorFault, HexColor, ValidationError};
pub use message::{Attachment, Field, Parse, Payload, Url};
pub use text::SlackText;
pub use time::{CalendarTime, SlackTime};
pub use wire::{Encode, Value};
