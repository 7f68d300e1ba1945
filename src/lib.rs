//! Cross-platform clipboard access: portable content types with per-backend
//! native names, the decisions of an X11 selection-protocol client, and a
//! lock-guarded model of a shared system pasteboard.

pub mod content_type;
pub mod error;
pub mod nop;
pub mod pasteboard;
pub mod provider;
pub mod shared;
pub mod text;
pub mod x11;

pub use content_type::{ContentType, ContentTypeModel, NativeFormats};
pub use error::{ClipboardError, Result};
pub use nop::NopClipboardContext;
pub use pasteboard::Pasteboard;
pub use provider::ClipboardProvider;
pub use shared::SharedClipboard;
