//! Input events as the host reports them.
pub mod events;
pub mod keys;

pub use events::{EventListenerType, KeyEvent, KeyEventType, PointerEvent, PointerEventType};
pub use keys::Key;
