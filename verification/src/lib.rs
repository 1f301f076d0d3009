//! Runtime core of a UI toolkit whose component trees are generated elsewhere:
//! a single-handler notification channel, and the event-routing state of a window.

pub mod component;
pub mod signals;
pub mod window;
