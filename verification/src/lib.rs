//! Viewport scrolling for a text area: the scroll offset that keeps the cursor
//! visible, for plain and for wrapped lines, and the packed record of what was
//! last shown.

pub mod frame;
pub mod layout;
pub mod scroll;
pub mod shared;
pub mod viewport;
pub mod wrapped;
