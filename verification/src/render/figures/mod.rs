//! What the screens show: the relation of what is drawn to what is known.

pub mod ballast;
pub mod decisions;
pub mod diagnostics;
pub mod frame;
pub mod overview;
pub mod page;
pub mod scenes;
pub mod timeline;
