//! Rendering of the dashboard state into styled content.

pub mod ballast;
pub mod common;
pub mod decisions;
pub mod diagnostics;
pub mod figures;
pub mod frame;
pub mod overview;
pub mod page;
pub mod scene;
pub mod timeline;
