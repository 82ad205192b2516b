//! Decision logic of a terminal dashboard for disk-pressure monitoring.

pub mod adapters;
pub mod cockpit;
pub mod double;
pub mod incident;
pub mod input;
pub mod layout;
pub mod markup;
pub mod model;
pub mod order;
pub mod preferences;
pub mod render;
pub mod runtime;
pub mod telemetry;
pub mod terminal;
pub mod text;
