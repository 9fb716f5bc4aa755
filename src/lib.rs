//! Shared state and event records for a terminal user interface whose parts
//! are written in several languages and exchange these values by memory.
//!
//! Every record here is a plain value type of fixed-width fields. The
//! numbering of each enumeration is pinned by its `code` method, and every
//! constructor states exactly which field values it produces.

pub mod event;
pub mod geometry;
pub mod state;
pub mod style;
pub mod widget;

pub use event::{Event, EventKind};
pub use geometry::Rect;
pub use state::TuiState;
pub use style::{Color, Style};
pub use widget::WidgetKind;
