//! Layout inspection for GTK4 applications: a model of the widget tree,
//! its text rendering, and the request/response protocol of the debug server.

pub mod text;
pub mod server;
pub mod screenshot;
pub mod output;
pub mod traverse;
pub mod style;

pub use output::{LayoutDump, LayoutEntry, WidgetInfo};
pub use traverse::{dump_widget_tree, find_button_by_label, find_entry_by_placeholder};
