//! The logic of a set of GUI widgets: text input values and cursors, pane
//! grids, selection across text widgets, key bindings and widget builders.
pub mod text_input;
pub mod keyboard;
pub mod pane_grid;
pub mod selectable_group;
pub mod text_editor;
pub mod text;
pub mod layout;
pub mod stack;
pub mod pin;
pub mod responsive;
pub mod semantics;
pub mod shader;
pub mod space;
pub mod sticky;
pub mod shortcut;
pub mod table;
pub mod mouse;
pub mod pick_list;
pub mod time;
pub mod qr_code;
pub mod pop;
pub mod popover;
pub mod radio;
pub mod svg;
pub mod scrollable;
