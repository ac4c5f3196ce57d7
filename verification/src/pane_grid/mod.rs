//! Let your users split regions of your application and organize layout
//! dynamically.
pub mod axis;
pub mod content;
pub mod controls;
pub mod draggable;
pub mod node;
pub mod pane;
pub mod split;
pub mod title_bar;
