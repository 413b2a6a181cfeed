//! Decision logic of a tabbed web-site wrapper.

pub mod menu;
pub mod routing;
pub mod settings;
pub mod shortcuts;
pub mod tabs;
pub mod text;
