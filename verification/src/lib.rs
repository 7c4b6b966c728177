//! Reusable selection widgets as framework-free state machines: each widget
//! takes the host's configuration and the user's events, keeps its state, and
//! hands back a render tree and what the host is to be told.

pub mod dropdown;
pub mod html;
pub mod laws;
pub mod multi_select_dropdown;
pub mod selection;
pub mod string_display;
pub mod table;
