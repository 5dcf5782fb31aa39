//! Rendering of status-bar menus into the line-oriented text that a
//! macOS status-bar menu host reads from a plugin's standard output.
use vstd::prelude::*;

pub mod decimal;
pub mod line;
pub mod line_laws;
pub mod menu;
pub mod plugin;

pub use line::{Cmd, Line, Style, render_command_options, render_misc_options, render_style_options};
pub use menu::{SubMenu, SubMenuItem, render_sub_menu};
pub use plugin::{Plugin, StatusBar};

verus! {

} // verus!
