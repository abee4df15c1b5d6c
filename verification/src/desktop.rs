//! Rules of the desktop shell: window modes, click-through, monitors and
//! the tray menu.

pub mod click_through;
pub mod monitor;
pub mod tray;
pub mod window_mode;
