//! The tray menu: what each of its entries asks for.

use vstd::prelude::*;
use crate::text::str_equal;

verus! {

pub const TRAY_SHOW_ID: &'static str = "tray_show";

pub const TRAY_HIDE_ID: &'static str = "tray_hide";

pub const TRAY_PAUSE_ID: &'static str = "tray_pause";

pub const TRAY_RESUME_ID: &'static str = "tray_resume";

pub const TRAY_SETTINGS_ID: &'static str = "tray_settings";

pub const TRAY_DISABLE_CLICK_THROUGH_ID: &'static str = "tray_disable_click_through";

pub const TRAY_EXIT_ID: &'static str = "tray_exit";

/// What an entry of the tray menu asks for.
#[derive(Debug, Clone, Copy, PartialEq, Eq, Structural)]
pub enum TrayAction {
    ShowWindow,
    HideWindow,
    /// Pause the visual output, or resume it.
    SetPaused(bool),
    OpenSettings,
    DisableClickThrough,
    Exit,
}

/// The action behind the menu entry with id `menu_id`; none for an id that
/// is not of this menu.
pub open spec fn action_of(menu_id: Seq<char>) -> Option<TrayAction> {
    if menu_id == TRAY_SHOW_ID@ {
        Some(TrayAction::ShowWindow)
    } else if menu_id == TRAY_HIDE_ID@ {
        Some(TrayAction::HideWindow)
    } else if menu_id == TRAY_PAUSE_ID@ {
        Some(TrayAction::SetPaused(true))
    } else if menu_id == TRAY_RESUME_ID@ {
        Some(TrayAction::SetPaused(false))
    } else if menu_id == TRAY_SETTINGS_ID@ {
        Some(TrayAction::OpenSettings)
    } else if menu_id == TRAY_DISABLE_CLICK_THROUGH_ID@ {
        Some(TrayAction::DisableClickThrough)
    } else if menu_id == TRAY_EXIT_ID@ {
        Some(TrayAction::Exit)
    } else {
        None
    }
}

/// Reads the action of a tray menu event off the id of its entry.
pub fn tray_action(menu_id: &str) -> (action: Option<TrayAction>)
    ensures
        action == action_of(menu_id@),
{
    if str_equal(menu_id, TRAY_SHOW_ID) {
        Some(TrayAction::ShowWindow)
    } else if str_equal(menu_id, TRAY_HIDE_ID) {
        Some(TrayAction::HideWindow)
    } else if str_equal(menu_id, TRAY_PAUSE_ID) {
        Some(TrayAction::SetPaused(true))
    } else if str_equal(menu_id, TRAY_RESUME_ID) {
        Some(TrayAction::SetPaused(false))
    } else if str_equal(menu_id, TRAY_SETTINGS_ID) {
        Some(TrayAction::OpenSettings)
    } else if str_equal(menu_id, TRAY_DISABLE_CLICK_THROUGH_ID) {
        Some(TrayAction::DisableClickThrough)
    } else if str_equal(menu_id, TRAY_EXIT_ID) {
        Some(TrayAction::Exit)
    } else {
        None
    }
}

} // verus!
