use tt_audio_lab::desktop::tray::tray_action;
use tt_audio_lab::desktop::tray::TrayAction;
use tt_audio_lab::desktop::tray::TRAY_DISABLE_CLICK_THROUGH_ID;
use tt_audio_lab::desktop::tray::TRAY_EXIT_ID;
use tt_audio_lab::desktop::tray::TRAY_HIDE_ID;
use tt_audio_lab::desktop::tray::TRAY_PAUSE_ID;
use tt_audio_lab::desktop::tray::TRAY_RESUME_ID;
use tt_audio_lab::desktop::tray::TRAY_SETTINGS_ID;
use tt_audio_lab::desktop::tray::TRAY_SHOW_ID;

#[test]
fn tray_entries_have_their_ids() {
    assert_eq!(TRAY_SHOW_ID, "tray_show");
    assert_eq!(TRAY_HIDE_ID, "tray_hide");
    assert_eq!(TRAY_PAUSE_ID, "tray_pause");
    assert_eq!(TRAY_RESUME_ID, "tray_resume");
    assert_eq!(TRAY_SETTINGS_ID, "tray_settings");
    assert_eq!(TRAY_DISABLE_CLICK_THROUGH_ID, "tray_disable_click_through");
    assert_eq!(TRAY_EXIT_ID, "tray_exit");
}

#[test]
fn every_tray_entry_has_its_action() {
    assert_eq!(tray_action("tray_show"), Some(TrayAction::ShowWindow));
    assert_eq!(tray_action("tray_hide"), Some(TrayAction::HideWindow));
    assert_eq!(tray_action("tray_pause"), Some(TrayAction::SetPaused(true)));
    assert_eq!(tray_action("tray_resume"), Some(TrayAction::SetPaused(false)));
    assert_eq!(tray_action("tray_settings"), Some(TrayAction::OpenSettings));
    assert_eq!(
        tray_action("tray_disable_click_through"),
        Some(TrayAction::DisableClickThrough)
    );
    assert_eq!(tray_action("tray_exit"), Some(TrayAction::Exit));
}

#[test]
fn other_menu_ids_ask_for_nothing() {
    assert_eq!(tray_action(""), None);
    assert_eq!(tray_action("tray_"), None);
    assert_eq!(tray_action("Tray_Show"), None);
    assert_eq!(tray_action("tray_show "), None);
    assert_eq!(tray_action("quit"), None);
}
