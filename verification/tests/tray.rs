use shanka::tray::{
    label_update_error, menu_action_for_id, menu_labels_for_locale, tray_click_opens_settings,
    update_locale, TrayMenuAction, DEFAULT_LOCALE, OPEN_SETTINGS_ID, QUIT_ID,
};

#[test]
fn tray_menu_labels_default_to_chinese() {
    let labels = menu_labels_for_locale("zh-CN");

    assert_eq!(labels.open_settings, "打开设置");
    assert_eq!(labels.quit, "退出闪改");
}

#[test]
fn tray_menu_labels_support_english() {
    let labels = menu_labels_for_locale("en-US");

    assert_eq!(labels.open_settings, "Open Settings");
    assert_eq!(labels.quit, "Quit Shanka");
}

#[test]
fn tray_locale_prefix_ignores_case_and_needs_two_letters() {
    assert_eq!(menu_labels_for_locale("EN").quit, "Quit Shanka");
    assert_eq!(menu_labels_for_locale("En-gb").quit, "Quit Shanka");
    assert_eq!(menu_labels_for_locale("e").quit, "退出闪改");
    assert_eq!(menu_labels_for_locale("").quit, "退出闪改");
    assert_eq!(menu_labels_for_locale(DEFAULT_LOCALE).quit, "退出闪改");
}

#[test]
fn tray_menu_ids_map_to_actions() {
    assert_eq!(menu_action_for_id(OPEN_SETTINGS_ID), Some(TrayMenuAction::OpenSettings));
    assert_eq!(menu_action_for_id(QUIT_ID), Some(TrayMenuAction::Quit));
    assert_eq!(menu_action_for_id("other"), None);
}

#[test]
fn only_a_released_left_click_opens_settings() {
    assert!(tray_click_opens_settings(true, true));
    assert!(!tray_click_opens_settings(true, false));
    assert!(!tray_click_opens_settings(false, true));
}

#[test]
fn relabelling_needs_a_built_menu() {
    assert!(update_locale("en", false).is_none());
    let labels = update_locale("en", true).expect("labels");
    assert_eq!(labels.open_settings, "Open Settings");
    assert_eq!(
        label_update_error(TrayMenuAction::Quit, "gone"),
        "failed to update tray quit menu: gone"
    );
    assert_eq!(
        label_update_error(TrayMenuAction::OpenSettings, "gone"),
        "failed to update tray settings menu: gone"
    );
}
