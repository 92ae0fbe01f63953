//! The tray menu: its entries, their labels in each language, and what a click
//! on the menu or the icon does.

use vstd::prelude::*;

use crate::text::{ascii_lower_seq, concat, occurs_at, starts_with_str, str_eq, to_ascii_lowercase};

verus! {

/// The id of the menu entry that opens the settings window.
pub const OPEN_SETTINGS_ID: &'static str = "open_settings";

/// The id of the menu entry that quits the app.
pub const QUIT_ID: &'static str = "quit";

/// The language the menu starts in.
pub const DEFAULT_LOCALE: &'static str = "zh-CN";

/// The labels of the two menu entries.
#[derive(Clone, Copy, Debug)]
pub struct TrayMenuLabels {
    pub open_settings: &'static str,
    pub quit: &'static str,
}

/// Whether `locale` asks for the English menu: it starts with "en", in any case.
pub open spec fn is_english_locale(locale: Seq<char>) -> bool {
    occurs_at(ascii_lower_seq(locale), "en"@, 0)
}

/// The menu labels for `locale`: English for English locales, Chinese otherwise.
pub fn menu_labels_for_locale(locale: &str) -> (r: TrayMenuLabels)
    ensures
        is_english_locale(locale@) ==> r.open_settings@ == "Open Settings"@ && r.quit@
            == "Quit Shanka"@,
        !is_english_locale(locale@) ==> r.open_settings@ == "打开设置"@ && r.quit@ == "退出闪改"@,
{
    let lower = to_ascii_lowercase(locale);
    if starts_with_str(&lower, "en") {
        return TrayMenuLabels { open_settings: "Open Settings", quit: "Quit Shanka" };
    }
    TrayMenuLabels { open_settings: "打开设置", quit: "退出闪改" }
}

/// What a menu entry does.
#[derive(Clone, Copy, Debug, PartialEq, Eq, Structural)]
pub enum TrayMenuAction {
    OpenSettings,
    Quit,
}

/// The action of the menu entry with id `id`; none for an unknown id.
pub fn menu_action_for_id(id: &str) -> (r: Option<TrayMenuAction>)
    ensures
        r == (if id@ == OPEN_SETTINGS_ID@ {
            Some(TrayMenuAction::OpenSettings)
        } else if id@ == QUIT_ID@ {
            Some(TrayMenuAction::Quit)
        } else {
            None
        }),
{
    if str_eq(id, OPEN_SETTINGS_ID) {
        Some(TrayMenuAction::OpenSettings)
    } else if str_eq(id, QUIT_ID) {
        Some(TrayMenuAction::Quit)
    } else {
        None
    }
}

/// Whether a click on the tray icon opens the settings window: a left button
/// that went up.
pub fn tray_click_opens_settings(left_button: bool, button_up: bool) -> (r: bool)
    ensures
        r == (left_button && button_up),
{
    left_button && button_up
}

/// The labels to give the menu when the language changes to `locale`; none
/// when the menu was never built (`menu_built`), as there is nothing to relabel.
pub fn update_locale(locale: &str, menu_built: bool) -> (r: Option<TrayMenuLabels>)
    ensures
        r is Some <==> menu_built,
        r matches Some(l) ==> (is_english_locale(locale@) ==> l.open_settings@ == "Open Settings"@
            && l.quit@ == "Quit Shanka"@) && (!is_english_locale(locale@) ==> l.open_settings@
            == "打开设置"@ && l.quit@ == "退出闪改"@),
{
    if menu_built {
        Some(menu_labels_for_locale(locale))
    } else {
        None
    }
}

/// The error of setting the label of the menu entry for `entry`.
pub fn label_update_error(entry: TrayMenuAction, error: &str) -> (r: String)
    ensures
        r@ == (match entry {
            TrayMenuAction::OpenSettings => "failed to update tray settings menu: "@,
            TrayMenuAction::Quit => "failed to update tray quit menu: "@,
        }) + error@,
{
    match entry {
        TrayMenuAction::OpenSettings => concat("failed to update tray settings menu: ", error),
        TrayMenuAction::Quit => concat("failed to update tray quit menu: ", error),
    }
}

} // verus!
