use chatgpt_desktop::settings::Settings;
use chatgpt_desktop::tray::{
    action_id, action_of_id, build_tray_model, choose_tray_icon, handle_tray_action, menu_label,
    show_hide_transition, tray_click_toggles_window, tray_menu, tray_tooltip, TrayAction,
    TrayButtonState, TrayIconImage, TrayMouseButton, TrayReaction, VisibilityAction,
};

fn settings(notifications: bool, hide: bool, tray: bool, close: bool, light: bool) -> Settings {
    Settings {
        notifications_enabled: notifications,
        hide_decorations: hide,
        show_tray: tray,
        close_to_tray: close,
        tray_icon_light: light,
    }
}

#[test]
fn tooltip_lists_the_markers_in_order() {
    let s = settings(false, false, true, true, false);
    assert_eq!(tray_tooltip(&s), "ChatGPT Desktop (Close to Tray) (Notifications Off)");
}

#[test]
fn tooltip_is_bare_when_nothing_is_marked() {
    let s = settings(true, false, true, false, false);
    assert_eq!(tray_tooltip(&s), "ChatGPT Desktop");
}

#[test]
fn tooltip_single_markers() {
    assert_eq!(tray_tooltip(&settings(true, false, true, true, false)), "ChatGPT Desktop (Close to Tray)");
    assert_eq!(tray_tooltip(&settings(false, false, true, false, false)), "ChatGPT Desktop (Notifications Off)");
}

#[test]
fn menu_is_the_five_fixed_entries_in_order() {
    let s = Settings::default();
    let items = tray_menu(&s);
    assert_eq!(items.len(), 5);
    assert_eq!(items[0].action, TrayAction::ShowHide);
    assert_eq!(items[0].label, "Show/Hide");
    assert_eq!(items[1].action, TrayAction::ToggleNotifications);
    assert_eq!(items[1].label, "Disable Notifications");
    assert_eq!(items[2].action, TrayAction::ToggleDecorations);
    assert_eq!(items[2].label, "Hide Window Decorations");
    assert_eq!(items[3].action, TrayAction::ToggleCloseToTray);
    assert_eq!(items[3].label, "Close to Tray");
    assert_eq!(items[4].action, TrayAction::Quit);
    assert_eq!(items[4].label, "Quit");
}

#[test]
fn menu_labels_reflect_the_flipped_states() {
    let s = settings(false, true, true, true, false);
    assert_eq!(menu_label(TrayAction::ToggleNotifications, &s), "Enable Notifications");
    assert_eq!(menu_label(TrayAction::ToggleDecorations, &s), "Show Window Decorations");
    assert_eq!(menu_label(TrayAction::ToggleCloseToTray, &s), "\u{2713} Close to Tray");
}

#[test]
fn action_ids_round_trip() {
    let actions = [
        TrayAction::ShowHide,
        TrayAction::ToggleNotifications,
        TrayAction::ToggleDecorations,
        TrayAction::ToggleCloseToTray,
        TrayAction::Quit,
    ];
    for a in actions {
        assert_eq!(action_of_id(action_id(a)), Some(a));
    }
    assert_eq!(action_of_id("unknown_id"), None);
    assert_eq!(action_id(TrayAction::ShowHide), "show_hide");
    assert_eq!(action_id(TrayAction::Quit), "quit");
}

#[test]
fn dispatch_flips_exactly_the_targeted_field() {
    let s = Settings::default();
    let (after, reaction) = handle_tray_action(&s, TrayAction::ToggleNotifications);
    assert_eq!(reaction, TrayReaction::SaveAndRefresh);
    assert!(!after.notifications_enabled);
    assert_eq!(after.hide_decorations, s.hide_decorations);
    assert_eq!(after.show_tray, s.show_tray);
    assert_eq!(after.close_to_tray, s.close_to_tray);
    assert_eq!(after.tray_icon_light, s.tray_icon_light);

    let (after, reaction) = handle_tray_action(&s, TrayAction::ToggleDecorations);
    assert_eq!(reaction, TrayReaction::SaveRefreshAndApplyDecorations);
    assert!(after.hide_decorations);

    let (after, reaction) = handle_tray_action(&s, TrayAction::ToggleCloseToTray);
    assert_eq!(reaction, TrayReaction::SaveAndRefresh);
    assert!(after.close_to_tray);

    let (after, reaction) = handle_tray_action(&s, TrayAction::ShowHide);
    assert_eq!(reaction, TrayReaction::ToggleMainWindow);
    assert_eq!(after, s);

    let (after, reaction) = handle_tray_action(&s, TrayAction::Quit);
    assert_eq!(reaction, TrayReaction::Terminate);
    assert_eq!(after, s);
}

#[test]
fn both_entry_points_converge_on_one_visibility_transition() {
    assert_eq!(show_hide_transition(true), VisibilityAction::HideWindow);
    assert_eq!(show_hide_transition(false), VisibilityAction::ShowAndFocus);
    assert!(tray_click_toggles_window(TrayMouseButton::Left, TrayButtonState::Up));
    assert!(!tray_click_toggles_window(TrayMouseButton::Left, TrayButtonState::Down));
    assert!(!tray_click_toggles_window(TrayMouseButton::Right, TrayButtonState::Up));
    assert!(!tray_click_toggles_window(TrayMouseButton::Middle, TrayButtonState::Up));
}

fn png_bytes_2x1() -> Vec<u8> {
    let mut pixels: image::RgbaImage = image::ImageBuffer::new(2, 1);
    pixels.put_pixel(0, 0, image::Rgba([10, 20, 30, 255]));
    pixels.put_pixel(1, 0, image::Rgba([40, 50, 60, 128]));
    let mut bytes: Vec<u8> = Vec::new();
    image::DynamicImage::ImageRgba8(pixels)
        .write_to(&mut std::io::Cursor::new(&mut bytes), image::ImageFormat::Png)
        .expect("encoding a tiny PNG succeeds");
    bytes
}

#[test]
fn light_icon_decodes_the_first_candidate_image() {
    let icon = choose_tray_icon(true, Some(png_bytes_2x1()), None, None);
    assert_eq!((icon.width, icon.height), (2, 1));
    assert_eq!(icon.rgba, vec![10, 20, 30, 255, 40, 50, 60, 128]);
}

#[test]
fn light_icon_falls_back_to_the_second_candidate() {
    let icon = choose_tray_icon(true, Some(vec![1, 2, 3]), Some(png_bytes_2x1()), None);
    assert_eq!((icon.width, icon.height), (2, 1));
    assert_eq!(icon.rgba, vec![10, 20, 30, 255, 40, 50, 60, 128]);
}

#[test]
fn icon_chain_ends_at_the_transparent_pixel() {
    let icon = choose_tray_icon(true, None, Some(vec![0, 1]), None);
    assert_eq!((icon.width, icon.height), (1, 1));
    assert_eq!(icon.rgba, vec![0, 0, 0, 0]);
}

#[test]
fn dark_icon_uses_the_platform_default_without_decoding() {
    let fallback = TrayIconImage { rgba: vec![9, 9, 9, 9], width: 1, height: 1 };
    let icon = choose_tray_icon(false, Some(png_bytes_2x1()), None, Some(fallback));
    assert_eq!(icon.rgba, vec![9, 9, 9, 9]);
}

#[test]
fn tray_model_bundles_icon_tooltip_and_menu() {
    let s = settings(false, false, true, true, true);
    let model = build_tray_model(&s, None, None, None);
    assert_eq!(model.tooltip, "ChatGPT Desktop (Close to Tray) (Notifications Off)");
    assert_eq!(model.items.len(), 5);
    assert_eq!((model.icon.width, model.icon.height), (1, 1));
}
