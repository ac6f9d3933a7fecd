use chatgpt_desktop::settings::Settings;

fn all_settings() -> Vec<Settings> {
    let mut out = Vec::new();
    for bits in 0u32..32 {
        out.push(Settings {
            notifications_enabled: bits & 1 != 0,
            hide_decorations: bits & 2 != 0,
            show_tray: bits & 4 != 0,
            close_to_tray: bits & 8 != 0,
            tray_icon_light: bits & 16 != 0,
        });
    }
    out
}

#[test]
fn default_record_has_the_documented_values() {
    let d = Settings::default();
    assert!(d.notifications_enabled);
    assert!(!d.hide_decorations);
    assert!(d.show_tray);
    assert!(!d.close_to_tray);
    assert!(!d.tray_icon_light);
}

#[test]
fn toggle_notifications_flips_only_its_field_for_all_priors() {
    for s in all_settings() {
        let mut t = s;
        let new_value = t.toggle_notifications();
        assert_eq!(t.notifications_enabled, !s.notifications_enabled);
        assert_eq!(new_value, t.notifications_enabled);
        assert_eq!(t.hide_decorations, s.hide_decorations);
        assert_eq!(t.show_tray, s.show_tray);
        assert_eq!(t.close_to_tray, s.close_to_tray);
        assert_eq!(t.tray_icon_light, s.tray_icon_light);
    }
}

#[test]
fn toggle_decorations_flips_only_its_field_for_all_priors() {
    for s in all_settings() {
        let mut t = s;
        let new_value = t.toggle_decorations();
        assert_eq!(t.hide_decorations, !s.hide_decorations);
        assert_eq!(new_value, t.hide_decorations);
        assert_eq!(t.notifications_enabled, s.notifications_enabled);
        assert_eq!(t.show_tray, s.show_tray);
        assert_eq!(t.close_to_tray, s.close_to_tray);
        assert_eq!(t.tray_icon_light, s.tray_icon_light);
    }
}

#[test]
fn toggle_close_to_tray_flips_only_its_field_for_all_priors() {
    for s in all_settings() {
        let mut t = s;
        let new_value = t.toggle_close_to_tray();
        assert_eq!(t.close_to_tray, !s.close_to_tray);
        assert_eq!(new_value, t.close_to_tray);
        assert_eq!(t.notifications_enabled, s.notifications_enabled);
        assert_eq!(t.hide_decorations, s.hide_decorations);
        assert_eq!(t.show_tray, s.show_tray);
        assert_eq!(t.tray_icon_light, s.tray_icon_light);
    }
}

#[test]
fn toggle_tray_icon_flips_only_its_field_for_all_priors() {
    for s in all_settings() {
        let mut t = s;
        let new_value = t.toggle_tray_icon();
        assert_eq!(t.tray_icon_light, !s.tray_icon_light);
        assert_eq!(new_value, t.tray_icon_light);
        assert_eq!(t.notifications_enabled, s.notifications_enabled);
        assert_eq!(t.hide_decorations, s.hide_decorations);
        assert_eq!(t.show_tray, s.show_tray);
        assert_eq!(t.close_to_tray, s.close_to_tray);
    }
}

#[test]
fn double_toggle_restores_the_record() {
    for s in all_settings() {
        let mut t = s;
        t.toggle_notifications();
        t.toggle_notifications();
        assert_eq!(t, s);
        t.toggle_decorations();
        t.toggle_decorations();
        assert_eq!(t, s);
    }
}

#[test]
fn save_renders_the_exact_stored_text_of_the_default_record() {
    let text = Settings::default().save();
    assert_eq!(
        text,
        "{\n  \"notifications_enabled\": true,\n  \"hide_decorations\": false,\n  \"show_tray\": true,\n  \"close_to_tray\": false,\n  \"tray_icon_light\": false\n}"
    );
}

#[test]
fn save_then_load_round_trips_every_record() {
    for s in all_settings() {
        let text = s.save();
        let back = Settings::load(Some(text.as_str()));
        assert_eq!(back, s);
    }
}

#[test]
fn load_of_missing_storage_is_the_default_record() {
    assert_eq!(Settings::load(None), Settings::default());
}

#[test]
fn load_accepts_compact_json_field_for_field() {
    let compact = "{\"notifications_enabled\":false,\"hide_decorations\":true,\"show_tray\":false,\"close_to_tray\":true,\"tray_icon_light\":true}";
    let expected = Settings {
        notifications_enabled: false,
        hide_decorations: true,
        show_tray: false,
        close_to_tray: true,
        tray_icon_light: true,
    };
    assert_eq!(Settings::load(Some(compact)), expected);
}

#[test]
fn load_accepts_any_field_order() {
    let reordered = "{\"tray_icon_light\": true, \"close_to_tray\": false, \"show_tray\": true, \"hide_decorations\": true, \"notifications_enabled\": false}";
    let expected = Settings {
        notifications_enabled: false,
        hide_decorations: true,
        show_tray: true,
        close_to_tray: false,
        tray_icon_light: true,
    };
    assert_eq!(Settings::load(Some(reordered)), expected);
}

#[test]
fn load_accepts_any_json_whitespace() {
    let spaced =
        " \t{\r\n\"notifications_enabled\"\t:\ttrue,\r\n  \"hide_decorations\": false,\n\n\"show_tray\" : true,\"close_to_tray\":false,\n  \"tray_icon_light\": true\r\n}\n\n ";
    let expected = Settings { tray_icon_light: true, ..Settings::default() };
    assert_eq!(Settings::load(Some(spaced)), expected);
}

#[test]
fn load_accepts_canonical_text_with_trailing_whitespace() {
    let mut text = Settings::default().save();
    text.push(' ');
    text.push('\n');
    assert_eq!(Settings::load(Some(&text)), Settings::default());
}

#[test]
fn load_of_corrupt_storage_is_the_default_record() {
    let corrupt = [
        "",
        "not json at all",
        "{}",
        "{\n  \"notifications_enabled\": maybe\n}",
        "{\"notifications_enabled\":true}",
        "[true, false]",
        "{\"notifications_enabled\":false,\"notifications_enabled\":true,\"hide_decorations\":true,\"show_tray\":false,\"close_to_tray\":true,\"tray_icon_light\":true}",
        "{\"notifications_enabled\":1,\"hide_decorations\":true,\"show_tray\":false,\"close_to_tray\":true,\"tray_icon_light\":true}",
    ];
    for c in corrupt {
        assert_eq!(Settings::load(Some(c)), Settings::default());
    }
}

#[test]
fn saved_text_is_valid_json_with_the_five_boolean_fields() {
    let s = Settings {
        notifications_enabled: false,
        hide_decorations: true,
        show_tray: true,
        close_to_tray: true,
        tray_icon_light: false,
    };
    let text = s.save();
    let value: serde_json::Value = serde_json::from_str(&text).expect("stored text parses as JSON");
    let object = value.as_object().expect("stored text is a JSON object");
    assert_eq!(object.len(), 5);
    assert_eq!(object.get("notifications_enabled"), Some(&serde_json::Value::Bool(false)));
    assert_eq!(object.get("hide_decorations"), Some(&serde_json::Value::Bool(true)));
    assert_eq!(object.get("show_tray"), Some(&serde_json::Value::Bool(true)));
    assert_eq!(object.get("close_to_tray"), Some(&serde_json::Value::Bool(true)));
    assert_eq!(object.get("tray_icon_light"), Some(&serde_json::Value::Bool(false)));
}

#[test]
fn settings_path_sits_in_the_config_folder() {
    let path = Settings::get_settings_path("/home/u/.config/chatgpt-desktop");
    assert_eq!(path, "/home/u/.config/chatgpt-desktop/settings.json");
}
