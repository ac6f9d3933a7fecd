use chatgpt_desktop::settings::Settings;
use chatgpt_desktop::window::{
    init_script, main_window_config, on_close_requested, webview_cache_path, CloseResponse,
};

#[test]
fn main_window_has_the_fixed_geometry_and_identity() {
    let config = main_window_config(false);
    assert_eq!(config.label, "main");
    assert_eq!(config.url, "https://chatgpt.com");
    assert_eq!(config.title, "ChatGPT Desktop");
    assert_eq!((config.width, config.height), (1200, 800));
    assert_eq!((config.min_width, config.min_height), (400, 300));
    assert!(config.dark_theme);
    assert!(config.visible);
    assert!(config.accept_first_mouse);
    assert!(config.user_agent.starts_with("Mozilla/5.0 (X11; Linux x86_64)"));
    assert!(config.browser_args.contains("--enable-gpu-rasterization"));
    assert_eq!(config.init_script, init_script());
}

#[test]
fn decorations_follow_the_settings_at_creation() {
    assert!(main_window_config(false).decorations);
    assert!(!main_window_config(true).decorations);
}

#[test]
fn injected_script_carries_the_in_page_allow_list() {
    let script = init_script();
    assert!(script.contains("'chatgpt.com'"));
    assert!(script.contains("'chat.openai.com'"));
    assert!(script.contains("'openai.com'"));
    assert!(script.contains("'oaistatic.com'"));
    assert!(script.contains("'oaiusercontent.com'"));
    assert!(script.contains("Notification.requestPermission"));
    assert!(script.contains("preconnect"));
}

#[test]
fn close_requests_re_read_the_live_settings() {
    let mut s = Settings::default();
    assert_eq!(on_close_requested(&s), CloseResponse::CloseWindow);
    s.toggle_close_to_tray();
    assert_eq!(on_close_requested(&s), CloseResponse::HideToTray);
    s.toggle_close_to_tray();
    assert_eq!(on_close_requested(&s), CloseResponse::CloseWindow);
}

#[test]
fn webview_cache_sits_under_the_data_folder() {
    assert_eq!(webview_cache_path("/home/u/.local/share/app"), "/home/u/.local/share/app/webview-cache");
}
