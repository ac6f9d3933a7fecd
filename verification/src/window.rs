//! The window lifecycle model: the fixed configuration of the single
//! main window, the script injected into every page load, and the
//! close-to-tray decision taken on every close request.

use vstd::prelude::*;
use vstd::string::*;

use crate::settings::Settings;

verus! {

/// The script injected before any page script runs: preconnect hints,
/// font smoothing, one-time notification permission, reload keys, and
/// the in-page copy of the host allow-list for anchor clicks.
pub open spec fn spec_init_script() -> Seq<char> {
    r#"
(function() {
    // Performance: Preconnect to CDN domains
    const preconnectDomains = [
        'https://cdn.oaistatic.com',
        'https://cdn.openai.com'
    ];

    preconnectDomains.forEach(domain => {
        const link = document.createElement('link');
        link.rel = 'preconnect';
        link.href = domain;
        link.crossOrigin = 'anonymous';
        document.head?.appendChild(link);
    });

    // Font smoothing
    const style = document.createElement('style');
    style.textContent = `
        * {
            -webkit-font-smoothing: antialiased;
            -moz-osx-font-smoothing: grayscale;
        }
    `;
    if (document.head) {
        document.head.appendChild(style);
    } else {
        document.addEventListener('DOMContentLoaded', function() {
            document.head.appendChild(style);
        });
    }

    // Auto-grant notification permission
    if ('Notification' in window && Notification.permission === 'default') {
        Notification.requestPermission();
    }

    // Reload handler
    document.addEventListener('keydown', function(e) {
        if (e.key === 'F5' || ((e.ctrlKey || e.metaKey) && e.key === 'r')) {
            e.preventDefault();
            window.location.reload();
        }
    }, true);

    // External link handler
    document.addEventListener('click', function(e) {
        const link = e.target.closest('a');
        if (!link) return;

        const href = link.href;
        if (!href) return;

        try {
            const url = new URL(href);
            const currentOrigin = window.location.origin;

            const allowedDomains = [
                'chatgpt.com',
                'chat.openai.com',
                'openai.com',
                'oaistatic.com',
                'oaiusercontent.com'
            ];

            const isAllowed = allowedDomains.some(domain =>
                url.hostname === domain || url.hostname.endsWith('.' + domain)
            );

            if (!isAllowed && url.origin !== currentOrigin) {
                e.preventDefault();
                e.stopPropagation();
                window.open(href, '_blank');
            }
        } catch (err) {
            console.log(err)
        }
    }, true);
})();
"#@
}

/// The script a fresh page load gets.
pub fn init_script() -> (r: &'static str)
    ensures
        r@ == spec_init_script(),
{
    r#"
(function() {
    // Performance: Preconnect to CDN domains
    const preconnectDomains = [
        'https://cdn.oaistatic.com',
        'https://cdn.openai.com'
    ];

    preconnectDomains.forEach(domain => {
        const link = document.createElement('link');
        link.rel = 'preconnect';
        link.href = domain;
        link.crossOrigin = 'anonymous';
        document.head?.appendChild(link);
    });

    // Font smoothing
    const style = document.createElement('style');
    style.textContent = `
        * {
            -webkit-font-smoothing: antialiased;
            -moz-osx-font-smoothing: grayscale;
        }
    `;
    if (document.head) {
        document.head.appendChild(style);
    } else {
        document.addEventListener('DOMContentLoaded', function() {
            document.head.appendChild(style);
        });
    }

    // Auto-grant notification permission
    if ('Notification' in window && Notification.permission === 'default') {
        Notification.requestPermission();
    }

    // Reload handler
    document.addEventListener('keydown', function(e) {
        if (e.key === 'F5' || ((e.ctrlKey || e.metaKey) && e.key === 'r')) {
            e.preventDefault();
            window.location.reload();
        }
    }, true);

    // External link handler
    document.addEventListener('click', function(e) {
        const link = e.target.closest('a');
        if (!link) return;

        const href = link.href;
        if (!href) return;

        try {
            const url = new URL(href);
            const currentOrigin = window.location.origin;

            const allowedDomains = [
                'chatgpt.com',
                'chat.openai.com',
                'openai.com',
                'oaistatic.com',
                'oaiusercontent.com'
            ];

            const isAllowed = allowedDomains.some(domain =>
                url.hostname === domain || url.hostname.endsWith('.' + domain)
            );

            if (!isAllowed && url.origin !== currentOrigin) {
                e.preventDefault();
                e.stopPropagation();
                window.open(href, '_blank');
            }
        } catch (err) {
            console.log(err)
        }
    }, true);
})();
"#
}

/// The fixed configuration of the single main window. Sizes are whole
/// pixels; the shell converts them to the toolkit's own size type.
pub struct WindowConfig {
    pub label: String,
    pub url: String,
    pub title: String,
    pub width: u32,
    pub height: u32,
    pub min_width: u32,
    pub min_height: u32,
    pub dark_theme: bool,
    pub visible: bool,
    pub accept_first_mouse: bool,
    pub decorations: bool,
    pub user_agent: String,
    pub browser_args: String,
    pub init_script: String,
}

/// The one configuration the main window is ever created with, apart
/// from the decoration state the current settings dictate.
pub fn main_window_config(hide_decorations: bool) -> (r: WindowConfig)
    ensures
        r.label@ == "main"@,
        r.url@ == "https://chatgpt.com"@,
        r.title@ == "ChatGPT Desktop"@,
        r.width == 1200,
        r.height == 800,
        r.min_width == 400,
        r.min_height == 300,
        r.dark_theme,
        r.visible,
        r.accept_first_mouse,
        r.decorations == !hide_decorations,
        r.user_agent@
            == "Mozilla/5.0 (X11; Linux x86_64) AppleWebKit/537.36 (KHTML, like Gecko) Chrome/131.0.0.0 Safari/537.36"@,
        r.browser_args@
            == "--enable-features=WebRTCPipeWireCapturer,VaapiVideoDecodeLinuxGL --enable-gpu-rasterization --enable-zero-copy --disable-software-rasterizer --enable-accelerated-video-decode"@,
        r.init_script@ == spec_init_script(),
{
    WindowConfig {
        label: String::from_str("main"),
        url: String::from_str("https://chatgpt.com"),
        title: String::from_str("ChatGPT Desktop"),
        width: 1200,
        height: 800,
        min_width: 400,
        min_height: 300,
        dark_theme: true,
        visible: true,
        accept_first_mouse: true,
        decorations: !hide_decorations,
        user_agent: String::from_str(
            "Mozilla/5.0 (X11; Linux x86_64) AppleWebKit/537.36 (KHTML, like Gecko) Chrome/131.0.0.0 Safari/537.36",
        ),
        browser_args: String::from_str(
            "--enable-features=WebRTCPipeWireCapturer,VaapiVideoDecodeLinuxGL --enable-gpu-rasterization --enable-zero-copy --disable-software-rasterizer --enable-accelerated-video-decode",
        ),
        init_script: String::from_str(init_script()),
    }
}

/// What a close request on the main window does.
#[derive(Clone, Copy, PartialEq, Eq, Structural, Debug)]
pub enum CloseResponse {
    /// Cancel the close and hide the window; the process stays alive.
    HideToTray,
    /// Let the close proceed to normal termination.
    CloseWindow,
}

/// The decision taken on every close request, from settings re-read
/// live at that moment (never cached at window creation).
pub fn on_close_requested(s: &Settings) -> (r: CloseResponse)
    ensures
        r == (if s.close_to_tray {
            CloseResponse::HideToTray
        } else {
            CloseResponse::CloseWindow
        }),
{
    if s.close_to_tray {
        CloseResponse::HideToTray
    } else {
        CloseResponse::CloseWindow
    }
}

/// Where the webview keeps its cache, under the per-user data folder.
pub fn webview_cache_path(app_data_dir: &str) -> (r: String)
    ensures
        r@ == app_data_dir@ + "/webview-cache"@,
{
    let mut out = String::from_str(app_data_dir);
    out.append("/webview-cache");
    out
}

} // verus!
