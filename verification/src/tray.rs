//! The tray controller model: the icon image, tooltip text, and menu
//! that the tray must show under given settings, and the dispatch of
//! tray events onto settings changes and window operations.

use vstd::prelude::*;
use vstd::string::*;

use crate::settings::Settings;

verus! {

/// One tray action per menu entry: the closed set of things the tray
/// can ask the shell to do.
#[derive(Clone, Copy, PartialEq, Eq, Structural, Debug)]
pub enum TrayAction {
    ShowHide,
    ToggleNotifications,
    ToggleDecorations,
    ToggleCloseToTray,
    Quit,
}

/// A menu entry: the action it triggers and the label it shows.
pub struct TrayMenuItem {
    pub action: TrayAction,
    pub label: String,
}

/// An RGBA icon image: four bytes per pixel.
pub struct TrayIconImage {
    pub rgba: Vec<u8>,
    pub width: u32,
    pub height: u32,
}

impl TrayIconImage {
    /// The buffer holds exactly one four-byte pixel per cell.
    pub open spec fn wf(&self) -> bool {
        self.rgba@.len() == 4 * self.width * self.height
    }
}

/// What the image decoder yields for given file bytes: the RGBA pixels
/// with their width and height, or nothing when the bytes do not decode.
pub uninterp spec fn icon_rgba_of(bytes: Seq<u8>) -> Option<(Seq<u8>, u32, u32)>;

/// Relies on image::load_from_memory and DynamicImage::to_rgba8:
/// decoding is a pure function of the bytes, and the RGBA buffer of a
/// decoded image holds exactly width * height four-byte pixels.
/// Purity assumes the process registers no custom decoding hooks in
/// the image crate's global hook registry; nothing in this crate or
/// its shell does.
#[verifier::external_body]
fn decode_image_rgba(bytes: &Vec<u8>) -> (r: Option<TrayIconImage>)
    ensures
        match r {
            Some(img) => icon_rgba_of(bytes@) == Some((img.rgba@, img.width, img.height))
                && img.rgba@.len() == 4 * img.width * img.height,
            None => icon_rgba_of(bytes@) is None,
        },
{
    match image::load_from_memory(bytes) {
        Ok(img) => {
            let rgba = img.to_rgba8();
            let (width, height) = rgba.dimensions();
            Some(TrayIconImage { rgba: rgba.into_raw(), width, height })
        },
        Err(_) => None,
    }
}

/// The decoder's answer for an optional byte buffer.
pub open spec fn spec_decoded(bytes: Option<Seq<u8>>) -> Option<(Seq<u8>, u32, u32)> {
    match bytes {
        Some(b) => icon_rgba_of(b),
        None => None,
    }
}

/// The view of an optional byte buffer.
pub open spec fn spec_bytes_view(b: Option<Vec<u8>>) -> Option<Seq<u8>> {
    match b {
        Some(v) => Some(v@),
        None => None,
    }
}

/// The last two links of the icon chain: the platform default window
/// icon when there is one, else a fully transparent single pixel.
pub open spec fn spec_fallback_icon(fallback: Option<TrayIconImage>) -> (Seq<u8>, u32, u32) {
    match fallback {
        Some(img) => (img.rgba@, img.width, img.height),
        None => (seq![0u8, 0u8, 0u8, 0u8], 1u32, 1u32),
    }
}

/// The icon the tray shows. With the light variant requested, the first
/// candidate image that decodes wins (packaged resource first, then the
/// development tree); otherwise, and when neither decodes, the fallback
/// chain applies. The chain never fails.
pub open spec fn spec_chosen_icon(
    use_light: bool,
    resource_bytes: Option<Seq<u8>>,
    dev_bytes: Option<Seq<u8>>,
    fallback: Option<TrayIconImage>,
) -> (Seq<u8>, u32, u32) {
    if use_light {
        match spec_decoded(resource_bytes) {
            Some(t) => t,
            None => match spec_decoded(dev_bytes) {
                Some(t) => t,
                None => spec_fallback_icon(fallback),
            },
        }
    } else {
        spec_fallback_icon(fallback)
    }
}

/// The platform default icon or the transparent pixel.
fn fallback_icon(fallback: Option<TrayIconImage>) -> (r: TrayIconImage)
    requires
        match fallback {
            Some(img) => img.wf(),
            None => true,
        },
    ensures
        (r.rgba@, r.width, r.height) == spec_fallback_icon(fallback),
        r.wf(),
{
    match fallback {
        Some(img) => img,
        None => {
            let mut rgba: Vec<u8> = Vec::new();
            rgba.push(0);
            rgba.push(0);
            rgba.push(0);
            rgba.push(0);
            proof {
                assert(rgba@ =~= seq![0u8, 0u8, 0u8, 0u8]);
            }
            TrayIconImage { rgba, width: 1, height: 1 }
        },
    }
}

/// Walks the icon chain on the candidate images' raw bytes.
pub fn choose_tray_icon(
    use_light: bool,
    resource_bytes: Option<Vec<u8>>,
    dev_bytes: Option<Vec<u8>>,
    fallback: Option<TrayIconImage>,
) -> (r: TrayIconImage)
    requires
        match fallback {
            Some(img) => img.wf(),
            None => true,
        },
    ensures
        (r.rgba@, r.width, r.height) == spec_chosen_icon(
            use_light,
            spec_bytes_view(resource_bytes),
            spec_bytes_view(dev_bytes),
            fallback,
        ),
        r.wf(),
{
    if use_light {
        match &resource_bytes {
            Some(b) => match decode_image_rgba(b) {
                Some(img) => {
                    return img;
                },
                None => {},
            },
            None => {},
        }
        match &dev_bytes {
            Some(b) => match decode_image_rgba(b) {
                Some(img) => {
                    return img;
                },
                None => {},
            },
            None => {},
        }
    }
    fallback_icon(fallback)
}

/// The tooltip: the application name plus a marker for close-to-tray
/// and one for muted notifications, space-joined in that order.
pub open spec fn spec_tooltip(s: Settings) -> Seq<char> {
    "ChatGPT Desktop"@ + (if s.close_to_tray {
        " (Close to Tray)"@
    } else {
        Seq::<char>::empty()
    }) + (if !s.notifications_enabled {
        " (Notifications Off)"@
    } else {
        Seq::<char>::empty()
    })
}

/// Appending nothing changes nothing.
proof fn lemma_concat_empty(a: Seq<char>)
    ensures
        a + Seq::<char>::empty() == a,
{
    assert(a + Seq::<char>::empty() =~= a);
}

/// Renders the tooltip for the given settings.
pub fn tray_tooltip(s: &Settings) -> (r: String)
    ensures
        r@ == spec_tooltip(*s),
{
    let mut out = String::from_str("ChatGPT Desktop");
    if s.close_to_tray {
        out.append(" (Close to Tray)");
    }
    if !s.notifications_enabled {
        out.append(" (Notifications Off)");
    }
    proof {
        if !s.close_to_tray {
            lemma_concat_empty("ChatGPT Desktop"@);
        }
        if s.notifications_enabled {
            lemma_concat_empty(
                "ChatGPT Desktop"@ + (if s.close_to_tray {
                    " (Close to Tray)"@
                } else {
                    Seq::<char>::empty()
                }),
            );
        }
    }
    out
}

/// The label of each menu entry under the given settings.
pub open spec fn spec_menu_label(a: TrayAction, s: Settings) -> Seq<char> {
    match a {
        TrayAction::ShowHide => "Show/Hide"@,
        TrayAction::ToggleNotifications => if s.notifications_enabled {
            "Disable Notifications"@
        } else {
            "Enable Notifications"@
        },
        TrayAction::ToggleDecorations => if s.hide_decorations {
            "Show Window Decorations"@
        } else {
            "Hide Window Decorations"@
        },
        TrayAction::ToggleCloseToTray => if s.close_to_tray {
            "\u{2713} Close to Tray"@
        } else {
            "Close to Tray"@
        },
        TrayAction::Quit => "Quit"@,
    }
}

/// Renders one menu label.
pub fn menu_label(a: TrayAction, s: &Settings) -> (r: String)
    ensures
        r@ == spec_menu_label(a, *s),
{
    match a {
        TrayAction::ShowHide => String::from_str("Show/Hide"),
        TrayAction::ToggleNotifications => if s.notifications_enabled {
            String::from_str("Disable Notifications")
        } else {
            String::from_str("Enable Notifications")
        },
        TrayAction::ToggleDecorations => if s.hide_decorations {
            String::from_str("Show Window Decorations")
        } else {
            String::from_str("Hide Window Decorations")
        },
        TrayAction::ToggleCloseToTray => if s.close_to_tray {
            String::from_str("\u{2713} Close to Tray")
        } else {
            String::from_str("Close to Tray")
        },
        TrayAction::Quit => String::from_str("Quit"),
    }
}

/// The identifier under which the toolkit reports each menu entry.
pub open spec fn spec_action_id(a: TrayAction) -> Seq<char> {
    match a {
        TrayAction::ShowHide => "show_hide"@,
        TrayAction::ToggleNotifications => "toggle_notifications"@,
        TrayAction::ToggleDecorations => "toggle_decorations"@,
        TrayAction::ToggleCloseToTray => "toggle_close_to_tray"@,
        TrayAction::Quit => "quit"@,
    }
}

/// The identifier of one menu entry.
pub fn action_id(a: TrayAction) -> (r: &'static str)
    ensures
        r@ == spec_action_id(a),
{
    match a {
        TrayAction::ShowHide => "show_hide",
        TrayAction::ToggleNotifications => "toggle_notifications",
        TrayAction::ToggleDecorations => "toggle_decorations",
        TrayAction::ToggleCloseToTray => "toggle_close_to_tray",
        TrayAction::Quit => "quit",
    }
}

/// The action behind a reported menu identifier, if it is one of ours.
pub fn action_of_id(id: &str) -> (r: Option<TrayAction>)
    ensures
        match r {
            Some(a) => id@ == spec_action_id(a),
            None => forall|a: TrayAction| id@ != spec_action_id(a),
        },
{
    if crate::strutil::str_eq(id, "show_hide") {
        Some(TrayAction::ShowHide)
    } else if crate::strutil::str_eq(id, "toggle_notifications") {
        Some(TrayAction::ToggleNotifications)
    } else if crate::strutil::str_eq(id, "toggle_decorations") {
        Some(TrayAction::ToggleDecorations)
    } else if crate::strutil::str_eq(id, "toggle_close_to_tray") {
        Some(TrayAction::ToggleCloseToTray)
    } else if crate::strutil::str_eq(id, "quit") {
        Some(TrayAction::Quit)
    } else {
        None
    }
}

/// The menu is exactly these five entries in this order, each labelled
/// for the given settings.
pub open spec fn spec_menu(items: Seq<TrayMenuItem>, s: Settings) -> bool {
    &&& items.len() == 5
    &&& items[0].action == TrayAction::ShowHide
    &&& items[0].label@ == spec_menu_label(TrayAction::ShowHide, s)
    &&& items[1].action == TrayAction::ToggleNotifications
    &&& items[1].label@ == spec_menu_label(TrayAction::ToggleNotifications, s)
    &&& items[2].action == TrayAction::ToggleDecorations
    &&& items[2].label@ == spec_menu_label(TrayAction::ToggleDecorations, s)
    &&& items[3].action == TrayAction::ToggleCloseToTray
    &&& items[3].label@ == spec_menu_label(TrayAction::ToggleCloseToTray, s)
    &&& items[4].action == TrayAction::Quit
    &&& items[4].label@ == spec_menu_label(TrayAction::Quit, s)
}

/// Builds the five fixed-order menu entries for the given settings.
pub fn tray_menu(s: &Settings) -> (r: Vec<TrayMenuItem>)
    ensures
        spec_menu(r@, *s),
{
    let mut items: Vec<TrayMenuItem> = Vec::new();
    items.push(TrayMenuItem { action: TrayAction::ShowHide, label: menu_label(TrayAction::ShowHide, s) });
    items.push(
        TrayMenuItem {
            action: TrayAction::ToggleNotifications,
            label: menu_label(TrayAction::ToggleNotifications, s),
        },
    );
    items.push(
        TrayMenuItem {
            action: TrayAction::ToggleDecorations,
            label: menu_label(TrayAction::ToggleDecorations, s),
        },
    );
    items.push(
        TrayMenuItem {
            action: TrayAction::ToggleCloseToTray,
            label: menu_label(TrayAction::ToggleCloseToTray, s),
        },
    );
    items.push(TrayMenuItem { action: TrayAction::Quit, label: menu_label(TrayAction::Quit, s) });
    items
}

/// Everything the tray shows, rebuilt as one piece so presentation
/// never drifts from the settings.
pub struct TrayModel {
    pub icon: TrayIconImage,
    pub tooltip: String,
    pub items: Vec<TrayMenuItem>,
}

/// Builds the complete tray presentation for the given settings and
/// candidate icon images.
pub fn build_tray_model(
    s: &Settings,
    resource_bytes: Option<Vec<u8>>,
    dev_bytes: Option<Vec<u8>>,
    fallback: Option<TrayIconImage>,
) -> (r: TrayModel)
    requires
        match fallback {
            Some(img) => img.wf(),
            None => true,
        },
    ensures
        (r.icon.rgba@, r.icon.width, r.icon.height) == spec_chosen_icon(
            s.tray_icon_light,
            spec_bytes_view(resource_bytes),
            spec_bytes_view(dev_bytes),
            fallback,
        ),
        r.icon.wf(),
        r.tooltip@ == spec_tooltip(*s),
        spec_menu(r.items@, *s),
{
    let icon = choose_tray_icon(s.tray_icon_light, resource_bytes, dev_bytes, fallback);
    let tooltip = tray_tooltip(s);
    let items = tray_menu(s);
    TrayModel { icon, tooltip, items }
}

/// What the shell must do after a menu action, besides adopting the
/// returned settings.
#[derive(Clone, Copy, PartialEq, Eq, Structural, Debug)]
pub enum TrayReaction {
    /// Toggle the main window between hidden and shown.
    ToggleMainWindow,
    /// Persist the returned settings and rebuild the whole tray.
    SaveAndRefresh,
    /// Persist, rebuild the tray, and re-apply decorations to the window.
    SaveRefreshAndApplyDecorations,
    /// Quit the process with no confirmation.
    Terminate,
}

/// The exhaustive dispatch of menu actions: which settings come out and
/// which side effect the shell runs.
pub open spec fn spec_tray_dispatch(s: Settings, a: TrayAction) -> (Settings, TrayReaction) {
    match a {
        TrayAction::ShowHide => (s, TrayReaction::ToggleMainWindow),
        TrayAction::ToggleNotifications => (
            Settings { notifications_enabled: !s.notifications_enabled, ..s },
            TrayReaction::SaveAndRefresh,
        ),
        TrayAction::ToggleDecorations => (
            Settings { hide_decorations: !s.hide_decorations, ..s },
            TrayReaction::SaveRefreshAndApplyDecorations,
        ),
        TrayAction::ToggleCloseToTray => (
            Settings { close_to_tray: !s.close_to_tray, ..s },
            TrayReaction::SaveAndRefresh,
        ),
        TrayAction::Quit => (s, TrayReaction::Terminate),
    }
}

/// Routes one menu action: flips the one field the action targets and
/// names the side effect the shell must run.
pub fn handle_tray_action(s: &Settings, a: TrayAction) -> (r: (Settings, TrayReaction))
    ensures
        r == spec_tray_dispatch(*s, a),
{
    let mut next = *s;
    match a {
        TrayAction::ShowHide => (next, TrayReaction::ToggleMainWindow),
        TrayAction::ToggleNotifications => {
            next.toggle_notifications();
            (next, TrayReaction::SaveAndRefresh)
        },
        TrayAction::ToggleDecorations => {
            next.toggle_decorations();
            (next, TrayReaction::SaveRefreshAndApplyDecorations)
        },
        TrayAction::ToggleCloseToTray => {
            next.toggle_close_to_tray();
            (next, TrayReaction::SaveAndRefresh)
        },
        TrayAction::Quit => (next, TrayReaction::Terminate),
    }
}

/// The window operation a show/hide request performs: a visible window
/// hides, a hidden one is shown and focused.
#[derive(Clone, Copy, PartialEq, Eq, Structural, Debug)]
pub enum VisibilityAction {
    HideWindow,
    ShowAndFocus,
}

/// The one show/hide transition both the menu entry and a tray icon
/// click converge on.
pub fn show_hide_transition(window_visible: bool) -> (r: VisibilityAction)
    ensures
        r == (if window_visible {
            VisibilityAction::HideWindow
        } else {
            VisibilityAction::ShowAndFocus
        }),
{
    if window_visible {
        VisibilityAction::HideWindow
    } else {
        VisibilityAction::ShowAndFocus
    }
}

/// A mouse button as the tray reports it.
#[derive(Clone, Copy, PartialEq, Eq, Structural, Debug)]
pub enum TrayMouseButton {
    Left,
    Right,
    Middle,
}

/// A button transition as the tray reports it.
#[derive(Clone, Copy, PartialEq, Eq, Structural, Debug)]
pub enum TrayButtonState {
    Up,
    Down,
}

/// Whether a raw click on the tray icon itself triggers the show/hide
/// toggle: exactly a released left click does.
pub fn tray_click_toggles_window(button: TrayMouseButton, state: TrayButtonState) -> (r: bool)
    ensures
        r == (button == TrayMouseButton::Left && state == TrayButtonState::Up),
{
    match (button, state) {
        (TrayMouseButton::Left, TrayButtonState::Up) => true,
        _ => false,
    }
}

} // verus!
