use vstd::prelude::*;

verus! {

/// The persisted user preferences: a flat record of five independent
/// boolean fields. There are no cross-field constraints, so every value
/// of this type is well formed.
#[derive(Clone, Copy, PartialEq, Eq, Structural, Debug)]
pub struct Settings {
    /// true = show desktop notifications, false = stay silent
    pub notifications_enabled: bool,
    /// true = hide the window decorations, false = show them
    pub hide_decorations: bool,
    /// true = keep a tray icon, false = no tray icon
    pub show_tray: bool,
    /// true = a close request hides the window, false = it quits
    pub close_to_tray: bool,
    /// true = light tray icon (for dark desktop themes), false = dark icon
    pub tray_icon_light: bool,
}

/// The record every component falls back to when nothing was persisted yet.
pub open spec fn spec_default_settings() -> Settings {
    Settings {
        notifications_enabled: true,
        hide_decorations: false,
        show_tray: true,
        close_to_tray: false,
        tray_icon_light: false,
    }
}

impl Default for Settings {
    fn default() -> (r: Self)
        ensures
            r == spec_default_settings(),
    {
        Settings {
            notifications_enabled: true,
            hide_decorations: false,
            show_tray: true,
            close_to_tray: false,
            tray_icon_light: false,
        }
    }
}

impl Settings {
    /// Flips the notifications field and nothing else; returns the new value.
    pub fn toggle_notifications(&mut self) -> (r: bool)
        ensures
            final(self).notifications_enabled == !old(self).notifications_enabled,
            final(self).hide_decorations == old(self).hide_decorations,
            final(self).show_tray == old(self).show_tray,
            final(self).close_to_tray == old(self).close_to_tray,
            final(self).tray_icon_light == old(self).tray_icon_light,
            r == final(self).notifications_enabled,
    {
        self.notifications_enabled = !self.notifications_enabled;
        self.notifications_enabled
    }

    /// Flips the decorations field and nothing else; returns the new value.
    pub fn toggle_decorations(&mut self) -> (r: bool)
        ensures
            final(self).hide_decorations == !old(self).hide_decorations,
            final(self).notifications_enabled == old(self).notifications_enabled,
            final(self).show_tray == old(self).show_tray,
            final(self).close_to_tray == old(self).close_to_tray,
            final(self).tray_icon_light == old(self).tray_icon_light,
            r == final(self).hide_decorations,
    {
        self.hide_decorations = !self.hide_decorations;
        self.hide_decorations
    }

    /// Flips the close-to-tray field and nothing else; returns the new value.
    pub fn toggle_close_to_tray(&mut self) -> (r: bool)
        ensures
            final(self).close_to_tray == !old(self).close_to_tray,
            final(self).notifications_enabled == old(self).notifications_enabled,
            final(self).hide_decorations == old(self).hide_decorations,
            final(self).show_tray == old(self).show_tray,
            final(self).tray_icon_light == old(self).tray_icon_light,
            r == final(self).close_to_tray,
    {
        self.close_to_tray = !self.close_to_tray;
        self.close_to_tray
    }

    /// Flips the tray-icon-variant field and nothing else; returns the new value.
    pub fn toggle_tray_icon(&mut self) -> (r: bool)
        ensures
            final(self).tray_icon_light == !old(self).tray_icon_light,
            final(self).notifications_enabled == old(self).notifications_enabled,
            final(self).hide_decorations == old(self).hide_decorations,
            final(self).show_tray == old(self).show_tray,
            final(self).close_to_tray == old(self).close_to_tray,
            r == final(self).tray_icon_light,
    {
        self.tray_icon_light = !self.tray_icon_light;
        self.tray_icon_light
    }

    /// Whether the native window should draw decorations under these settings.
    pub fn decorations_visible(&self) -> (r: bool)
        ensures
            r == !self.hide_decorations,
    {
        !self.hide_decorations
    }
}

} // verus!
