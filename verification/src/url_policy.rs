//! The URL policy: which navigation targets may render inside the app,
//! and what becomes of a request to open a new top-level window.

use vstd::prelude::*;
use vstd::string::*;

use crate::strutil::{spec_ends_with, str_ends_with, str_eq};

verus! {

/// A navigation target reduced to what the policy reads: its scheme,
/// and its host when it has one, as the URL parser reports them.
pub struct UrlParts {
    pub scheme: String,
    pub host: Option<String>,
}

/// The view of an optional host as text.
pub open spec fn spec_host_view(host: Option<String>) -> Option<Seq<char>> {
    match host {
        Some(h) => Some(h@),
        None => None,
    }
}

/// The hosts allowed to render inside the app: the two chat hosts
/// exactly, and any subdomain of the three platform domains.
pub open spec fn spec_host_allowed(h: Seq<char>) -> bool {
    ||| h == "chatgpt.com"@
    ||| h == "chat.openai.com"@
    ||| spec_ends_with(h, ".openai.com"@)
    ||| spec_ends_with(h, ".oaistatic.com"@)
    ||| spec_ends_with(h, ".oaiusercontent.com"@)
}

/// Whether a target is safe to keep in-app: web schemes on an allowed
/// (or absent) host, and the local generated-content schemes always.
pub open spec fn spec_url_allowed(scheme: Seq<char>, host: Option<Seq<char>>) -> bool {
    if scheme == "https"@ || scheme == "http"@ {
        match host {
            Some(h) => spec_host_allowed(h),
            None => true,
        }
    } else {
        ||| scheme == "about"@
        ||| scheme == "data"@
        ||| scheme == "blob"@
        ||| scheme == "wss"@
        ||| scheme == "ws"@
    }
}

/// The policy's answer for an in-page navigation target.
#[derive(Clone, Copy, PartialEq, Eq, Structural, Debug)]
pub enum Classification {
    Allow,
    Deny,
}

/// Where a request for a new top-level window goes.
#[derive(Clone, Copy, PartialEq, Eq, Structural, Debug)]
pub enum NewWindowDecision {
    /// Render in the app window.
    OpenInApp,
    /// Suppress the new window and hand the URL to the OS browser.
    OpenInBrowser,
    /// Suppress the new window with no fallback (generated URIs).
    Deny,
}

/// What a new-window request resolves to: generated URIs are refused
/// outright, allowed targets stay in-app, all else goes to the browser.
pub open spec fn spec_classify_new_window(
    scheme: Seq<char>,
    host: Option<Seq<char>>,
) -> NewWindowDecision {
    if scheme == "blob"@ || scheme == "data"@ {
        NewWindowDecision::Deny
    } else if spec_url_allowed(scheme, host) {
        NewWindowDecision::OpenInApp
    } else {
        NewWindowDecision::OpenInBrowser
    }
}

/// Whether this target may render inside the app window.
pub fn is_allowed_url(url: &UrlParts) -> (r: bool)
    ensures
        r == spec_url_allowed(url.scheme@, spec_host_view(url.host)),
{
    if str_eq(url.scheme.as_str(), "https") || str_eq(url.scheme.as_str(), "http") {
        match &url.host {
            Some(h) => str_eq(h.as_str(), "chatgpt.com") || str_eq(h.as_str(), "chat.openai.com")
                || str_ends_with(h.as_str(), ".openai.com") || str_ends_with(
                h.as_str(),
                ".oaistatic.com",
            ) || str_ends_with(h.as_str(), ".oaiusercontent.com"),
            None => true,
        }
    } else {
        str_eq(url.scheme.as_str(), "about") || str_eq(url.scheme.as_str(), "data") || str_eq(
            url.scheme.as_str(),
            "blob",
        ) || str_eq(url.scheme.as_str(), "wss") || str_eq(url.scheme.as_str(), "ws")
    }
}

/// Classifies an in-page navigation target.
pub fn classify(url: &UrlParts) -> (r: Classification)
    ensures
        r == (if spec_url_allowed(url.scheme@, spec_host_view(url.host)) {
            Classification::Allow
        } else {
            Classification::Deny
        }),
{
    if is_allowed_url(url) {
        Classification::Allow
    } else {
        Classification::Deny
    }
}

/// Classifies a request to open a new top-level window.
pub fn classify_new_window(url: &UrlParts) -> (r: NewWindowDecision)
    ensures
        r == spec_classify_new_window(url.scheme@, spec_host_view(url.host)),
{
    if str_eq(url.scheme.as_str(), "blob") || str_eq(url.scheme.as_str(), "data") {
        NewWindowDecision::Deny
    } else if is_allowed_url(url) {
        NewWindowDecision::OpenInApp
    } else {
        NewWindowDecision::OpenInBrowser
    }
}

} // verus!
