//! The download interceptor: a per-window state machine that remaps a
//! requested download into the platform Downloads folder and prepares
//! the notifications the shell posts asynchronously.
//!
//! Only one pending download is tracked per interceptor; a second
//! request overwrites the first before its finish arrives (last request
//! wins). This mirrors the single-slot behaviour the application has
//! always had and is a documented limitation, not an invariant of
//! downloads themselves.

use vstd::prelude::*;
use vstd::string::*;

use crate::strutil::{file_name, spec_file_name};

verus! {

/// A notification to post: a title and a body.
pub struct Notification {
    pub title: String,
    pub body: String,
}

/// The interceptor's answer for one download event.
pub struct DownloadResponse {
    /// Whether the event counts as handled by the interceptor.
    pub handled: bool,
    /// Where the download must be redirected, for a handled request.
    pub destination: Option<String>,
    /// The notification to post asynchronously, if any. Posting must
    /// never block the download pipeline.
    pub notification: Option<Notification>,
}

/// The per-window interceptor state: the destination of the one
/// download in flight, if any.
pub struct DownloadInterceptor {
    pub pending: Option<String>,
}

/// The name a download is saved and announced under: the file name of
/// the suggested destination, or a placeholder when it has none.
pub open spec fn spec_download_name(suggested: Seq<char>) -> Seq<char> {
    if spec_file_name(suggested).len() == 0 {
        "file"@
    } else {
        spec_file_name(suggested)
    }
}

/// The resolved destination: the Downloads folder plus the name.
pub open spec fn spec_download_dest(dir: Seq<char>, suggested: Seq<char>) -> Seq<char> {
    dir + "/"@ + spec_download_name(suggested)
}

/// Whether an optional text value holds exactly `t`.
pub open spec fn spec_opt_str_is(o: Option<String>, t: Seq<char>) -> bool {
    match o {
        Some(x) => x@ == t,
        None => false,
    }
}

/// Whether an optional notification holds exactly this title and body.
pub open spec fn spec_notif_is(n: Option<Notification>, title: Seq<char>, body: Seq<char>) -> bool {
    match n {
        Some(x) => x.title@ == title && x.body@ == body,
        None => false,
    }
}

impl DownloadInterceptor {
    /// A fresh interceptor with nothing in flight.
    pub fn new() -> (r: Self)
        ensures
            r.pending is None,
    {
        DownloadInterceptor { pending: None }
    }

    /// A download was requested. With no resolvable Downloads folder
    /// the interception is declined and nothing changes. Otherwise the
    /// destination is remapped into that folder, remembered as pending,
    /// and, with notifications enabled, an announcement is prepared.
    pub fn on_requested(
        &mut self,
        downloads_dir: Option<&str>,
        suggested: &str,
        notifications_enabled: bool,
    ) -> (r: DownloadResponse)
        ensures
            match downloads_dir {
                Some(dir) => r.handled && spec_opt_str_is(
                    r.destination,
                    spec_download_dest(dir@, suggested@),
                ) && spec_opt_str_is(
                    final(self).pending,
                    spec_download_dest(dir@, suggested@),
                ) && (if notifications_enabled {
                    spec_notif_is(
                        r.notification,
                        "Downloading file"@,
                        "Saving: "@ + spec_download_name(suggested@),
                    )
                } else {
                    r.notification is None
                }),
                None => !r.handled && r.destination is None && r.notification is None
                    && final(self).pending == old(self).pending,
            },
    {
        match downloads_dir {
            None => DownloadResponse { handled: false, destination: None, notification: None },
            Some(dir) => {
                let extracted = file_name(suggested);
                let name: String = if extracted.as_str().unicode_len() == 0 {
                    String::from_str("file")
                } else {
                    extracted
                };
                let mut dest = String::from_str(dir);
                dest.append("/");
                dest.append(name.as_str());
                self.pending = Some(dest.clone());
                let notification: Option<Notification> = if notifications_enabled {
                    let mut body = String::from_str("Saving: ");
                    body.append(name.as_str());
                    Some(Notification { title: String::from_str("Downloading file"), body })
                } else {
                    None
                };
                DownloadResponse { handled: true, destination: Some(dest), notification }
            },
        }
    }

    /// The pending download finished. The pending slot is consumed;
    /// with notifications enabled and a pending path on record, the
    /// outcome is announced. The event always counts as handled.
    pub fn on_finished(&mut self, success: bool, notifications_enabled: bool) -> (r:
        DownloadResponse)
        ensures
            r.handled,
            r.destination is None,
            final(self).pending is None,
            match old(self).pending {
                Some(p) => (if notifications_enabled {
                    (if success {
                        spec_notif_is(r.notification, "Download completed"@, "Saved to: "@ + p@)
                    } else {
                        spec_notif_is(
                            r.notification,
                            "Download failed"@,
                            "Could not complete the download"@,
                        )
                    })
                } else {
                    r.notification is None
                }),
                None => r.notification is None,
            },
    {
        let mut notification: Option<Notification> = None;
        match &self.pending {
            Some(p) => {
                if notifications_enabled {
                    if success {
                        let mut body = String::from_str("Saved to: ");
                        body.append(p.as_str());
                        notification = Some(
                            Notification { title: String::from_str("Download completed"), body },
                        );
                    } else {
                        notification = Some(
                            Notification {
                                title: String::from_str("Download failed"),
                                body: String::from_str("Could not complete the download"),
                            },
                        );
                    }
                }
            },
            None => {},
        }
        self.pending = None;
        DownloadResponse { handled: true, destination: None, notification }
    }
}

} // verus!
