use chatgpt_desktop::download::DownloadInterceptor;

#[test]
fn requested_remaps_into_the_downloads_folder_and_is_handled() {
    let mut interceptor = DownloadInterceptor::new();
    let response = interceptor.on_requested(Some("/home/u/Downloads"), "report.pdf", true);
    assert!(response.handled);
    assert_eq!(response.destination.as_deref(), Some("/home/u/Downloads/report.pdf"));
    let note = response.notification.expect("a notification is prepared");
    assert_eq!(note.title, "Downloading file");
    assert_eq!(note.body, "Saving: report.pdf");
}

#[test]
fn finished_reads_back_the_stored_path_without_being_told_it() {
    let mut interceptor = DownloadInterceptor::new();
    let first = interceptor.on_requested(Some("/home/u/Downloads"), "report.pdf", true);
    assert!(first.handled);
    let done = interceptor.on_finished(true, true);
    assert!(done.handled);
    let note = done.notification.expect("a completion notification is prepared");
    assert_eq!(note.title, "Download completed");
    assert_eq!(note.body, "Saved to: /home/u/Downloads/report.pdf");
    assert!(interceptor.pending.is_none());
}

#[test]
fn unresolvable_downloads_folder_declines_the_interception() {
    let mut interceptor = DownloadInterceptor::new();
    let response = interceptor.on_requested(None, "report.pdf", true);
    assert!(!response.handled);
    assert!(response.destination.is_none());
    assert!(response.notification.is_none());
    assert!(interceptor.pending.is_none());
}

#[test]
fn muted_notifications_stay_silent_but_still_handle_events() {
    let mut interceptor = DownloadInterceptor::new();
    let request = interceptor.on_requested(Some("/d"), "a.bin", false);
    assert!(request.handled);
    assert!(request.notification.is_none());
    let done = interceptor.on_finished(true, false);
    assert!(done.handled);
    assert!(done.notification.is_none());
}

#[test]
fn failure_is_announced_without_the_path() {
    let mut interceptor = DownloadInterceptor::new();
    interceptor.on_requested(Some("/d"), "a.bin", true);
    let done = interceptor.on_finished(false, true);
    assert!(done.handled);
    let note = done.notification.expect("a failure notification is prepared");
    assert_eq!(note.title, "Download failed");
    assert_eq!(note.body, "Could not complete the download");
}

#[test]
fn finished_with_nothing_pending_is_handled_and_silent() {
    let mut interceptor = DownloadInterceptor::new();
    let done = interceptor.on_finished(true, true);
    assert!(done.handled);
    assert!(done.notification.is_none());
}

#[test]
fn only_the_file_name_of_a_nested_suggestion_is_kept() {
    let mut interceptor = DownloadInterceptor::new();
    let response = interceptor.on_requested(Some("/home/u/Downloads"), "deep/dir/report.pdf", true);
    assert_eq!(response.destination.as_deref(), Some("/home/u/Downloads/report.pdf"));
}

#[test]
fn a_nameless_suggestion_falls_back_to_a_placeholder_name() {
    let mut interceptor = DownloadInterceptor::new();
    let response = interceptor.on_requested(Some("/d"), "dir/", true);
    assert_eq!(response.destination.as_deref(), Some("/d/file"));
    let note = response.notification.expect("a notification is prepared");
    assert_eq!(note.body, "Saving: file");
}

#[test]
fn a_second_request_overwrites_the_pending_slot() {
    let mut interceptor = DownloadInterceptor::new();
    interceptor.on_requested(Some("/d"), "first.txt", false);
    interceptor.on_requested(Some("/d"), "second.txt", false);
    let done = interceptor.on_finished(true, true);
    let note = done.notification.expect("a completion notification is prepared");
    assert_eq!(note.body, "Saved to: /d/second.txt");
}
