use ripvid::errors::DownloadError;
use ripvid::registry::{ActiveDownloads, DownloadHandle};
use ripvid::supervisor::{
    after_stop, cancel_download, cancel_failure, choose_launcher, failure_message, launch_failure,
    register_download, start_download, CancelError, Launcher, Notification, ProcessEvent, Watch,
};

fn handle(id: &str, child: u32, path: &str) -> DownloadHandle<u32> {
    DownloadHandle {
        id: id.to_string(),
        child,
        url: format!("https://example.com/{}", id),
        output_path: path.to_string(),
    }
}

#[test]
fn registry_holds_one_handle_per_id() {
    let mut downloads: ActiveDownloads<u32> = ActiveDownloads::new();
    assert_eq!(downloads.len(), 0);
    assert!(downloads.insert(handle("a", 1, "/a")).is_none());
    assert!(downloads.insert(handle("b", 2, "/b")).is_none());
    assert_eq!(downloads.len(), 2);
    assert!(downloads.contains("a"));
    assert!(!downloads.contains("c"));
    let old = downloads.insert(handle("a", 3, "/a2")).unwrap();
    assert_eq!(old.child, 1);
    assert_eq!(downloads.len(), 2);
    let taken = downloads.remove("a").unwrap();
    assert_eq!(taken.child, 3);
    assert_eq!(taken.output_path, "/a2");
    assert!(downloads.remove("a").is_none());
    assert_eq!(downloads.len(), 1);
    assert!(downloads.contains("b"));
}

#[test]
fn cancel_removes_exactly_once() {
    let mut downloads: ActiveDownloads<u32> = ActiveDownloads::new();
    downloads.insert(handle("a", 1, "/out/a.mp4"));
    downloads.insert(handle("b", 2, "/out/b.mp4"));
    let first = cancel_download("a", &mut downloads);
    let cancellation = match first {
        Ok(c) => c,
        Err(_) => panic!("a tracked download must be found"),
    };
    assert_eq!(cancellation.handle.child, 1);
    assert_eq!(cancellation.part_file, "/out/a.mp4.part");
    match cancellation.notification {
        Notification::Cancelled { id, path } => {
            assert_eq!(id, "a");
            assert_eq!(path, "/out/a.mp4");
        }
        other => panic!("unexpected notification {:?}", other),
    }
    assert!(!downloads.contains("a"));
    assert!(downloads.contains("b"));
    assert_eq!(downloads.len(), 1);
    match cancel_download("a", &mut downloads) {
        Err(e) => assert_eq!(e, CancelError::NotFound),
        Ok(_) => panic!("a second cancel must fail"),
    }
    assert_eq!(downloads.len(), 1);
}

#[test]
fn cancel_of_unknown_id_changes_nothing() {
    let mut downloads: ActiveDownloads<u32> = ActiveDownloads::new();
    downloads.insert(handle("a", 1, "/a"));
    match cancel_download("zzz", &mut downloads) {
        Err(e) => assert_eq!(e, CancelError::NotFound),
        Ok(_) => panic!("an unknown id must not be found"),
    }
    assert_eq!(downloads.len(), 1);
    assert!(downloads.contains("a"));
}

#[test]
fn cancel_errors_for_the_caller() {
    match cancel_failure("abc") {
        DownloadError::Unknown(text) => assert_eq!(text, "Download not found: abc"),
        other => panic!("unexpected error {:?}", other),
    }
    match launch_failure("No such file or directory") {
        DownloadError::Spawn(text) => assert_eq!(text, "No such file or directory"),
        other => panic!("unexpected error {:?}", other),
    }
}

#[test]
fn a_stop_that_fails_does_not_fail_the_cancellation() {
    let mut downloads: ActiveDownloads<u32> = ActiveDownloads::new();
    downloads.insert(handle("a", 1, "/out/a.mp4"));
    let cancellation = match cancel_download("a", &mut downloads) {
        Ok(c) => c,
        Err(_) => panic!("a tracked download must be found"),
    };
    let stop: Result<(), String> = Err("No such process".to_string());
    let (cleanup, result) = after_stop(cancellation.part_file, cancellation.notification, &stop);
    assert!(result.is_ok());
    assert_eq!(cleanup.part_file, "/out/a.mp4.part");
    assert!(matches!(cleanup.notification, Notification::Cancelled { .. }));
    assert_eq!(cleanup.warning, Some("Failed to kill process: No such process".to_string()));
}

#[test]
fn a_stop_that_works_leaves_no_warning() {
    let note = Notification::Cancelled { id: "a".to_string(), path: "/a".to_string() };
    let (cleanup, result) = after_stop("/a.part".to_string(), note, &Ok(()));
    assert!(result.is_ok());
    assert_eq!(cleanup.part_file, "/a.part");
    assert_eq!(cleanup.warning, None);
    match cleanup.notification {
        Notification::Cancelled { id, path } => {
            assert_eq!(id, "a");
            assert_eq!(path, "/a");
        }
        other => panic!("unexpected notification {:?}", other),
    }
}

#[test]
fn failure_messages_in_order_of_priority() {
    let all = "ffmpeg not found; DPAPI; Sign in; rate limit; HTTP Error";
    assert!(failure_message(all, 1).starts_with("Video processing failed."));
    assert!(failure_message("DPAPI; Sign in; rate limit; HTTP Error", 1)
        .starts_with("Cookie decryption failed."));
    assert_eq!(
        failure_message("Sign in; rate limit; HTTP Error", 1),
        "Authentication required. Try enabling browser cookies."
    );
    assert_eq!(
        failure_message("rate limit; HTTP Error", 1),
        "Rate limit exceeded. Please wait and try again."
    );
    assert_eq!(
        failure_message("HTTP Error", 1),
        "Network error. Check your connection and try again."
    );
    assert_eq!(failure_message("something else", 1), "Exit code: 1");
    assert_eq!(failure_message("", -9), "Exit code: -9");
    assert_eq!(failure_message("", 0), "Exit code: 0");
    assert_eq!(failure_message("", 255), "Exit code: 255");
    assert_eq!(failure_message("", i32::MIN), "Exit code: -2147483648");
    assert_eq!(failure_message("", i32::MAX), "Exit code: 2147483647");
}

#[test]
fn stdout_lines_become_progress_and_processing() {
    let watch = Watch::new("id-1", "/out.mp4");
    let notes = watch.on_stdout("[download]  42.5% of 10MiB at 1.2MiB/s ETA 00:10");
    assert_eq!(notes.len(), 1);
    match &notes[0] {
        Notification::Progress(p) => {
            assert_eq!(p.percent, "42.5");
            assert_eq!(p.speed, "1.2MiB/s");
            assert_eq!(p.eta, "00:10");
        }
        other => panic!("unexpected notification {:?}", other),
    }
    let notes = watch.on_stdout("[Merger] Merging formats into \"out.mp4\"");
    assert_eq!(notes.len(), 1);
    match &notes[0] {
        Notification::Processing { id, message } => {
            assert_eq!(id, "id-1");
            assert_eq!(message, "Processing video...");
        }
        other => panic!("unexpected notification {:?}", other),
    }
    let notes = watch.on_stdout("[ffmpeg] [download] 7% done");
    assert_eq!(notes.len(), 2);
    assert!(matches!(notes[0], Notification::Processing { .. }));
    assert!(matches!(notes[1], Notification::Progress(_)));
    assert!(watch.on_stdout("[info] nothing to see").is_empty());
}

#[test]
fn stderr_lines_are_kept_and_some_are_shown() {
    let mut watch = Watch::new("id-1", "/out.mp4");
    assert!(watch.on_stderr("WARNING: something").is_none());
    match watch.on_stderr("Sleeping 5 seconds") {
        Some(Notification::Status(line)) => assert_eq!(line, "Sleeping 5 seconds"),
        other => panic!("unexpected notification {:?}", other),
    }
    assert!(matches!(watch.on_stderr("hit the rate limit"), Some(Notification::Status(_))));
    assert_eq!(watch.stderr, "WARNING: something\nSleeping 5 seconds\nhit the rate limit\n");
    assert_eq!(watch.id, "id-1");
    assert_eq!(watch.output_path, "/out.mp4");
}

#[test]
fn the_end_is_reported_once() {
    let mut downloads: ActiveDownloads<u32> = ActiveDownloads::new();
    downloads.insert(handle("id-1", 1, "/out.mp4"));
    let watch = Watch::new("id-1", "/out.mp4");
    match watch.on_terminated(&mut downloads, Some(0)) {
        Some(Notification::Completed { id, path }) => {
            assert_eq!(id, "id-1");
            assert_eq!(path, "/out.mp4");
        }
        other => panic!("unexpected notification {:?}", other),
    }
    assert!(!downloads.contains("id-1"));
    assert!(watch.on_terminated(&mut downloads, Some(0)).is_none());
    assert!(cancel_download("id-1", &mut downloads).is_err());
}

#[test]
fn a_cancelled_download_gets_no_second_end() {
    let mut downloads: ActiveDownloads<u32> = ActiveDownloads::new();
    downloads.insert(handle("id-1", 1, "/out.mp4"));
    let watch = Watch::new("id-1", "/out.mp4");
    assert!(cancel_download("id-1", &mut downloads).is_ok());
    assert!(watch.on_terminated(&mut downloads, None).is_none());
}

#[test]
fn failed_end_names_the_cause() {
    let mut downloads: ActiveDownloads<u32> = ActiveDownloads::new();
    downloads.insert(handle("id-1", 1, "/out.mp4"));
    let mut watch = Watch::new("id-1", "/out.mp4");
    watch.on_stderr("ERROR: Sign in to confirm");
    match watch.on_terminated(&mut downloads, Some(1)) {
        Some(Notification::Failed { id, error }) => {
            assert_eq!(id, "id-1");
            assert_eq!(error, "Authentication required. Try enabling browser cookies.");
        }
        other => panic!("unexpected notification {:?}", other),
    }
    downloads.insert(handle("id-1", 1, "/out.mp4"));
    match watch.on_terminated(&mut downloads, None) {
        Some(Notification::Failed { error, .. }) => {
            assert_eq!(error, "Process terminated without exit code")
        }
        other => panic!("unexpected notification {:?}", other),
    }
}

#[test]
fn events_are_dispatched() {
    let mut downloads: ActiveDownloads<u32> = ActiveDownloads::new();
    downloads.insert(handle("id-1", 1, "/out.mp4"));
    let mut watch = Watch::new("id-1", "/out.mp4");
    let notes = watch.on_event(&mut downloads, &ProcessEvent::StdoutLine("[download] 1%".to_string()));
    assert_eq!(notes.len(), 1);
    let notes = watch.on_event(&mut downloads, &ProcessEvent::StderrLine("quiet".to_string()));
    assert!(notes.is_empty());
    assert_eq!(watch.stderr, "quiet\n");
    let notes = watch.on_event(&mut downloads, &ProcessEvent::Terminated { exit_code: Some(2) });
    assert_eq!(notes.len(), 1);
    match &notes[0] {
        Notification::Failed { error, .. } => assert_eq!(error, "Exit code: 2"),
        other => panic!("unexpected notification {:?}", other),
    }
    let notes = watch.on_event(&mut downloads, &ProcessEvent::Terminated { exit_code: Some(2) });
    assert!(notes.is_empty());
}

#[test]
fn event_names() {
    let id = "i".to_string();
    let path = "p".to_string();
    assert_eq!(
        Notification::Started { id: id.clone(), path: path.clone() }.event_name(),
        "download-started"
    );
    assert_eq!(Notification::Status("s".to_string()).event_name(), "download-status");
    assert_eq!(
        Notification::Processing { id: id.clone(), message: "m".to_string() }.event_name(),
        "download-processing"
    );
    assert_eq!(
        Notification::Completed { id: id.clone(), path: path.clone() }.event_name(),
        "download-complete"
    );
    assert_eq!(
        Notification::Failed { id: id.clone(), error: "e".to_string() }.event_name(),
        "download-complete"
    );
    assert_eq!(Notification::Cancelled { id, path }.event_name(), "download-cancelled");
    let watch = Watch::new("i", "p");
    let notes = watch.on_stdout("[download] 3%");
    assert_eq!(notes[0].event_name(), "download-progress");
}

#[test]
fn registering_announces_the_download() {
    let mut downloads: ActiveDownloads<u32> = ActiveDownloads::new();
    let (note, replaced) =
        register_download(&mut downloads, "id-9".to_string(), 7, "https://e.com/v", "/out.mp4");
    assert!(replaced.is_none());
    match note {
        Notification::Started { id, path } => {
            assert_eq!(id, "id-9");
            assert_eq!(path, "/out.mp4");
        }
        other => panic!("unexpected notification {:?}", other),
    }
    let taken = downloads.remove("id-9").unwrap();
    assert_eq!(taken.child, 7);
    assert_eq!(taken.url, "https://e.com/v");
    assert_eq!(taken.output_path, "/out.mp4");
}

#[test]
fn fresh_identifiers() {
    let mut downloads: ActiveDownloads<u32> = ActiveDownloads::new();
    let (first, note, _) = start_download(&mut downloads, 1, "u", "/a");
    let (second, _, _) = start_download(&mut downloads, 2, "u", "/b");
    assert_eq!(first.chars().count(), 36);
    assert_eq!(second.chars().count(), 36);
    assert_ne!(first, second);
    assert_eq!(first.matches('-').count(), 4);
    assert!(downloads.contains(&first));
    assert!(downloads.contains(&second));
    assert_eq!(downloads.len(), 2);
    match note {
        Notification::Started { id, path } => {
            assert_eq!(id, first);
            assert_eq!(path, "/a");
        }
        other => panic!("unexpected notification {:?}", other),
    }
}

#[test]
fn launcher_choice() {
    assert!(matches!(choose_launcher(&None), Launcher::Sidecar));
    assert!(matches!(choose_launcher(&Some("yt-dlp".to_string())), Launcher::Sidecar));
    match choose_launcher(&Some("/data/yt-dlp.exe".to_string())) {
        Launcher::Command(path) => assert_eq!(path, "/data/yt-dlp.exe"),
        Launcher::Sidecar => panic!("a path must be used"),
    }
}
