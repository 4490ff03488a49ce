use photosync::paths::{DestPath, SourcePath};
use photosync::progress::ProgressMsg;
use photosync::timespan::TimeSpan;
use photosync::tui::{format_duration, get_status_color, App, StatusColor, Tone, SPINNER_FRAMES};

#[test]
fn test_app_default() {
    let app = App::default();
    assert_eq!(app.summary.files_found, 0);
    assert_eq!(app.summary.files_copied, 0);
    assert!(!app.done);
}

#[test]
fn test_add_recent_respects_limit() {
    let mut app = App::with_history_size(6);
    for i in 0..10 {
        app.add_recent(format!("Item {i}"), Tone::Plain);
    }
    assert_eq!(app.recent_items.len(), app.max_recent_items);
    assert!(app.recent_items.front().unwrap().text.contains('9'));
}

#[test]
fn test_handle_message_file_found() {
    let mut app = App::default();
    app.handle_message(ProgressMsg::FileFound, "");
    assert_eq!(app.summary.files_found, 1);
}

#[test]
fn test_handle_message_copy_complete() {
    let mut app = App::default();
    app.handle_message(ProgressMsg::CopyComplete {
        filename: "test.jpg".to_string(),
        size: 1024,
        duration: TimeSpan::from_millis(100),
    }, "0.1");
    assert_eq!(app.summary.files_copied, 1);
    assert_eq!(app.summary.bytes_copied, 1024);
    assert_eq!(app.recent_copies.len(), 1);
}

#[test]
fn test_handle_message_done() {
    let mut app = App::default();
    assert!(!app.done);
    app.handle_message(ProgressMsg::Done, "");
    assert!(app.done);
}

#[test]
fn test_handle_message_copy_skipped() {
    let mut app = App::default();
    app.handle_message(ProgressMsg::CopySkipped { filename: "test.jpg".to_string() }, "");
    assert_eq!(app.summary.files_skipped, 1);
    assert_eq!(app.recent_items.len(), 1);
    assert!(app.recent_items.front().unwrap().text.contains("already exists"));
}

#[test]
fn test_app_tick() {
    let mut app = App::default();
    let initial = app.spinner_idx;
    app.tick();
    assert_eq!(app.spinner_idx, (initial + 1) % SPINNER_FRAMES);
}

#[test]
fn test_app_spinner_helper() {
    let mut app = App::default();
    assert_eq!(app.spinner(), " ");
    app.tick();
    assert_eq!(app.spinner(), "\u{2582}");
}

#[test]
fn test_ui_spinner() {
    let mut app = App::default();
    assert!(app.current_file_text().contains("Waiting..."));
    app.tick();
    assert!(app.current_file_text().contains("\u{2582} Waiting..."), "Spinner character not found in UI output");
}

#[test]
fn test_format_duration() {
    assert_eq!(format_duration(TimeSpan::from_secs(0)), "00:00");
    assert_eq!(format_duration(TimeSpan::from_secs(59)), "00:59");
    assert_eq!(format_duration(TimeSpan::from_secs(60)), "01:00");
    assert_eq!(format_duration(TimeSpan::from_secs(3599)), "59:59");
    assert_eq!(format_duration(TimeSpan::from_secs(3600)), "01:00:00");
    assert_eq!(format_duration(TimeSpan::from_secs(3661)), "01:01:01");
}

#[test]
fn test_app_tracks_total_time() {
    let mut app = App::default();
    assert!(app.total_time.is_none());

    app.handle_message(ProgressMsg::FileFound, "");
    assert!(app.total_time.is_none());

    app.handle_message(ProgressMsg::Done, "");
    assert!(app.done);
    assert!(app.total_time.is_some());
}

#[test]
fn test_ui_border_color_status() {
    struct TestCase {
        name: &'static str,
        done: bool,
        setup: fn(&mut App),
        expected_color: StatusColor,
    }

    let cases = vec![
        TestCase { name: "Success state", done: true, setup: |_| {}, expected_color: StatusColor::Green },
        TestCase {
            name: "Error state (files errored)",
            done: true,
            setup: |app| app.summary.files_errored = 1,
            expected_color: StatusColor::Red,
        },
        TestCase {
            name: "Warning state (suspicious duplicate)",
            done: true,
            setup: |app| {
                app.summary
                    .suspicious_duplicates
                    .push((SourcePath::new("a".to_string()), DestPath::new("b".to_string())));
            },
            expected_color: StatusColor::Yellow,
        },
        TestCase {
            name: "Warning state (unknown camera)",
            done: true,
            setup: |app| {
                app.summary.unknown_cameras.insert("UnknownModel".to_string(), 1);
            },
            expected_color: StatusColor::Yellow,
        },
        TestCase { name: "Running state", done: false, setup: |_| {}, expected_color: StatusColor::Cyan },
    ];

    for case in cases {
        let mut app = App::default();
        app.done = case.done;
        (case.setup)(&mut app);
        assert_eq!(get_status_color(&app), case.expected_color, "Failed case: {}", case.name);
    }
}

#[test]
fn activity_log_entries_for_each_message() {
    let mut app = App::with_history_size(10);
    app.handle_message(ProgressMsg::CopyComplete {
        filename: "a.jpg".to_string(),
        size: 1536,
        duration: TimeSpan::from_millis(250),
    }, "0.2");
    app.handle_message(ProgressMsg::CopyError { filename: "b.jpg".to_string(), error: "disk full".to_string() }, "");
    app.handle_message(ProgressMsg::SuspiciousDuplicate {
        src: SourcePath::new("/m/c\u{1b}.jpg".to_string()),
        dest: DestPath::new("/p/c.jpg".to_string()),
    }, "");
    app.handle_message(ProgressMsg::UnknownCamera { model: "X100".to_string() }, "");
    app.handle_message(ProgressMsg::ScanError { path: SourcePath::new("/m/\nq".to_string()), error: "denied".to_string() }, "");
    app.handle_message(ProgressMsg::FileFound, "");
    let texts: Vec<(String, Tone)> = app.recent_items.iter().map(|i| (i.text.clone(), i.tone)).collect();
    assert_eq!(
        texts,
        vec![
            ("! Scan Error: /m/?q: denied".to_string(), Tone::Red),
            ("\u{2298} Unknown camera: X100".to_string(), Tone::Magenta),
            ("\u{26a0} c?.jpg  (CONTENTS DIFFER!)".to_string(), Tone::LightRed),
            ("\u{2717} b.jpg  disk full".to_string(), Tone::Red),
            ("\u{2713} a.jpg  1.5 KB  0.2s".to_string(), Tone::Green),
        ]
    );
}


#[test]
fn window_totals_add_up_recent_copies() {
    let mut app = App::default();
    assert_eq!(app.window_totals(), (0, TimeSpan::zero()));
    app.recent_copies.push_back((10 * 1024 * 1024, TimeSpan::from_secs(1)));
    app.recent_copies.push_back((20 * 1024 * 1024, TimeSpan::from_secs(2)));
    assert_eq!(app.window_totals(), (30 * 1024 * 1024, TimeSpan::from_secs(3)));
}

#[test]
fn eta_inputs_absent_until_ready() {
    let mut app = App::default();
    assert!(app.eta_inputs().is_none());
    app.recent_copies.push_back((1024, TimeSpan::from_secs(1)));
    assert!(app.eta_inputs().is_none());
    let mut app = App::default();
    app.scan_complete = true;
    app.files_with_exif = 10;
    assert!(app.eta_inputs().is_none());
    app.recent_copies.push_back((1024, TimeSpan::zero()));
    assert!(app.eta_inputs().is_none());
}

#[test]
fn eta_inputs_give_window_and_files_left() {
    let mut app = App::default();
    app.scan_complete = true;
    app.files_with_exif = 10;
    app.summary.files_copied = 4;
    app.summary.files_skipped = 1;
    app.recent_copies.push_back((1024, TimeSpan::from_secs(1)));
    app.recent_copies.push_back((2048, TimeSpan::from_secs(3)));
    assert_eq!(app.eta_inputs(), Some((TimeSpan::from_secs(4), 2, 5)));

    app.summary.files_copied = 9;
    assert!(app.eta_inputs().is_none());
    app.summary.files_copied = 5;
    app.done = true;
    assert!(app.eta_inputs().is_none());
}

#[test]
fn eta_inputs_unchanged_by_scan_errors() {
    let mut app = App::default();
    app.scan_complete = true;
    app.files_with_exif = 10;
    app.summary.files_copied = 2;
    app.recent_copies.push_back((1024, TimeSpan::from_secs(1)));
    app.recent_copies.push_back((2048, TimeSpan::from_secs(3)));
    let before = app.eta_inputs();
    assert_eq!(before, Some((TimeSpan::from_secs(4), 2, 8)));
    for i in 0..5 {
        app.handle_message(
            ProgressMsg::ScanError {
                path: SourcePath::new(format!("/invalid/path_{i}")),
                error: "Permission denied".to_string(),
            },
            "",
        );
    }
    assert_eq!(app.eta_inputs(), before);
}

#[test]
fn copy_window_keeps_the_last_ten() {
    let mut app = App::default();
    for i in 0..15u64 {
        app.handle_message(
            ProgressMsg::CopyComplete { filename: format!("f{i}"), size: i, duration: TimeSpan::from_secs(1) },
            "1.0",
        );
    }
    let sizes: Vec<u64> = app.recent_copies.iter().map(|(b, _)| *b).collect();
    assert_eq!(sizes, (5..15).collect::<Vec<u64>>());
    assert_eq!(app.window_totals(), (95, TimeSpan::from_secs(10)));
}

#[test]
fn display_state_follows_messages() {
    let mut app = App::default();
    app.handle_message(ProgressMsg::ScanningDir(SourcePath::new("/media/card".to_string())), "");
    assert_eq!(app.scan_status_text(), "  Scanning: /media/card  Files: 0  EXIF: 0");
    app.handle_message(
        ProgressMsg::ExifExtracted { path: SourcePath::new("/media/card/a.jpg".to_string()), model: "Cam".to_string() },
        "",
    );
    app.handle_message(
        ProgressMsg::CopyStarted {
            src: SourcePath::new("/media/card/a.jpg".to_string()),
            dest: DestPath::new("/p/a.jpg".to_string()),
            size: 2048,
        },
        "",
    );
    assert_eq!(app.current_file_text(), "Copying: a.jpg (2.0 KB)\nTo: /p/a.jpg");
    app.handle_message(ProgressMsg::ScanComplete, "");
    assert_eq!(app.scan_status_text(), "Scan complete.  Files found: 0    With EXIF: 1");
    assert_eq!(app.progress_counts(), (0, 1));
    app.handle_message(
        ProgressMsg::CopyComplete { filename: "a.jpg".to_string(), size: 2048, duration: TimeSpan::from_secs(1) },
        "1.0",
    );
    assert_eq!(app.progress_counts(), (1, 1));
    assert_eq!(
        app.stats_text(TimeSpan::from_secs(75), None, Some(2048)),
        "Time: 01:15    Speed: 2.0 KB/s    Copied: 2.0 KB    Skipped: 0 (already exist)"
    );
    app.handle_message(ProgressMsg::Done, "");
    assert_eq!(app.current_file_text(), "\u{2713} Complete!");
    let t = app.total_time.unwrap();
    assert_eq!(app.elapsed(), t);
}

#[test]
fn stats_line_shows_eta_and_dash() {
    let app = App::default();
    assert_eq!(
        app.stats_text(TimeSpan::from_secs(3600), None, None),
        "Time: 01:00:00    Speed: -    Copied: 0 B    Skipped: 0 (already exist)"
    );
    assert!(app.stats_text(TimeSpan::from_secs(1), Some(TimeSpan::from_secs(10)), None).contains("ETA: 00:10"));
}

#[test]
fn tick_changes_only_the_spinner() {
    let mut app = App::default();
    app.scan_complete = true;
    for _ in 0..SPINNER_FRAMES {
        app.tick();
    }
    assert_eq!(app.spinner_idx, 0);
    assert!(app.scan_complete);
    assert!(!app.done);
}
