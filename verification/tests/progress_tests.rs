use photosync::paths::{DestPath, SourcePath};
use photosync::progress::{format_bytes, ProgressMsg, Summary};
use photosync::timespan::TimeSpan;

/// The overall speed as the program works it out (in floating point).
fn overall(summary: &Summary) -> String {
    let d = std::time::Duration::new(summary.total_duration.as_secs(), summary.total_duration.subsec_nanos());
    let secs = d.as_secs_f64();
    if secs > 0.0 {
        format!("{}/s", format_bytes((summary.bytes_copied as f64 / secs) as u64))
    } else {
        String::new()
    }
}

#[test]
fn test_format_bytes_zero() {
    assert_eq!(format_bytes(0), "0 B");
}

#[test]
fn test_format_bytes_bytes() {
    assert_eq!(format_bytes(512), "512 B");
}

#[test]
fn test_format_bytes_kb() {
    assert_eq!(format_bytes(1024), "1.0 KB");
    assert_eq!(format_bytes(1536), "1.5 KB");
}

#[test]
fn test_format_bytes_mb() {
    assert_eq!(format_bytes(1024 * 1024), "1.0 MB");
    assert_eq!(format_bytes(1536 * 1024), "1.5 MB");
}

#[test]
fn test_format_bytes_gb() {
    assert_eq!(format_bytes(1024 * 1024 * 1024), "1.00 GB");
    assert_eq!(format_bytes(1536 * 1024 * 1024), "1.50 GB");
}

#[test]
fn test_summary_display() {
    let summary = Summary {
        files_copied: 5,
        files_skipped: 2,
        files_errored: 0,
        files_found: 10,
        bytes_copied: 50 * 1024 * 1024,
        total_duration: TimeSpan::from_secs(5),
        ..Default::default()
    };
    let output = summary.to_string(&overall(&summary));
    assert!(output.contains("5 copied"));
    assert!(output.contains("2 skipped"));
    assert!(output.contains("10 total files found"));
    assert!(output.contains("10.0 MB/s overall"));
    assert!(!output.contains("error"));
}

#[test]
fn test_summary_display_with_errors() {
    let summary = Summary {
        files_copied: 3,
        files_skipped: 1,
        files_errored: 2,
        files_found: 8,
        bytes_copied: 30 * 1024 * 1024,
        total_duration: TimeSpan::from_secs(3),
        ..Default::default()
    };
    let output = summary.to_string(&overall(&summary));
    assert!(output.contains("3 copied"));
    assert!(output.contains("1 skipped"));
    assert!(output.contains("2 errors"));
    assert!(output.contains("8 total files found"));
}

#[test]
fn test_summary_display_no_copies() {
    let summary = Summary::default();
    let output = summary.to_string(&overall(&summary));
    assert!(output.contains("0 copied"));
    assert!(!output.contains("overall"));
    assert!(!output.contains("error"));
}

#[test]
fn test_summary_display_with_suspicious_duplicates() {
    let summary = Summary {
        files_copied: 2,
        files_skipped: 3,
        suspicious_duplicates: vec![
            (SourcePath::new("/src/IMG_001.jpg".to_string()), DestPath::new("/dest/IMG_001.jpg".to_string())),
            (SourcePath::new("/src/IMG_002.jpg".to_string()), DestPath::new("/dest/IMG_002.jpg".to_string())),
        ],
        ..Default::default()
    };
    let output = summary.to_string(&overall(&summary));
    assert!(output.contains("2 suspicious duplicate(s)"));
    assert!(output.contains("same name, different contents"));
    assert!(output.contains("/src/IMG_001.jpg"));
    assert!(output.contains("/dest/IMG_001.jpg"));
    assert!(output.contains("/src/IMG_002.jpg"));
}

#[test]
fn test_summary_total_processed() {
    let mut summary = Summary::default();
    summary.files_copied = 10;
    summary.files_skipped = 5;
    summary.files_errored = 2;
    summary.unknown_cameras.insert("ModelA".to_string(), 3);
    summary.unknown_cameras.insert("ModelB".to_string(), 1);

    assert_eq!(summary.total_processed(), 21);
}

#[test]
fn test_summary_update() {
    let mut summary = Summary::default();

    assert!(!summary.update(&ProgressMsg::FileFound));
    assert_eq!(summary.files_found, 1);

    assert!(!summary.update(&ProgressMsg::CopyComplete {
        filename: "test.jpg".to_string(),
        size: 1024,
        duration: TimeSpan::from_millis(100),
    }));
    assert_eq!(summary.files_copied, 1);
    assert_eq!(summary.bytes_copied, 1024);

    assert!(!summary.update(&ProgressMsg::CopySkipped { filename: "skip.jpg".to_string() }));
    assert_eq!(summary.files_skipped, 1);

    assert!(!summary.update(&ProgressMsg::CopyError {
        filename: "err.jpg".to_string(),
        error: "test error".to_string(),
    }));
    assert_eq!(summary.files_errored, 1);

    assert!(!summary.update(&ProgressMsg::SuspiciousDuplicate {
        src: SourcePath::new("/src/dup.jpg".to_string()),
        dest: DestPath::new("/dest/dup.jpg".to_string()),
    }));
    assert_eq!(summary.suspicious_duplicates.len(), 1);

    assert!(summary.update(&ProgressMsg::Done));
}

#[test]
fn format_bytes_boundaries() {
    assert_eq!(format_bytes(1023), "1023 B");
    assert_eq!(format_bytes(1024 * 1024 - 1), "1024.0 KB");
    assert_eq!(format_bytes(1024 * 1024 * 1024 - 1), "1024.0 MB");
    assert_eq!(format_bytes(u64::MAX), "17179869184.00 GB");
}

/// Against the floating-point formatting that the figures are shown with.
#[test]
fn format_bytes_matches_float_formatting() {
    const KB: u64 = 1024;
    const MB: u64 = 1024 * 1024;
    const GB: u64 = 1024 * 1024 * 1024;
    let float_text = |b: u64| -> String {
        if b >= GB {
            format!("{:.2} GB", b as f64 / GB as f64)
        } else if b >= MB {
            format!("{:.1} MB", b as f64 / MB as f64)
        } else if b >= KB {
            format!("{:.1} KB", b as f64 / KB as f64)
        } else {
            format!("{b} B")
        }
    };
    let mut samples: Vec<u64> = Vec::new();
    for base in [0u64, KB, MB, GB, 5 * GB, 1 << 40, 1 << 53, 1 << 60, u64::MAX - 5000] {
        for d in 0..2000u64 {
            samples.push(base.saturating_add(d));
        }
    }
    // Exact halves and quarters, where the rounding rule shows.
    for k in 0..4000u64 {
        samples.push(k * 512 + 51);
        samples.push(k * (MB / 20) + MB);
        samples.push(k * (GB / 200) + GB);
        samples.push(k * (GB / 400) + GB);
    }
    let mut x: u64 = 0x9E37_79B9_7F4A_7C15;
    for _ in 0..50000 {
        x ^= x << 13;
        x ^= x >> 7;
        x ^= x << 17;
        samples.push(x);
        samples.push(x >> 20);
        samples.push(x >> 40);
    }
    for b in samples {
        assert_eq!(format_bytes(b), float_text(b), "bytes = {b}");
    }
}

#[test]
fn summary_text_full_report() {
    let mut summary = Summary {
        files_copied: 1,
        files_errored: 1,
        files_found: 4,
        bytes_copied: 2048,
        total_duration: TimeSpan::from_secs(2),
        suspicious_duplicates: vec![(SourcePath::new("/s/a\n.jpg".to_string()), DestPath::new("/d/a.jpg".to_string()))],
        ..Default::default()
    };
    summary.unknown_cameras.insert("Zeta".to_string(), 2);
    summary.unknown_cameras.insert("Alpha".to_string(), 1);
    let expected = "Summary: 1 copied, 0 skipped (duplicates), 4 total files found, 1 errors, 1.0 KB/s overall\n\
        \nWARNING: 1 suspicious duplicate(s) found (same name, different contents):\n  Source: /s/a?.jpg\n    Dest: /d/a.jpg\n\
        \n\nWARNING: 3 file(s) skipped due to unknown camera model(s):\n  \"Alpha\": 1 file(s)\n  \"Zeta\": 2 file(s)\n\
        Run 'photosync --init' to create a config, or edit your config to add mappings.\n";
    assert_eq!(summary.to_string(&overall(&summary)), expected);
}

#[test]
fn summary_counts_every_message_kind() {
    let mut s = Summary::default();
    let msgs = vec![
        ProgressMsg::ScanningDir(SourcePath::new("/m".to_string())),
        ProgressMsg::ScanError { path: SourcePath::new("/m/x".to_string()), error: "denied".to_string() },
        ProgressMsg::ExifExtracted { path: SourcePath::new("/m/a.jpg".to_string()), model: "Cam".to_string() },
        ProgressMsg::CopyStarted {
            src: SourcePath::new("/m/a.jpg".to_string()),
            dest: DestPath::new("/p/a.jpg".to_string()),
            size: 10,
        },
        ProgressMsg::UnknownCamera { model: "Cam".to_string() },
        ProgressMsg::UnknownCamera { model: "Cam".to_string() },
        ProgressMsg::ScanComplete,
    ];
    for m in &msgs {
        assert!(s.can_update(m));
        assert!(!s.update(m));
    }
    assert_eq!(s.files_errored, 1);
    assert_eq!(s.scan_errors, 1);
    assert_eq!(s.unknown_cameras.get("Cam"), Some(2));
    assert_eq!(s.total_processed(), 3);
    assert_eq!(s.exif_processed(), 2);
}

#[test]
fn summary_refuses_counter_overflow() {
    let mut s = Summary::default();
    s.files_found = u64::MAX;
    assert!(!s.can_update(&ProgressMsg::FileFound));
    s.bytes_copied = u64::MAX - 5;
    let big = ProgressMsg::CopyComplete { filename: "f".to_string(), size: 6, duration: TimeSpan::zero() };
    assert!(!s.can_update(&big));
    let small = ProgressMsg::CopyComplete { filename: "f".to_string(), size: 5, duration: TimeSpan::zero() };
    assert!(s.can_update(&small));
}

#[test]
fn overall_speed_shown_only_after_timed_copies() {
    let mut summary = Summary::default();
    assert!(!summary.to_string("9 B/s").contains("overall"));
    summary.files_copied = 1;
    assert!(!summary.to_string("9 B/s").contains("overall"));
    summary.total_duration = TimeSpan::from_nanos(1);
    assert!(summary.to_string("9 B/s").ends_with(", 9 B/s overall"));
}
