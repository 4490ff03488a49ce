use photosync::paths::{DestPath, SourcePath};
use photosync::progress::{ProgressMsg, Summary};
use photosync::text_mode::{message_line, text_mode_step, TextAction};
use photosync::timespan::TimeSpan;

fn out(a: TextAction) -> String {
    match a {
        TextAction::Stdout(s) => s,
        other => panic!("{other:?}"),
    }
}

fn err(a: TextAction) -> String {
    match a {
        TextAction::Stderr(s) => s,
        other => panic!("{other:?}"),
    }
}

#[test]
fn lines_for_each_message() {
    let src = || SourcePath::new("/m/a.jpg".to_string());
    let line = |m: ProgressMsg| message_line(&m, "");
    assert_eq!(out(line(ProgressMsg::ScanningDir(SourcePath::new("/m".to_string())))), "Scanning: /m");
    assert_eq!(out(line(ProgressMsg::ScanComplete)), "Scan complete.");
    assert_eq!(out(line(ProgressMsg::ExifExtracted { path: src(), model: "Cam".to_string() })), "Found: /m/a.jpg (Cam)");
    assert_eq!(
        out(line(ProgressMsg::CopyStarted { src: src(), dest: DestPath::new("/p/a.jpg".to_string()), size: 1 })),
        "Copying: /m/a.jpg -> /p/a.jpg"
    );
    let done = ProgressMsg::CopyComplete {
        filename: "a.jpg".to_string(),
        size: 3 * 1024 * 1024,
        duration: TimeSpan::from_secs(2),
    };
    assert_eq!(out(message_line(&done, "1.5 MB/s")), "  Done: a.jpg (3.0 MB, 1.5 MB/s)");
    assert_eq!(out(line(ProgressMsg::CopySkipped { filename: "a.jpg".to_string() })), "  Skipped (exists): a.jpg");
    assert_eq!(
        err(line(ProgressMsg::CopyError { filename: "a.jpg".to_string(), error: "EIO".to_string() })),
        "  Error: a.jpg: EIO"
    );
    assert_eq!(
        err(line(ProgressMsg::ScanError { path: src(), error: "denied".to_string() })),
        "  Scan Error: /m/a.jpg: denied"
    );
    assert_eq!(
        err(line(ProgressMsg::SuspiciousDuplicate { src: src(), dest: DestPath::new("/p/a.jpg".to_string()) })),
        "  WARNING: Suspicious duplicate: /m/a.jpg"
    );
    assert!(matches!(line(ProgressMsg::FileFound), TextAction::Quiet));
    assert!(matches!(line(ProgressMsg::UnknownCamera { model: "X".to_string() }), TextAction::Quiet));
    assert!(matches!(line(ProgressMsg::Done), TextAction::Quiet));
}

#[test]
fn step_counts_and_stops_on_done() {
    let mut s = Summary::default();
    assert!(matches!(text_mode_step(&mut s, &ProgressMsg::FileFound, ""), TextAction::Quiet));
    assert_eq!(s.files_found, 1);
    let a = text_mode_step(&mut s, &ProgressMsg::CopySkipped { filename: "b.jpg".to_string() }, "");
    assert_eq!(out(a), "  Skipped (exists): b.jpg");
    assert_eq!(s.files_skipped, 1);
    assert!(matches!(text_mode_step(&mut s, &ProgressMsg::Done, ""), TextAction::Stop));
}
