use photosync::compare::{ChunkVerdict, FileComparator, FILE_COMPARE_CHUNK_SIZE};
use photosync::config::Config;
use photosync::date::Date;
use photosync::handler::{FileHandler, HandlerAction, HandlerEvent};
use photosync::paths::SourcePath;
use photosync::progress::ProgressMsg;
use photosync::scan::{is_excluded, scan_error, ExifEntry, ExifFields};
use photosync::timespan::TimeSpan;

fn config() -> Config {
    let mut c = Config::default();
    c.camera_dirs = vec![("EOS R6".to_string(), "Canon".to_string())];
    c
}

fn file(path: &str, model: &str) -> HandlerEvent {
    HandlerEvent::File {
        path: SourcePath::new(path.to_string()),
        model: model.to_string(),
        date: Date::from_ymd_opt(2024, 5, 6).unwrap(),
    }
}

fn describe(msgs: &[ProgressMsg]) -> Vec<String> {
    msgs.iter()
        .map(|m| match m {
            ProgressMsg::CopyStarted { src, dest, size } => format!("started {} {} {size}", src.as_str(), dest.as_str()),
            ProgressMsg::CopyComplete { filename, size, duration } => {
                format!("complete {filename} {size} {}", duration.as_nanos())
            }
            ProgressMsg::CopySkipped { filename } => format!("skipped {filename}"),
            ProgressMsg::CopyError { filename, error } => format!("error {filename}: {error}"),
            ProgressMsg::SuspiciousDuplicate { src, dest } => format!("suspicious {} {}", src.as_str(), dest.as_str()),
            ProgressMsg::UnknownCamera { model } => format!("unknown {model}"),
            other => format!("{other:?}"),
        })
        .collect()
}

#[test]
fn copies_a_new_file() {
    let mut h = FileHandler::new("/p".to_string(), config(), false);
    let s = h.step(file("/m/DCIM/IMG_1.JPG", "Canon EOS R6"));
    assert!(s.messages.is_empty());
    assert!(matches!(s.action, HandlerAction::StatSource));
    let s = h.step(HandlerEvent::Stat { is_file: true, size: 42 });
    assert!(s.messages.is_empty());
    match s.action {
        HandlerAction::CreateDir { dir } => assert_eq!(dir, "/p/Canon/2024/05/06"),
        other => panic!("{other:?}"),
    }
    let s = h.step(HandlerEvent::DirCreated);
    assert_eq!(describe(&s.messages), vec!["started /m/DCIM/IMG_1.JPG /p/Canon/2024/05/06/IMG_1.JPG 42"]);
    match s.action {
        HandlerAction::Copy { dest } => assert_eq!(dest, "/p/Canon/2024/05/06/IMG_1.JPG"),
        other => panic!("{other:?}"),
    }
    let s = h.step(HandlerEvent::Copied { duration: TimeSpan::from_millis(3) });
    assert_eq!(describe(&s.messages), vec!["complete IMG_1.JPG 42 3000000"]);
    assert!(matches!(s.action, HandlerAction::NextFile));

    // The same directory is not created twice.
    h.step(file("/m/DCIM/IMG_2.JPG", "Canon EOS R6"));
    let s = h.step(HandlerEvent::Stat { is_file: true, size: 7 });
    assert_eq!(describe(&s.messages), vec!["started /m/DCIM/IMG_2.JPG /p/Canon/2024/05/06/IMG_2.JPG 7"]);
    assert!(matches!(s.action, HandlerAction::Copy { .. }));
}

#[test]
fn existing_destination_is_compared() {
    let mut h = FileHandler::new("/p".to_string(), config(), false);
    h.step(file("/m/a.jpg", "EOS R6"));
    h.step(HandlerEvent::Stat { is_file: true, size: 9 });
    h.step(HandlerEvent::DirCreated);
    let s = h.step(HandlerEvent::CopyFound);
    match s.action {
        HandlerAction::Compare { dest, size } => {
            assert_eq!(dest, "/p/Canon/2024/05/06/a.jpg");
            assert_eq!(size, 9);
        }
        other => panic!("{other:?}"),
    }
    let s = h.step(HandlerEvent::Compared { same: false });
    assert_eq!(describe(&s.messages), vec!["suspicious /m/a.jpg /p/Canon/2024/05/06/a.jpg", "skipped a.jpg"]);

    h.step(file("/m/b.jpg", "EOS R6"));
    h.step(HandlerEvent::Stat { is_file: true, size: 9 });
    h.step(HandlerEvent::CopyFound);
    let s = h.step(HandlerEvent::Compared { same: true });
    assert_eq!(describe(&s.messages), vec!["skipped b.jpg"]);

    h.step(file("/m/c.jpg", "EOS R6"));
    h.step(HandlerEvent::Stat { is_file: true, size: 9 });
    h.step(HandlerEvent::CopyFound);
    let s = h.step(HandlerEvent::CompareFailed { error: "gone".to_string() });
    assert_eq!(
        describe(&s.messages),
        vec!["error c.jpg: Error comparing files: gone", "suspicious /m/c.jpg /p/Canon/2024/05/06/c.jpg", "skipped c.jpg"]
    );
}

#[test]
fn failures_are_reported() {
    let mut h = FileHandler::new("/p".to_string(), config(), false);
    let s = h.step(file("/m/x.jpg", "Nikon Z8"));
    assert_eq!(describe(&s.messages), vec!["unknown Nikon Z8"]);
    assert!(matches!(s.action, HandlerAction::NextFile));

    let s = h.step(file("/m/..", "EOS R6"));
    assert_eq!(describe(&s.messages), vec!["error /m/..: No filename in path"]);

    h.step(file("/m/\u{7}y.jpg", "EOS R6"));
    let s = h.step(HandlerEvent::StatFailed { error: "EIO".to_string() });
    assert_eq!(describe(&s.messages), vec!["error /m/?y.jpg: Failed to stat source: EIO"]);

    h.step(file("/m/z.jpg", "EOS R6"));
    let s = h.step(HandlerEvent::Stat { is_file: false, size: 0 });
    assert_eq!(describe(&s.messages), vec!["error /m/z.jpg: Source is not a regular file"]);

    h.step(file("/m/w.jpg", "EOS R6"));
    h.step(HandlerEvent::Stat { is_file: true, size: 1 });
    let s = h.step(HandlerEvent::DirFailed { error: "EACCES".to_string() });
    assert_eq!(describe(&s.messages), vec!["error w.jpg: Failed to create directory: EACCES"]);

    h.step(file("/m/v.jpg", "EOS R6"));
    let s = h.step(HandlerEvent::Stat { is_file: true, size: 1 });
    assert!(matches!(s.action, HandlerAction::CreateDir { .. }));
    h.step(HandlerEvent::DirCreated);
    let s = h.step(HandlerEvent::CopyFailed { error: "ENOSPC".to_string() });
    assert_eq!(describe(&s.messages), vec!["error v.jpg: Copy failed: ENOSPC"]);
}

#[test]
fn template_errors_name_the_source() {
    let mut c = config();
    c.dest_template = Some("{camera}/{oops}".to_string());
    let mut h = FileHandler::new("/p".to_string(), c, false);
    let s = h.step(file("/m/a.jpg", "EOS R6"));
    assert_eq!(
        describe(&s.messages),
        vec!["error /m/a.jpg: Malformed template or unknown tag in '{camera}/{oops}'. Result: 'Canon/{oops}'"]
    );
}

#[test]
fn dry_run_only_checks() {
    let mut h = FileHandler::new("/p".to_string(), config(), true);
    h.step(file("/m/CON.jpg", "EOS R6"));
    let s = h.step(HandlerEvent::Stat { is_file: true, size: 5 });
    match s.action {
        HandlerAction::CheckExists { dest } => assert_eq!(dest, "/p/Canon/2024/05/06/_CON.jpg"),
        other => panic!("{other:?}"),
    }
    let s = h.step(HandlerEvent::Exists { exists: false });
    assert_eq!(
        describe(&s.messages),
        vec!["started /m/CON.jpg /p/Canon/2024/05/06/_CON.jpg 5", "complete _CON.jpg 5 1000000"]
    );
    h.step(file("/m/b.jpg", "EOS R6"));
    h.step(HandlerEvent::Stat { is_file: true, size: 5 });
    let s = h.step(HandlerEvent::Exists { exists: true });
    assert!(matches!(s.action, HandlerAction::Compare { size: 5, .. }));
}

#[test]
fn unexpected_report_leaves_request_standing() {
    let mut h = FileHandler::new("/p".to_string(), config(), false);
    let s = h.step(HandlerEvent::DirCreated);
    assert!(s.messages.is_empty());
    assert!(matches!(s.action, HandlerAction::NextFile));
    h.step(file("/m/a.jpg", "EOS R6"));
    let s = h.step(HandlerEvent::Compared { same: true });
    assert!(s.messages.is_empty());
    assert!(matches!(s.action, HandlerAction::StatSource));
}

#[test]
fn cached_destination_matches_fresh_one() {
    let mut h = FileHandler::new("/p".to_string(), config(), false);
    for name in ["a", "b", "c"] {
        h.step(file(&format!("/m/{name}.jpg"), "EOS R6"));
        h.step(HandlerEvent::StatFailed { error: "x".to_string() });
    }
    h.step(HandlerEvent::File {
        path: SourcePath::new("/m/d.jpg".to_string()),
        model: "EOS R6".to_string(),
        date: Date::from_ymd_opt(2024, 5, 7).unwrap(),
    });
    let s = h.step(HandlerEvent::Stat { is_file: true, size: 1 });
    match s.action {
        HandlerAction::CreateDir { dir } => assert_eq!(dir, "/p/Canon/2024/05/07"),
        other => panic!("{other:?}"),
    }
}

#[test]
fn chunk_verdicts() {
    let mut c = FileComparator::new();
    c.prepare();
    assert_eq!(c.buf1.len(), FILE_COMPARE_CHUNK_SIZE);
    assert_eq!(c.buf2.len(), FILE_COMPARE_CHUNK_SIZE);
    c.buf1[..4].copy_from_slice(b"AAAA");
    c.buf2[..4].copy_from_slice(b"AAAA");
    assert_eq!(c.chunk_verdict(4, 4), ChunkVerdict::Continue);
    assert_eq!(c.chunk_verdict(4, 3), ChunkVerdict::Different);
    assert_eq!(c.chunk_verdict(0, 0), ChunkVerdict::Equal);
    c.buf2[..4].copy_from_slice(b"AABA");
    assert_eq!(c.chunk_verdict(4, 4), ChunkVerdict::Different);
    assert_eq!(c.chunk_verdict(2, 2), ChunkVerdict::Continue);
}

#[test]
fn excluded_names_match_whole() {
    let ex = vec!["ignore".to_string(), ".thumbnails".to_string()];
    assert!(is_excluded("ignore", &ex));
    assert!(is_excluded(".thumbnails", &ex));
    assert!(!is_excluded("ignored", &ex));
    assert!(!is_excluded("keep", &ex));
    assert!(!is_excluded("ignore", &Vec::new()));
}

#[test]
fn scan_errors_are_shown_safely() {
    match scan_error(None, "bad\u{1b}[2J") {
        ProgressMsg::ScanError { path, error } => {
            assert_eq!(path.as_str(), "?");
            assert_eq!(error, "bad?[2J");
        }
        other => panic!("{other:?}"),
    }
    match scan_error(Some("/m/x".to_string()), "denied") {
        ProgressMsg::ScanError { path, error } => {
            assert_eq!(path.as_str(), "/m/x");
            assert_eq!(error, "denied");
        }
        other => panic!("{other:?}"),
    }
}

#[test]
fn metadata_fields_collected() {
    let mut f = ExifFields::new();
    assert!(!f.is_complete());
    f.record(ExifEntry::Model(Some("Canon\nEOS".to_string())));
    f.record(ExifEntry::Other);
    assert!(!f.is_complete());
    f.record(ExifEntry::DateTaken(Date::from_ymd_opt(2024, 1, 2)));
    assert!(f.is_complete());
    let p = SourcePath::new("/m/a.jpg".to_string());
    let (msg, model, date) = f.finish(&p).unwrap();
    assert_eq!(model, "Canon?EOS");
    assert_eq!(date, Date::from_ymd_opt(2024, 1, 2).unwrap());
    match msg {
        ProgressMsg::ExifExtracted { path, model } => {
            assert_eq!(path.as_str(), "/m/a.jpg");
            assert_eq!(model, "Canon?EOS");
        }
        other => panic!("{other:?}"),
    }
    let mut g = ExifFields::new();
    g.record(ExifEntry::Model(Some("X".to_string())));
    g.record(ExifEntry::Model(None));
    g.record(ExifEntry::DateTaken(Date::from_ymd_opt(2024, 1, 2)));
    assert!(g.finish(&p).is_none());
}
