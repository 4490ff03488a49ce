use photosync::paths::{is_windows_reserved, sanitize_filename, sanitize_str, DestPath, SourcePath};

#[test]
fn test_sanitize_str_normal() {
    assert_eq!(sanitize_str("normal_string"), "normal_string");
    assert_eq!(sanitize_str("path/to/file.txt"), "path/to/file.txt");
}

#[test]
fn test_sanitize_str_control_chars() {
    assert_eq!(sanitize_str("line\nbreak"), "line?break");
    assert_eq!(sanitize_str("tab\tcharacter"), "tab?character");
    assert_eq!(sanitize_str("carriage\rreturn"), "carriage?return");
}

#[test]
fn test_sanitize_str_ansi_escape() {
    let ansi = "\x1b[31mRed Text";
    assert_eq!(sanitize_str(ansi), "?[31mRed Text");
}

#[test]
fn test_source_path_display_sanitization() {
    let source_path = SourcePath::new("dangerous\npath.jpg".to_string());
    assert_eq!(source_path.to_string(), "dangerous?path.jpg");
}

#[test]
fn test_dest_path_display_sanitization() {
    let dest_path = DestPath::new("evil\x1b[2Jpath.jpg".to_string());
    assert_eq!(dest_path.to_string(), "evil?[2Jpath.jpg");
}

#[test]
fn test_sanitize_filename_basics() {
    assert_eq!(sanitize_filename("normal.jpg"), "normal.jpg");
    assert_eq!(sanitize_filename("valid-name_123.txt"), "valid-name_123.txt");
}

#[test]
fn test_sanitize_filename_windows_reserved() {
    assert_eq!(sanitize_filename("foo<bar>.jpg"), "foo_bar_.jpg");
    assert_eq!(sanitize_filename("foo:bar"), "foo_bar");
    assert_eq!(sanitize_filename("quote\"mark"), "quote_mark");
    assert_eq!(sanitize_filename("slash/backslash\\"), "slash_backslash_");
    assert_eq!(sanitize_filename("pipe|question?star*"), "pipe_question_star_");
}

#[test]
fn test_sanitize_filename_control_chars() {
    assert_eq!(sanitize_filename("newline\n.jpg"), "newline_.jpg");
    assert_eq!(sanitize_filename("tab\t.txt"), "tab_.txt");
}

#[test]
fn test_sanitize_filename_trailing_dots_spaces() {
    assert_eq!(sanitize_filename("end_space "), "end_space");
    assert_eq!(sanitize_filename("end_dot."), "end_dot");
    assert_eq!(sanitize_filename("both. "), "both");
    assert_eq!(sanitize_filename("..."), "_");
    assert_eq!(sanitize_filename("   "), "_");
}

#[test]
fn test_sanitize_filename_empty() {
    assert_eq!(sanitize_filename(""), "_");
}

#[test]
fn test_sanitize_filename_reserved_windows() {
    assert_eq!(sanitize_filename("CON"), "_CON");
    assert_eq!(sanitize_filename("prn.txt"), "_prn.txt");
    assert_eq!(sanitize_filename("Aux"), "_Aux");
    assert_eq!(sanitize_filename("NUL"), "_NUL");
    assert_eq!(sanitize_filename("com1"), "_com1");
    assert_eq!(sanitize_filename("LPT9.jpg"), "_LPT9.jpg");
    assert_eq!(sanitize_filename("CONE"), "CONE");
    assert_eq!(sanitize_filename("auxil"), "auxil");
}

#[test]
fn sanitize_str_keeps_non_control_unicode() {
    assert_eq!(sanitize_str("caf\u{e9} \u{1F4F7}\u{7f}\u{85}"), "caf\u{e9} \u{1F4F7}??");
}

#[test]
fn sanitize_str_is_idempotent_on_example() {
    let once = sanitize_str("a\x07b\x1bc");
    assert_eq!(once, "a?b?c");
    assert_eq!(sanitize_str(&once), once);
}

#[test]
fn sanitize_filename_reserved_after_trimming() {
    // The trailing dot goes first, and what remains is a device name.
    assert_eq!(sanitize_filename("CON."), "_CON");
    assert_eq!(sanitize_filename("lpt1 .txt"), "lpt1 .txt");
    assert_eq!(sanitize_filename("com0"), "com0");
}

#[test]
fn sanitize_filename_output_is_stable() {
    for name in ["a<b", "CON", "x. ", "", "ok.jpg", "nul.tar.gz", "\t\n"] {
        let once = sanitize_filename(name);
        assert_eq!(sanitize_filename(&once), once);
        assert!(!once.is_empty());
        assert!(!once.ends_with('.') && !once.ends_with(' '));
    }
}

#[test]
fn source_path_file_name() {
    assert_eq!(SourcePath::new("/a/b/c.jpg".to_string()).file_name(), Some("c.jpg".to_string()));
    assert_eq!(SourcePath::new("/a/b/c.jpg/.".to_string()).file_name(), Some("c.jpg".to_string()));
    assert_eq!(SourcePath::new("/a/b/..".to_string()).file_name(), None);
    assert_eq!(SourcePath::new("/".to_string()).file_name(), None);
    assert_eq!(SourcePath::new("name".to_string()).file_name(), Some("name".to_string()));
}

#[test]
fn windows_reserved_names() {
    assert!(is_windows_reserved("con"));
    assert!(is_windows_reserved("Lpt3.tar.gz"));
    assert!(is_windows_reserved("AUX"));
    assert!(!is_windows_reserved("COM10"));
    assert!(!is_windows_reserved("COM0"));
    assert!(!is_windows_reserved(".CON"));
    assert!(!is_windows_reserved(""));
}
