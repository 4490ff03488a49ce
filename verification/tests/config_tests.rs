use std::path::PathBuf;

use photosync::config::{
    build_config_with, config_path, config_warnings, expand_path, expand_path_with,
    generate_config_template, is_safe_path, sort_camera_dirs, validate_template, Config, DirError,
    RawConfig, RawDirs,
};

fn raw(source: Option<&str>, target: Option<&str>, template: Option<&str>, cameras: &[(&str, &str)]) -> RawConfig {
    RawConfig {
        dirs: RawDirs {
            source: source.map(|s| s.to_string()),
            target: target.map(|s| s.to_string()),
            template: template.map(|s| s.to_string()),
        },
        cameras: cameras.iter().map(|(k, v)| (k.to_string(), v.to_string())).collect(),
    }
}

fn build(r: RawConfig) -> Config {
    build_config_with(r, &None, &None)
}

#[test]
fn test_get_dest_dir_matching() {
    let mut config = Config::default();
    config.camera_dirs = vec![
        ("EOS R6".to_string(), "CanonR6-images".to_string()),
        ("6D".to_string(), "Canon6D-images".to_string()),
    ];

    assert_eq!(config.get_dest_dir("Canon EOS R6"), Some("CanonR6-images"));
    assert_eq!(config.get_dest_dir("Canon EOS 6D"), Some("Canon6D-images"));
    assert_eq!(config.get_dest_dir("Sony A7 III"), None);
}

#[test]
fn test_get_dest_dir_empty_config() {
    let config = Config::with_defaults();
    assert!(config.camera_dirs.is_empty());
    assert_eq!(config.get_dest_dir("Any Camera"), None);
}

#[test]
fn test_parse_empty_config() {
    let config = build(raw(None, None, None, &[]));
    assert!(config.source_dir.is_none());
    assert!(config.target_dir.is_none());
    assert!(config.dest_template.is_none());
    assert!(config.camera_dirs.is_empty());
}

#[test]
fn test_parse_only_dirs_section() {
    let config = build(raw(Some("/media/test"), Some("/home/test/Pictures"), Some("{camera}/{year}"), &[]));
    assert_eq!(config.source_dir, Some("/media/test".to_string()));
    assert_eq!(config.target_dir, Some("/home/test/Pictures".to_string()));
    assert_eq!(config.dest_template, Some("{camera}/{year}".to_string()));
    assert!(config.camera_dirs.is_empty());
}

#[test]
fn test_parse_only_cameras_section() {
    let config = build(raw(None, None, None, &[("Sony A7", "Sony-images")]));
    assert!(config.source_dir.is_none());
    assert!(config.target_dir.is_none());
    assert_eq!(config.get_dest_dir("Sony A7 III"), Some("Sony-images"));
    assert!(config.get_dest_dir("Canon EOS R6").is_none());
}

#[test]
fn test_parse_both_sections() {
    let config = build(raw(
        Some("/mnt/sdcard"),
        None,
        None,
        &[("Nikon Z6", "Nikon-images"), ("Nikon Z8", "Nikon-Z8-images")],
    ));
    assert_eq!(config.source_dir, Some("/mnt/sdcard".to_string()));
    assert!(config.target_dir.is_none());
    assert_eq!(config.get_dest_dir("Nikon Z6 II"), Some("Nikon-images"));
    assert_eq!(config.get_dest_dir("Nikon Z8"), Some("Nikon-Z8-images"));
}

#[test]
fn test_parse_sections_any_order() {
    let config = build(raw(None, Some("/archive/photos"), None, &[("Fuji X-T5", "Fuji-images")]));
    assert!(config.source_dir.is_none());
    assert_eq!(config.target_dir, Some("/archive/photos".to_string()));
    assert_eq!(config.get_dest_dir("Fuji X-T5"), Some("Fuji-images"));
}

#[test]
fn test_parse_cameras_sorted_by_length() {
    let config = build(raw(None, None, None, &[("R6", "short-match"), ("EOS R6", "long-match")]));
    assert_eq!(config.get_dest_dir("Canon EOS R6"), Some("long-match"));
}

#[test]
fn test_parse_config_rejects_unsafe_paths() {
    let config = build(raw(
        None,
        None,
        None,
        &[("Safe", "safe-dir"), ("Unsafe1", "/abs/path"), ("Unsafe2", "../parent"), ("Unsafe3", "a/../../b")],
    ));
    assert!(config.get_dest_dir("Safe").is_some());
    assert!(config.get_dest_dir("Unsafe1").is_none());
    assert!(config.get_dest_dir("Unsafe2").is_none());
    assert!(config.get_dest_dir("Unsafe3").is_none());
}

#[test]
fn test_is_safe_path() {
    assert!(is_safe_path("simple"));
    assert!(is_safe_path("nested/dir"));
    assert!(is_safe_path("with spaces"));
    assert!(is_safe_path("."));

    assert!(!is_safe_path("/absolute"));
    assert!(!is_safe_path("/"));
    assert!(!is_safe_path("../parent"));
    assert!(!is_safe_path("nested/../parent"));
    assert!(!is_safe_path(".."));
}

#[test]
fn test_validate_template_valid() {
    assert_eq!(validate_template("{camera}/{year}".to_string()), Some("{camera}/{year}".to_string()));
    assert_eq!(validate_template("{year}/{month}/{day}".to_string()), Some("{year}/{month}/{day}".to_string()));
}

#[test]
fn test_validate_template_unsafe_traversal() {
    assert_eq!(validate_template("../{camera}".to_string()), None);
    assert_eq!(validate_template("{camera}/../escape".to_string()), None);
    assert_eq!(validate_template("foo/..".to_string()), None);
    assert_eq!(validate_template(r"..\{camera}".to_string()), None);
    assert_eq!(validate_template(r"{camera}\..\escape".to_string()), None);
}

#[test]
fn test_parse_config_rejects_unsafe_template() {
    let config = build(raw(None, None, Some("../escape/{camera}"), &[]));
    assert!(config.dest_template.is_none());
}

#[test]
fn test_expand_path_no_variables() {
    let path = "/some/path/without/variables".to_string();
    assert_eq!(expand_path(path.clone()), path);
}

#[test]
fn test_expand_path_home() {
    let home = dirs::home_dir().unwrap();
    assert_eq!(PathBuf::from(expand_path("$HOME/Pictures".to_string())), home.join("Pictures"));
    assert_eq!(PathBuf::from(expand_path("${HOME}/Photos".to_string())), home.join("Photos"));
}

#[test]
fn test_expand_path_xdg_pictures_dir() {
    if let Some(pictures) = dirs::picture_dir() {
        assert_eq!(PathBuf::from(expand_path("$XDG_PICTURES_DIR".to_string())), pictures.clone());
        assert_eq!(
            PathBuf::from(expand_path("${XDG_PICTURES_DIR}/archive".to_string())),
            pictures.join("archive")
        );
    }
}

#[test]
fn test_expand_path_combined() {
    let home = dirs::home_dir().unwrap();
    let home_str = home.to_string_lossy();
    assert_eq!(
        PathBuf::from(expand_path("${HOME}backup".to_string())),
        PathBuf::from(format!("{}backup", home_str))
    );
}

#[test]
fn test_parse_config_expands_dirs() {
    let home = dirs::home_dir().unwrap();
    let home_text = Some(home.to_string_lossy().into_owned());
    let config = build_config_with(raw(Some("$HOME/media"), Some("${HOME}/Pictures"), None, &[]), &home_text, &None);
    assert_eq!(config.source_dir.map(PathBuf::from), Some(home.join("media")));
    assert_eq!(config.target_dir.map(PathBuf::from), Some(home.join("Pictures")));
}

#[test]
fn expand_path_with_given_directories() {
    let home = Some("/home/ann".to_string());
    let pics = Some("/home/ann/Bilder".to_string());
    assert_eq!(expand_path_with("$HOME/x".to_string(), &home, &pics), "/home/ann/x");
    assert_eq!(expand_path_with("${XDG_PICTURES_DIR}/y".to_string(), &home, &pics), "/home/ann/Bilder/y");
    assert_eq!(expand_path_with("$HOMEWORK".to_string(), &home, &pics), "/home/annWORK");
    assert_eq!(expand_path_with("$OTHER/z".to_string(), &home, &pics), "$OTHER/z");
    assert_eq!(expand_path_with("$HOME/x".to_string(), &None, &None), "$HOME/x");
}

#[test]
fn camera_dirs_sorted_longest_first_then_by_key() {
    let mut dirs = vec![
        ("B".to_string(), "1".to_string()),
        ("EOS R6".to_string(), "2".to_string()),
        ("A".to_string(), "3".to_string()),
        ("R6".to_string(), "4".to_string()),
    ];
    sort_camera_dirs(&mut dirs);
    let keys: Vec<&str> = dirs.iter().map(|(k, _)| k.as_str()).collect();
    assert_eq!(keys, vec!["EOS R6", "R6", "A", "B"]);
}

#[test]
fn warnings_for_dropped_entries() {
    let r = raw(None, None, Some("../t"), &[("Good", "ok"), ("Bad", "/abs")]);
    let w = config_warnings(&r);
    assert_eq!(
        w,
        vec![
            "Warning: Camera directory mapping 'Bad' -> '/abs' is unsafe (absolute or contains '..'). Skipping."
                .to_string(),
            "Warning: Template '../t' contains unsafe '..' path traversal. Ignoring.".to_string(),
        ]
    );
    assert!(config_warnings(&raw(None, None, Some("{year}"), &[("Good", "ok")])).is_empty());
}

#[test]
fn cli_template_overrides_only_when_safe() {
    let mut config = Config::default();
    config.dest_template = Some("{year}".to_string());
    config.effective_template(Some("../x".to_string()));
    assert_eq!(config.dest_template, Some("{year}".to_string()));
    config.effective_template(Some("{camera}".to_string()));
    assert_eq!(config.dest_template, Some("{camera}".to_string()));
    config.effective_template(None);
    assert_eq!(config.dest_template, Some("{camera}".to_string()));
}

#[test]
fn directories_resolve_in_priority_order() {
    let mut config = Config::default();
    let cli = "/cli".to_string();
    assert_eq!(config.source_dir(Some(&cli), None), Ok("/cli".to_string()));
    assert_eq!(config.source_dir(None, Some("ann".to_string())), Ok("/media/ann".to_string()));
    assert_eq!(config.source_dir(None, None), Err(DirError::UserNotSet));
    config.source_dir = Some("/cfg".to_string());
    assert_eq!(config.source_dir(None, None), Ok("/cfg".to_string()));
    config.target_dir = Some("/t".to_string());
    assert_eq!(config.target_dir(None), Ok("/t".to_string()));
    assert_eq!(config.target_dir(Some(&cli)), Ok("/cli".to_string()));
    assert_eq!(
        Config::resolve_dir(None, &None, Err(DirError::NoPicturesDir)),
        Err(DirError::NoPicturesDir)
    );
}

#[test]
fn default_target_is_pictures_directory() {
    let config = Config::default();
    match dirs::picture_dir() {
        Some(p) => assert_eq!(config.target_dir(None).map(PathBuf::from), Ok(p)),
        None => assert_eq!(config.target_dir(None), Err(DirError::NoPicturesDir)),
    }
}

#[test]
fn config_file_location() {
    if let Some(c) = dirs::config_dir() {
        assert_eq!(config_path().map(PathBuf::from), Some(c.join("photosync/photosync.toml")));
    }
}

#[test]
fn starter_config_lists_both_sections() {
    let t = generate_config_template();
    assert!(t.starts_with("# Photosync Configuration\n"));
    assert!(t.contains("[dirs]\n"));
    assert!(t.contains("[cameras]\n"));
    assert!(t.contains("# \"EOS R6\" = \"Canon-R6\"\n"));
}

#[test]
fn target_defaults_to_given_pictures_directory() {
    let mut config = Config::default();
    let cli = "/cli".to_string();
    assert_eq!(config.target_dir_with(None, Some("/home/a/Pictures".to_string())), Ok("/home/a/Pictures".to_string()));
    assert_eq!(config.target_dir_with(None, None), Err(DirError::NoPicturesDir));
    assert_eq!(config.target_dir_with(Some(&cli), None), Ok("/cli".to_string()));
    config.target_dir = Some("/cfg".to_string());
    assert_eq!(config.target_dir_with(None, Some("/p".to_string())), Ok("/cfg".to_string()));
}

#[test]
fn starter_config_matches_the_documented_file() {
    let expected = "# Photosync Configuration
# Docs: https://github.com/rolandd/photosync#configuration

[dirs]
# source = \"/media/your_username\"   # Where to scan for photos
# target = \"$XDG_PICTURES_DIR\"       # Where to copy photos
# template = \"{camera}/{year}/{month}/{day}\"  # Directory structure
#
# Supported variables (use $VAR or ${VAR} syntax):
#   $HOME             - Your home directory
#   $XDG_PICTURES_DIR - Your Pictures directory (e.g., ~/Pictures)

[cameras]
# Map camera model substrings to folder names.
# The tool matches the longest substring first.
# Examples:
# \"EOS R6\" = \"Canon-R6\"
# \"Sony A7\" = \"Sony-A7\"
# \"iPhone\" = \"iPhone\"
# \"Pixel\" = \"Pixel\"
";
    assert_eq!(generate_config_template(), expected);
    for line in expected.lines() {
        assert!(line.is_empty() || line == "[dirs]" || line == "[cameras]" || line.starts_with('#'));
    }
}
