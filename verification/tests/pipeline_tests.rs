use std::path::PathBuf;

use photosync::config::Config;
use photosync::date::Date;
use photosync::pipeline::{compute_dest_dir, DestDirResult};

fn oct25() -> Date {
    Date::from_ymd_opt(2023, 10, 25).unwrap()
}

#[test]
fn test_compute_dest_dir_default() {
    let mut config = Config::default();
    config.camera_dirs = vec![("Model".to_string(), "CameraDir".to_string())];

    let target = PathBuf::from("/target");
    let DestDirResult::Dir(dest) = compute_dest_dir("/target", &config, "Model", &oct25()) else {
        panic!("Expected DestDirResult::Ok");
    };
    assert_eq!(PathBuf::from(dest), target.join("CameraDir").join("2023").join("10").join("25"));
}

#[test]
fn test_compute_dest_dir_custom_template() {
    let mut config = Config::default();
    config.camera_dirs = vec![("Model".to_string(), "CameraDir".to_string())];
    config.dest_template = Some("{year}-{month}/{camera}".to_string());

    let target = PathBuf::from("/target");
    let DestDirResult::Dir(dest) = compute_dest_dir("/target", &config, "Model", &oct25()) else {
        panic!("Expected DestDirResult::Ok");
    };
    assert_eq!(PathBuf::from(dest), target.join("2023-10").join("CameraDir"));
}

#[test]
fn test_compute_dest_dir_unknown_camera() {
    let config = Config::default();
    assert!(matches!(compute_dest_dir("/target", &config, "Unknown", &oct25()), DestDirResult::UnknownCamera));
}

#[test]
fn test_compute_dest_dir_malformed_template() {
    let mut config = Config::default();
    config.camera_dirs = vec![("Model".to_string(), "CameraDir".to_string())];
    config.dest_template = Some("{camera}/{year}/{unknown_tag}".to_string());
    assert!(matches!(compute_dest_dir("/target", &config, "Model", &oct25()), DestDirResult::TemplateError(_)));
}

#[test]
fn test_compute_dest_dir_unsafe_path() {
    let mut config = Config::default();
    config.camera_dirs = vec![("Model".to_string(), "CameraDir".to_string())];
    config.dest_template = Some("../{camera}".to_string());
    assert!(matches!(compute_dest_dir("/target", &config, "Model", &oct25()), DestDirResult::TemplateError(_)));
}

#[test]
fn test_compute_dest_dir_no_camera_in_template() {
    let mut config = Config::default();
    config.dest_template = Some("{year}/{month}/{day}".to_string());

    let target = PathBuf::from("/target");
    let DestDirResult::Dir(dest) = compute_dest_dir("/target", &config, "Any Camera", &oct25()) else {
        panic!("Expected DestDirResult::Ok");
    };
    assert_eq!(PathBuf::from(dest), target.join("2023").join("10").join("25"));
}

#[test]
fn test_compute_dest_dir_nested_camera_path() {
    let mut config = Config::default();
    config.camera_dirs = vec![("Model".to_string(), "Canon/EOS/R6".to_string())];

    let target = PathBuf::from("/target");
    let DestDirResult::Dir(dest) = compute_dest_dir("/target", &config, "Model", &oct25()) else {
        panic!("Expected DestDirResult::Ok");
    };
    assert_eq!(
        PathBuf::from(dest),
        target.join("Canon").join("EOS").join("R6").join("2023").join("10").join("25")
    );
}

#[test]
fn dest_dir_messages_name_the_problem() {
    let mut config = Config::default();
    config.camera_dirs = vec![("Model".to_string(), "Cam".to_string())];
    config.dest_template = Some("{camera}/{year}/{bad}".to_string());
    assert_eq!(
        compute_dest_dir("/t", &config, "Model", &oct25()),
        DestDirResult::TemplateError(
            "Malformed template or unknown tag in '{camera}/{year}/{bad}'. Result: 'Cam/2023/{bad}'".to_string()
        )
    );
    config.dest_template = Some("{year}/../x".to_string());
    assert_eq!(
        compute_dest_dir("/t", &config, "Model", &oct25()),
        DestDirResult::TemplateError("Template resulted in '..' component, which is unsafe. Path: '2023/../x'".to_string())
    );
}

#[test]
fn dest_dir_skips_empty_and_dot_components() {
    let mut config = Config::default();
    config.dest_template = Some("./{year}//{day}/".to_string());
    assert_eq!(compute_dest_dir("/t/", &config, "M", &oct25()), DestDirResult::Dir("/t/2023/25".to_string()));
}

#[test]
fn dates_render_with_padding_and_sign() {
    let d = Date::from_ymd_opt(7, 3, 4).unwrap();
    assert_eq!(d.year_text(), "0007");
    assert_eq!(d.month_text(), "03");
    assert_eq!(d.day_text(), "04");
    let far = Date::from_ymd_opt(12345, 1, 1).unwrap();
    assert_eq!(far.year_text(), "+12345");
    let past = Date::from_ymd_opt(-44, 3, 15).unwrap();
    assert_eq!(past.year_text(), "-0044");
    assert!(Date::from_ymd_opt(2023, 2, 29).is_none());
    assert!(Date::from_ymd_opt(2024, 2, 29).is_some());
    assert!(Date::from_ymd_opt(1900, 2, 29).is_none());
    assert!(Date::from_ymd_opt(2000, 2, 29).is_some());
    assert!(Date::from_ymd_opt(2023, 13, 1).is_none());
}
