use lynxocr::config::{
    default_active_ocr_model, default_model_download_urls, default_ocr_screenshot_shortcut,
    effective_shortcut, AppConfig,
};
use lynxocr::model::{
    expand_url_templates, extract_model_files, files_installed, http_success, is_model_file, is_ppocr_installed_at,
    mirrors_failed_message, model_file_paths, next_download_step, DownloadStep, ModelManager,
};
use std::io::{Cursor, Write};

fn zip_of(entries: &[(&str, &[u8])], dirs: &[&str]) -> Vec<u8> {
    let mut w = zip::ZipWriter::new(Cursor::new(Vec::new()));
    let opts = zip::write::SimpleFileOptions::default();
    for d in dirs {
        w.add_directory(*d, opts).unwrap();
    }
    for (name, data) in entries {
        w.start_file(*name, opts).unwrap();
        w.write_all(data).unwrap();
    }
    w.finish().unwrap().into_inner()
}

#[test]
fn config_defaults() {
    assert_eq!(default_ocr_screenshot_shortcut(), "Ctrl+Shift+O");
    assert_eq!(default_active_ocr_model(), "ppocr-v6");
    assert_eq!(
        default_model_download_urls(),
        vec![
            "https://gitcode.com/tabortao/LynxOCR/releases/download/model/{model}.zip",
            "https://gitee.com/tabortao/LynxOCR/releases/download/model/{model}.zip",
            "https://code2tabor.s3.bitiful.net/PPOCR/{model}.zip",
        ]
    );
    let c = AppConfig::with_model_path("/data/models".to_string());
    assert_eq!(c.model_path, "/data/models");
    assert_eq!(c.active_ocr_model, "ppocr-v6");
    assert!(!c.sidebar_collapsed);
    assert_eq!(c.ocr_screenshot_shortcut, "Ctrl+Shift+O");
    assert_eq!(c.model_download_urls.len(), 3);
    let d = AppConfig::default_in("/home/u/.local/share/LynxOCR");
    assert!(d.model_path.ends_with("models"));
    assert_eq!(effective_shortcut(""), "Ctrl+Shift+O");
    assert_eq!(effective_shortcut("Alt+Q"), "Alt+Q");
}

#[test]
fn url_templates_expand_every_placeholder() {
    let urls = expand_url_templates(
        &vec![
            "https://a/{model}.zip".to_string(),
            "https://b/{model}/{model}.zip".to_string(),
            "https://c/fixed.zip".to_string(),
            "https://d/{mode}{model}".to_string(),
        ],
        "ppocr-v6",
    );
    assert_eq!(
        urls,
        vec![
            "https://a/ppocr-v6.zip",
            "https://b/ppocr-v6/ppocr-v6.zip",
            "https://c/fixed.zip",
            "https://d/{mode}ppocr-v6",
        ]
    );
}

#[test]
fn model_files_and_statuses() {
    assert!(is_model_file("detection.onnx"));
    assert!(is_model_file("recognition.onnx"));
    assert!(is_model_file("cls.onnx"));
    assert!(is_model_file("dict.txt"));
    assert!(!is_model_file("README.md"));
    assert!(http_success(200));
    assert!(http_success(299));
    assert!(!http_success(199));
    assert!(!http_success(404));
    assert_eq!(
        mirrors_failed_message("HTTP 404"),
        "All download mirrors failed. Last error: HTTP 404. Please check your network connection."
    );
}

#[test]
fn listing_models_of_an_empty_directory() {
    let manager = ModelManager::new("/nonexistent/lynxocr/models".to_string());
    let models = manager.list_models();
    let names: Vec<&str> = models.iter().map(|m| m.name.as_str()).collect();
    assert_eq!(names, vec!["ppocr-v4", "ppocr-v5", "ppocr-v6"]);
    assert_eq!(models[0].display_name, "PaddleOCR V4");
    assert_eq!(models[2].display_name, "PaddleOCR V6");
    for m in &models {
        assert_eq!(m.size, "~20MB");
        assert!(!m.installed);
        assert!(m.path.is_none());
    }
    assert!(!is_ppocr_installed_at("/nonexistent/lynxocr/models/ppocr-v6"));
}

#[test]
fn model_archive_keeps_only_model_files() {
    let archive = zip_of(
        &[
            ("ppocr-v6/detection.onnx", b"DET"),
            ("ppocr-v6/readme.txt", b"README"),
            ("ppocr-v6/recognition.onnx", b"REC"),
            ("dict.txt", b"a\nb\n"),
        ],
        &["ppocr-v6/"],
    );
    let files = extract_model_files(archive).unwrap();
    let got: Vec<(String, Vec<u8>)> = files;
    assert_eq!(
        got,
        vec![
            ("detection.onnx".to_string(), b"DET".to_vec()),
            ("recognition.onnx".to_string(), b"REC".to_vec()),
            ("dict.txt".to_string(), b"a\nb\n".to_vec()),
        ]
    );
}

#[test]
fn mirrors_are_tried_in_order_until_one_works() {
    let urls = vec!["https://a/x.zip".to_string(), "https://b/x.zip".to_string()];
    assert!(matches!(next_download_step(&urls, 0, None), DownloadStep::Download(u) if u == "https://a/x.zip"));
    assert!(matches!(
        next_download_step(&urls, 1, Some(Err("timeout".to_string()))),
        DownloadStep::Download(u) if u == "https://b/x.zip"
    ));
    assert!(matches!(next_download_step(&urls, 1, Some(Ok(()))), DownloadStep::Extract));
    match next_download_step(&urls, 2, Some(Err("HTTP 404".to_string()))) {
        DownloadStep::Fail(m) => assert_eq!(
            m,
            "All download mirrors failed. Last error: HTTP 404. Please check your network connection."
        ),
        other => panic!("unexpected step {:?}", other),
    }
    assert!(matches!(next_download_step(&Vec::new(), 0, None), DownloadStep::Extract));
}

#[test]
fn model_files_keep_their_entries_bytes_in_order() {
    let archive = zip_of(
        &[("a/cls.onnx", b"CLS1"), ("b/cls.onnx", b"CLS2"), ("a/dict.txt/..", b"X")],
        &[],
    );
    assert_eq!(
        extract_model_files(archive).unwrap(),
        vec![("cls.onnx".to_string(), b"CLS1".to_vec()), ("cls.onnx".to_string(), b"CLS2".to_vec())]
    );
}

#[test]
fn default_models_live_in_the_data_directory() {
    let d = AppConfig::default_in("/data/LynxOCR");
    assert_eq!(d.model_path, "/data/LynxOCR/models");
}

#[test]
fn empty_model_archive_gives_no_files() {
    assert_eq!(extract_model_files(zip_of(&[], &[])).unwrap(), Vec::<(String, Vec<u8>)>::new());
}

#[test]
fn model_paths_are_joined_onto_their_directories() {
    assert_eq!(ModelManager::new("/m".to_string()).model_dir("ppocr-v6"), "/m/ppocr-v6");
    let (det, rec, cls) = model_file_paths("/m/ppocr-v6");
    assert_eq!(det, "/m/ppocr-v6/detection.onnx");
    assert_eq!(rec, "/m/ppocr-v6/recognition.onnx");
    assert_eq!(cls, "/m/ppocr-v6/cls.onnx");
}

#[test]
fn config_file_lives_in_the_data_directory() {
    assert_eq!(AppConfig::config_file_path("/data/LynxOCR"), "/data/LynxOCR/config.json");
}

#[test]
fn model_archive_that_is_not_a_zip() {
    let err = extract_model_files(b"definitely not a zip".to_vec()).unwrap_err();
    assert!(err.starts_with("Read zip archive failed: "));
}

#[test]
fn installed_means_both_networks_are_present() {
    assert!(files_installed(true, true));
    assert!(!files_installed(true, false));
    assert!(!files_installed(false, true));
    assert!(!files_installed(false, false));
}
