use lynxocr::desktop::{
    check_active_model, check_downloadable_model, check_page_index, corrected_dict_content,
    decode_base64_content, is_mineru, model_downloaded_message, navigation_decision, needs_resize,
    should_show_toast, NavigationDecision,
};
use lynxocr::screen::{capture_offsets, monitors_bounding_box, MonitorRect};

#[test]
fn bounding_box_of_monitors() {
    let ms = vec![
        MonitorRect { x: 0, y: 0, width: 1920, height: 1080 },
        MonitorRect { x: -1280, y: 200, width: 1280, height: 1024 },
        MonitorRect { x: 1920, y: -100, width: 2560, height: 1440 },
    ];
    let b = monitors_bounding_box(&ms).unwrap();
    assert_eq!((b.min_x, b.min_y, b.max_x, b.max_y), (-1280, -100, 4480, 1340));
    assert_eq!((b.width, b.height), (5760, 1440));
    assert_eq!(capture_offsets(&ms, b), vec![(1280, 100), (0, 300), (3200, 0)]);
    assert_eq!(monitors_bounding_box(&vec![]).unwrap_err(), "No monitors found");
}

#[test]
fn model_selection_rules() {
    assert!(check_active_model("mineru").is_ok());
    assert!(check_active_model("ppocr-v4").is_ok());
    assert_eq!(check_active_model("tesseract").unwrap_err(), "Unknown OCR model: tesseract");
    assert!(check_downloadable_model("ppocr-v5").is_ok());
    assert_eq!(check_downloadable_model("mineru").unwrap_err(), "Unknown model: mineru");
    assert_eq!(model_downloaded_message("ppocr-v5"), "Model ppocr-v5 downloaded");
    assert!(is_mineru("mineru"));
    assert!(!is_mineru("MinerU"));
}

#[test]
fn pages_toasts_and_resizing() {
    assert_eq!(check_page_index(2, 3).unwrap(), 2);
    assert_eq!(check_page_index(3, 3).unwrap_err(), "Page index 3 out of range (total: 3)");
    assert_eq!(check_page_index(65537, 3).unwrap(), 1);
    assert!(should_show_toast(false, "text"));
    assert!(!should_show_toast(true, "text"));
    assert!(!should_show_toast(false, ""));
    assert!(needs_resize(800, 600));
    assert!(!needs_resize(1280, 720));
    assert!(!needs_resize(960, 10));
    assert!(!needs_resize(1920, 1920));
    assert!(needs_resize(1921, 10));
}

#[test]
fn dictionary_and_base64_files() {
    assert_eq!(corrected_dict_content("a\nb\n"), "#\na\nb\n \n");
    assert_eq!(corrected_dict_content("a\nb"), "#\na\nb\n \n");
    assert_eq!(corrected_dict_content(""), "#\n\n \n");
    assert_eq!(decode_base64_content("AAEC").unwrap(), vec![0, 1, 2]);
    assert!(decode_base64_content(" AAEC").unwrap_err().starts_with("Failed to decode base64: "));
}

#[test]
fn navigation_stays_inside_or_opens_outside() {
    assert_eq!(navigation_decision("tauri", Some("localhost")), NavigationDecision::Allow);
    assert_eq!(navigation_decision("http", Some("127.0.0.1")), NavigationDecision::Allow);
    assert_eq!(navigation_decision("https", Some("example.com")), NavigationDecision::OpenExternally);
    assert_eq!(navigation_decision("mailto", None), NavigationDecision::OpenExternally);
    assert_eq!(navigation_decision("file", None), NavigationDecision::Allow);
}
