use base64::Engine;
use lynxocr::api::{
    body_limit_bytes, check_auth, check_image_content_type, check_image_data, choose_model,
    health_response, image_from_base64, image_from_download, info_response, invalid_json_error,
    join_strings, model_check, multipart_image, parse_base64_image, read_json_request, read_multipart_request,
    select_image_source, validate_model, validate_model_name, ApiError, ImageSource,
    OcrJsonRequest,
};
use lynxocr::multipart::{extract_boundary, is_multipart_form, parse_multipart_body};

fn code_of(e: &ApiError) -> &str {
    e.body.error.code.as_str()
}

fn message_of(e: &ApiError) -> &str {
    e.body.error.message.as_str()
}

#[test]
fn auth_passes_without_key_or_with_exact_bearer() {
    assert!(check_auth(None, "").is_ok());
    assert!(check_auth(Some("anything"), "").is_ok());
    assert!(check_auth(Some("Bearer s3cret"), "s3cret").is_ok());
    let e = check_auth(Some("Bearer wrong"), "s3cret").unwrap_err();
    assert_eq!(e.status, 401);
    assert!(!e.body.success);
    assert_eq!(code_of(&e), "UNAUTHORIZED");
    assert_eq!(message_of(&e), "Invalid or missing API key");
    assert!(check_auth(None, "s3cret").is_err());
    assert!(check_auth(Some("bearer s3cret"), "s3cret").is_err());
}

#[test]
fn model_names_are_validated() {
    assert!(validate_model_name("ppocr-v4").is_ok());
    assert!(validate_model_name("ppocr-v6").is_ok());
    let e = validate_model_name("ppocr-v7").unwrap_err();
    assert_eq!(e.status, 400);
    assert_eq!(code_of(&e), "INVALID_MODEL");
    assert_eq!(
        message_of(&e),
        "Unknown model: ppocr-v7. Must be one of: ppocr-v4, ppocr-v5, ppocr-v6"
    );
    let e = model_check("ppocr-v5", false).unwrap_err();
    assert_eq!(code_of(&e), "MODEL_NOT_INSTALLED");
    assert_eq!(
        message_of(&e),
        "OCR model ppocr-v5 is not installed. Please download it from Model Settings."
    );
    assert!(model_check("ppocr-v5", true).is_ok());
    assert_eq!(code_of(&model_check("mineru", true).unwrap_err()), "INVALID_MODEL");
}

#[test]
fn validate_model_refuses_models_missing_on_disk() {
    let e = validate_model("/nonexistent/lynxocr/models", "ppocr-v6").unwrap_err();
    assert_eq!(code_of(&e), "MODEL_NOT_INSTALLED");
    let e = validate_model("/nonexistent/lynxocr/models", "other").unwrap_err();
    assert_eq!(code_of(&e), "INVALID_MODEL");
}

#[test]
fn base64_images_plain_and_data_uri() {
    assert_eq!(parse_base64_image("aGVsbG8=").unwrap(), b"hello".to_vec());
    assert_eq!(parse_base64_image("data:image/png;base64,aGVsbG8=").unwrap(), b"hello".to_vec());
    assert_eq!(parse_base64_image("  aGVs\nbG8=\r\n ").unwrap(), b"hello".to_vec());
    assert_eq!(
        parse_base64_image("data:image/png,aGVsbG8=").unwrap_err(),
        "Invalid data URI: missing base64 indicator"
    );
    let err = parse_base64_image("not base64!").unwrap_err();
    assert!(err.starts_with("Failed to decode base64: "));
    assert!(err.len() > "Failed to decode base64: ".len());
}

#[test]
fn json_requests_pick_url_before_base64() {
    let mut req = OcrJsonRequest {
        image: Some("aGVsbG8=".to_string()),
        url: Some("https://example.com/a.png".to_string()),
        model: None,
        format: None,
        mineru_mode: None,
    };
    match select_image_source(&req).ok().unwrap() {
        ImageSource::Url(u) => assert_eq!(u, "https://example.com/a.png"),
        ImageSource::Base64(_) => panic!("expected url"),
    }
    req.url = None;
    match select_image_source(&req).ok().unwrap() {
        ImageSource::Base64(b) => assert_eq!(b, "aGVsbG8="),
        ImageSource::Url(_) => panic!("expected base64"),
    }
    req.image = None;
    let e = select_image_source(&req).err().unwrap();
    assert_eq!(code_of(&e), "NO_IMAGE");
    assert_eq!(
        message_of(&e),
        "Either 'image' (base64) or 'url' (image URL) must be provided"
    );
}

#[test]
fn request_errors_carry_codes_and_messages() {
    let e = invalid_json_error("expected value at line 1 column 1");
    assert_eq!(e.status, 400);
    assert_eq!(code_of(&e), "INVALID_IMAGE");
    assert_eq!(message_of(&e), "Invalid JSON: expected value at line 1 column 1");
    let e = image_from_download(Err("timeout".to_string())).unwrap_err();
    assert_eq!(message_of(&e), "Failed to download image from URL: timeout");
    assert_eq!(image_from_download(Ok(vec![1, 2])).unwrap(), vec![1, 2]);
    assert_eq!(image_from_base64("aGk=").unwrap(), b"hi".to_vec());
    assert_eq!(code_of(&image_from_base64("@@").unwrap_err()), "INVALID_IMAGE");
    assert_eq!(code_of(&multipart_image(None).unwrap_err()), "NO_IMAGE");
    assert_eq!(message_of(&multipart_image(Some(vec![])).unwrap_err()), "No image file provided");
    assert_eq!(multipart_image(Some(vec![7])).unwrap(), vec![7]);
}

#[test]
fn model_choice_prefers_the_request() {
    assert_eq!(choose_model(Some("ppocr-v4".into()), "ppocr-v6".into()), "ppocr-v4");
    assert_eq!(choose_model(None, "ppocr-v6".into()), "ppocr-v6");
}

#[test]
fn responses_and_limits() {
    let h = health_response(true, "ppocr-v6".into(), "1.1.0".into());
    assert_eq!(h.status, "ok");
    assert!(h.model_loaded);
    assert_eq!(h.active_model, "ppocr-v6");
    let i = info_response("1.1.0".into(), "ppocr-v5".into(), 20);
    assert_eq!(i.name, "LynxOCR API");
    assert_eq!(i.engine, "PaddleOCR ONNX");
    assert_eq!(i.available_models, vec!["ppocr-v4", "ppocr-v5", "ppocr-v6"]);
    assert_eq!(i.max_file_size_mb, 20);
    assert_eq!(body_limit_bytes(20), 20 * 1024 * 1024);
    assert_eq!(join_strings(&vec!["a".into(), "b".into(), "c".into()], " "), "a b c");
    assert_eq!(join_strings(&vec![], " "), "");
}

#[test]
fn downloaded_images_are_checked() {
    assert!(check_image_content_type("image/png").is_ok());
    assert!(check_image_content_type("").is_ok());
    assert_eq!(
        check_image_content_type("text/html").unwrap_err(),
        "URL does not point to an image (Content-Type: text/html)"
    );
    assert_eq!(check_image_data(vec![]).unwrap_err(), "Downloaded image is empty");
    assert_eq!(check_image_data(vec![1]).unwrap(), vec![1]);
}

fn multipart_body(boundary: &str, parts: &[(&str, &[u8])]) -> Vec<u8> {
    let mut body = Vec::new();
    for (name, content) in parts {
        body.extend_from_slice(format!("--{boundary}\r\n").as_bytes());
        body.extend_from_slice(
            format!("Content-Disposition: form-data; name=\"{name}\"; filename=\"f\"\r\n").as_bytes(),
        );
        body.extend_from_slice(b"Content-Type: application/octet-stream\r\n\r\n");
        body.extend_from_slice(content);
        body.extend_from_slice(b"\r\n");
    }
    body.extend_from_slice(format!("--{boundary}--\r\n").as_bytes());
    body
}

#[test]
fn multipart_boundary_and_content_type() {
    assert!(is_multipart_form("multipart/form-data; boundary=abc"));
    assert!(!is_multipart_form("application/json"));
    assert_eq!(extract_boundary("multipart/form-data; boundary=abc123"), "abc123");
    assert_eq!(extract_boundary("multipart/form-data;charset=utf-8;  boundary=x-y "), "x-y");
    assert_eq!(extract_boundary("multipart/form-data; boundary=boundary=z"), "z");
    assert_eq!(extract_boundary("multipart/form-data"), "");
}

#[test]
fn multipart_reads_binary_image_and_model() {
    let image: &[u8] = &[0x89, b'P', b'N', b'G', 0x00, 0xff, b'\r', 0x10];
    let body = multipart_body("XyZ", &[("model", b" ppocr-v5 \n"), ("image", image)]);
    let fields = parse_multipart_body(&body, "XyZ").unwrap();
    assert_eq!(fields.image.unwrap(), image.to_vec());
    assert_eq!(fields.model.unwrap(), "ppocr-v5");
}

#[test]
fn multipart_image_loses_one_trailing_line_ending() {
    let body = multipart_body("b", &[("image", b"abc\n\n")]);
    let fields = parse_multipart_body(&body, "b").unwrap();
    assert_eq!(fields.image.unwrap(), b"abc\n".to_vec());
    assert!(fields.model.is_none());
    let body = multipart_body("b", &[("image", b"abc\r\n\r\n")]);
    assert_eq!(parse_multipart_body(&body, "b").unwrap().image.unwrap(), b"abc\r\n".to_vec());
    let body = multipart_body("b", &[("image", &[0x89, 0x00, 0x0d])]);
    assert_eq!(parse_multipart_body(&body, "b").unwrap().image.unwrap(), vec![0x89, 0x00, 0x0d]);
}

#[test]
fn multipart_ignores_other_fields_and_invalid_model_text() {
    let body = multipart_body("b", &[("other", b"x"), ("model", &[0xff, 0xfe])]);
    let fields = parse_multipart_body(&body, "b").unwrap();
    assert!(fields.image.is_none());
    assert!(fields.model.is_none());
}

#[test]
fn multipart_rejects_markers_too_close_together() {
    assert!(parse_multipart_body(b"--bX--b", "b").is_none());
    assert!(parse_multipart_body(b"--b\r\n--b\r\n", "b").is_none());
    assert!(parse_multipart_body(b"no marker here", "b").unwrap().image.is_none());
}

#[test]
fn multipart_request_end_to_end() {
    let body = multipart_body("BND", &[("image", b"IMG")]);
    let (image, model) =
        read_multipart_request("multipart/form-data; boundary=BND", &body, "ppocr-v6".into())
            .unwrap()
            .ok()
            .unwrap();
    assert_eq!(image, b"IMG".to_vec());
    assert_eq!(model, "ppocr-v6");
    let e = read_multipart_request("multipart/form-data", &body, "ppocr-v6".into())
        .unwrap()
        .err()
        .unwrap();
    assert_eq!(message_of(&e), "Missing multipart boundary");
    let body = multipart_body("BND", &[("model", b"ppocr-v4")]);
    let e = read_multipart_request("multipart/form-data; boundary=BND", &body, "x".into())
        .unwrap()
        .err()
        .unwrap();
    assert_eq!(message_of(&e), "No image file provided");
}

#[test]
fn encoded_images_read_back_with_white_space_and_data_uris() {
    let data: Vec<u8> = vec![0, 1, 2, 250, 255, 0x89, 0x50];
    let e = base64::engine::general_purpose::STANDARD.encode(&data);
    let (before, after) = e.split_at(4);
    let spaced = format!("{before} \n\t {after}");
    assert_eq!(parse_base64_image(&e).unwrap(), data);
    assert_eq!(parse_base64_image(&spaced).unwrap(), data);
    assert_eq!(parse_base64_image(&format!("data:image/png;base64,{spaced}")).unwrap(), data);
}

#[test]
fn json_requests_take_the_url_first_and_default_the_model() {
    let req = OcrJsonRequest {
        image: Some("aGVsbG8=".to_string()),
        url: Some("https://example.com/a.png".to_string()),
        model: None,
        format: None,
        mineru_mode: None,
    };
    let (image, model) =
        read_json_request(&req, Some(Ok(b"PNG".to_vec())), "ppocr-v6".to_string()).unwrap();
    assert_eq!(image, b"PNG".to_vec());
    assert_eq!(model, "ppocr-v6");
    let e = read_json_request(&req, Some(Err("timeout".to_string())), "ppocr-v6".to_string())
        .unwrap_err();
    assert_eq!(e.body.error.code, "INVALID_IMAGE");
    assert_eq!(e.body.error.message, "Failed to download image from URL: timeout");
    let req = OcrJsonRequest { url: None, model: Some("ppocr-v4".to_string()), ..req };
    let (image, model) = read_json_request(&req, None, "ppocr-v6".to_string()).unwrap();
    assert_eq!(image, b"hello".to_vec());
    assert_eq!(model, "ppocr-v4");
    let req = OcrJsonRequest { image: None, ..req };
    let e = read_json_request(&req, None, "ppocr-v6".to_string()).unwrap_err();
    assert_eq!(e.body.error.code, "NO_IMAGE");
}
