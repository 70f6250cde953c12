use lynxocr::mineru::{
    batch_poll_step, check_download_status, check_flash_file_size, check_reply_status,
    check_upload_status, envelope_data, extract_format_from_zip, first_upload_url,
    flash_poll_step, target_extension, truncate_str, ApiEnvelope, BatchResponse,
    BatchResultData, BatchResultItem, FlashPollData, MineruClient, Payload, PollReply, PollStep,
};
use std::io::{Cursor, Write};

fn zip_of(entries: &[(&str, &[u8])]) -> Vec<u8> {
    let mut w = zip::ZipWriter::new(Cursor::new(Vec::new()));
    let opts = zip::write::SimpleFileOptions::default();
    for (name, data) in entries {
        w.start_file(*name, opts).unwrap();
        w.write_all(data).unwrap();
    }
    w.finish().unwrap().into_inner()
}

fn flash(state: &str, url: Option<&str>, code: Option<i32>, msg: Option<&str>) -> PollReply<FlashPollData> {
    PollReply::Received {
        status: 200,
        envelope: Ok(ApiEnvelope {
            code: 0,
            msg: None,
            data: Payload::Present(FlashPollData {
                state: state.to_string(),
                err_msg: msg.map(|m| m.to_string()),
                err_code: code,
                markdown_url: url.map(|u| u.to_string()),
            }),
        }),
    }
}

fn item(name: &str, state: &str, url: Option<&str>, msg: Option<&str>) -> BatchResultItem {
    BatchResultItem {
        file_name: name.to_string(),
        state: state.to_string(),
        err_msg: msg.map(|m| m.to_string()),
        full_zip_url: url.map(|u| u.to_string()),
    }
}

fn batch(items: Vec<BatchResultItem>) -> PollReply<BatchResultData> {
    PollReply::Received {
        status: 200,
        envelope: Ok(ApiEnvelope { code: 0, msg: None, data: Payload::Present(BatchResultData { extract_result: items }) }),
    }
}

fn ready(s: PollStep) -> Option<String> {
    match s {
        PollStep::Ready(u) => Some(u),
        _ => None,
    }
}

fn failed(s: PollStep) -> Option<String> {
    match s {
        PollStep::Fail(m) => Some(m),
        _ => None,
    }
}

fn keeps(s: &PollStep) -> bool {
    matches!(s, PollStep::KeepPolling)
}

#[test]
fn client_base_url_and_endpoints() {
    let c = MineruClient::new(String::new(), None);
    assert!(!c.has_token());
    assert_eq!(c.flash_submit_url(), "https://mineru.net/api/v1/agent/parse/file");
    let c = MineruClient::new("tok".into(), Some("https://example.org/mineru///".into()));
    assert!(c.has_token());
    assert_eq!(c.auth_header(), "Bearer tok");
    assert_eq!(c.batch_url(), "https://example.org/mineru/api/v4/file-urls/batch");
    assert_eq!(c.flash_poll_url("t1"), "https://example.org/mineru/api/v1/agent/parse/t1");
    assert_eq!(c.batch_poll_url("b9"), "https://example.org/mineru/api/v4/extract-results/batch/b9");
    let c = MineruClient::new(String::new(), Some(String::new()));
    assert_eq!(c.flash_submit_url(), "https://mineru.net/api/v1/agent/parse/file");
    assert_eq!(
        c.require_token().unwrap_err(),
        "MinerU extract requires an API token. Configure it in settings."
    );
}

#[test]
fn size_and_status_checks() {
    assert!(check_flash_file_size(10 * 1024 * 1024).is_ok());
    assert_eq!(
        check_flash_file_size(10 * 1024 * 1024 + 1).unwrap_err(),
        "Flash extract: file exceeds 10MB limit"
    );
    assert!(check_reply_status(201, "", "MinerU batch").is_ok());
    assert_eq!(
        check_reply_status(503, "busy", "MinerU flash submit").unwrap_err(),
        "MinerU flash submit HTTP 503: busy"
    );
    let long = "x".repeat(300);
    assert_eq!(
        check_reply_status(400, &long, "MinerU batch").unwrap_err(),
        format!("MinerU batch HTTP 400: {}", "x".repeat(200))
    );
    assert_eq!(check_upload_status(403, "MinerU file upload").unwrap_err(), "MinerU file upload HTTP 403");
    assert!(check_upload_status(200, "MinerU file upload").is_ok());
    assert_eq!(
        check_download_status(201, "MinerU download content").unwrap_err(),
        "MinerU download content HTTP 201"
    );
    assert_eq!(truncate_str("héllo", 3), "hé");
    assert_eq!(truncate_str("abc", 10), "abc");
}

#[test]
fn reply_envelopes() {
    let ok: Result<ApiEnvelope<u8>, String> = Ok(ApiEnvelope { code: 0, msg: None, data: Payload::Present(7) });
    assert_eq!(envelope_data(ok, "MinerU flash", "parse submit data").unwrap(), 7);
    let bad: Result<ApiEnvelope<u8>, String> = Err("eof".into());
    assert_eq!(envelope_data(bad, "MinerU flash", "parse submit data").unwrap_err(), "MinerU flash parse response: eof");
    let code: Result<ApiEnvelope<u8>, String> = Ok(ApiEnvelope { code: 3, msg: Some("quota".into()), data: Payload::Absent });
    assert_eq!(envelope_data(code, "MinerU batch", "parse data").unwrap_err(), "MinerU batch API error: quota");
    let absent: Result<ApiEnvelope<u8>, String> = Ok(ApiEnvelope { code: 0, msg: None, data: Payload::Absent });
    assert_eq!(envelope_data(absent, "MinerU batch", "parse data").unwrap_err(), "MinerU batch: no data in response");
    let invalid: Result<ApiEnvelope<u8>, String> = Ok(ApiEnvelope { code: 0, msg: None, data: Payload::Invalid("missing field".into()) });
    assert_eq!(
        envelope_data(invalid, "MinerU flash", "parse submit data").unwrap_err(),
        "MinerU flash parse submit data: missing field"
    );
    let b = BatchResponse { batch_id: "b".into(), file_urls: vec![] };
    assert_eq!(first_upload_url(&b).unwrap_err(), "MinerU batch: no upload URL returned");
    let b = BatchResponse { batch_id: "b".into(), file_urls: vec!["u1".into(), "u2".into()] };
    assert_eq!(first_upload_url(&b).unwrap(), "u1");
}

#[test]
fn flash_polling_decisions() {
    assert_eq!(ready(flash_poll_step(flash("done", Some("https://md"), None, None))).unwrap(), "https://md");
    assert_eq!(failed(flash_poll_step(flash("done", None, None, None))).unwrap(), "MinerU flash: no markdown URL");
    assert_eq!(
        failed(flash_poll_step(flash("failed", None, Some(-3), Some("bad file")))).unwrap(),
        "MinerU flash extract failed (-3): bad file"
    );
    assert_eq!(failed(flash_poll_step(flash("failed", None, None, None))).unwrap(), "MinerU flash extract failed (0): ");
    assert!(keeps(&flash_poll_step(flash("running", None, None, None))));
    assert!(keeps(&flash_poll_step(PollReply::Received { status: 502, envelope: Err("x".into()) })));
    assert_eq!(
        failed(flash_poll_step(PollReply::Received { status: 200, envelope: Err("bad json".into()) })).unwrap(),
        "MinerU flash poll parse: bad json"
    );
    assert_eq!(failed(flash_poll_step(PollReply::RequestFailed("dns".into()))).unwrap(), "MinerU flash poll failed: dns");
    assert_eq!(failed(flash_poll_step(PollReply::ReadFailed("reset".into()))).unwrap(), "MinerU flash poll read: reset");
    let code_nonzero: PollReply<FlashPollData> =
        PollReply::Received { status: 200, envelope: Ok(ApiEnvelope { code: 1, msg: None, data: Payload::Absent }) };
    assert!(keeps(&flash_poll_step(code_nonzero)));
}

#[test]
fn batch_polling_decisions() {
    assert_eq!(
        ready(batch_poll_step(batch(vec![
            item("a.pdf", "running", None, None),
            item("a.pdf", "done", None, None),
            item("a.pdf", "done", Some("https://zip"), None),
            item("a.pdf", "failed", None, Some("late")),
        ])))
        .unwrap(),
        "https://zip"
    );
    assert_eq!(
        failed(batch_poll_step(batch(vec![item("a.pdf", "failed", None, Some("corrupt"))]))).unwrap(),
        "MinerU extract failed for 'a.pdf': corrupt"
    );
    assert!(keeps(&batch_poll_step(batch(vec![item("a.pdf", "pending", None, None)]))));
    assert!(keeps(&batch_poll_step(batch(vec![]))));
    assert!(keeps(&batch_poll_step(PollReply::RequestFailed("down".into()))));
    assert!(keeps(&batch_poll_step(PollReply::Received { status: 200, envelope: Err("x".into()) })));
}

#[test]
fn result_formats() {
    assert_eq!(target_extension("markdown"), "md");
    assert_eq!(target_extension("latex"), "tex");
    assert_eq!(target_extension("docx"), "docx");
    assert_eq!(target_extension("pdf"), "md");
    let z = zip_of(&[("out/images/x.png", b"PNG"), ("out/full.md", b"# Title"), ("out/page.html", b"<p>hi</p>")]);
    assert_eq!(extract_format_from_zip(z.clone(), "html").unwrap(), "<p>hi</p>");
    assert_eq!(extract_format_from_zip(z.clone(), "md").unwrap(), "# Title");
    assert_eq!(extract_format_from_zip(z.clone(), "json").unwrap(), "# Title");
    let z = zip_of(&[("r/doc.docx", b"DOCX")]);
    assert_eq!(extract_format_from_zip(z, "docx").unwrap(), "RE9DWA==");
    let z = zip_of(&[("r/a.txt", b"text")]);
    assert_eq!(extract_format_from_zip(z, "tex").unwrap_err(), "MinerU: no tex content found in result zip");
    assert!(extract_format_from_zip(b"junk".to_vec(), "md").unwrap_err().starts_with("MinerU open result zip: "));
    let z = zip_of(&[("r/page.html", b""), ("r/notes.md", b"notes"), ("r/full.md", b"full")]);
    assert_eq!(extract_format_from_zip(z, "html").unwrap(), "notes");
    let z = zip_of(&[("r/page.html", &[0xff, 0xfe]), ("r/full.md", b"full")]);
    assert!(extract_format_from_zip(z, "html").unwrap_err().starts_with("MinerU read text: "));
    let z = zip_of(&[("r/a.json", b"{}"), ("r/b.json", b"[]")]);
    assert_eq!(extract_format_from_zip(z, "json").unwrap(), "{}");
    let z = zip_of(&[("r/page.html", b"<p>x</p>"), ("odd\\name.html", b"other")]);
    assert_eq!(extract_format_from_zip(z, "html").unwrap(), "<p>x</p>");
    let z = zip_of(&[("r/empty.md", b"")]);
    assert_eq!(extract_format_from_zip(z, "md").unwrap_err(), "MinerU: no md content found in result zip");
    assert_eq!(
        extract_format_from_zip(zip_of(&[]), "html").unwrap_err(),
        "MinerU: no html content found in result zip"
    );
}
