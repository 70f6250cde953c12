//! Decisions of the desktop application: which models can be activated or
//! downloaded, how requests are routed, page indices, notifications, and
//! where the web view may navigate.

use vstd::prelude::*;
use vstd::string::*;
use crate::api::is_ppocr_model;
use crate::codec::{base64_decode, base64_standard_decode};
use crate::text::{concat_str, decimal, has_prefix, str_eq, u64_to_decimal};

verus! {

/// The name of the cloud model.
pub open spec fn mineru_name() -> Seq<char> {
    "mineru"@
}

/// Whether `model` names the MinerU cloud service rather than a local model.
pub fn is_mineru(model: &str) -> (res: bool)
    ensures
        res == (model@ == mineru_name()),
{
    str_eq(model, "mineru")
}

/// The models that can be made active: the PaddleOCR ones and MinerU.
pub open spec fn is_selectable_model(m: Seq<char>) -> bool {
    is_ppocr_model(m) || m == mineru_name()
}

/// Checks a model that is to become the active one.
pub fn check_active_model(m: &str) -> (res: Result<(), String>)
    ensures
        res is Ok <==> is_selectable_model(m@),
        res matches Err(msg) ==> msg@ == "Unknown OCR model: "@ + m@,
{
    if crate::api::is_ppocr_model_name(m) || is_mineru(m) {
        Ok(())
    } else {
        Err(concat_str("Unknown OCR model: ", m))
    }
}

/// Checks a model that is to be downloaded: only PaddleOCR models are.
pub fn check_downloadable_model(m: &str) -> (res: Result<(), String>)
    ensures
        res is Ok <==> is_ppocr_model(m@),
        res matches Err(msg) ==> msg@ == "Unknown model: "@ + m@,
{
    if crate::api::is_ppocr_model_name(m) {
        Ok(())
    } else {
        Err(concat_str("Unknown model: ", m))
    }
}

/// The report after a model download.
pub fn model_downloaded_message(m: &str) -> (res: String)
    ensures
        res@ == "Model "@ + m@ + " downloaded"@,
{
    let s = concat_str("Model ", m);
    concat_str(s.as_str(), " downloaded")
}

/// The message for a local model whose files are missing.
pub fn model_missing_message(m: &str) -> (res: String)
    ensures
        res@ == crate::api::not_installed_message(m@),
{
    let s = concat_str("OCR model ", m);
    concat_str(s.as_str(), " is not installed. Please download it from Model Settings.")
}

/// The page to render: the requested index taken modulo 2^16 (as a `u16`),
/// which must be below the page count.
pub fn check_page_index(page_index: u32, page_count: u16) -> (res: Result<u16, String>)
    ensures
        (page_index % 65536) < page_count ==> (res matches Ok(p) && p == page_index % 65536),
        (page_index % 65536) >= page_count ==> (res matches Err(m) && m@ == "Page index "@
            + decimal((page_index % 65536) as nat) + " out of range (total: "@ + decimal(
            page_count as nat,
        ) + ")"@),
{
    let index = (page_index % 65536) as u16;
    if index >= page_count {
        let m = concat_str("Page index ", u64_to_decimal(index as u64).as_str());
        let m = concat_str(m.as_str(), " out of range (total: ");
        let m = concat_str(m.as_str(), u64_to_decimal(page_count as u64).as_str());
        return Err(concat_str(m.as_str(), ")"));
    }
    Ok(index)
}

/// After a screenshot's text was recognised, a desktop notification is
/// shown when the main window is hidden and some text was found.
pub fn should_show_toast(main_visible: bool, text: &str) -> (res: bool)
    ensures
        res == (!main_visible && text@.len() > 0),
{
    !main_visible && !text.is_empty()
}

/// Decodes base64 content that is to be written to a file.
pub fn decode_base64_content(content: &str) -> (res: Result<Vec<u8>, String>)
    ensures
        base64_standard_decode(content.spec_bytes()) matches Some(v) ==> (res matches Ok(r) && r@
            == v),
        base64_standard_decode(content.spec_bytes()) is None ==> (res matches Err(m) && has_prefix(
            m@,
            "Failed to decode base64: "@,
        )),
{
    match base64_decode(content.as_bytes()) {
        Ok(v) => Ok(v),
        Err(e) => {
            let m = concat_str("Failed to decode base64: ", e.as_str());
            assert(m@.take(("Failed to decode base64: "@).len() as int) =~= "Failed to decode base64: "@);
            Err(m)
        },
    }
}

/// The smallest and largest long side of an image that recognition takes
/// as it is; other images are resized first.
pub const OCR_TARGET_SIZE: u32 = 960;

/// See `OCR_TARGET_SIZE`.
pub const OCR_MAX_SIZE: u32 = 1920;

/// Whether an image must be resized before recognition: its long side is
/// below `OCR_TARGET_SIZE` or above `OCR_MAX_SIZE`.
pub fn needs_resize(width: u32, height: u32) -> (res: bool)
    ensures
        res == ({
            let long = if width >= height {
                width
            } else {
                height
            };
            long < OCR_TARGET_SIZE || long > OCR_MAX_SIZE
        }),
{
    let long = if width >= height {
        width
    } else {
        height
    };
    long < OCR_TARGET_SIZE || long > OCR_MAX_SIZE
}

/// The dictionary file that the OCR library reads: a `#` line, the
/// original dictionary (ending with a line break), then a line holding a
/// single space.
pub open spec fn corrected_dict_spec(content: Seq<char>) -> Seq<char> {
    "#\n"@ + content + (if content.len() > 0 && content.last() == '\n' {
        Seq::<char>::empty()
    } else {
        "\n"@
    }) + " \n"@
}

/// Builds the dictionary file that the OCR library reads from the model's
/// `dict.txt`.
pub fn corrected_dict_content(content: &str) -> (res: String)
    ensures
        res@ == corrected_dict_spec(content@),
{
    proof {
        reveal_strlit("");
    }
    let mut out = concat_str("#\n", content);
    let ends_with_newline = crate::text::ends_with_str(content, "\n");
    proof {
        reveal_strlit("\n");
        assert("\n"@ =~= seq!['\n']);
        if content@.len() > 0 {
            assert(content@.skip(content@.len() - 1) =~= seq![content@.last()]);
            if ends_with_newline {
                assert(seq![content@.last()][0] == '\n');
            }
        }
    }
    let ghost head = out@;
    if !ends_with_newline {
        out.append("\n");
        assert(out@ =~= head + "\n"@);
    } else {
        assert(content@.len() > 0 && content@.last() == '\n');
        assert(out@ =~= head + Seq::<char>::empty());
    }
    let ghost mid = out@;
    assert(mid == head + (if content@.len() > 0 && content@.last() == '\n' {
        Seq::<char>::empty()
    } else {
        "\n"@
    }));
    out.append(" \n");
    assert(out@ =~= corrected_dict_spec(content@));
    out
}

/// Where the web view may go.
#[derive(Clone, Copy, Debug, PartialEq, Eq, Structural)]
pub enum NavigationDecision {
    /// Navigate inside the application.
    Allow,
    /// Open the address in the system's browser or handler instead.
    OpenExternally,
}

/// Hosts that belong to the application itself.
pub open spec fn is_internal_host(host: Option<Seq<char>>) -> bool {
    match host {
        Some(h) => h == "localhost"@ || h == "127.0.0.1"@ || h == "tauri.localhost"@ || h
            == "::1"@,
        None => false,
    }
}

/// Schemes that are handed to the system.
pub open spec fn is_external_scheme(scheme: Seq<char>) -> bool {
    scheme == "http"@ || scheme == "https"@ || scheme == "mailto"@ || scheme == "tel"@
}

/// Decides a navigation of the web view to an address with the given scheme
/// and host: application addresses stay inside, web, mail and phone links
/// open externally, anything else stays inside.
pub fn navigation_decision(scheme: &str, host: Option<&str>) -> (res: NavigationDecision)
    ensures
        (scheme@ == "tauri"@ || is_internal_host(
            match host {
                Some(h) => Some(h@),
                None => None,
            },
        )) ==> res == NavigationDecision::Allow,
        !(scheme@ == "tauri"@ || is_internal_host(
            match host {
                Some(h) => Some(h@),
                None => None,
            },
        )) ==> (res == NavigationDecision::OpenExternally <==> is_external_scheme(scheme@)),
{
    let internal_host = match host {
        Some(h) => str_eq(h, "localhost") || str_eq(h, "127.0.0.1") || str_eq(h, "tauri.localhost")
            || str_eq(h, "::1"),
        None => false,
    };
    if str_eq(scheme, "tauri") || internal_host {
        return NavigationDecision::Allow;
    }
    if str_eq(scheme, "http") || str_eq(scheme, "https") || str_eq(scheme, "mailto") || str_eq(
        scheme,
        "tel",
    ) {
        return NavigationDecision::OpenExternally;
    }
    NavigationDecision::Allow
}

} // verus!
