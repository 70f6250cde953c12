//! The HTTP API's request handling: authentication, model validation,
//! reading the image out of a request, and the response bodies.

use vstd::prelude::*;
use vstd::string::*;
use crate::codec::{base64_decode, base64_standard_decode};
use crate::model::{check_model_install, checked_model_dir, InstallCheck};
use crate::paths::is_plain_base;
use crate::multipart::{boundary_spec, extract_boundary, multipart_spec, parse_multipart_body};
use crate::text::{chars_of, concat_str, first_index, has_prefix, is_white_space, is_whitespace, str_eq, string_from_chars, to_owned_string, trim_bounds, trim_end_seq, trim_seq, trim_start_seq};

verus! {

/// JSON body of an OCR request: a base64 image or an image URL.
#[derive(Debug, Clone)]
pub struct OcrJsonRequest {
    /// Base64-encoded image data, plain or as a data URI.
    pub image: Option<String>,
    /// URL of an image to download.
    pub url: Option<String>,
    /// Model to use instead of the active one.
    pub model: Option<String>,
    /// Output format for MinerU; ignored by PaddleOCR models.
    pub format: Option<String>,
    /// MinerU mode override: "flash" or "extract".
    pub mineru_mode: Option<String>,
}

/// Error detail: a machine-readable code and a message.
#[derive(Debug, Clone)]
pub struct ErrorDetail {
    pub code: String,
    pub message: String,
}

/// Error response body.
#[derive(Debug, Clone)]
pub struct ErrorResponse {
    pub success: bool,
    pub error: ErrorDetail,
}

/// Health check response body.
#[derive(Debug, Clone)]
pub struct HealthResponse {
    pub status: String,
    pub model_loaded: bool,
    pub active_model: String,
    pub version: String,
}

/// Service info response body.
#[derive(Debug, Clone)]
pub struct InfoResponse {
    pub name: String,
    pub version: String,
    pub engine: String,
    pub available_models: Vec<String>,
    pub active_model: String,
    pub max_file_size_mb: u32,
}

/// Whether the API server runs, and on which port.
#[derive(Debug, Clone)]
pub struct ServerStatus {
    pub running: bool,
    pub port: u16,
}

/// A failed request: the HTTP status and the error body to send.
#[derive(Debug, Clone)]
pub struct ApiError {
    pub status: u16,
    pub body: ErrorResponse,
}

/// HTTP 400.
pub const BAD_REQUEST: u16 = 400;

/// HTTP 401.
pub const UNAUTHORIZED: u16 = 401;

/// HTTP 500.
pub const INTERNAL_SERVER_ERROR: u16 = 500;

/// `e` answers with `status`, and its body carries `code` and `message`.
pub open spec fn is_api_error(e: ApiError, status: u16, code: Seq<char>, message: Seq<char>) -> bool {
    &&& e.status == status
    &&& !e.body.success
    &&& e.body.error.code@ == code
    &&& e.body.error.message@ == message
}

/// Builds a failed request with the given status, code and message.
pub fn api_error(status: u16, code: &str, message: String) -> (res: ApiError)
    ensures
        is_api_error(res, status, code@, message@),
{
    ApiError {
        status,
        body: ErrorResponse {
            success: false,
            error: ErrorDetail { code: to_owned_string(code), message },
        },
    }
}

/// Authentication passes: no key is configured, or the `Authorization`
/// header is exactly `Bearer ` followed by the key.
pub open spec fn auth_ok(authorization: Option<Seq<char>>, api_key: Seq<char>) -> bool {
    api_key.len() == 0 || (match authorization {
        Some(h) => h,
        None => Seq::empty(),
    }) == "Bearer "@ + api_key
}

/// Checks a request's `Authorization` header against the configured API
/// key. An absent header counts as empty.
pub fn check_auth(authorization: Option<&str>, api_key: &str) -> (res: Result<(), ApiError>)
    ensures
        res is Ok <==> auth_ok(
            match authorization {
                Some(h) => Some(h@),
                None => None,
            },
            api_key@,
        ),
        res matches Err(e) ==> is_api_error(
            e,
            UNAUTHORIZED,
            "UNAUTHORIZED"@,
            "Invalid or missing API key"@,
        ),
{
    if api_key.is_empty() {
        return Ok(());
    }
    let header = match authorization {
        Some(h) => h,
        None => "",
    };
    proof {
        reveal_strlit("");
    }
    assert(header@ == (match authorization {
        Some(h) => h@,
        None => Seq::<char>::empty(),
    }));
    let expected = concat_str("Bearer ", api_key);
    if !str_eq(header, expected.as_str()) {
        return Err(
            api_error(UNAUTHORIZED, "UNAUTHORIZED", to_owned_string("Invalid or missing API key")),
        );
    }
    Ok(())
}

/// The PaddleOCR models that the API serves.
pub open spec fn is_ppocr_model(m: Seq<char>) -> bool {
    m == "ppocr-v4"@ || m == "ppocr-v5"@ || m == "ppocr-v6"@
}

/// Whether `m` names one of the PaddleOCR models.
pub fn is_ppocr_model_name(m: &str) -> (res: bool)
    ensures
        res == is_ppocr_model(m@),
{
    str_eq(m, "ppocr-v4") || str_eq(m, "ppocr-v5") || str_eq(m, "ppocr-v6")
}

/// The message for a request that names an unknown model.
pub open spec fn unknown_model_message(m: Seq<char>) -> Seq<char> {
    "Unknown model: "@ + m + ". Must be one of: ppocr-v4, ppocr-v5, ppocr-v6"@
}

/// Checks that `m` names one of the PaddleOCR models.
pub fn validate_model_name(m: &str) -> (res: Result<(), ApiError>)
    ensures
        res is Ok <==> is_ppocr_model(m@),
        res matches Err(e) ==> is_api_error(e, BAD_REQUEST, "INVALID_MODEL"@, unknown_model_message(m@)),
{
    if is_ppocr_model_name(m) {
        Ok(())
    } else {
        let msg = concat_str("Unknown model: ", m);
        let msg = concat_str(msg.as_str(), ". Must be one of: ppocr-v4, ppocr-v5, ppocr-v6");
        Err(api_error(BAD_REQUEST, "INVALID_MODEL", msg))
    }
}

/// The message for a model whose files are not installed.
pub open spec fn not_installed_message(m: Seq<char>) -> Seq<char> {
    "OCR model "@ + m + " is not installed. Please download it from Model Settings."@
}

/// The answer to a request for a model whose files are not installed.
pub fn model_not_installed(m: &str) -> (res: ApiError)
    ensures
        is_api_error(res, BAD_REQUEST, "MODEL_NOT_INSTALLED"@, not_installed_message(m@)),
{
    let msg = concat_str("OCR model ", m);
    let msg = concat_str(
        msg.as_str(),
        " is not installed. Please download it from Model Settings.",
    );
    api_error(BAD_REQUEST, "MODEL_NOT_INSTALLED", msg)
}

/// The outcome of model validation once it is known whether the model's
/// files are installed: an unknown name is refused first, then a model that
/// is not installed.
pub fn model_check(m: &str, installed: bool) -> (res: Result<(), ApiError>)
    ensures
        !is_ppocr_model(m@) ==> (res matches Err(e) && is_api_error(
            e,
            BAD_REQUEST,
            "INVALID_MODEL"@,
            unknown_model_message(m@),
        )),
        is_ppocr_model(m@) && !installed ==> (res matches Err(e) && is_api_error(
            e,
            BAD_REQUEST,
            "MODEL_NOT_INSTALLED"@,
            not_installed_message(m@),
        )),
        is_ppocr_model(m@) && installed ==> res is Ok,
{
    validate_model_name(m)?;
    if !installed {
        return Err(model_not_installed(m));
    }
    Ok(())
}

/// The model a request uses: the one it names, else the active one.
pub fn choose_model(requested: Option<String>, active: String) -> (res: String)
    ensures
        res@ == (match requested {
            Some(m) => m@,
            None => active@,
        }),
{
    match requested {
        Some(m) => m,
        None => active,
    }
}

/// `s` with every white-space character removed.
pub open spec fn remove_white_space(s: Seq<char>) -> Seq<char>
    decreases s.len(),
{
    if s.len() == 0 {
        s
    } else if is_white_space(s.last()) {
        remove_white_space(s.drop_last())
    } else {
        remove_white_space(s.drop_last()).push(s.last())
    }
}

/// `p` occurs somewhere in `s`.
pub open spec fn contains_seq(s: Seq<char>, p: Seq<char>) -> bool {
    exists|i: int| 0 <= i && i + p.len() <= s.len() && #[trigger] s.subrange(i, i + p.len()) == p
}

/// Whether `p` occurs somewhere in `s`.
pub fn contains_chars(s: &[char], p: &[char]) -> (res: bool)
    ensures
        res == contains_seq(s@, p@),
{
    if p.len() > s.len() {
        return false;
    }
    let sl = s.len();
    let last = sl - p.len();
    let mut i: usize = 0;
    while i <= last
        invariant
            sl == s@.len(),
            last + p@.len() == s@.len(),
            i <= last + 1,
            forall|j: int| 0 <= j < i ==> #[trigger] s@.subrange(j, j + p@.len()) != p@,
        decreases last + 1 - i,
    {
        let mut k: usize = 0;
        let mut same = true;
        while k < p.len()
            invariant
                sl == s@.len(),
                i <= last,
                last + p@.len() == s@.len(),
                k <= p@.len(),
                same == forall|t: int| 0 <= t < k ==> s@[i + t] == p@[t],
            decreases p@.len() - k,
        {
            if s[i + k] != p[k] {
                same = false;
            }
            k = k + 1;
        }
        if same {
            assert(s@.subrange(i as int, i + p@.len()) =~= p@);
            return true;
        } else {
            assert(exists|t: int| 0 <= t < p@.len() && s@[i + t] != p@[t]);
            let ghost t = choose|t: int| 0 <= t < p@.len() && s@[i + t] != p@[t];
            assert(s@.subrange(i as int, i + p@.len())[t] != p@[t]);
        }
        if i == last {
            return false;
        }
        i = i + 1;
    }
    false
}

/// The base64 text that an image field carries: what follows the first
/// comma of a data URI (whose header must mention `base64`), or the whole
/// input; `None` for a data URI without the `base64` indicator.
pub open spec fn base64_payload(input: Seq<char>) -> Option<Seq<char>> {
    match first_index(input, ',') {
        Some(c) => if contains_seq(input.take(c), "base64"@) {
            Some(input.skip(c + 1))
        } else {
            None
        },
        None => Some(input),
    }
}

/// The bytes that are handed to the base64 decoder for an image field: the
/// payload, trimmed and with every white-space character removed.
pub open spec fn base64_cleaned(payload: Seq<char>) -> Seq<u8> {
    vstd::utf8::encode_utf8(remove_white_space(trim_seq(payload)))
}

/// Decodes a base64 image given as plain base64 or as a data URI such as
/// `data:image/png;base64,...`; white space inside the base64 text is
/// ignored.
pub fn parse_base64_image(input: &str) -> (res: Result<Vec<u8>, String>)
    ensures
        base64_payload(input@) is None ==> (res matches Err(m) && m@
            == "Invalid data URI: missing base64 indicator"@),
        base64_payload(input@) matches Some(p) ==> (match base64_standard_decode(
            base64_cleaned(p),
        ) {
            Some(v) => res matches Ok(r) && r@ == v,
            None => res matches Err(m) && has_prefix(m@, "Failed to decode base64: "@),
        }),
{
    let cs = chars_of(input);
    let mut comma: usize = 0;
    while comma < cs.len() && cs[comma] != ','
        invariant
            cs@ == input@,
            comma <= cs@.len(),
            forall|j: int| 0 <= j < comma ==> cs@[j] != ',',
        decreases cs@.len() - comma,
    {
        comma = comma + 1;
    }
    proof {
        crate::text::lemma_first_index(input@, ',', comma as int);
    }
    let payload: &[char] = if comma < cs.len() {
        let head = vstd::slice::slice_subrange(cs.as_slice(), 0, comma);
        let marker = chars_of("base64");
        assert(head@ =~= input@.take(comma as int));
        if contains_chars(head, marker.as_slice()) {
            let p = vstd::slice::slice_subrange(cs.as_slice(), comma + 1, cs.len());
            assert(p@ =~= input@.skip(comma + 1));
            p
        } else {
            return Err(to_owned_string("Invalid data URI: missing base64 indicator"));
        }
    } else {
        cs.as_slice()
    };
    let (a, b) = trim_bounds(payload);
    let mut cleaned: Vec<char> = Vec::new();
    let mut i = a;
    assert(payload@.subrange(a as int, a as int) =~= Seq::<char>::empty());
    while i < b
        invariant
            a <= i <= b <= payload@.len(),
            cleaned@ == remove_white_space(payload@.subrange(a as int, i as int)),
        decreases b - i,
    {
        let c = payload[i];
        assert(payload@.subrange(a as int, i + 1).drop_last() =~= payload@.subrange(
            a as int,
            i as int,
        ));
        if !is_whitespace(c) {
            cleaned.push(c);
        }
        i = i + 1;
    }
    let cleaned_str = string_from_chars(cleaned.as_slice());
    let bytes = cleaned_str.as_str().as_bytes();
    match base64_decode(bytes) {
        Ok(v) => Ok(v),
        Err(e) => {
            let msg = concat_str("Failed to decode base64: ", e.as_str());
            proof {
                assert(msg@.take(("Failed to decode base64: "@).len() as int) =~= "Failed to decode base64: "@);
            }
            Err(msg)
        },
    }
}

/// Where a JSON request's image comes from.
#[derive(Debug, Clone)]
pub enum ImageSource {
    /// An image URL to download.
    Url(String),
    /// Base64 image text.
    Base64(String),
}

/// The message for a JSON request that carries no image.
pub open spec fn no_image_in_json_message() -> Seq<char> {
    "Either 'image' (base64) or 'url' (image URL) must be provided"@
}

/// Picks a JSON request's image source: the URL when one is given,
/// otherwise the base64 image; a request with neither is refused.
pub fn select_image_source(req: &OcrJsonRequest) -> (res: Result<ImageSource, ApiError>)
    ensures
        req.url matches Some(u) ==> (res matches Ok(ImageSource::Url(v)) && v@ == u@),
        req.url is None && req.image is Some ==> (res matches Ok(ImageSource::Base64(v)) && v@
            == req.image->0@),
        req.url is None && req.image is None ==> (res matches Err(e) && is_api_error(
            e,
            BAD_REQUEST,
            "NO_IMAGE"@,
            no_image_in_json_message(),
        )),
{
    match &req.url {
        Some(u) => Ok(ImageSource::Url(u.clone())),
        None => match &req.image {
            Some(b) => Ok(ImageSource::Base64(b.clone())),
            None => Err(
                api_error(
                    BAD_REQUEST,
                    "NO_IMAGE",
                    to_owned_string(
                        "Either 'image' (base64) or 'url' (image URL) must be provided",
                    ),
                ),
            ),
        },
    }
}

/// The answer to a request body that is not valid JSON; `detail` is the
/// JSON parser's description of the problem.
pub fn invalid_json_error(detail: &str) -> (res: ApiError)
    ensures
        is_api_error(res, BAD_REQUEST, "INVALID_IMAGE"@, "Invalid JSON: "@ + detail@),
{
    api_error(BAD_REQUEST, "INVALID_IMAGE", concat_str("Invalid JSON: ", detail))
}

/// The image of a JSON request that gave a URL, from the outcome of the
/// download (the image bytes, or a description of what went wrong).
pub fn image_from_download(download: Result<Vec<u8>, String>) -> (res: Result<Vec<u8>, ApiError>)
    ensures
        download matches Ok(d) ==> (res matches Ok(v) && v@ == d@),
        download matches Err(m) ==> (res matches Err(e) && is_api_error(
            e,
            BAD_REQUEST,
            "INVALID_IMAGE"@,
            "Failed to download image from URL: "@ + m@,
        )),
{
    match download {
        Ok(d) => Ok(d),
        Err(m) => Err(
            api_error(
                BAD_REQUEST,
                "INVALID_IMAGE",
                concat_str("Failed to download image from URL: ", m.as_str()),
            ),
        ),
    }
}

/// The image of a JSON request that gave base64 text.
pub fn image_from_base64(b64: &str) -> (res: Result<Vec<u8>, ApiError>)
    ensures
        base64_payload(b64@) is Some && base64_standard_decode(base64_cleaned(base64_payload(b64@)->0)) is Some
            ==> (res matches Ok(r) && r@ == base64_standard_decode(
            base64_cleaned(base64_payload(b64@)->0),
        )->0),
        base64_payload(b64@) is None ==> (res matches Err(e) && is_api_error(
            e,
            BAD_REQUEST,
            "INVALID_IMAGE"@,
            "Invalid data URI: missing base64 indicator"@,
        )),
        base64_payload(b64@) is Some && base64_standard_decode(base64_cleaned(base64_payload(b64@)->0)) is None ==> (
        res matches Err(e) && e.status == BAD_REQUEST && !e.body.success && e.body.error.code@
            == "INVALID_IMAGE"@ && has_prefix(e.body.error.message@, "Failed to decode base64: "@)),
{
    match parse_base64_image(b64) {
        Ok(v) => Ok(v),
        Err(m) => Err(api_error(BAD_REQUEST, "INVALID_IMAGE", m)),
    }
}

/// The model a request uses: the one it names, else the active one.
pub open spec fn requested_model(requested: Option<String>, active: Seq<char>) -> Seq<char> {
    match requested {
        Some(m) => m@,
        None => active,
    }
}

/// The image and model of a JSON request. A request with a URL takes its
/// image from the download of that URL, whose outcome is `download` (the
/// base64 image is then ignored); otherwise the base64 image is decoded;
/// a request with neither is refused. The model is the one the request
/// names, else `active_model`.
pub fn read_json_request(
    req: &OcrJsonRequest,
    download: Option<Result<Vec<u8>, String>>,
    active_model: String,
) -> (res: Result<(Vec<u8>, String), ApiError>)
    requires
        req.url is Some ==> download is Some,
    ensures
        download matches Some(Ok(d)) ==> (req.url is Some ==> (res matches Ok((i, m)) && i@ == d@
            && m@ == requested_model(req.model, active_model@))),
        download matches Some(Err(e)) ==> (req.url is Some ==> (res matches Err(x) && is_api_error(
            x,
            BAD_REQUEST,
            "INVALID_IMAGE"@,
            "Failed to download image from URL: "@ + e@,
        ))),
        req.url is None && req.image is Some ==> ({
            let payload = base64_payload(req.image->0@);
            &&& payload is None ==> (res matches Err(x) && is_api_error(
                x,
                BAD_REQUEST,
                "INVALID_IMAGE"@,
                "Invalid data URI: missing base64 indicator"@,
            ))
            &&& payload is Some && base64_standard_decode(base64_cleaned(payload->0)) is Some ==> (
            res matches Ok((i, m)) && i@ == base64_standard_decode(base64_cleaned(payload->0))->0
                && m@ == requested_model(req.model, active_model@))
            &&& payload is Some && base64_standard_decode(base64_cleaned(payload->0)) is None ==> (
            res matches Err(x) && x.status == BAD_REQUEST && !x.body.success && x.body.error.code@
                == "INVALID_IMAGE"@ && has_prefix(x.body.error.message@, "Failed to decode base64: "@))
        }),
        req.url is None && req.image is None ==> (res matches Err(x) && is_api_error(
            x,
            BAD_REQUEST,
            "NO_IMAGE"@,
            no_image_in_json_message(),
        )),
{
    let image = match select_image_source(req) {
        Ok(ImageSource::Url(_)) => match download {
            Some(d) => image_from_download(d),
            None => vstd::pervasive::unreached(),
        },
        Ok(ImageSource::Base64(b64)) => image_from_base64(b64.as_str()),
        Err(e) => Err(e),
    };
    match image {
        Ok(i) => Ok((i, choose_model(req.model.clone(), active_model))),
        Err(e) => Err(e),
    }
}

/// The answer to a multipart request whose content type gives no boundary.
pub fn missing_boundary_error() -> (res: ApiError)
    ensures
        is_api_error(res, BAD_REQUEST, "NO_IMAGE"@, "Missing multipart boundary"@),
{
    api_error(BAD_REQUEST, "NO_IMAGE", to_owned_string("Missing multipart boundary"))
}

/// The image of a multipart request: the "image" field, which must be
/// present and not empty.
pub fn multipart_image(image: Option<Vec<u8>>) -> (res: Result<Vec<u8>, ApiError>)
    ensures
        image is Some && image->0@.len() > 0 ==> (res matches Ok(v) && v@ == image->0@),
        !(image is Some && image->0@.len() > 0) ==> (res matches Err(e) && is_api_error(
            e,
            BAD_REQUEST,
            "NO_IMAGE"@,
            "No image file provided"@,
        )),
{
    match image {
        Some(d) => {
            if d.len() > 0 {
                return Ok(d);
            }
        },
        None => {},
    }
    Err(api_error(BAD_REQUEST, "NO_IMAGE", to_owned_string("No image file provided")))
}

/// The answer when the OCR engine's lock cannot be taken.
pub fn engine_lock_error() -> (res: ApiError)
    ensures
        is_api_error(res, INTERNAL_SERVER_ERROR, "INTERNAL_ERROR"@, "Failed to acquire engine lock"@),
{
    api_error(INTERNAL_SERVER_ERROR, "INTERNAL_ERROR", to_owned_string("Failed to acquire engine lock"))
}

/// The answer when no OCR engine is loaded at recognition time.
pub fn engine_missing_error() -> (res: ApiError)
    ensures
        is_api_error(res, INTERNAL_SERVER_ERROR, "INTERNAL_ERROR"@, "OCR engine not initialized"@),
{
    api_error(INTERNAL_SERVER_ERROR, "INTERNAL_ERROR", to_owned_string("OCR engine not initialized"))
}

/// The answer when the OCR engine cannot be created; `detail` describes why.
pub fn engine_create_error(detail: &str) -> (res: ApiError)
    ensures
        is_api_error(
            res,
            INTERNAL_SERVER_ERROR,
            "OCR_ERROR"@,
            "Failed to create OCR engine: "@ + detail@,
        ),
{
    api_error(INTERNAL_SERVER_ERROR, "OCR_ERROR", concat_str("Failed to create OCR engine: ", detail))
}

/// The answer when recognition fails; `detail` describes why.
pub fn recognition_error(detail: &str) -> (res: ApiError)
    ensures
        is_api_error(res, INTERNAL_SERVER_ERROR, "OCR_ERROR"@, "OCR recognition failed: "@ + detail@),
{
    api_error(INTERNAL_SERVER_ERROR, "OCR_ERROR", concat_str("OCR recognition failed: ", detail))
}

/// `parts` joined with `sep` between consecutive parts.
pub open spec fn join_seq(parts: Seq<Seq<char>>, sep: Seq<char>) -> Seq<char>
    decreases parts.len(),
{
    if parts.len() == 0 {
        Seq::empty()
    } else if parts.len() == 1 {
        parts[0]
    } else {
        join_seq(parts.drop_last(), sep) + sep + parts.last()
    }
}

/// Joins `parts` with `sep` between consecutive parts.
pub fn join_strings(parts: &Vec<String>, sep: &str) -> (res: String)
    ensures
        res@ == join_seq(parts.deep_view(), sep@),
{
    let mut res = to_owned_string("");
    proof {
        reveal_strlit("");
    }
    let mut i: usize = 0;
    while i < parts.len()
        invariant
            i <= parts@.len(),
            res@ == join_seq(parts.deep_view().take(i as int), sep@),
        decreases parts@.len() - i,
    {
        assert(parts.deep_view().take(i + 1).drop_last() =~= parts.deep_view().take(i as int));
        if i > 0 {
            res.append(sep);
        }
        res.append(parts[i].as_str());
        i = i + 1;
    }
    assert(parts.deep_view().take(parts@.len() as int) =~= parts.deep_view());
    res
}

/// The health check body.
pub fn health_response(model_loaded: bool, active_model: String, version: String) -> (res:
    HealthResponse)
    ensures
        res.status@ == "ok"@,
        res.model_loaded == model_loaded,
        res.active_model@ == active_model@,
        res.version@ == version@,
{
    HealthResponse { status: to_owned_string("ok"), model_loaded, active_model, version }
}

/// The models that the API offers, in order.
pub open spec fn available_models_spec() -> Seq<Seq<char>> {
    seq!["ppocr-v4"@, "ppocr-v5"@, "ppocr-v6"@]
}

/// The service info body.
pub fn info_response(version: String, active_model: String, max_file_size_mb: u32) -> (res:
    InfoResponse)
    ensures
        res.name@ == "LynxOCR API"@,
        res.version@ == version@,
        res.engine@ == "PaddleOCR ONNX"@,
        res.available_models.deep_view() == available_models_spec(),
        res.active_model@ == active_model@,
        res.max_file_size_mb == max_file_size_mb,
{
    let mut models: Vec<String> = Vec::new();
    models.push(to_owned_string("ppocr-v4"));
    models.push(to_owned_string("ppocr-v5"));
    models.push(to_owned_string("ppocr-v6"));
    assert(models.deep_view() =~= available_models_spec());
    InfoResponse {
        name: to_owned_string("LynxOCR API"),
        version,
        engine: to_owned_string("PaddleOCR ONNX"),
        available_models: models,
        active_model,
        max_file_size_mb,
    }
}

/// The largest request body that the server accepts, in bytes, for a limit
/// given in megabytes.
pub fn body_limit_bytes(max_file_size_mb: u32) -> (res: usize)
    requires
        max_file_size_mb * 1048576 <= usize::MAX,
    ensures
        res == max_file_size_mb * 1048576,
{
    (max_file_size_mb as usize) * 1024 * 1024
}

/// A downloaded file counts as an image: its content type is empty or
/// starts with `image/`.
pub open spec fn image_content_type_ok(content_type: Seq<char>) -> bool {
    content_type.len() == 0 || has_prefix(content_type, "image/"@)
}

/// Checks the content type of an image download; an absent header counts
/// as empty.
pub fn check_image_content_type(content_type: &str) -> (res: Result<(), String>)
    ensures
        res is Ok <==> image_content_type_ok(content_type@),
        res matches Err(m) ==> m@ == "URL does not point to an image (Content-Type: "@
            + content_type@ + ")"@,
{
    let ct = chars_of(content_type);
    let prefix = chars_of("image/");
    if ct.len() == 0 || crate::text::starts_with_chars(ct.as_slice(), prefix.as_slice()) {
        return Ok(());
    }
    let msg = concat_str("URL does not point to an image (Content-Type: ", content_type);
    Err(concat_str(msg.as_str(), ")"))
}

/// Checks that a downloaded image is not empty.
pub fn check_image_data(data: Vec<u8>) -> (res: Result<Vec<u8>, String>)
    ensures
        data@.len() > 0 ==> (res matches Ok(v) && v@ == data@),
        data@.len() == 0 ==> (res matches Err(m) && m@ == "Downloaded image is empty"@),
{
    if data.len() == 0 {
        return Err(to_owned_string("Downloaded image is empty"));
    }
    Ok(data)
}

/// Validates the model a request asks for, and reports the installation
/// check it made: an unknown name is refused without a check; a known one
/// is checked in its own directory (its name joined onto `model_path`) and
/// refused exactly when that check finds it not installed.
pub fn validate_model_checked(model_path: &str, m: &str) -> (res: (
    Result<(), ApiError>,
    Option<InstallCheck>,
))
    ensures
        !is_ppocr_model(m@) ==> res.1 is None,
        !is_ppocr_model(m@) ==> (res.0 matches Err(e) && is_api_error(
            e,
            BAD_REQUEST,
            "INVALID_MODEL"@,
            unknown_model_message(m@),
        )),
        is_ppocr_model(m@) ==> (res.1 matches Some(check) && (is_plain_base(model_path@)
            ==> checked_model_dir(check, model_path@, m@)) && (check.installed ==> res.0 is Ok)
            && (!check.installed ==> (res.0 matches Err(e) && is_api_error(
            e,
            BAD_REQUEST,
            "MODEL_NOT_INSTALLED"@,
            not_installed_message(m@),
        )))),
{
    if let Err(e) = validate_model_name(m) {
        return (Err(e), None);
    }
    proof {
        reveal_strlit("ppocr-v4");
        reveal_strlit("ppocr-v5");
        reveal_strlit("ppocr-v6");
    }
    let check = check_model_install(model_path, m);
    let res = model_check(m, check.installed);
    (res, Some(check))
}

/// Validates the model a request asks for: an unknown name is refused;
/// a known one is refused when its files are not installed in its own
/// directory, its name joined onto `model_path` (which depends on the file
/// system at the time of the call). This is the outcome of
/// `validate_model_checked`.
pub fn validate_model(model_path: &str, m: &str) -> (res: Result<(), ApiError>)
    ensures
        !is_ppocr_model(m@) ==> (res matches Err(e) && is_api_error(
            e,
            BAD_REQUEST,
            "INVALID_MODEL"@,
            unknown_model_message(m@),
        )),
        is_ppocr_model(m@) ==> (res is Ok || (res matches Err(e) && is_api_error(
            e,
            BAD_REQUEST,
            "MODEL_NOT_INSTALLED"@,
            not_installed_message(m@),
        ))),
{
    validate_model_checked(model_path, m).0
}

/// The image and model of a `multipart/form-data` request with the given
/// content type and body; `active_model` is used when the request names no
/// model. A content type without a boundary and a body without a non-empty
/// "image" field are refused. `None` marks a malformed body (see
/// `parse_multipart_body`).
pub fn read_multipart_request(content_type: &str, body: &[u8], active_model: String) -> (res:
    Option<Result<(Vec<u8>, String), ApiError>>)
    ensures
        boundary_spec(content_type@).len() == 0 ==> (res matches Some(Err(e)) && is_api_error(
            e,
            BAD_REQUEST,
            "NO_IMAGE"@,
            "Missing multipart boundary"@,
        )),
        boundary_spec(content_type@).len() > 0 ==> match multipart_spec(
            body@,
            boundary_spec(content_type@),
        ) {
            None => res is None,
            Some(fields) => match fields.0 {
                Some(img) => if img.len() > 0 {
                    res matches Some(Ok((i, m))) && i@ == img && m@ == (match fields.1 {
                        Some(name) => name,
                        None => active_model@,
                    })
                } else {
                    res matches Some(Err(e)) && is_api_error(
                        e,
                        BAD_REQUEST,
                        "NO_IMAGE"@,
                        "No image file provided"@,
                    )
                },
                None => res matches Some(Err(e)) && is_api_error(
                    e,
                    BAD_REQUEST,
                    "NO_IMAGE"@,
                    "No image file provided"@,
                ),
            },
        },
{
    let boundary = extract_boundary(content_type);
    if boundary.as_str().is_empty() {
        return Some(Err(missing_boundary_error()));
    }
    let fields = match parse_multipart_body(body, boundary.as_str()) {
        Some(f) => f,
        None => {
            return None;
        },
    };
    let image = match multipart_image(fields.image) {
        Ok(i) => i,
        Err(e) => {
            return Some(Err(e));
        },
    };
    let model = choose_model(fields.model, active_model);
    Some(Ok((image, model)))
}

/// A data URI and the plain base64 text it carries give the decoder the
/// same text: for a header without commas that mentions `base64`, the
/// image field `header,payload` and the field `payload` alone are read
/// alike (when the payload has no comma).
pub proof fn law_data_uri_same_as_plain(header: Seq<char>, payload: Seq<char>)
    requires
        forall|j: int| 0 <= j < header.len() ==> header[j] != ',',
        forall|j: int| 0 <= j < payload.len() ==> payload[j] != ',',
        contains_seq(header, "base64"@),
    ensures
        base64_payload(header + seq![','] + payload) == Some(payload),
        base64_payload(payload) == Some(payload),
{
    let s = header + seq![','] + payload;
    crate::text::lemma_first_index(s, ',', header.len() as int);
    crate::text::lemma_first_index(payload, ',', payload.len() as int);
    assert(s.take(header.len() as int) =~= header);
    assert(s.skip(header.len() as int + 1) =~= payload);
}

/// Removing white space from two texts one after the other removes it
/// from each.
proof fn lemma_remove_white_space_concat(a: Seq<char>, b: Seq<char>)
    ensures
        remove_white_space(a + b) == remove_white_space(a) + remove_white_space(b),
    decreases b.len(),
{
    if b.len() == 0 {
        assert(a + b =~= a);
        assert(remove_white_space(a) + remove_white_space(b) =~= remove_white_space(a));
    } else {
        assert((a + b).drop_last() =~= a + b.drop_last());
        assert((a + b).last() == b.last());
        lemma_remove_white_space_concat(a, b.drop_last());
        if !is_white_space(b.last()) {
            assert(remove_white_space(a + b) =~= remove_white_space(a) + remove_white_space(b));
        }
    }
}

/// Text without white space is kept whole; text of white space alone
/// vanishes.
proof fn lemma_remove_white_space_extremes(s: Seq<char>)
    ensures
        (forall|j: int| 0 <= j < s.len() ==> !is_white_space(#[trigger] s[j])) ==> remove_white_space(s) == s,
        (forall|j: int| 0 <= j < s.len() ==> is_white_space(#[trigger] s[j])) ==> remove_white_space(s) == Seq::<char>::empty(),
    decreases s.len(),
{
    if s.len() > 0 {
        lemma_remove_white_space_extremes(s.drop_last());
        if forall|j: int| 0 <= j < s.len() ==> !is_white_space(#[trigger] s[j]) {
            assert(forall|j: int| 0 <= j < s.drop_last().len() ==> !is_white_space(#[trigger] s.drop_last()[j])) by {
                assert forall|j: int| 0 <= j < s.drop_last().len() implies !is_white_space(#[trigger] s.drop_last()[j]) by {
                    assert(s.drop_last()[j] == s[j]);
                }
            }
            assert(!is_white_space(s[s.len() - 1]));
            assert(s.drop_last().push(s.last()) =~= s);
        }
        if forall|j: int| 0 <= j < s.len() ==> is_white_space(#[trigger] s[j]) {
            assert(forall|j: int| 0 <= j < s.drop_last().len() ==> is_white_space(#[trigger] s.drop_last()[j])) by {
                assert forall|j: int| 0 <= j < s.drop_last().len() implies is_white_space(#[trigger] s.drop_last()[j]) by {
                    assert(s.drop_last()[j] == s[j]);
                }
            }
            assert(is_white_space(s[s.len() - 1]));
        }
    }
}

/// Trimming before removing white space changes nothing.
proof fn lemma_remove_white_space_trim(s: Seq<char>)
    ensures
        remove_white_space(trim_seq(s)) == remove_white_space(s),
{
    lemma_remove_white_space_trim_start(s);
    lemma_remove_white_space_trim_end(trim_start_seq(s));
}

proof fn lemma_remove_white_space_trim_start(s: Seq<char>)
    ensures
        remove_white_space(trim_start_seq(s)) == remove_white_space(s),
    decreases s.len(),
{
    if s.len() > 0 && is_white_space(s[0]) {
        lemma_remove_white_space_trim_start(s.drop_first());
        let head = s.take(1);
        assert(head + s.drop_first() =~= s);
        lemma_remove_white_space_concat(head, s.drop_first());
        lemma_remove_white_space_extremes(head);
        assert(Seq::<char>::empty() + remove_white_space(s.drop_first()) =~= remove_white_space(s.drop_first()));
    }
}

proof fn lemma_remove_white_space_trim_end(s: Seq<char>)
    ensures
        remove_white_space(trim_end_seq(s)) == remove_white_space(s),
    decreases s.len(),
{
    if s.len() > 0 && is_white_space(s.last()) {
        lemma_remove_white_space_trim_end(s.drop_last());
    }
}

/// Base64 image text is read alike on its own, inside a data URI and with
/// white space anywhere in it: for base64 text `before + after` (no white
/// space, no comma) that the decoder turns into `data`, inserting the white
/// space `ws` between the two halves and wrapping the result in a data URI
/// whose header mentions `base64` both hand the decoder that same text, so
/// `parse_base64_image` gives `data` in every case.
pub proof fn law_base64_image_text(
    data: Seq<u8>,
    header: Seq<char>,
    before: Seq<char>,
    ws: Seq<char>,
    after: Seq<char>,
)
    requires
        base64_standard_decode(vstd::utf8::encode_utf8(before + after)) == Some(data),
        forall|j: int|
            0 <= j < (before + after).len() ==> !is_white_space(#[trigger] (before + after)[j]) && (
            before + after)[j] != ',',
        forall|j: int| 0 <= j < ws.len() ==> is_white_space(#[trigger] ws[j]),
        forall|j: int| 0 <= j < header.len() ==> header[j] != ',',
        contains_seq(header, "base64"@),
    ensures
        base64_payload(before + ws + after) == Some(before + ws + after),
        base64_payload(header + seq![','] + (before + ws + after)) == Some(before + ws + after),
        base64_standard_decode(base64_cleaned(before + ws + after)) == Some(data),
{
    let x = before + ws + after;
    assert forall|j: int| 0 <= j < x.len() implies x[j] != ',' by {
        if j < before.len() {
            assert(x[j] == (before + after)[j]);
        } else if j < before.len() + ws.len() {
            assert(x[j] == ws[j - before.len()]);
        } else {
            assert(x[j] == (before + after)[j - ws.len()]);
        }
    }
    law_data_uri_same_as_plain(header, x);
    assert forall|j: int| 0 <= j < before.len() implies !is_white_space(#[trigger] before[j]) by {
        assert(before[j] == (before + after)[j]);
    }
    assert forall|j: int| 0 <= j < after.len() implies !is_white_space(#[trigger] after[j]) by {
        assert(after[j] == (before + after)[before.len() + j]);
    }
    lemma_remove_white_space_extremes(before);
    lemma_remove_white_space_extremes(ws);
    lemma_remove_white_space_extremes(after);
    lemma_remove_white_space_concat(before, ws);
    lemma_remove_white_space_concat(before + ws, after);
    lemma_remove_white_space_trim(x);
    assert(remove_white_space(x) =~= before + after);
}

} // verus!
