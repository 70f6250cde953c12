//! The MinerU cloud API client's logic: endpoint URLs, checks on the
//! replies of each step, the decisions of the polling loops and picking the
//! requested format out of a result archive. Network transfers happen
//! elsewhere; these functions take what came back.
//!
//! Flash extract (no token): submit the file name, upload the file to the
//! signed URL, poll the task, download the Markdown. Extract (with token):
//! request upload URLs for a batch, upload, poll the batch, download the
//! result archive and take the requested format out of it.

use vstd::prelude::*;
use vstd::string::*;
use crate::codec::{base64_encode, base64_standard_encode};
use crate::paths::{extension_of, is_portable_path, portable_extension};
use crate::text::{chars_of, concat_str, decimal, ends_with_str, has_prefix, has_suffix, i64_to_decimal, signed_decimal, str_eq, to_owned_string, u64_to_decimal};
use crate::zipfile::{zip_archive_read, zip_entries, zip_entry_bytes, zip_entry_header, zip_entry_text, zip_len, zip_open, ZipEntryView, ZipReadError};

verus! {

/// The MinerU service used when no base URL is configured.
pub open spec fn default_base_url() -> Seq<char> {
    "https://mineru.net"@
}

/// `s` without its trailing `c` characters, as `str::trim_end_matches`
/// with a `char` gives it.
pub open spec fn trim_end_char(s: Seq<char>, c: char) -> Seq<char>
    decreases s.len(),
{
    if s.len() > 0 && s.last() == c {
        trim_end_char(s.drop_last(), c)
    } else {
        s
    }
}

/// The base URL a client uses: the configured one when it is given and not
/// empty, else the default one, without trailing slashes.
pub open spec fn client_base_url(base_url: Option<Seq<char>>) -> Seq<char> {
    trim_end_char(
        match base_url {
            Some(u) => if u.len() > 0 {
                u
            } else {
                default_base_url()
            },
            None => default_base_url(),
        },
        '/',
    )
}

/// MinerU API client.
pub struct MineruClient {
    token: String,
    base_url: String,
}

impl View for MineruClient {
    /// The API token (empty when none) and the base URL.
    type V = (Seq<char>, Seq<char>);

    closed spec fn view(&self) -> (Seq<char>, Seq<char>) {
        (self.token@, self.base_url@)
    }
}

/// Result of a MinerU extraction.
#[derive(Debug, Clone)]
pub struct MineruResult {
    pub content: String,
    pub format: String,
    pub total_time_ms: u64,
}

impl MineruClient {
    /// A client with the API token `token` (empty when none) for the
    /// service at `base_url`; an absent or empty base URL means the default
    /// service, and trailing slashes are dropped.
    pub fn new(token: String, base_url: Option<String>) -> (res: Self)
        ensures
            res@.0 == token@,
            res@.1 == client_base_url(
                match base_url {
                    Some(u) => Some(u@),
                    None => None,
                },
            ),
    {
        let chosen = match base_url {
            Some(u) => if !u.as_str().is_empty() {
                u
            } else {
                to_owned_string("https://mineru.net")
            },
            None => to_owned_string("https://mineru.net"),
        };
        proof {
            reveal_strlit("");
        }
        let cs = chars_of(chosen.as_str());
        let mut end = cs.len();
        assert(cs@.subrange(0, end as int) =~= cs@);
        while end > 0 && cs[end - 1] == '/'
            invariant
                end <= cs@.len(),
                trim_end_char(cs@.subrange(0, end as int), '/') == trim_end_char(cs@, '/'),
            decreases end,
        {
            assert(cs@.subrange(0, end as int).drop_last() =~= cs@.subrange(0, end - 1));
            end = end - 1;
        }
        let base = crate::text::string_from_chars(vstd::slice::slice_subrange(cs.as_slice(), 0, end));
        MineruClient { token, base_url: base }
    }

    /// Whether an API token is configured.
    pub fn has_token(&self) -> (res: bool)
        ensures
            res == (self@.0.len() > 0),
    {
        !self.token.as_str().is_empty()
    }

    /// The `Authorization` header value: `Bearer ` and the token.
    pub fn auth_header(&self) -> (res: String)
        ensures
            res@ == "Bearer "@ + self@.0,
    {
        concat_str("Bearer ", self.token.as_str())
    }

    /// The endpoint that starts a flash extraction.
    pub fn flash_submit_url(&self) -> (res: String)
        ensures
            res@ == self@.1 + "/api/v1/agent/parse/file"@,
    {
        concat_str(self.base_url.as_str(), "/api/v1/agent/parse/file")
    }

    /// The endpoint that reports on the flash extraction task `task_id`.
    pub fn flash_poll_url(&self, task_id: &str) -> (res: String)
        ensures
            res@ == self@.1 + "/api/v1/agent/parse/"@ + task_id@,
    {
        let u = concat_str(self.base_url.as_str(), "/api/v1/agent/parse/");
        concat_str(u.as_str(), task_id)
    }

    /// The endpoint that hands out upload URLs for a batch.
    pub fn batch_url(&self) -> (res: String)
        ensures
            res@ == self@.1 + "/api/v4/file-urls/batch"@,
    {
        concat_str(self.base_url.as_str(), "/api/v4/file-urls/batch")
    }

    /// The endpoint that reports the results of the batch `batch_id`.
    pub fn batch_poll_url(&self, batch_id: &str) -> (res: String)
        ensures
            res@ == self@.1 + "/api/v4/extract-results/batch/"@ + batch_id@,
    {
        let u = concat_str(self.base_url.as_str(), "/api/v4/extract-results/batch/");
        concat_str(u.as_str(), batch_id)
    }

    /// Extraction with a token is only possible when one is configured.
    pub fn require_token(&self) -> (res: Result<(), String>)
        ensures
            res is Ok <==> self@.0.len() > 0,
            res matches Err(m) ==> m@
                == "MinerU extract requires an API token. Configure it in settings."@,
    {
        if !self.has_token() {
            return Err(
                to_owned_string("MinerU extract requires an API token. Configure it in settings."),
            );
        }
        Ok(())
    }
}

/// The largest file that flash extraction accepts: 10 MiB.
pub const FLASH_MAX_FILE_BYTES: usize = 10485760;

/// Checks a file's size for flash extraction.
pub fn check_flash_file_size(len: usize) -> (res: Result<(), String>)
    ensures
        res is Ok <==> len <= FLASH_MAX_FILE_BYTES,
        res matches Err(m) ==> m@ == "Flash extract: file exceeds 10MB limit"@,
{
    if len > FLASH_MAX_FILE_BYTES {
        return Err(to_owned_string("Flash extract: file exceeds 10MB limit"));
    }
    Ok(())
}

/// The first `max_len` bytes of `s`, or all of `s` when it is shorter.
pub fn truncate_str(s: &str, max_len: usize) -> (res: &str)
    requires
        s.spec_bytes().len() <= usize::MAX,
        s.spec_bytes().len() <= max_len || vstd::utf8::is_char_boundary(
            s.spec_bytes(),
            max_len as int,
        ),
    ensures
        s.spec_bytes().len() <= max_len ==> res@ == s@,
        s.spec_bytes().len() > max_len ==> res.spec_bytes() == s.spec_bytes().subrange(
            0,
            max_len as int,
        ),
{
    if s.len() <= max_len {
        s
    } else {
        let (head, _) = s.split_at(max_len);
        head
    }
}

/// What the `data` field of an API reply held.
#[derive(Debug, Clone)]
pub enum Payload<T> {
    /// The field is missing or null.
    Absent,
    /// The field does not have the expected shape; the text says why.
    Invalid(String),
    /// The field's content.
    Present(T),
}

/// The envelope of every MinerU API reply.
#[derive(Debug, Clone)]
pub struct ApiEnvelope<T> {
    pub code: i32,
    pub msg: Option<String>,
    pub data: Payload<T>,
}

/// Reply data of a flash extraction request.
#[derive(Debug, Clone)]
pub struct FlashSubmitData {
    pub task_id: String,
    pub file_url: String,
}

/// Reply data of a flash extraction status request.
#[derive(Debug, Clone)]
pub struct FlashPollData {
    pub state: String,
    pub err_msg: Option<String>,
    pub err_code: Option<i32>,
    pub markdown_url: Option<String>,
}

/// Reply data of a batch upload URL request.
#[derive(Debug, Clone)]
pub struct BatchResponse {
    pub batch_id: String,
    pub file_urls: Vec<String>,
}

/// The state of one file of a batch.
#[derive(Debug, Clone)]
pub struct BatchResultItem {
    pub file_name: String,
    pub state: String,
    pub err_msg: Option<String>,
    pub full_zip_url: Option<String>,
}

/// Reply data of a batch results request.
#[derive(Debug, Clone)]
pub struct BatchResultData {
    pub extract_result: Vec<BatchResultItem>,
}

/// The characters of an optional text, empty when it is absent.
pub open spec fn text_or_empty(t: Option<String>) -> Seq<char> {
    match t {
        Some(s) => s@,
        None => Seq::empty(),
    }
}

/// The text of the first 200 bytes of a reply body, or of all of it when
/// it is shorter.
pub open spec fn body_excerpt(body: &str) -> Seq<char> {
    if body.spec_bytes().len() <= 200 {
        body@
    } else {
        vstd::utf8::decode_utf8(body.spec_bytes().subrange(0, 200))
    }
}

/// A reply body can be cut after 200 bytes without splitting a character.
pub open spec fn excerpt_ok(body: &str) -> bool {
    body.spec_bytes().len() <= 200 || vstd::utf8::is_char_boundary(body.spec_bytes(), 200)
}

fn optional_text(t: &Option<String>) -> (res: String)
    ensures
        res@ == text_or_empty(*t),
{
    match t {
        Some(s) => s.clone(),
        None => {
            proof {
                reveal_strlit("");
            }
            to_owned_string("")
        },
    }
}

/// Checks the HTTP status of a request step's reply: a status outside 2xx
/// fails with `label`, the status and the start of the body.
pub fn check_reply_status(status: u16, body: &str, label: &str) -> (res: Result<(), String>)
    requires
        body.spec_bytes().len() <= usize::MAX,
        200 <= status < 300 || excerpt_ok(body),
    ensures
        res is Ok <==> 200 <= status < 300,
        res matches Err(m) ==> m@ == label@ + " HTTP "@ + decimal(status as nat) + ": "@
            + body_excerpt(body),
{
    if 200 <= status && status < 300 {
        return Ok(());
    }
    let excerpt = truncate_str(body, 200);
    proof {
        vstd::utf8::encode_utf8_decode_utf8(excerpt@);
    }
    let m = concat_str(label, " HTTP ");
    let code = u64_to_decimal(status as u64);
    let m = concat_str(m.as_str(), code.as_str());
    let m = concat_str(m.as_str(), ": ");
    Err(concat_str(m.as_str(), excerpt))
}

/// Checks the status of an upload: a status outside 2xx fails with `label`
/// and the status.
pub fn check_upload_status(status: u16, label: &str) -> (res: Result<(), String>)
    ensures
        res is Ok <==> 200 <= status < 300,
        res matches Err(m) ==> m@ == label@ + " HTTP "@ + decimal(status as nat),
{
    if 200 <= status && status < 300 {
        return Ok(());
    }
    let m = concat_str(label, " HTTP ");
    let code = u64_to_decimal(status as u64);
    Err(concat_str(m.as_str(), code.as_str()))
}

/// Checks the status of a download: anything but 200 fails with `label` and
/// the status.
pub fn check_download_status(status: u16, label: &str) -> (res: Result<(), String>)
    ensures
        res is Ok <==> status == 200,
        res matches Err(m) ==> m@ == label@ + " HTTP "@ + decimal(status as nat),
{
    if status == 200 {
        return Ok(());
    }
    let m = concat_str(label, " HTTP ");
    let code = u64_to_decimal(status as u64);
    Err(concat_str(m.as_str(), code.as_str()))
}

/// Takes the data out of a request step's reply: a reply that could not be
/// parsed, one with a non-zero code, one without data and one whose data
/// has the wrong shape each fail with their own message after `label`.
pub fn envelope_data<T>(envelope: Result<ApiEnvelope<T>, String>, label: &str, data_label: &str) -> (res:
    Result<T, String>)
    ensures
        match envelope {
            Err(e) => res matches Err(m) && m@ == label@ + " parse response: "@ + e@,
            Ok(env) => if env.code != 0 {
                res matches Err(m) && m@ == label@ + " API error: "@ + text_or_empty(env.msg)
            } else {
                match env.data {
                    Payload::Absent => res matches Err(m) && m@ == label@
                        + ": no data in response"@,
                    Payload::Invalid(e) => res matches Err(m) && m@ == label@ + " "@ + data_label@
                        + ": "@ + e@,
                    Payload::Present(d) => res == Ok::<T, String>(d),
                }
            },
        },
{
    match envelope {
        Err(e) => {
            let m = concat_str(label, " parse response: ");
            Err(concat_str(m.as_str(), e.as_str()))
        },
        Ok(env) => {
            if env.code != 0 {
                let m = concat_str(label, " API error: ");
                let msg = optional_text(&env.msg);
                return Err(concat_str(m.as_str(), msg.as_str()));
            }
            match env.data {
                Payload::Absent => Err(concat_str(label, ": no data in response")),
                Payload::Invalid(e) => {
                    let m = concat_str(label, " ");
                    let m = concat_str(m.as_str(), data_label);
                    let m = concat_str(m.as_str(), ": ");
                    Err(concat_str(m.as_str(), e.as_str()))
                },
                Payload::Present(d) => Ok(d),
            }
        },
    }
}

/// The URL to upload a batch's file to: the first one handed out.
pub fn first_upload_url(batch: &BatchResponse) -> (res: Result<String, String>)
    ensures
        batch.file_urls@.len() > 0 ==> (res matches Ok(u) && u@ == batch.file_urls@[0]@),
        batch.file_urls@.len() == 0 ==> (res matches Err(m) && m@
            == "MinerU batch: no upload URL returned"@),
{
    if batch.file_urls.len() == 0 {
        return Err(to_owned_string("MinerU batch: no upload URL returned"));
    }
    Ok(batch.file_urls[0].clone())
}

/// What one status request of a polling loop brought back.
#[derive(Debug)]
pub enum PollReply<T> {
    /// The request could not be made; the text says why.
    RequestFailed(String),
    /// The reply body could not be read; the text says why.
    ReadFailed(String),
    /// A reply with this status and this body, parsed (or the parser's
    /// complaint).
    Received { status: u16, envelope: Result<ApiEnvelope<T>, String> },
}

/// What a polling loop does next.
#[derive(Debug, Clone)]
pub enum PollStep {
    /// Wait and ask again.
    KeepPolling,
    /// The result is ready at this URL.
    Ready(String),
    /// Give up with this message.
    Fail(String),
}

/// The meaning of a poll step: `None` to keep polling, `Some(Ok(url))` when
/// the result is at `url`, `Some(Err(message))` to give up.
pub open spec fn step_view(step: PollStep) -> Option<Result<Seq<char>, Seq<char>>> {
    match step {
        PollStep::KeepPolling => None,
        PollStep::Ready(u) => Some(Ok(u@)),
        PollStep::Fail(m) => Some(Err(m@)),
    }
}

/// The next step of a flash extraction's polling loop after one reply:
/// transport, read and parse errors give up; a status other than 200, a
/// non-zero code or missing or malformed data keep polling; a task that is
/// "done" yields its Markdown URL (and gives up when there is none), a
/// "failed" one gives up with its code and message, any other state keeps
/// polling.
pub open spec fn flash_poll_spec(reply: PollReply<FlashPollData>) -> Option<Result<Seq<char>, Seq<char>>> {
    match reply {
        PollReply::RequestFailed(e) => Some(Err("MinerU flash poll failed: "@ + e@)),
        PollReply::ReadFailed(e) => Some(Err("MinerU flash poll read: "@ + e@)),
        PollReply::Received { status, envelope } => if status != 200 {
            None
        } else {
            match envelope {
                Err(e) => Some(Err("MinerU flash poll parse: "@ + e@)),
                Ok(env) => if env.code != 0 {
                    None
                } else {
                    match env.data {
                        Payload::Present(d) => if d.state@ == "done"@ {
                            match d.markdown_url {
                                Some(u) => Some(Ok(u@)),
                                None => Some(Err("MinerU flash: no markdown URL"@)),
                            }
                        } else if d.state@ == "failed"@ {
                            Some(
                                Err(
                                    "MinerU flash extract failed ("@ + signed_decimal(
                                        match d.err_code {
                                            Some(c) => c as int,
                                            None => 0,
                                        },
                                    ) + "): "@ + text_or_empty(d.err_msg),
                                ),
                            )
                        } else {
                            None
                        },
                        _ => None,
                    }
                },
            }
        },
    }
}

/// The reply is a well-formed report on the task: status 200, code 0 and
/// task data.
pub open spec fn flash_task_reported(reply: PollReply<FlashPollData>) -> bool {
    match reply {
        PollReply::Received { status, envelope: Ok(env) } => status == 200 && env.code == 0
            && env.data is Present,
        _ => false,
    }
}

/// The state that a well-formed report gives the task.
pub open spec fn flash_task_state(reply: PollReply<FlashPollData>) -> Seq<char> {
    match reply {
        PollReply::Received { envelope: Ok(env), .. } => match env.data {
            Payload::Present(d) => d.state@,
            _ => Seq::empty(),
        },
        _ => Seq::empty(),
    }
}

/// A well-formed report on a task that is neither "done" nor "failed"
/// (waiting for its file, uploading, pending, running, ...).
pub open spec fn flash_task_unfinished(reply: PollReply<FlashPollData>) -> bool {
    flash_task_reported(reply) && flash_task_state(reply) != "done"@ && flash_task_state(reply)
        != "failed"@
}

/// Polling goes on while the task is unfinished: a well-formed report whose
/// state is neither "done" nor "failed" never ends the loop.
pub proof fn law_flash_polling_waits_for_unfinished_tasks(reply: PollReply<FlashPollData>)
    ensures
        flash_task_unfinished(reply) ==> flash_poll_spec(reply) is None,
{
}

/// After a well-formed report, polling gives up only for a task that is
/// "failed" (or "done" without a result URL); and a "failed" task always
/// gives up with the service's error code and message.
pub proof fn law_flash_gives_up_only_on_failed_or_done(reply: PollReply<FlashPollData>)
    ensures
        flash_task_reported(reply) && (flash_poll_spec(reply) matches Some(Err(_))) ==> (
        flash_task_state(reply) == "failed"@ || flash_task_state(reply) == "done"@),
        flash_task_reported(reply) && flash_task_state(reply) == "failed"@ ==> (flash_poll_spec(
            reply,
        ) matches Some(Err(m)) && has_prefix(m, "MinerU flash extract failed ("@)),
{
    reveal_strlit("done");
    reveal_strlit("failed");
    assert("done"@ != "failed"@) by {
        assert("done"@[0] != "failed"@[0]);
    }
    if flash_task_reported(reply) && flash_task_state(reply) == "failed"@ {
        if let PollReply::Received { envelope: Ok(env), .. } = reply {
            if let Payload::Present(d) = env.data {
                let code = match d.err_code {
                    Some(c) => c as int,
                    None => 0,
                };
                let m = "MinerU flash extract failed ("@ + signed_decimal(code) + "): "@
                    + text_or_empty(d.err_msg);
                assert(m.take(("MinerU flash extract failed ("@).len() as int) =~= "MinerU flash extract failed ("@);
            }
        }
    }
}

/// Decides the next step of a flash extraction's polling loop.
pub fn flash_poll_step(reply: PollReply<FlashPollData>) -> (res: PollStep)
    ensures
        step_view(res) == flash_poll_spec(reply),
        flash_task_unfinished(reply) ==> res is KeepPolling,
        res is Fail && flash_task_reported(reply) ==> flash_task_state(reply) == "failed"@
            || flash_task_state(reply) == "done"@,
{
    proof {
        law_flash_polling_waits_for_unfinished_tasks(reply);
        law_flash_gives_up_only_on_failed_or_done(reply);
    }
    match reply {
        PollReply::RequestFailed(e) => PollStep::Fail(concat_str("MinerU flash poll failed: ", e.as_str())),
        PollReply::ReadFailed(e) => PollStep::Fail(concat_str("MinerU flash poll read: ", e.as_str())),
        PollReply::Received { status, envelope } => {
            if status != 200 {
                return PollStep::KeepPolling;
            }
            let env = match envelope {
                Err(e) => {
                    return PollStep::Fail(concat_str("MinerU flash poll parse: ", e.as_str()));
                },
                Ok(env) => env,
            };
            if env.code != 0 {
                return PollStep::KeepPolling;
            }
            let d = match env.data {
                Payload::Present(d) => d,
                _ => {
                    return PollStep::KeepPolling;
                },
            };
            if str_eq(d.state.as_str(), "done") {
                match d.markdown_url {
                    Some(u) => PollStep::Ready(u),
                    None => PollStep::Fail(to_owned_string("MinerU flash: no markdown URL")),
                }
            } else if str_eq(d.state.as_str(), "failed") {
                let code: i64 = match d.err_code {
                    Some(c) => c as i64,
                    None => 0,
                };
                let m = concat_str("MinerU flash extract failed (", i64_to_decimal(code).as_str());
                let m = concat_str(m.as_str(), "): ");
                let msg = optional_text(&d.err_msg);
                PollStep::Fail(concat_str(m.as_str(), msg.as_str()))
            } else {
                PollStep::KeepPolling
            }
        },
    }
}

/// What the items of a batch's results decide: the first item that is
/// "done" with a result archive gives its URL, the first "failed" item gives
/// up (whichever comes first); items that are done without an archive, and
/// items in any other state, are passed over.
pub open spec fn batch_items_spec(items: Seq<BatchResultItem>) -> Option<Result<Seq<char>, Seq<char>>>
    decreases items.len(),
{
    if items.len() == 0 {
        None
    } else if items[0].state@ == "done"@ && items[0].full_zip_url is Some {
        Some(Ok(items[0].full_zip_url->0@))
    } else if items[0].state@ == "failed"@ {
        Some(
            Err(
                "MinerU extract failed for '"@ + items[0].file_name@ + "': "@ + text_or_empty(
                    items[0].err_msg,
                ),
            ),
        )
    } else {
        batch_items_spec(items.drop_first())
    }
}

/// The next step of an extraction's batch polling loop after one reply:
/// every failure to get or read a well-formed successful reply keeps
/// polling; otherwise the items decide.
pub open spec fn batch_poll_spec(reply: PollReply<BatchResultData>) -> Option<Result<Seq<char>, Seq<char>>> {
    match reply {
        PollReply::Received { status, envelope } => if status != 200 {
            None
        } else {
            match envelope {
                Ok(env) => if env.code != 0 {
                    None
                } else {
                    match env.data {
                        Payload::Present(d) => batch_items_spec(d.extract_result@),
                        _ => None,
                    }
                },
                Err(_) => None,
            }
        },
        _ => None,
    }
}

/// Decides the next step of an extraction's batch polling loop.
pub fn batch_poll_step(reply: PollReply<BatchResultData>) -> (res: PollStep)
    ensures
        step_view(res) == batch_poll_spec(reply),
{
    let items = match reply {
        PollReply::Received { status, envelope } => {
            if status != 200 {
                return PollStep::KeepPolling;
            }
            match envelope {
                Ok(env) => {
                    if env.code != 0 {
                        return PollStep::KeepPolling;
                    }
                    match env.data {
                        Payload::Present(d) => d.extract_result,
                        _ => {
                            return PollStep::KeepPolling;
                        },
                    }
                },
                Err(_) => {
                    return PollStep::KeepPolling;
                },
            }
        },
        _ => {
            return PollStep::KeepPolling;
        },
    };
    let ghost all = items@;
    let mut i: usize = 0;
    assert(all.skip(0) =~= all);
    while i < items.len()
        invariant
            all == items@,
            batch_poll_spec(reply) == batch_items_spec(all),
            i <= all.len(),
            batch_items_spec(all) == batch_items_spec(all.skip(i as int)),
        decreases all.len() - i,
    {
        let item = &items[i];
        assert(all.skip(i as int)[0] == *item);
        assert(all.skip(i as int).drop_first() =~= all.skip(i + 1));
        if str_eq(item.state.as_str(), "done") {
            match &item.full_zip_url {
                Some(u) => {
                    return PollStep::Ready(u.clone());
                },
                None => {},
            }
        }
        if str_eq(item.state.as_str(), "failed") {
            let m = concat_str("MinerU extract failed for '", item.file_name.as_str());
            let m = concat_str(m.as_str(), "': ");
            let msg = optional_text(&item.err_msg);
            return PollStep::Fail(concat_str(m.as_str(), msg.as_str()));
        }
        i = i + 1;
    }
    PollStep::KeepPolling
}

/// The message when a flash extraction does not finish in time.
pub fn flash_timeout_message() -> (res: String)
    ensures
        res@ == "MinerU flash extract timed out"@,
{
    to_owned_string("MinerU flash extract timed out")
}

/// The message when a batch does not finish in time.
pub fn batch_timeout_message() -> (res: String)
    ensures
        res@ == "MinerU extract timed out waiting for batch results"@,
{
    to_owned_string("MinerU extract timed out waiting for batch results")
}

/// The file extension of the requested output format; unknown formats
/// mean Markdown.
pub open spec fn target_extension_spec(format: Seq<char>) -> &'static str {
    if format == "md"@ || format == "markdown"@ {
        "md"
    } else if format == "html"@ {
        "html"
    } else if format == "latex"@ || format == "tex"@ {
        "tex"
    } else if format == "docx"@ {
        "docx"
    } else if format == "json"@ {
        "json"
    } else {
        "md"
    }
}

/// The file extension of the requested output format.
pub fn target_extension(format: &str) -> (res: &'static str)
    ensures
        res == target_extension_spec(format@),
{
    if str_eq(format, "md") || str_eq(format, "markdown") {
        "md"
    } else if str_eq(format, "html") {
        "html"
    } else if str_eq(format, "latex") || str_eq(format, "tex") {
        "tex"
    } else if str_eq(format, "docx") {
        "docx"
    } else if str_eq(format, "json") {
        "json"
    } else {
        "md"
    }
}

/// Whether the entry named `name` is taken: on the first pass, when its
/// extension is `target` or its name ends with `.` and `target`; on the
/// fallback pass, when its name ends with `full.md` or `.md`.
pub open spec fn entry_selected(name: Seq<char>, target: Seq<char>, fallback: bool) -> bool {
    if fallback {
        has_suffix(name, "full.md"@) || has_suffix(name, ".md"@)
    } else {
        has_suffix(name, seq!['.'] + target) || (is_portable_path(name) && portable_extension(name)
            == Some(target))
    }
}

/// Every operating system takes the same entry on a pass that starts at
/// `from`: the fallback pass always; the first pass when every entry it
/// looks at before stopping either ends with `.` and the target (so it is
/// taken on every system) or has a portable name (see `is_portable_path`),
/// whose extension every system reads alike.
pub open spec fn selection_known(
    entries: Seq<ZipEntryView>,
    from: int,
    target: Seq<char>,
    fallback: bool,
) -> bool
    decreases entries.len() - from,
{
    if fallback || from < 0 || from >= entries.len() {
        true
    } else {
        match entries[from] {
            None => true,
            Some(e) => has_suffix(e.0, seq!['.'] + target) || (is_portable_path(e.0)
                && selection_known(entries, from + 1, target, fallback)),
        }
    }
}

/// The first entry at or after `from` that is taken, as a scan of the
/// archive finds it: `None` when an entry that cannot be located comes
/// first, `Some(None)` when no entry is taken.
pub open spec fn first_selected(
    entries: Seq<ZipEntryView>,
    from: int,
    target: Seq<char>,
    fallback: bool,
) -> Option<Option<int>>
    decreases entries.len() - from,
{
    if from < 0 || from >= entries.len() {
        Some(None)
    } else {
        match entries[from] {
            None => None,
            Some(e) => if entry_selected(e.0, target, fallback) {
                Some(Some(from))
            } else {
                first_selected(entries, from + 1, target, fallback)
            },
        }
    }
}

/// What reading the entry `e` gives: its bytes as base64 text for DOCX,
/// otherwise its bytes read as UTF-8 text; `None` when they cannot be read
/// (or are not UTF-8 where text is read).
pub open spec fn read_content(e: ZipEntryView, docx: bool) -> Option<Seq<char>> {
    match e {
        Some(t) => match t.2 {
            Some(b) => if docx {
                Some(base64_standard_encode(b))
            } else if vstd::utf8::valid_utf8(b) {
                Some(vstd::utf8::decode_utf8(b))
            } else {
                None
            },
            None => None,
        },
        None => None,
    }
}

/// The fallback pass: the text of the first entry whose name ends with
/// `full.md` or `.md`. `None` marks a read error, `Some(None)` no content.
pub open spec fn fallback_content(entries: Seq<ZipEntryView>) -> Option<Option<Seq<char>>> {
    match first_selected(entries, 0, Seq::empty(), true) {
        None => None,
        Some(Some(j)) => match read_content(entries[j], false) {
            None => None,
            Some(c) => if c.len() > 0 {
                Some(Some(c))
            } else {
                Some(None)
            },
        },
        Some(None) => Some(None),
    }
}

/// `content` is what reading some entry of `entries` gives, as text or as
/// base64 text.
pub open spec fn content_of_some_entry(content: Seq<char>, entries: Seq<ZipEntryView>) -> bool {
    exists|j: int|
        0 <= j < entries.len() && (read_content(#[trigger] entries[j], true) == Some(content)
            || read_content(entries[j], false) == Some(content))
}

/// What a MinerU result archive with the entries `entries` gives for the
/// requested `format`: the content of the first entry taken on the first
/// pass (base64 text for DOCX), else, when there is none or it is empty,
/// the text of the first Markdown entry. `None` marks a read error,
/// `Some(None)` that no content was found.
pub open spec fn format_content_spec(entries: Seq<ZipEntryView>, format: Seq<char>) -> Option<
    Option<Seq<char>>,
> {
    let target = target_extension_spec(format)@;
    match first_selected(entries, 0, target, false) {
        None => None,
        Some(Some(i)) => match read_content(entries[i], target == "docx"@) {
            None => None,
            Some(c) => if c.len() > 0 {
                Some(Some(c))
            } else {
                fallback_content(entries)
            },
        },
        Some(None) => fallback_content(entries),
    }
}

/// The message for a failure to read `what` from a result archive:
/// `MinerU read `, `what`, a colon and the reader's description.
fn read_error(what: &str, detail: &str) -> (res: String)
    ensures
        res@ == "MinerU read "@ + what@ + ": "@ + detail@,
        has_prefix(res@, "MinerU read "@),
{
    let rest = concat_str(what, ": ");
    let rest = concat_str(rest.as_str(), detail);
    let m = concat_str("MinerU read ", rest.as_str());
    assert(m@.take(("MinerU read "@).len() as int) =~= "MinerU read "@);
    assert(m@ =~= "MinerU read "@ + what@ + ": "@ + detail@);
    m
}

/// Scans the archive for the first entry that is taken (see
/// `entry_selected`); `dotted` is `.` followed by `target`.
fn find_entry(
    archive: &mut zip::ZipArchive<std::io::Cursor<Vec<u8>>>,
    target: &str,
    dotted: &str,
    fallback: bool,
) -> (res: Result<Option<usize>, String>)
    requires
        target@.len() > 0,
        dotted@ == seq!['.'] + target@,
    ensures
        zip_entries(*final(archive)) == zip_entries(*old(archive)),
        res matches Ok(Some(j)) ==> j < zip_entries(*old(archive)).len(),
        selection_known(
            zip_entries(*old(archive)),
            0,
            if fallback {
                Seq::empty()
            } else {
                target@
            },
            fallback,
        ) ==> match first_selected(
            zip_entries(*old(archive)),
            0,
            if fallback {
                Seq::empty()
            } else {
                target@
            },
            fallback,
        ) {
            None => res matches Err(m) && has_prefix(m@, "MinerU read "@),
            Some(None) => res matches Ok(None),
            Some(Some(k)) => res matches Ok(Some(j)) && j == k,
        },
{
    let ghost entries = zip_entries(*archive);
    let ghost t = if fallback {
        Seq::<char>::empty()
    } else {
        target@
    };
    let n = zip_len(archive);
    let full_md = to_owned_string("full.md");
    let md = to_owned_string(".md");
    proof {
        reveal_strlit("");
        reveal_strlit("full.md");
        reveal_strlit(".md");
    }
    let mut i: usize = 0;
    while i < n
        invariant
            zip_entries(*archive) == entries,
            entries == zip_entries(*old(archive)),
            n == entries.len(),
            i <= n,
            target@.len() > 0,
            dotted@ == seq!['.'] + target@,
            full_md@ == "full.md"@,
            md@ == ".md"@,
            t == (if fallback {
                Seq::<char>::empty()
            } else {
                target@
            }),
            selection_known(entries, 0, t, fallback) ==> (selection_known(entries, i as int, t, fallback)
                && first_selected(entries, 0, t, fallback) == first_selected(
                entries,
                i as int,
                t,
                fallback,
            )),
        decreases n - i,
    {
        let (name, _is_dir) = match zip_entry_header(archive, i) {
            Ok(h) => h,
            Err(e) => {
                return Err(read_error("zip entry", e.as_str()));
            },
        };
        let selected = if fallback {
            ends_with_str(name.as_str(), full_md.as_str()) || ends_with_str(name.as_str(), md.as_str())
        } else {
            let ext = extension_of(name.as_str());
            let same_ext = match &ext {
                Some(x) => str_eq(x.as_str(), target),
                None => false,
            };
            same_ext || ends_with_str(name.as_str(), dotted)
        };
        proof {
            if selection_known(entries, i as int, t, fallback) {
                assert(selected == entry_selected(name@, t, fallback));
            }
        }
        if selected {
            return Ok(Some(i));
        }
        i = i + 1;
    }
    Ok(None)
}

/// Reads the content of entry `i`: base64 text of its bytes for DOCX,
/// otherwise its text; `what` names the content in the error message.
fn read_entry_content(
    archive: &mut zip::ZipArchive<std::io::Cursor<Vec<u8>>>,
    i: usize,
    docx: bool,
    what: &str,
) -> (res: Result<String, String>)
    requires
        i < zip_entries(*old(archive)).len(),
    ensures
        zip_entries(*final(archive)) == zip_entries(*old(archive)),
        match read_content(zip_entries(*old(archive))[i as int], docx) {
            None => res matches Err(m) && has_prefix(m@, "MinerU read "@),
            Some(c) => res matches Ok(r) && r@ == c,
        },
{
    let ghost e = zip_entries(*archive)[i as int];
    if docx {
        match zip_entry_bytes(archive, i) {
            Ok(b) => Ok(base64_encode(b.as_slice())),
            Err(ZipReadError::Entry(x)) => Err(read_error("zip entry", x.as_str())),
            Err(ZipReadError::Read(x)) => Err(read_error(what, x.as_str())),
        }
    } else {
        match zip_entry_text(archive, i) {
            Ok(text) => {
                proof {
                    vstd::utf8::encode_utf8_valid_utf8(text@);
                    vstd::utf8::encode_utf8_decode_utf8(text@);
                }
                Ok(text)
            },
            Err(ZipReadError::Entry(x)) => Err(read_error("zip entry", x.as_str())),
            Err(ZipReadError::Read(x)) => Err(read_error(what, x.as_str())),
        }
    }
}

/// Takes the requested format out of a MinerU result archive. The first
/// entry whose extension is the format's, or whose name ends with a dot
/// and that extension, is read (a DOCX file as base64 text, anything else
/// as UTF-8 text). When there is no such entry or its content is empty,
/// the first entry whose name ends with `.md` is read as text instead.
/// Empty content is an error. The result is exactly `format_content_spec`
/// whenever every system takes the same entry on the first pass (see
/// `selection_known`): in particular when the first entry ending with `.`
/// and the extension comes before any entry whose name is not portable.
/// Otherwise an earlier non-portable name may or may not count as having
/// the extension, depending on the operating system, and only what holds
/// of either choice is stated.
pub fn extract_format_from_zip(zip_data: Vec<u8>, format: &str) -> (res: Result<String, String>)
    ensures
        zip_archive_read(zip_data@) is None ==> (res matches Err(m) && has_prefix(
            m@,
            "MinerU open result zip: "@,
        )),
        res matches Ok(c) ==> c@.len() > 0 && (zip_archive_read(zip_data@) matches Some(entries)
            && content_of_some_entry(c@, entries)),
        zip_archive_read(zip_data@) matches Some(entries) && entries.len() == 0 ==> (res matches Err(
            m,
        ) && m@ == "MinerU: no "@ + format@ + " content found in result zip"@),
        zip_archive_read(zip_data@) matches Some(entries) ==> (selection_known(
            entries,
            0,
            target_extension_spec(format@)@,
            false,
        ) ==> match format_content_spec(entries, format@) {
            None => res matches Err(m) && has_prefix(m@, "MinerU read "@),
            Some(None) => res matches Err(m) && m@ == "MinerU: no "@ + format@
                + " content found in result zip"@,
            Some(Some(c)) => res matches Ok(r) && r@ == c,
        }),
{
    let ghost data = zip_data@;
    let target = target_extension(format);
    let mut archive = match zip_open(zip_data) {
        Ok(a) => a,
        Err(e) => {
            let m = concat_str("MinerU open result zip: ", e.as_str());
            assert(m@.take(("MinerU open result zip: "@).len() as int) =~= "MinerU open result zip: "@);
            return Err(m);
        },
    };
    let ghost entries = zip_entries(archive);
    proof {
        reveal_strlit("md");
        reveal_strlit("html");
        reveal_strlit("tex");
        reveal_strlit("docx");
        reveal_strlit("json");
        reveal_strlit(".");
        reveal_strlit(".md");
    }
    let docx = str_eq(target, "docx");
    let dotted = concat_str(".", target);
    assert(dotted@ =~= seq!['.'] + target@);
    let first = find_entry(&mut archive, target, dotted.as_str(), false)?;
    if let Some(i) = first {
        let content = read_entry_content(&mut archive, i, docx, if docx {
            "docx"
        } else {
            "text"
        })?;
        if !content.as_str().is_empty() {
            assert(read_content(entries[i as int], docx) == Some(content@));
            return Ok(content);
        }
    }
    assert(".md"@ =~= seq!['.'] + "md"@);
    let second = find_entry(&mut archive, "md", ".md", true)?;
    if let Some(j) = second {
        let text = read_entry_content(&mut archive, j, false, "md")?;
        if !text.as_str().is_empty() {
            assert(read_content(entries[j as int], false) == Some(text@));
            return Ok(text);
        }
    }
    let m = concat_str("MinerU: no ", format);
    Err(concat_str(m.as_str(), " content found in result zip"))
}

/// Trimming trailing `c` leaves nothing, or something that does not end
/// with `c`, and trimming again changes nothing.
pub proof fn lemma_trim_end_char(s: Seq<char>, c: char)
    ensures
        trim_end_char(s, c).len() == 0 || trim_end_char(s, c).last() != c,
        trim_end_char(trim_end_char(s, c), c) == trim_end_char(s, c),
    decreases s.len(),
{
    if s.len() > 0 && s.last() == c {
        lemma_trim_end_char(s.drop_last(), c);
    }
}

/// A client's base URL never ends with a slash, so endpoint paths can be
/// appended to it directly.
pub proof fn law_base_url_has_no_trailing_slash(base_url: Option<Seq<char>>)
    ensures
        client_base_url(base_url).len() == 0 || client_base_url(base_url).last() != '/',
{
    let chosen = match base_url {
        Some(u) => if u.len() > 0 {
            u
        } else {
            default_base_url()
        },
        None => default_base_url(),
    };
    lemma_trim_end_char(chosen, '/');
}

/// Configuring a client with the base URL another client settled on gives
/// that same base URL again, unless it was empty.
pub proof fn law_base_url_stable(base_url: Option<Seq<char>>)
    requires
        client_base_url(base_url).len() > 0,
    ensures
        client_base_url(Some(client_base_url(base_url))) == client_base_url(base_url),
{
    let chosen = match base_url {
        Some(u) => if u.len() > 0 {
            u
        } else {
            default_base_url()
        },
        None => default_base_url(),
    };
    lemma_trim_end_char(chosen, '/');
}

/// `item` is "done" and its result archive is at `url`.
pub open spec fn item_ready_with(item: BatchResultItem, url: Seq<char>) -> bool {
    item.state@ == "done"@ && item.full_zip_url is Some && item.full_zip_url->0@ == url
}

/// A batch is only ever reported ready with the archive URL of an item
/// that is "done".
pub proof fn law_batch_ready_from_done_item(items: Seq<BatchResultItem>)
    ensures
        batch_items_spec(items) matches Some(Ok(url)) ==> exists|k: int|
            0 <= k < items.len() && item_ready_with(#[trigger] items[k], url),
    decreases items.len(),
{
    if items.len() > 0 {
        if items[0].state@ == "done"@ && items[0].full_zip_url is Some {
        } else if items[0].state@ == "failed"@ {
        } else {
            law_batch_ready_from_done_item(items.drop_first());
            if let Some(Ok(url)) = batch_items_spec(items) {
                let k = choose|k: int|
                    0 <= k < items.drop_first().len() && item_ready_with(
                        #[trigger] items.drop_first()[k],
                        url,
                    );
                assert(items[k + 1] == items.drop_first()[k]);
            }
        }
    }
}

} // verus!
