//! Model management: which models exist, where they live, whether they are
//! installed, where to download them from and which files of a downloaded
//! archive to keep.

use vstd::prelude::*;
use crate::paths::{file_name_of, is_joined, is_plain_base, is_plain_component, is_portable_path, is_separator, join_path, path_exists, portable_file_name, PathCheck};
use crate::text::{chars_of, concat_str, has_prefix, replace_chars, replace_seq, str_eq, string_from_chars, to_owned_string};
use crate::zipfile::{zip_archive_read, zip_entries, zip_entry_bytes, zip_entry_header, zip_len, zip_open, ZipEntryView, ZipReadError};

verus! {

/// A model as the model list shows it.
#[derive(Debug, Clone)]
pub struct ModelInfo {
    pub name: String,
    pub display_name: String,
    pub size: String,
    pub installed: bool,
    /// The model's directory, when the model is installed.
    pub path: Option<String>,
}

/// Lists, locates and installs the OCR models under one directory.
#[derive(Debug, Clone)]
pub struct ModelManager {
    models_dir: String,
}

impl View for ModelManager {
    type V = Seq<char>;

    /// The directory that holds one sub-directory per model.
    closed spec fn view(&self) -> Seq<char> {
        self.models_dir@
    }
}

/// The models, in the order in which they are listed.
pub open spec fn model_names() -> Seq<Seq<char>> {
    seq!["ppocr-v4"@, "ppocr-v5"@, "ppocr-v6"@]
}

/// Their display names, in the same order.
pub open spec fn model_display_names() -> Seq<Seq<char>> {
    seq!["PaddleOCR V4"@, "PaddleOCR V5"@, "PaddleOCR V6"@]
}

/// A PaddleOCR model counts as installed when its detection network and
/// its recognition network are both present; the classifier and the
/// dictionary are optional.
pub fn files_installed(detection: bool, recognition: bool) -> (res: bool)
    ensures
        res == (detection && recognition),
{
    detection && recognition
}

/// What the installation check of a model directory found: the answers
/// for its detection and recognition networks, and whether the model is
/// installed.
pub struct InstallCheck {
    pub detection: PathCheck,
    pub recognition: PathCheck,
    pub installed: bool,
}

/// `check` asked about `detection.onnx` and `recognition.onnx` in the
/// directory `dir`, and found the model installed exactly when both exist.
pub open spec fn checked_in(check: InstallCheck, dir: Seq<char>) -> bool {
    &&& is_joined(dir, "detection.onnx"@, check.detection.path@)
    &&& is_joined(dir, "recognition.onnx"@, check.recognition.path@)
    &&& check.installed == (check.detection.exists && check.recognition.exists)
}

/// Checks the PaddleOCR model files in the directory `dir`: asks the file
/// system about its `detection.onnx` and `recognition.onnx` and counts the
/// model installed when both exist (the classifier and the dictionary are
/// optional). The answers depend on the file system at the time of the
/// call; the contract states which paths they belong to and how they
/// decide.
pub fn check_ppocr_files(dir: &str) -> (res: InstallCheck)
    ensures
        is_plain_base(dir@) ==> checked_in(res, dir@),
        res.installed == (res.detection.exists && res.recognition.exists),
{
    let (det, rec, _cls) = model_file_paths(dir);
    let detection = path_exists(det.as_str());
    let recognition = path_exists(rec.as_str());
    let installed = files_installed(detection.exists, recognition.exists);
    InstallCheck { detection, recognition, installed }
}

/// Whether the PaddleOCR model files exist in the directory `dir`: the
/// outcome of `check_ppocr_files`. It depends on the file system at the
/// time of the call, so the contract states nothing of the result.
pub fn is_ppocr_installed_at(dir: &str) -> bool {
    check_ppocr_files(dir).installed
}

/// `check` examined the directory of the model `name` under `models_dir`:
/// the model's name joined onto the models directory.
pub open spec fn checked_model_dir(check: InstallCheck, models_dir: Seq<char>, name: Seq<char>) -> bool {
    exists|dir: Seq<char>| is_joined(models_dir, name, dir) && #[trigger] checked_in(check, dir)
}

/// Checks the files of the model `name` in its own directory under
/// `models_dir`.
pub fn check_model_install(models_dir: &str, name: &str) -> (res: InstallCheck)
    ensures
        is_plain_base(models_dir@) && is_plain_component(name@) ==> checked_model_dir(
            res,
            models_dir@,
            name@,
        ),
        res.installed == (res.detection.exists && res.recognition.exists),
{
    let dir = join_path(models_dir, name);
    let res = check_ppocr_files(dir.as_str());
    proof {
        if is_plain_base(models_dir@) && is_plain_component(name@) {
            assert(name@.len() > 0 && name@.last() != '\\' && name@.last() != '/');
            assert(dir@.last() == name@.last());
            assert(forall|i: int| 0 <= i < dir@.len() ==> dir@[i] != ':') by {
                assert forall|i: int| 0 <= i < dir@.len() implies dir@[i] != ':' by {
                    if i < models_dir@.len() {
                        assert(dir@[i] == models_dir@[i]);
                    } else if dir@.len() - name@.len() <= i {
                        assert(dir@[i] == name@[i - (dir@.len() - name@.len())]);
                    }
                }
            }
            if models_dir@.len() == 0 {
                assert(dir@ == name@);
                assert(!is_separator(name@[0]));
            } else if models_dir@.len() >= 2 {
                assert(dir@[0] == models_dir@[0] && dir@[1] == models_dir@[1]);
            } else {
                assert(dir@[0] == models_dir@[0]);
                assert(dir@[1] != '\\' || !is_separator(dir@[0]));
            }
            assert(is_plain_base(dir@));
            assert(checked_in(res, dir@));
        }
    }
    res
}

/// The list entry of one model, given whether it is installed and its
/// directory.
pub fn model_info(name: &str, display_name: &str, dir: String, installed: bool) -> (res: ModelInfo)
    ensures
        res.name@ == name@,
        res.display_name@ == display_name@,
        res.size@ == "~20MB"@,
        res.installed == installed,
        installed ==> (res.path matches Some(p) && p@ == dir@),
        !installed ==> res.path is None,
{
    ModelInfo {
        name: to_owned_string(name),
        display_name: to_owned_string(display_name),
        size: to_owned_string("~20MB"),
        installed,
        path: if installed {
            Some(dir)
        } else {
            None
        },
    }
}

impl ModelManager {
    /// A manager for the models under `models_dir`.
    pub fn new(models_dir: String) -> (res: Self)
        ensures
            res@ == models_dir@,
    {
        ModelManager { models_dir }
    }

    /// The directory of the model `name`: `name` joined onto the models
    /// directory.
    pub fn model_dir(&self, name: &str) -> (res: String)
        ensures
            is_plain_component(name@) && is_plain_base(self@) ==> is_joined(
                self@,
                name@,
                res@,
            ),
    {
        join_path(self.models_dir.as_str(), name)
    }

    /// Lists the three PaddleOCR models in order (V4, V5, V6), each with
    /// whether its files are installed and, if so, its directory: the
    /// model's name joined onto the models directory. The installation
    /// checks come with the list, one per model: each examined that
    /// model's own directory, and the model is listed as installed exactly
    /// when its check found it installed.
    pub fn list_models_checked(&self) -> (res: (Vec<ModelInfo>, Vec<InstallCheck>))
        ensures
            res.0@.len() == 3,
            res.1@.len() == 3,
            forall|i: int|
                0 <= i < 3 ==> {
                    &&& (#[trigger] res.0@[i]).name@ == model_names()[i]
                    &&& res.0@[i].display_name@ == model_display_names()[i]
                    &&& res.0@[i].size@ == "~20MB"@
                    &&& (res.0@[i].path is Some <==> res.0@[i].installed)
                    &&& res.0@[i].installed == res.1@[i].installed
                    &&& res.1@[i].installed == (res.1@[i].detection.exists
                        && res.1@[i].recognition.exists)
                    &&& (is_plain_base(self@) && res.0@[i].path is Some) ==> is_joined(
                        self@,
                        model_names()[i],
                        res.0@[i].path->0@,
                    )
                    &&& is_plain_base(self@) ==> checked_model_dir(
                        res.1@[i],
                        self@,
                        model_names()[i],
                    )
                },
    {
        proof {
            reveal_strlit("ppocr-v4");
            reveal_strlit("ppocr-v5");
            reveal_strlit("ppocr-v6");
        }
        let mut infos: Vec<ModelInfo> = Vec::new();
        let mut checks: Vec<InstallCheck> = Vec::new();
        let v4 = self.model_dir("ppocr-v4");
        let c4 = check_model_install(self.models_dir.as_str(), "ppocr-v4");
        infos.push(model_info("ppocr-v4", "PaddleOCR V4", v4, c4.installed));
        checks.push(c4);
        let v5 = self.model_dir("ppocr-v5");
        let c5 = check_model_install(self.models_dir.as_str(), "ppocr-v5");
        infos.push(model_info("ppocr-v5", "PaddleOCR V5", v5, c5.installed));
        checks.push(c5);
        let v6 = self.model_dir("ppocr-v6");
        let c6 = check_model_install(self.models_dir.as_str(), "ppocr-v6");
        infos.push(model_info("ppocr-v6", "PaddleOCR V6", v6, c6.installed));
        checks.push(c6);
        (infos, checks)
    }

    /// Lists the three PaddleOCR models in order (V4, V5, V6), each with
    /// whether its files are installed and, if so, its directory: the
    /// model's name joined onto the models directory. This is the list of
    /// `list_models_checked`.
    pub fn list_models(&self) -> (res: Vec<ModelInfo>)
        ensures
            res@.len() == 3,
            forall|i: int|
                0 <= i < 3 ==> {
                    &&& (#[trigger] res@[i]).name@ == model_names()[i]
                    &&& res@[i].display_name@ == model_display_names()[i]
                    &&& res@[i].size@ == "~20MB"@
                    &&& (res@[i].path is Some <==> res@[i].installed)
                    &&& (is_plain_base(self@) && res@[i].path is Some) ==> is_joined(
                        self@,
                        model_names()[i],
                        res@[i].path->0@,
                    )
                },
    {
        let (infos, _checks) = self.list_models_checked();
        infos
    }
}

/// The download URLs for `model`: each template with every `{model}`
/// replaced by the model's name.
pub open spec fn expanded_urls(templates: Seq<Seq<char>>, model: Seq<char>) -> Seq<Seq<char>> {
    templates.map_values(|t: Seq<char>| replace_seq(t, "{model}"@, model))
}

/// Expands the download URL templates for `model`, keeping their order.
pub fn expand_url_templates(templates: &Vec<String>, model: &str) -> (res: Vec<String>)
    ensures
        res.deep_view() == expanded_urls(templates.deep_view(), model@),
{
    let pattern = chars_of("{model}");
    let name = chars_of(model);
    proof {
        reveal_strlit("{model}");
    }
    let mut res: Vec<String> = Vec::new();
    let mut i: usize = 0;
    while i < templates.len()
        invariant
            pattern@ == "{model}"@,
            pattern@.len() == 7,
            name@ == model@,
            i <= templates@.len(),
            res.deep_view() == expanded_urls(templates.deep_view(), model@).take(i as int),
        decreases templates@.len() - i,
    {
        let t = chars_of(templates[i].as_str());
        let r = replace_chars(t.as_slice(), pattern.as_slice(), name.as_slice());
        let url = string_from_chars(r.as_slice());
        let ghost before = res.deep_view();
        res.push(url);
        assert(templates.deep_view()[i as int] == templates@[i as int]@);
        assert(res.deep_view() =~= before.push(url@));
        assert(res.deep_view() =~= expanded_urls(templates.deep_view(), model@).take(i + 1));
        i = i + 1;
    }
    assert(expanded_urls(templates.deep_view(), model@).take(i as int) =~= expanded_urls(
        templates.deep_view(),
        model@,
    ));
    res
}

/// The files of a model archive that are kept.
pub open spec fn is_model_file_spec(name: Seq<char>) -> bool {
    name == "detection.onnx"@ || name == "recognition.onnx"@ || name == "cls.onnx"@ || name
        == "dict.txt"@
}

/// Whether a file of a model archive is kept.
pub fn is_model_file(name: &str) -> (res: bool)
    ensures
        res == is_model_file_spec(name@),
{
    str_eq(name, "detection.onnx") || str_eq(name, "recognition.onnx") || str_eq(name, "cls.onnx")
        || str_eq(name, "dict.txt")
}

/// Whether an HTTP status code reports success (2xx).
pub fn http_success(status: u16) -> (res: bool)
    ensures
        res == (200 <= status < 300),
{
    200 <= status && status < 300
}

/// The message when every download mirror failed; `last_error` describes
/// the last failure.
pub fn mirrors_failed_message(last_error: &str) -> (res: String)
    ensures
        res@ == "All download mirrors failed. Last error: "@ + last_error@
            + ". Please check your network connection."@,
{
    let m = concat_str("All download mirrors failed. Last error: ", last_error);
    concat_str(m.as_str(), ". Please check your network connection.")
}

/// What the model download does next.
#[derive(Debug, Clone)]
pub enum DownloadStep {
    /// Download the archive from this URL.
    Download(String),
    /// Install the files of the downloaded archive.
    Extract,
    /// Give up with this message.
    Fail(String),
}

/// Decides the next step of a model download over the mirror URLs `urls`,
/// which are tried in order: `tried` attempts have been made and `last` is
/// the outcome of the last one. A success moves on to extraction; a
/// failure moves on to the next mirror, and after the last mirror gives up
/// with the last error. With no mirror at all there is nothing to download.
pub fn next_download_step(urls: &Vec<String>, tried: usize, last: Option<Result<(), String>>) -> (res:
    DownloadStep)
    requires
        tried <= urls@.len(),
    ensures
        last is None && tried < urls@.len() ==> (res matches DownloadStep::Download(u) && u@
            == urls@[tried as int]@),
        last is None && tried == urls@.len() ==> res is Extract,
        last matches Some(Ok(_)) ==> res is Extract,
        last is Some && last->0 is Err && tried < urls@.len() ==> (res matches DownloadStep::Download(
            u,
        ) && u@ == urls@[tried as int]@),
        last matches Some(Err(e)) ==> (tried == urls@.len() ==> (res matches DownloadStep::Fail(m)
            && m@ == "All download mirrors failed. Last error: "@ + e@
            + ". Please check your network connection."@)),
{
    match last {
        Some(Ok(())) => DownloadStep::Extract,
        Some(Err(e)) => {
            if tried < urls.len() {
                DownloadStep::Download(urls[tried].clone())
            } else {
                DownloadStep::Fail(mirrors_failed_message(e.as_str()))
            }
        },
        None => {
            if tried < urls.len() {
                DownloadStep::Download(urls[tried].clone())
            } else {
                DownloadStep::Extract
            }
        },
    }
}

/// `e` is a readable file entry (not a directory) whose bytes are `content`.
pub open spec fn is_file_entry_with(e: ZipEntryView, content: Seq<u8>) -> bool {
    e matches Some(t) && !t.1 && t.2 == Some(content)
}

/// Every one of `files` carries a model file's name and the bytes of some
/// file entry of `entries`.
pub open spec fn model_files_from(files: Seq<(String, Vec<u8>)>, entries: Seq<ZipEntryView>) -> bool {
    forall|k: int|
        0 <= k < files.len() ==> is_model_file_spec((#[trigger] files[k]).0@) && exists|j: int|
            0 <= j < entries.len() && is_file_entry_with(#[trigger] entries[j], files[k].1@)
}

/// Every entry of an archive can be located and its content read.
pub open spec fn all_entries_readable(entries: Seq<ZipEntryView>) -> bool {
    forall|j: int| 0 <= j < entries.len() ==> (#[trigger] entries[j] matches Some(t) && t.2 is Some)
}

/// The entries of an archive all have portable names (see
/// `is_portable_path`), which every operating system reads alike.
pub open spec fn portable_names(entries: Seq<ZipEntryView>) -> bool {
    forall|j: int|
        0 <= j < entries.len() ==> (#[trigger] entries[j] matches Some(t) ==> is_portable_path(t.0))
}

/// The model file that an archive entry named `name` installs: its file
/// name, when that is one of the model files.
pub open spec fn model_file_name(name: Seq<char>) -> Option<Seq<char>> {
    match portable_file_name(name) {
        Some(f) => if is_model_file_spec(f) {
            Some(f)
        } else {
            None
        },
        None => None,
    }
}

/// What the model archive reader makes of `entries`: `None` where an entry
/// cannot be located or a model file's content cannot be read; otherwise,
/// in archive order, the file name and bytes of every non-directory entry
/// whose file name is a model file.
pub open spec fn model_files_spec(entries: Seq<ZipEntryView>) -> Option<Seq<(Seq<char>, Seq<u8>)>>
    decreases entries.len(),
{
    if entries.len() == 0 {
        Some(Seq::empty())
    } else {
        match model_files_spec(entries.drop_last()) {
            None => None,
            Some(fs) => match entries.last() {
                None => None,
                Some(t) => if !t.1 && model_file_name(t.0) is Some {
                    match t.2 {
                        Some(b) => Some(fs.push((model_file_name(t.0)->0, b))),
                        None => None,
                    }
                } else {
                    Some(fs)
                },
            },
        }
    }
}

/// An empty file name names no model file.
proof fn lemma_empty_name_is_no_model_file()
    ensures
        !is_model_file_spec(Seq::<char>::empty()),
{
    reveal_strlit("detection.onnx");
    reveal_strlit("recognition.onnx");
    reveal_strlit("cls.onnx");
    reveal_strlit("dict.txt");
    assert("detection.onnx"@.len() > 0);
    assert("recognition.onnx"@.len() > 0);
    assert("cls.onnx"@.len() > 0);
    assert("dict.txt"@.len() > 0);
}

/// The names and bytes of extracted files.
pub open spec fn files_view(files: Seq<(String, Vec<u8>)>) -> Seq<(Seq<char>, Seq<u8>)> {
    files.map_values(|f: (String, Vec<u8>)| (f.0@, f.1@))
}

/// Once a prefix of the entries fails, the whole archive fails.
proof fn lemma_model_files_failure_extends(entries: Seq<ZipEntryView>, i: int)
    requires
        0 <= i <= entries.len(),
        model_files_spec(entries.take(i)) is None,
    ensures
        model_files_spec(entries) is None,
    decreases entries.len() - i,
{
    if i == entries.len() {
        assert(entries.take(i) =~= entries);
    } else {
        assert(entries.take(i + 1).drop_last() =~= entries.take(i));
        lemma_model_files_failure_extends(entries, i + 1);
    }
}

/// The model files of a model archive: every non-directory entry whose
/// file name is one of the model files, with that file name and its bytes,
/// in archive order. It fails when the archive cannot be opened or an
/// entry cannot be read.
pub fn extract_model_files(archive_data: Vec<u8>) -> (res: Result<Vec<(String, Vec<u8>)>, String>)
    ensures
        zip_archive_read(archive_data@) is None ==> (res matches Err(m) && has_prefix(
            m@,
            "Read zip archive failed: "@,
        )),
        zip_archive_read(archive_data@) matches Some(entries) && all_entries_readable(entries)
            ==> res is Ok,
        zip_archive_read(archive_data@) matches Some(entries) && entries.len() == 0 ==> (
        res matches Ok(files) && files@.len() == 0),
        res matches Ok(files) ==> (zip_archive_read(archive_data@) matches Some(entries)
            && model_files_from(files@, entries)),
        zip_archive_read(archive_data@) matches Some(entries) ==> (portable_names(entries) ==> match model_files_spec(entries) {
            None => res is Err,
            Some(fs) => res matches Ok(files) && files_view(files@) == fs,
        }),
{
    let data = archive_data;
    let mut archive = match zip_open(data) {
        Ok(a) => a,
        Err(e) => {
            let m = concat_str("Read zip archive failed: ", e.as_str());
            assert(m@.take(("Read zip archive failed: "@).len() as int) =~= "Read zip archive failed: "@);
            return Err(m);
        },
    };
    let ghost entries = zip_entries(archive);
    let n = zip_len(&archive);
    let mut files: Vec<(String, Vec<u8>)> = Vec::new();
    let mut i: usize = 0;
    while i < n
        invariant
            zip_entries(archive) == entries,
            zip_archive_read(archive_data@) == Some(entries),
            n == entries.len(),
            i <= n,
            files@.len() <= i,
            model_files_from(files@, entries),
            portable_names(entries) ==> model_files_spec(entries.take(i as int)) == Some(
                files_view(files@),
            ),
        decreases n - i,
    {
        proof {
            assert(entries.take(i + 1).drop_last() =~= entries.take(i as int));
            assert(entries.take(i + 1).last() == entries[i as int]);
        }
        let (name, is_dir) = match zip_entry_header(&mut archive, i) {
            Ok(h) => h,
            Err(e) => {
                proof {
                    if portable_names(entries) {
                        lemma_model_files_failure_extends(entries, i + 1);
                    }
                }
                return Err(concat_str("Read zip entry failed: ", e.as_str()));
            },
        };
        proof {
            if portable_names(entries) {
                assert(entries[i as int] matches Some(t) ==> is_portable_path(t.0));
            }
        }
        if !is_dir {
            let found = file_name_of(name.as_str());
            let ghost found_view: Option<Seq<char>> = match &found {
                Some(f) => Some(f@),
                None => None,
            };
            proof {
                if portable_names(entries) {
                    assert(is_portable_path(name@));
                    assert(found_view == portable_file_name(name@));
                }
            }
            let file_name = match found {
                Some(f) => f,
                None => {
                    proof {
                        reveal_strlit("");
                    }
                    to_owned_string("")
                },
            };
            proof {
                reveal_strlit("");
                reveal_strlit("detection.onnx");
                reveal_strlit("recognition.onnx");
                reveal_strlit("cls.onnx");
                reveal_strlit("dict.txt");
                if portable_names(entries) {
                    assert(found_view matches Some(v) ==> file_name@ == v);
                    assert(found_view is None ==> file_name@ == Seq::<char>::empty());
                    lemma_empty_name_is_no_model_file();
                    let t = entries[i as int]->0;
                    assert(t.0 == name@ && t.1 == is_dir);
                    assert(is_portable_path(t.0));
                    assert(model_file_name(t.0) == if is_model_file_spec(file_name@) {
                        Some(file_name@)
                    } else {
                        None::<Seq<char>>
                    });
                }
            }
            if is_model_file(file_name.as_str()) {
                let content = match zip_entry_bytes(&mut archive, i) {
                    Ok(c) => c,
                    Err(ZipReadError::Entry(e)) => {
                        proof {
                            if portable_names(entries) {
                                lemma_model_files_failure_extends(entries, i + 1);
                            }
                        }
                        return Err(concat_str("Read zip entry failed: ", e.as_str()));
                    },
                    Err(ZipReadError::Read(e)) => {
                        proof {
                            if portable_names(entries) {
                                lemma_model_files_failure_extends(entries, i + 1);
                            }
                        }
                        return Err(concat_str("Read entry failed: ", e.as_str()));
                    },
                };
                let ghost prev = files@;
                files.push((file_name, content));
                assert(files_view(files@) =~= files_view(prev).push((file_name@, content@)));
                assert forall|k: int| 0 <= k < files@.len() implies is_model_file_spec(
                    (#[trigger] files@[k]).0@,
                ) && exists|j: int|
                    0 <= j < entries.len() && is_file_entry_with(#[trigger] entries[j], files@[k].1@) by {
                    if k == prev.len() {
                        assert(is_file_entry_with(entries[i as int], files@[k].1@));
                    } else {
                        assert(files@[k] == prev[k]);
                    }
                }
            }
        }
        i = i + 1;
    }
    assert(entries.take(n as int) =~= entries);
    assert(zip_archive_read(archive_data@) matches Some(es) && es == entries);
    Ok(files)
}

/// `t` holds no `{model}` placeholder.
pub open spec fn has_no_placeholder(t: Seq<char>) -> bool {
    forall|i: int| 0 <= i <= t.len() ==> !has_prefix(#[trigger] t.skip(i), "{model}"@)
}

/// Templates without a `{model}` placeholder are used as they are.
pub proof fn law_templates_without_placeholder_unchanged(templates: Seq<Seq<char>>, model: Seq<char>)
    requires
        forall|k: int| 0 <= k < templates.len() ==> has_no_placeholder(#[trigger] templates[k]),
    ensures
        expanded_urls(templates, model) == templates,
{
    reveal_strlit("{model}");
    assert forall|k: int| 0 <= k < templates.len() implies #[trigger] expanded_urls(
        templates,
        model,
    )[k] == templates[k] by {
        crate::text::lemma_replace_absent(templates[k], "{model}"@, model);
    }
    assert(expanded_urls(templates, model) =~= templates);
}

/// The size that a download announces in its `Content-Length` header: the
/// header's decimal value, or 0 when the header is absent or not a number.
pub fn content_length(header: Option<&str>) -> (res: u64)
    ensures
        res == (match header {
            Some(h) => match crate::text::parse_u64_spec(h@) {
                Some(v) => v,
                None => 0,
            },
            None => 0,
        }),
{
    match header {
        Some(h) => match crate::text::parse_u64(h) {
            Some(v) => v,
            None => 0,
        },
        None => 0,
    }
}

/// The paths of a model's detection, recognition and classification
/// networks inside its directory: `detection.onnx`, `recognition.onnx` and
/// `cls.onnx` joined onto `model_dir`.
pub fn model_file_paths(model_dir: &str) -> (res: (String, String, String))
    ensures
        is_plain_base(model_dir@) ==> {
            &&& is_joined(model_dir@, "detection.onnx"@, res.0@)
            &&& is_joined(model_dir@, "recognition.onnx"@, res.1@)
            &&& is_joined(model_dir@, "cls.onnx"@, res.2@)
        },
{
    proof {
        reveal_strlit("detection.onnx");
        reveal_strlit("recognition.onnx");
        reveal_strlit("cls.onnx");
    }
    (
        join_path(model_dir, "detection.onnx"),
        join_path(model_dir, "recognition.onnx"),
        join_path(model_dir, "cls.onnx"),
    )
}

} // verus!
