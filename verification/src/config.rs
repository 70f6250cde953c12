//! Application configuration and its defaults.

use vstd::prelude::*;
use crate::paths::{is_joined, is_plain_base, join_path};
use crate::text::to_owned_string;

verus! {

/// Application configuration.
#[derive(Debug, Clone)]
pub struct AppConfig {
    /// Where the models are stored.
    pub model_path: String,
    /// The active OCR model: "ppocr-v4", "ppocr-v5" or "ppocr-v6".
    pub active_ocr_model: String,
    /// Whether the sidebar is collapsed.
    pub sidebar_collapsed: bool,
    /// The screenshot OCR shortcut, such as "Ctrl+Shift+O".
    pub ocr_screenshot_shortcut: String,
    /// Model download URL templates, tried in order; `{model}` stands for
    /// the model's name.
    pub model_download_urls: Vec<String>,
}

/// The default screenshot OCR shortcut.
pub open spec fn default_shortcut_spec() -> Seq<char> {
    "Ctrl+Shift+O"@
}

/// The default active OCR model.
pub open spec fn default_model_spec() -> Seq<char> {
    "ppocr-v6"@
}

/// The default model download URL templates, in the order they are tried.
pub open spec fn default_urls_spec() -> Seq<Seq<char>> {
    seq![
        "https://gitcode.com/tabortao/LynxOCR/releases/download/model/{model}.zip"@,
        "https://gitee.com/tabortao/LynxOCR/releases/download/model/{model}.zip"@,
        "https://code2tabor.s3.bitiful.net/PPOCR/{model}.zip"@,
    ]
}

/// The default screenshot OCR shortcut: "Ctrl+Shift+O".
pub fn default_ocr_screenshot_shortcut() -> (res: String)
    ensures
        res@ == default_shortcut_spec(),
{
    to_owned_string("Ctrl+Shift+O")
}

/// The default active OCR model: "ppocr-v6".
pub fn default_active_ocr_model() -> (res: String)
    ensures
        res@ == default_model_spec(),
{
    to_owned_string("ppocr-v6")
}

/// The default model download URL templates: three mirrors.
pub fn default_model_download_urls() -> (res: Vec<String>)
    ensures
        res.deep_view() == default_urls_spec(),
{
    let mut urls: Vec<String> = Vec::new();
    urls.push(
        to_owned_string("https://gitcode.com/tabortao/LynxOCR/releases/download/model/{model}.zip"),
    );
    urls.push(
        to_owned_string("https://gitee.com/tabortao/LynxOCR/releases/download/model/{model}.zip"),
    );
    urls.push(to_owned_string("https://code2tabor.s3.bitiful.net/PPOCR/{model}.zip"));
    assert(urls.deep_view() =~= default_urls_spec());
    urls
}

impl AppConfig {
    /// The configuration file's path inside the application data directory
    /// `app_data_dir`: `config.json` joined onto it.
    pub fn config_file_path(app_data_dir: &str) -> (res: String)
        ensures
            is_plain_base(app_data_dir@) ==> is_joined(app_data_dir@, "config.json"@, res@),
    {
        proof {
            reveal_strlit("config.json");
        }
        join_path(app_data_dir, "config.json")
    }

    /// The default configuration, with the models stored under
    /// `model_path`.
    pub fn with_model_path(model_path: String) -> (res: Self)
        ensures
            res.model_path@ == model_path@,
            res.active_ocr_model@ == default_model_spec(),
            !res.sidebar_collapsed,
            res.ocr_screenshot_shortcut@ == default_shortcut_spec(),
            res.model_download_urls.deep_view() == default_urls_spec(),
    {
        AppConfig {
            model_path,
            active_ocr_model: default_active_ocr_model(),
            sidebar_collapsed: false,
            ocr_screenshot_shortcut: default_ocr_screenshot_shortcut(),
            model_download_urls: default_model_download_urls(),
        }
    }

    /// The default configuration for the application data directory
    /// `app_data_dir`: models live in its `models` sub-directory.
    pub fn default_in(app_data_dir: &str) -> (res: Self)
        ensures
            is_plain_base(app_data_dir@) ==> is_joined(
                app_data_dir@,
                "models"@,
                res.model_path@,
            ),
            res.active_ocr_model@ == default_model_spec(),
            !res.sidebar_collapsed,
            res.ocr_screenshot_shortcut@ == default_shortcut_spec(),
            res.model_download_urls.deep_view() == default_urls_spec(),
    {
        proof {
            reveal_strlit("models");
        }
        AppConfig::with_model_path(join_path(app_data_dir, "models"))
    }
}

/// The shortcut to register: the configured one, or the default one when
/// none is configured.
pub fn effective_shortcut(configured: &str) -> (res: String)
    ensures
        configured@.len() == 0 ==> res@ == default_shortcut_spec(),
        configured@.len() > 0 ==> res@ == configured@,
{
    if configured.is_empty() {
        default_ocr_screenshot_shortcut()
    } else {
        to_owned_string(configured)
    }
}

} // verus!
