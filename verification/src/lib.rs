//! Verified core of the LynxOCR desktop application: request parsing and
//! validation for the HTTP API, configuration defaults, model management
//! decisions, the MinerU client's decision logic, shortcut parsing and
//! screen geometry.

pub mod bytes;
pub mod text;
pub mod shortcut;
pub mod multipart;
pub mod codec;
pub mod api;
pub mod paths;
pub mod zipfile;
pub mod model;
pub mod config;
pub mod mineru;
pub mod screen;
pub mod desktop;
