# lynxocr

The core of LynxOCR, a desktop OCR application (PaddleOCR models run
locally, MinerU as a cloud option, screenshot OCR and a local HTTP API),
written in Verus: the functions in `src/` carry contracts that Verus
proves. Where a result depends on the file system or the operating system
(whether a model is installed, the separator a joined path gets), the
contract states what holds on every system, or nothing.

- `src/` — the verified library: HTTP API request handling (authentication,
  multipart and JSON bodies, base64 images, model validation, response
  bodies), configuration defaults, model listing and archive extraction,
  the MinerU client's URLs, reply checks and polling decisions, shortcut
  parsing, multi-monitor geometry, and the desktop application's decisions.
  Calls into `base64`, `zip` and `std` that the logic needs go through a few
  trusted wrappers (`codec.rs`, `zipfile.rs`, `paths.rs`, and two in
  `text.rs`), each documented with what its contract claims.
- `tests/` — tests of the library on concrete values.
- `app/` — the application around it: configuration files, downloads, the
  ONNX OCR engine, the axum server and the Tauri desktop shell.
