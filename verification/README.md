# filepreview_rust

A file preview service: it turns images, PDF files, videos and office
documents into a small image (gif, jpg or png), either at once or as a
background job whose status can be asked for.

- `src/` is the library, verified with Verus: how an input is read
  (URL, `data:` URL or base64 text, local path or `file://` URL), how a
  file's kind is detected, which checks the preview options pass, which
  external tools (ImageMagick, FFmpeg, unoconv) run with which
  arguments and in which order, what each tool's outcome means and when
  a plan of tools stops, how files are named, stored and served, how
  errors are answered, the store of background jobs with its status
  reports, and the course of a background job step by step
  (`src/workflow.rs`). `src/external.rs` holds the calls into the
  standard library and the outside crates, with the contracts the
  verified code relies on.
- `app/` is the HTTP server (axum): it reads requests, runs the tools
  and reports how each run ended, touches the file system, the clock
  and the network, and leaves every decision to the library.
- `tests/` runs the library on concrete values.
