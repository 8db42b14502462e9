//! Typed configuration builders and invocation planning for the Poppler
//! command-line tools (pdftotext, pdftohtml, pdfinfo, pdfimages, pdfunite,
//! pdfseparate).
//!
//! The library turns a per-tool configuration record into the exact ordered
//! argument list the tool expects, normalises a caller-supplied input (a file
//! path or an in-memory byte buffer) into an invocation plan, and maps a
//! finished child process's exit status and captured streams to a result.
//! Launching the child process itself is left to the embedding program.

pub mod decimal;
pub mod encode;
pub mod numeral;
pub mod pdf_images;
pub mod pdf_info;
pub mod pdf_separate;
pub mod pdf_to_html;
pub mod pdf_to_text;
pub mod pdf_unite;
pub mod utils;
