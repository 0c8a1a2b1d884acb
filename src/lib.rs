//! Ingestion of uploaded images: filename normalization, per-source
//! extraction of image payloads, per-item outcome accounting and the
//! placement of derived thumbnails.

pub mod file_utils;
pub mod text;
pub mod http_handlers;
pub mod thumbnail;
