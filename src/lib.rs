//! Turns an uploaded image into a document image that meets an exam's rules:
//! exact pixel dimensions, a target codec, and a ceiling on the encoded size.

pub mod config;
pub mod formatter;
pub mod imaging;
pub mod profiles;
pub mod quality;

pub use config::{Codec, DocumentFormat, DocumentKind, ExamConfig, ExamFormats, ProcessingOptions};
pub use formatter::{transcode, DocumentFormatter, FormatError};
pub use imaging::MAX_DIMENSION;
pub use profiles::{get_neet_config, get_upsc_config};
pub use quality::{next_quality, QUALITY_CEILING, QUALITY_FLOOR};
