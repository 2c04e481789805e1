//! Converts the pages of a PDF document into PNG, JPEG or lossless WEBP images.
//!
//! The engine is bound, the document opened, the page checked, rendered, mapped
//! into the pixel model of the target format and encoded, each step with its
//! own error. Results of several pages are handed out in the order they were
//! asked for, whatever order they complete in.
use vstd::prelude::*;

pub mod encode;
pub mod engine;
pub mod error;
pub mod ordered;
pub mod pixels;
pub mod service;
pub mod shortener;

pub use encode::{encode_page, finish_encoding, format_name};
pub use engine::{acquire_pdfium, candidate_dirs, RenderConfig, Rotation};
pub use error::Error;
pub use ordered::OrderedResults;
pub use pixels::{build_page_image, PageImage, PixelModel, RawPage, ReportedFormat};
pub use service::{all_page_numbers, image_from_raw, receive, select_page, PdfService};
pub use shortener::{
    CommandHandler, QueryHandler, ShortLink, ShortenerError, Slug, Stats, Url,
    UrlShortenerService,
};

verus! {

/// The image format a page is encoded into.
#[derive(Clone, Copy, Debug, PartialEq, Eq, Structural)]
pub enum PageImageFormat {
    Jpeg,
    Png,
    Webp,
}

} // verus!
