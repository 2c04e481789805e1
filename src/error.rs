//! The errors of page conversion.
use pdfium_render::prelude::PdfiumError;
use vstd::prelude::*;

verus! {

/// Every way a conversion can fail. Each variant that concerns one page carries
/// the file path and the page number; each one that concerns the whole document
/// carries the file path.
#[derive(Debug)]
pub enum Error {
    /// The requested page lies outside `1..=total`: (file, total pages, requested page).
    WrongPageSelect(String, u32, u32),
    /// The image cannot be viewed in the pixel model the target format needs: (file, page).
    Rgba8ConvertError(String, u32),
    /// The output buffer could not be finalised: (file, page).
    WriteBufferError(String, u32),
    /// The blocking task ended without handing its result back: (file).
    ChannelError(String),
    /// The engine library was found at none of the candidate directories:
    /// (the directories tried, in order, and the last binding error).
    PdfiumNotFound(Vec<String>, PdfiumError),
    /// The engine failed to open the document or to render a page.
    PdfiumError(PdfiumError),
    /// The codec failed to encode a page: (page, file, format name).
    ImageConvertingError(u32, String, String),
    /// The raw pixel bytes do not match the reported size and pixel format: (file, page).
    ExtractDynamicImageError(String, u32),
    /// A copied file did not settle in time: (file).
    FileTimeCopyError(String),
}

} // verus!
