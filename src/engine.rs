//! Access to the PDFium rendering engine: binding the native library, opening
//! documents, counting and rendering pages.
use crate::error::Error;
use crate::pixels::{RawPage, ReportedFormat};
use pdfium_render::prelude::{
    PdfBitmap, PdfBitmapFormat, PdfDocument, PdfPage, PdfPageRenderRotation, PdfRenderConfig,
    Pdfium, PdfiumError,
};
use vstd::prelude::*;

verus! {

#[verifier::external_type_specification]
#[verifier::external_body]
pub struct ExPdfium(Pdfium);

#[verifier::external_type_specification]
#[verifier::external_body]
pub struct ExPdfiumError(PdfiumError);

#[verifier::external_type_specification]
#[verifier::external_body]
pub struct ExPdfDocument<'a>(PdfDocument<'a>);

#[verifier::external_type_specification]
#[verifier::external_body]
pub struct ExPdfRenderConfig(PdfRenderConfig);

#[verifier::external_type_specification]
#[verifier::external_body]
pub struct ExPdfPage<'a>(PdfPage<'a>);

#[verifier::external_type_specification]
#[verifier::external_body]
pub struct ExPdfBitmap<'a>(PdfBitmap<'a>);

/// A rendered bitmap with the size and pixel format the engine reports for it.
/// Only `render_bitmap` makes one, from the bitmap's own `width`, `height` and
/// `format`.
struct Rendered<'a> {
    bitmap: PdfBitmap<'a>,
    width: i32,
    height: i32,
    format: ReportedFormat,
}

/// A clockwise rotation applied while rendering.
#[derive(Clone, Copy, Debug, PartialEq, Eq, Structural)]
pub enum Rotation {
    Degrees0,
    Degrees90,
    Degrees180,
    Degrees270,
}

/// How pages are rendered: scaled to a target width, bounded by a maximum height,
/// and turned by a fixed rotation when the page is in landscape orientation.
#[derive(Clone, Copy, Debug, PartialEq, Eq, Structural)]
pub struct RenderConfig {
    pub target_width: i32,
    pub maximum_height: i32,
    pub landscape_rotation: Rotation,
}

/// The directories searched for the engine library, in order.
pub open spec fn candidate_dirs_spec() -> Seq<Seq<char>> {
    seq!["./libs/"@, "libs/"@]
}

/// The directories searched for the engine library, in order.
pub fn candidate_dirs() -> (r: Vec<String>)
    ensures
        r@.len() == candidate_dirs_spec().len(),
        r@.map_values(|d: String| d@) == candidate_dirs_spec(),
{
    let r = vec![String::from_str("./libs/"), String::from_str("libs/")];
    assert(r@.map_values(|d: String| d@) =~= candidate_dirs_spec());
    r
}

/// Relies on `Pdfium::pdfium_platform_library_name_at_path`, `Pdfium::bind_to_library`
/// and `Pdfium::new`: binds the engine library found in `dir`, or returns why it failed.
#[verifier::external_body]
fn bind_pdfium(dir: &str) -> (r: Result<Pdfium, PdfiumError>) {
    Pdfium::bind_to_library(Pdfium::pdfium_platform_library_name_at_path(dir)).map(Pdfium::new)
}

/// Relies on `Pdfium::load_pdf_from_file` without a password.
#[verifier::external_body]
fn load_document<'a>(pdfium: &'a Pdfium, path: &str) -> (r: Result<PdfDocument<'a>, PdfiumError>) {
    pdfium.load_pdf_from_file(path, None)
}

/// Relies on `PdfDocument::pages` and `PdfPages::len`: the number of pages of the document.
#[verifier::external_body]
pub(crate) fn document_page_count(document: &PdfDocument) -> (count: u16) {
    document.pages().len()
}

/// Relies on `PdfRenderConfig::new`, `set_target_width`, `set_maximum_height` and
/// `rotate_if_landscape` (with the rotation applied to the constraints too).
#[verifier::external_body]
fn pdfium_config(config: &RenderConfig) -> (r: PdfRenderConfig) {
    let rotation = match config.landscape_rotation {
        Rotation::Degrees0 => PdfPageRenderRotation::None,
        Rotation::Degrees90 => PdfPageRenderRotation::Degrees90,
        Rotation::Degrees180 => PdfPageRenderRotation::Degrees180,
        Rotation::Degrees270 => PdfPageRenderRotation::Degrees270,
    };
    PdfRenderConfig::new().set_target_width(config.target_width).set_maximum_height(
        config.maximum_height,
    ).rotate_if_landscape(rotation, true)
}

/// Relies on `PdfDocument::pages` and `PdfPages::get`: the page at zero-based `index`.
#[verifier::external_body]
fn document_page<'a>(document: &PdfDocument<'a>, index: u16) -> (r: Result<PdfPage<'a>, PdfiumError>) {
    document.pages().get(index)
}

/// Relies on `PdfPage::render_with_config`, then on the bitmap's `width`, `height`
/// and `format`.
#[verifier::external_body]
fn render_bitmap<'b>(page: &'b PdfPage, config: &PdfRenderConfig) -> (r: Result<
    Rendered<'b>,
    PdfiumError,
>) {
    let bitmap = page.render_with_config(config)?;
    #[allow(deprecated)]
    let format = match bitmap.format() {
        Ok(PdfBitmapFormat::Gray) => ReportedFormat::Gray,
        Ok(PdfBitmapFormat::BGR) => ReportedFormat::Bgr,
        Ok(PdfBitmapFormat::BGRx) => ReportedFormat::Bgrx,
        Ok(PdfBitmapFormat::BRGx) => ReportedFormat::Bgrx,
        Ok(PdfBitmapFormat::BGRA) => ReportedFormat::Bgra,
        Err(_) => ReportedFormat::Unknown,
    };
    Ok(Rendered { width: bitmap.width(), height: bitmap.height(), format, bitmap })
}

/// Relies on `PdfBitmap::as_rgba_bytes`: the pixels with every colour format turned
/// into RGBA and a gray bitmap as it is. It divides by the bitmap's height, which
/// `rendered.height` holds.
#[verifier::external_body]
fn rgba_bytes(rendered: &Rendered) -> (r: Vec<u8>)
    requires
        rendered.height > 0,
{
    rendered.bitmap.as_rgba_bytes()
}

/// Binds the engine library from the first candidate directory where binding
/// succeeds. When none succeeds, the error lists every directory tried, in order,
/// with the last binding error.
pub fn acquire_pdfium() -> (r: Result<Pdfium, Error>)
    ensures
        r matches Err(e) ==> (e matches Error::PdfiumNotFound(dirs, _) && dirs@.map_values(
            |d: String| d@,
        ) == candidate_dirs_spec()),
{
    let dirs = candidate_dirs();
    let mut last = match bind_pdfium(dirs[0].as_str()) {
        Ok(pdfium) => {
            return Ok(pdfium);
        },
        Err(e) => e,
    };
    let mut i: usize = 1;
    while i < dirs.len()
        invariant
            dirs@.map_values(|d: String| d@) == candidate_dirs_spec(),
            dirs@.len() == candidate_dirs_spec().len(),
            1 <= i <= dirs@.len(),
        decreases dirs@.len() - i,
    {
        match bind_pdfium(dirs[i].as_str()) {
            Ok(pdfium) => {
                return Ok(pdfium);
            },
            Err(e) => {
                last = e;
            },
        }
        i = i + 1;
    }
    Err(Error::PdfiumNotFound(dirs, last))
}

/// Opens the document at `path`; a failure is the engine's error.
pub fn open_document<'a>(pdfium: &'a Pdfium, path: &str) -> (r: Result<PdfDocument<'a>, Error>)
    ensures
        r matches Err(e) ==> e is PdfiumError,
{
    match load_document(pdfium, path) {
        Ok(document) => Ok(document),
        Err(e) => Err(Error::PdfiumError(e)),
    }
}

/// Renders the page at zero-based `index`; a failure is the engine's error.
pub fn render_page_at(document: &PdfDocument, index: u16, config: &RenderConfig) -> (r: Result<
    RawPage,
    Error,
>)
    ensures
        r matches Err(e) ==> e is PdfiumError,
{
    let pdfium_config = pdfium_config(config);
    let page = match document_page(document, index) {
        Ok(page) => page,
        Err(e) => {
            return Err(Error::PdfiumError(e));
        },
    };
    let rendered = match render_bitmap(&page, &pdfium_config) {
        Ok(rendered) => rendered,
        Err(e) => {
            return Err(Error::PdfiumError(e));
        },
    };
    let pixels = if rendered.height > 0 {
        rgba_bytes(&rendered)
    } else {
        Vec::new()
    };
    Ok(RawPage {
        pixels,
        width: rendered.width as u32,
        height: rendered.height as u32,
        format: rendered.format,
    })
}

} // verus!
