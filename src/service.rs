//! The per-document conversion service.
use crate::encode::{codec_accepts, encode_page, encoding_of, is_conversion_failure, is_model_mismatch, required_model};
use crate::engine::{
    acquire_pdfium, candidate_dirs_spec, document_page_count, open_document, render_page_at, RenderConfig,
    Rotation,
};
use crate::error::Error;
use crate::pixels::{
    build_page_image, model_for, pixels_for, raw_size_matches, PageImage, PixelModel, RawPage,
};
use crate::PageImageFormat;
use vstd::prelude::*;

verus! {

/// `e` says that `page_number` lies outside the `total` pages of `path`.
pub open spec fn is_wrong_page(e: &Error, path: Seq<char>, page_number: u32) -> bool {
    e matches Error::WrongPageSelect(p, total, n) && p@ == path && n == page_number && (*n < 1
        || *n > *total)
}

/// `e` says that the raw pixels of `page_number` of `path` did not make an image.
pub open spec fn is_extract_failure(e: &Error, path: Seq<char>, page_number: u32) -> bool {
    e matches Error::ExtractDynamicImageError(p, n) && p@ == path && n == page_number
}

/// `e` says that the engine library was found in none of the candidate directories,
/// and lists them all.
pub open spec fn names_every_candidate(e: &Error) -> bool {
    e matches Error::PdfiumNotFound(dirs, _) && dirs@.map_values(|d: String| d@)
        == candidate_dirs_spec()
}

/// An engine error as the whole pipeline reports it: a missing library names
/// every candidate directory.
pub open spec fn is_engine_error(e: &Error) -> bool {
    e is PdfiumError || names_every_candidate(e)
}

/// The failures a page can meet before it is encoded.
pub open spec fn is_render_failure(e: &Error, path: Seq<char>, page_number: u32) -> bool {
    is_engine_error(e) || is_wrong_page(e, path, page_number) || is_extract_failure(
        e,
        path,
        page_number,
    )
}

/// `e` says that `page_number` lies outside the `total` pages of `path`, with
/// exactly these values.
pub open spec fn is_wrong_page_of(e: &Error, path: Seq<char>, total: u16, page_number: u32) -> bool {
    e matches Error::WrongPageSelect(p, t, n) && p@ == path && t == total && n == page_number
}

/// The image built for `format` from the page `raw` that the engine rendered:
/// the rendered pixels in the model `format` needs when the format is known and
/// the bytes hold exactly the page, the extraction failure otherwise.
pub open spec fn image_outcome(
    r: &Result<PageImage, Error>,
    raw: RawPage,
    format: PageImageFormat,
    path: Seq<char>,
    page_number: u32,
) -> bool {
    if model_for(raw.format, format) is Some && raw_size_matches(&raw) {
        let model = model_for(raw.format, format)->Some_0;
        r matches Ok(img) && img.wf() && img.width == raw.width && img.height == raw.height
            && img.model == model && img.pixels@ == pixels_for(raw.pixels@, model)
    } else {
        r matches Err(e) && is_extract_failure(&e, path, page_number)
    }
}

/// The bytes of a page that the engine rendered as `raw`: the extraction failure
/// when the bytes do not hold the page, the pixel-model mismatch for a page whose
/// model `format` cannot take, and otherwise the codec's encoding of the rendered
/// pixels, which only a size the codec refuses turns into the conversion failure.
pub open spec fn conversion_outcome(
    r: &Result<Vec<u8>, Error>,
    raw: RawPage,
    format: PageImageFormat,
    path: Seq<char>,
    page_number: u32,
) -> bool {
    if model_for(raw.format, format) is Some && raw_size_matches(&raw) {
        let model = model_for(raw.format, format)->Some_0;
        if model != required_model(format) {
            r matches Err(e) && is_model_mismatch(&e, page_number, path)
        } else {
            &&& codec_accepts(format, raw.width, raw.height) ==> r is Ok
            &&& match r {
                Ok(bytes) => bytes@ == encoding_of(
                    format,
                    pixels_for(raw.pixels@, model),
                    raw.width,
                    raw.height,
                ),
                Err(e) => is_conversion_failure(&e, page_number, path, format),
            }
        }
    } else {
        r matches Err(e) && is_extract_failure(&e, path, page_number)
    }
}

/// The image of `page_number` for a document of `total` pages: the exact page
/// selection error outside `1..=total`; inside, a rendering failure of the engine
/// or the image built from the page it rendered.
pub open spec fn rendered_in_document(
    r: &Result<PageImage, Error>,
    path: Seq<char>,
    page_number: u32,
    format: PageImageFormat,
    total: u16,
) -> bool {
    if 1 <= page_number <= total {
        (r matches Err(e) && e is PdfiumError) || exists|raw: RawPage|
            #[trigger] image_outcome(r, raw, format, path, page_number)
    } else {
        r matches Err(e) && is_wrong_page_of(&e, path, total, page_number)
    }
}

/// The bytes of `page_number` for a document of `total` pages: the exact page
/// selection error outside `1..=total`; inside, a rendering failure of the engine
/// or the outcome of converting the page it rendered.
pub open spec fn converted_in_document(
    r: &Result<Vec<u8>, Error>,
    path: Seq<char>,
    page_number: u32,
    format: PageImageFormat,
    total: u16,
) -> bool {
    if 1 <= page_number <= total {
        (r matches Err(e) && e is PdfiumError) || exists|raw: RawPage|
            #[trigger] conversion_outcome(r, raw, format, path, page_number)
    } else {
        r matches Err(e) && is_wrong_page_of(&e, path, total, page_number)
    }
}

/// Checks a one-based page number against the page count of `path` and gives its
/// zero-based index.
pub fn select_page(path: &str, total: u16, page_number: u32) -> (r: Result<u16, Error>)
    ensures
        1 <= page_number <= total ==> r == Ok::<u16, Error>((page_number - 1) as u16),
        !(1 <= page_number <= total) ==> (r matches Err(e) && e matches Error::WrongPageSelect(
            p,
            t,
            n,
        ) && p@ == path@ && t == total && n == page_number),
{
    if page_number < 1 || page_number > total as u32 {
        return Err(Error::WrongPageSelect(path.to_owned(), total as u32, page_number));
    }
    Ok((page_number - 1) as u16)
}

/// Builds the image of a rendered page for `format`; a buffer that does not hold
/// exactly its pixels, or an unknown pixel format, gives the extraction failure.
pub fn image_from_raw(raw: RawPage, format: PageImageFormat, path: &str, page_number: u32) -> (r:
    Result<PageImage, Error>)
    ensures
        r is Ok <==> (crate::pixels::model_for(raw.format, format) is Some
            && crate::pixels::raw_size_matches(&raw)),
        r matches Ok(img) ==> {
            &&& img.wf()
            &&& img.width == raw.width
            &&& img.height == raw.height
            &&& Some(img.model) == crate::pixels::model_for(raw.format, format)
            &&& img.pixels@ == crate::pixels::pixels_for(raw.pixels@, img.model)
        },
        r matches Err(e) ==> is_extract_failure(&e, path@, page_number),
        image_outcome(&r, raw, format, path@, page_number),
{
    match build_page_image(raw, format) {
        Some(image) => Ok(image),
        None => Err(Error::ExtractDynamicImageError(path.to_owned(), page_number)),
    }
}

/// What came back from a task run elsewhere: its own result, or the channel failure
/// for `path` when the task ended without handing one back.
pub fn receive<T>(received: Option<Result<T, Error>>, path: &str) -> (r: Result<T, Error>)
    ensures
        received matches Some(result) ==> r == result,
        received is None ==> (r matches Err(e) && e matches Error::ChannelError(p) && p@ == path@),
{
    match received {
        Some(result) => result,
        None => Err(Error::ChannelError(path.to_owned())),
    }
}

/// The page numbers of a document of `total` pages, in ascending order.
pub fn all_page_numbers(total: u16) -> (r: Vec<u32>)
    ensures
        r@.len() == total,
        forall|i: int| 0 <= i < total ==> #[trigger] r@[i] == i + 1,
{
    let mut r: Vec<u32> = Vec::with_capacity(total as usize);
    let mut n: u32 = 0;
    while n < total as u32
        invariant
            n <= total,
            r@.len() == n,
            forall|i: int| 0 <= i < n ==> #[trigger] r@[i] == i + 1,
        decreases total - n,
    {
        r.push(n + 1);
        n = n + 1;
    }
    r
}

/// Converts the pages of one PDF document into images. It holds nothing but the
/// document's path and the render settings, and is never changed after it is made.
pub struct PdfService {
    config: RenderConfig,
    path: String,
}

impl PdfService {
    /// The path of the document.
    pub closed spec fn path_spec(&self) -> Seq<char> {
        self.path@
    }

    /// The render settings.
    pub closed spec fn config_spec(&self) -> RenderConfig {
        self.config
    }

    /// A service for the document at `path`, rendering pages `width` pixels wide and
    /// at most `height` pixels high, turned by 90 degrees when in landscape.
    /// Nothing is read or checked here.
    pub fn new(path: &str, width: i32, height: i32) -> (s: Self)
        ensures
            s.path_spec() == path@,
            s.config_spec() == (RenderConfig {
                target_width: width,
                maximum_height: height,
                landscape_rotation: Rotation::Degrees90,
            }),
    {
        PdfService {
            config: RenderConfig {
                target_width: width,
                maximum_height: height,
                landscape_rotation: Rotation::Degrees90,
            },
            path: path.to_owned(),
        }
    }

    /// The path of the document.
    pub fn path(&self) -> (r: &str)
        ensures
            r@ == self.path_spec(),
    {
        self.path.as_str()
    }

    /// The render settings.
    pub fn config(&self) -> (r: RenderConfig)
        ensures
            r == self.config_spec(),
    {
        self.config
    }

    /// Binds the engine, opens the document, checks `page_number` against its page
    /// count, renders the page and builds its image in the pixel model that
    /// `format` needs (a gray page stays one-channel).
    pub fn render_page(&self, page_number: u32, format: PageImageFormat) -> (r: Result<
        PageImage,
        Error,
    >)
        ensures
            r matches Ok(img) ==> {
                &&& 1 <= page_number
                &&& img.wf()
                &&& (img.model == PixelModel::Gray || img.model == required_model(format))
            },
            r matches Err(e) ==> is_render_failure(&e, self.path_spec(), page_number),
            page_number == 0 ==> r is Err,
            (r matches Err(e) && is_engine_error(&e)) || exists|total: u16|
                #[trigger] rendered_in_document(&r, self.path_spec(), page_number, format, total),
    {
        let pdfium = acquire_pdfium()?;
        let document = open_document(&pdfium, self.path.as_str())?;
        let total: u16 = document_page_count(&document);
        let index: u16 = match select_page(self.path.as_str(), total, page_number) {
            Ok(index) => index,
            Err(e) => {
                let r: Result<PageImage, Error> = Err(e);
                assert(rendered_in_document(&r, self.path_spec(), page_number, format, total));
                return r;
            },
        };
        let raw = match render_page_at(&document, index, &self.config) {
            Ok(raw) => raw,
            Err(e) => {
                let r: Result<PageImage, Error> = Err(e);
                assert(rendered_in_document(&r, self.path_spec(), page_number, format, total));
                return r;
            },
        };
        let ghost rendered: RawPage = raw;
        let r = image_from_raw(raw, format, self.path.as_str(), page_number);
        assert(image_outcome(&r, rendered, format, self.path_spec(), page_number));
        assert(rendered_in_document(&r, self.path_spec(), page_number, format, total));
        r
    }

    /// Encodes an image of `page_number` in `format`.
    pub fn encode_page(&self, image: &PageImage, page_number: u32, format: PageImageFormat) -> (r:
        Result<Vec<u8>, Error>)
        requires
            image.wf(),
        ensures
            image.model != required_model(format) ==> (r matches Err(e) && is_model_mismatch(
                &e,
                page_number,
                self.path_spec(),
            )),
            image.model == required_model(format) ==> match r {
                Ok(bytes) => bytes@ == encoding_of(
                    format,
                    image.pixels@,
                    image.width,
                    image.height,
                ),
                Err(e) => is_conversion_failure(&e, page_number, self.path_spec(), format),
            },
            image.model == required_model(format) && codec_accepts(
                format,
                image.width,
                image.height,
            ) ==> r is Ok,
    {
        encode_page(image, format, self.path.as_str(), page_number)
    }

    /// Renders page `page_number` (one-based) and encodes it in `format`.
    pub fn convert_page(&self, page_number: u32, format: PageImageFormat) -> (r: Result<
        Vec<u8>,
        Error,
    >)
        ensures
            r is Ok ==> 1 <= page_number,
            r matches Err(e) ==> {
                ||| is_render_failure(&e, self.path_spec(), page_number)
                ||| is_model_mismatch(&e, page_number, self.path_spec())
                ||| is_conversion_failure(&e, page_number, self.path_spec(), format)
            },
            page_number == 0 ==> (r matches Err(e) && (is_engine_error(&e) || is_wrong_page(
                &e,
                self.path_spec(),
                0,
            ))),
            (r matches Err(e) && is_engine_error(&e)) || exists|total: u16|
                #[trigger] converted_in_document(&r, self.path_spec(), page_number, format, total),
            r matches Ok(bytes) ==> exists|img: PageImage|
                img.wf() && img.model == required_model(format) && bytes@ == #[trigger] encoding_of(
                    format,
                    img.pixels@,
                    img.width,
                    img.height,
                ),
    {
        let rendered = self.render_page(page_number, format);
        let ghost path = self.path_spec();
        let ghost first = rendered;
        let image = match rendered {
            Ok(image) => image,
            Err(e) => {
                let r: Result<Vec<u8>, Error> = Err(e);
                proof {
                    if !is_engine_error(&e) {
                        let total = choose|total: u16|
                            rendered_in_document(&first, path, page_number, format, total);
                        if 1 <= page_number <= total && !(e is PdfiumError) {
                            let raw = choose|raw: RawPage|
                                image_outcome(&first, raw, format, path, page_number);
                            assert(conversion_outcome(&r, raw, format, path, page_number));
                        }
                        assert(converted_in_document(&r, path, page_number, format, total));
                    }
                }
                return r;
            },
        };
        let r = self.encode_page(&image, page_number, format);
        proof {
            let total = choose|total: u16|
                rendered_in_document(&first, path, page_number, format, total);
            let raw = choose|raw: RawPage| image_outcome(&first, raw, format, path, page_number);
            assert(conversion_outcome(&r, raw, format, path, page_number));
            assert(converted_in_document(&r, path, page_number, format, total));
            if r is Ok {
                assert(encoding_of(format, image.pixels@, image.width, image.height) == r->Ok_0@);
            }
        }
        r
    }

    /// The page count of the document at `path`.
    pub fn get_pages_count(path: &str) -> (r: Result<u16, Error>)
        ensures
            r matches Err(e) ==> is_engine_error(&e),
    {
        let pdfium = acquire_pdfium()?;
        let document = open_document(&pdfium, path)?;
        Ok(document_page_count(&document))
    }
}

} // verus!
