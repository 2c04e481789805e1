//! The pixel model of a rendered page and its mapping to the model that each
//! output format needs.
use crate::PageImageFormat;
use vstd::prelude::*;

verus! {

/// The pixel format that the engine reports for a rendered page. The engine hands
/// out the pixels of each colour format as RGBA, four bytes each, and those of a
/// gray page as they are, one byte each.
#[derive(Clone, Copy, Debug, PartialEq, Eq, Structural)]
pub enum ReportedFormat {
    /// One byte per pixel.
    Gray,
    /// Three bytes per pixel, blue, green, red.
    Bgr,
    /// Four bytes per pixel, blue, green, red and an unused byte.
    Bgrx,
    /// Four bytes per pixel, blue, green, red, alpha.
    Bgra,
    /// A format the engine could not name.
    Unknown,
}

/// The pixel model of an in-memory image.
#[derive(Clone, Copy, Debug, PartialEq, Eq, Structural)]
pub enum PixelModel {
    Gray,
    Rgb,
    Rgba,
}

/// A rendered page as the engine hands it out: the pixel bytes, the size in
/// pixels and the reported pixel format.
pub struct RawPage {
    pub pixels: Vec<u8>,
    pub width: u32,
    pub height: u32,
    pub format: ReportedFormat,
}

/// An in-memory image whose bytes hold `width * height` pixels of `model`.
pub struct PageImage {
    pub pixels: Vec<u8>,
    pub width: u32,
    pub height: u32,
    pub model: PixelModel,
}

/// Bytes per pixel of a model.
pub open spec fn channels(model: PixelModel) -> nat {
    match model {
        PixelModel::Gray => 1,
        PixelModel::Rgb => 3,
        PixelModel::Rgba => 4,
    }
}

/// Bytes per pixel of the buffer that the engine hands out for a reported format.
pub open spec fn source_channels(format: ReportedFormat) -> nat {
    match format {
        ReportedFormat::Gray => 1,
        _ => 4,
    }
}

/// Whether a reported format is one of the colour formats.
pub open spec fn is_color(format: ReportedFormat) -> bool {
    format is Bgr || format is Bgrx || format is Bgra
}

/// The model an image is built in: a gray report gives a one-channel image, a
/// colour report an RGB image for JPEG and an RGBA image otherwise.
pub open spec fn model_for(format: ReportedFormat, target: PageImageFormat) -> Option<PixelModel> {
    match format {
        ReportedFormat::Gray => Some(PixelModel::Gray),
        ReportedFormat::Unknown => None,
        _ => if target == PageImageFormat::Jpeg {
            Some(PixelModel::Rgb)
        } else {
            Some(PixelModel::Rgba)
        },
    }
}

/// The first three bytes of every four-byte pixel of `rgba`.
pub open spec fn alpha_dropped(rgba: Seq<u8>) -> Seq<u8> {
    Seq::new((rgba.len() / 4 * 3) as nat, |i: int| rgba[(i / 3) * 4 + i % 3])
}

impl PageImage {
    /// The byte count matches the size and the model exactly.
    pub open spec fn wf(&self) -> bool {
        self.pixels@.len() == self.width as nat * self.height as nat * channels(self.model)
    }

    /// Whether the byte count matches the size and the model exactly.
    pub fn is_well_formed(&self) -> (r: bool)
        ensures
            r == self.wf(),
    {
        let per_pixel: u64 = match self.model {
            PixelModel::Gray => 1,
            PixelModel::Rgb => 3,
            PixelModel::Rgba => 4,
        };
        assert(per_pixel == channels(self.model));
        let pixels = (self.width as u64).checked_mul(self.height as u64);
        let expected = match pixels {
            Some(p) => p.checked_mul(per_pixel),
            None => None,
        };
        proof {
            if expected is None {
                assert(self.width as nat * self.height as nat * per_pixel > u64::MAX) by (
                nonlinear_arith)
                    requires
                        (self.width as nat * self.height as nat > u64::MAX) || (self.width as nat
                            * self.height as nat * per_pixel > u64::MAX),
                        per_pixel >= 1,
                ;
            }
        }
        let len: usize = self.pixels.len();
        match expected {
            Some(e) => len as u64 == e,
            None => false,
        }
    }
}

/// Whether the raw bytes of a page hold exactly `width * height` pixels of the reported format.
pub open spec fn raw_size_matches(raw: &RawPage) -> bool {
    raw.pixels@.len() == raw.width as nat * raw.height as nat * source_channels(raw.format)
}

/// The pixel bytes of the image built in `model` from the bytes of a rendered page.
pub open spec fn pixels_for(raw: Seq<u8>, model: PixelModel) -> Seq<u8> {
    match model {
        PixelModel::Rgb => alpha_dropped(raw),
        _ => raw,
    }
}

/// Keeps the red, green and blue bytes of each RGBA pixel.
fn drop_alpha(rgba: &Vec<u8>) -> (rgb: Vec<u8>)
    requires
        rgba@.len() % 4 == 0,
    ensures
        rgb@ == alpha_dropped(rgba@),
{
    let total: usize = rgba.len();
    let n: usize = total / 4;
    let mut rgb: Vec<u8> = Vec::with_capacity(n * 3);
    let mut p: usize = 0;
    while p < n
        invariant
            n == rgba@.len() / 4,
            4 * n == total,
            total == rgba@.len(),
            rgba@.len() % 4 == 0,
            p <= n,
            rgb@.len() == 3 * p,
            forall|q: int, k: int|
                0 <= q < p && 0 <= k < 3 ==> #[trigger] rgb@[3 * q + k] == rgba@[4 * q + k],
        decreases n - p,
    {
        let base: usize = 4 * p;
        rgb.push(rgba[base]);
        rgb.push(rgba[base + 1]);
        rgb.push(rgba[base + 2]);
        proof {
            assert forall|q: int, k: int| 0 <= q < p + 1 && 0 <= k < 3 implies #[trigger] rgb@[3
                * q + k] == rgba@[4 * q + k] by {
                if q < p {
                    assert(3 * q + k < 3 * p) by (nonlinear_arith)
                        requires
                            q < p,
                            0 <= k < 3,
                    ;
                } else {
                    assert(q == p);
                }
            }
        }
        p = p + 1;
    }
    assert forall|i: int| 0 <= i < rgb@.len() implies rgb@[i] == alpha_dropped(rgba@)[i] by {
        let q = i / 3;
        let k = i % 3;
        assert(i == 3 * q + k);
        assert(0 <= q < n);
    }
    assert(rgb@ =~= alpha_dropped(rgba@));
    rgb
}

/// Builds the in-memory image of a rendered page in the model that `target` needs.
/// Returns `None` when the reported format is unknown or when the byte count is not
/// exactly `width * height` times the bytes per pixel of the reported format.
pub fn build_page_image(raw: RawPage, target: PageImageFormat) -> (r: Option<PageImage>)
    ensures
        r is Some <==> (model_for(raw.format, target) is Some && raw_size_matches(&raw)),
        r matches Some(img) ==> {
            &&& img.wf()
            &&& img.width == raw.width
            &&& img.height == raw.height
            &&& Some(img.model) == model_for(raw.format, target)
            &&& img.pixels@ == pixels_for(raw.pixels@, img.model)
        },
{
    let model = match raw.format {
        ReportedFormat::Gray => PixelModel::Gray,
        ReportedFormat::Bgr | ReportedFormat::Bgrx | ReportedFormat::Bgra => match target {
            PageImageFormat::Jpeg => PixelModel::Rgb,
            _ => PixelModel::Rgba,
        },
        ReportedFormat::Unknown => {
            return None;
        },
    };
    let per_pixel: u64 = match raw.format {
        ReportedFormat::Gray => 1,
        _ => 4,
    };
    let expected = (raw.width as u64).checked_mul(raw.height as u64);
    let expected = match expected {
        Some(e) => e.checked_mul(per_pixel),
        None => None,
    };
    let len: usize = raw.pixels.len();
    proof {
        assert(raw.width as nat * raw.height as nat * per_pixel >= 0) by (nonlinear_arith);
        if expected is None {
            assert(raw.width as nat * raw.height as nat * per_pixel > u64::MAX) by (nonlinear_arith)
                requires
                    (raw.width as nat * raw.height as nat > u64::MAX) || (raw.width as nat
                        * raw.height as nat * per_pixel > u64::MAX),
                    per_pixel >= 1,
            ;
        }
    }
    match expected {
        Some(e) => {
            if len as u64 != e {
                return None;
            }
        },
        None => {
            return None;
        },
    }
    let RawPage { pixels, width, height, format: _ } = raw;
    let pixels = match model {
        PixelModel::Rgb => drop_alpha(&pixels),
        _ => pixels,
    };
    proof {
        if model == PixelModel::Rgb {
            assert(pixels@.len() == width as nat * height as nat * 3) by (nonlinear_arith)
                requires
                    pixels@.len() == len as nat / 4 * 3,
                    len as nat == width as nat * height as nat * 4,
            ;
        }
    }
    Some(PageImage { pixels, width, height, model })
}

} // verus!
