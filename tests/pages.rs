use pdf_pages::{
    acquire_pdfium, build_page_image, candidate_dirs, encode_page, format_name, image_from_raw,
    receive, select_page, Error, PageImage, PageImageFormat, PdfService, PixelModel, RawPage,
    ReportedFormat, RenderConfig, Rotation,
};

fn raw(pixels: Vec<u8>, width: u32, height: u32, format: ReportedFormat) -> RawPage {
    RawPage { pixels, width, height, format }
}

fn rgba_2x1() -> Vec<u8> {
    vec![10, 20, 30, 255, 40, 50, 60, 128]
}

#[test]
fn page_outside_the_document_is_refused() {
    for page in [0u32, 6, 7, u32::MAX] {
        match select_page("doc.pdf", 5, page) {
            Err(Error::WrongPageSelect(path, total, n)) => {
                assert_eq!(path, "doc.pdf");
                assert_eq!(total, 5);
                assert_eq!(n, page);
            }
            other => panic!("unexpected {:?}", other),
        }
    }
    assert!(matches!(select_page("doc.pdf", 0, 1), Err(Error::WrongPageSelect(_, 0, 1))));
}

#[test]
fn page_inside_the_document_gives_its_index() {
    assert_eq!(select_page("doc.pdf", 5, 1).unwrap(), 0);
    assert_eq!(select_page("doc.pdf", 5, 3).unwrap(), 2);
    assert_eq!(select_page("doc.pdf", 5, 5).unwrap(), 4);
    assert_eq!(select_page("doc.pdf", u16::MAX, 65535).unwrap(), 65534);
}

#[test]
fn missing_engine_names_every_candidate() {
    let dirs: Vec<String> = candidate_dirs();
    assert_eq!(dirs, vec!["./libs/".to_string(), "libs/".to_string()]);
    match acquire_pdfium() {
        Err(Error::PdfiumNotFound(tried, _)) => assert_eq!(tried, dirs),
        Err(other) => panic!("unexpected {:?}", other),
        Ok(_) => panic!("no engine library is installed here"),
    }
    match PdfService::get_pages_count("missing.pdf") {
        Err(Error::PdfiumNotFound(tried, _)) => assert_eq!(tried, dirs),
        other => panic!("unexpected {:?}", other),
    }
    let service = PdfService::new("missing.pdf", 600, 800);
    for format in [PageImageFormat::Png, PageImageFormat::Jpeg, PageImageFormat::Webp] {
        match service.convert_page(1, format) {
            Err(Error::PdfiumNotFound(tried, _)) => assert_eq!(tried, dirs),
            other => panic!("unexpected {:?}", other),
        }
    }
    assert!(matches!(service.render_page(2, PageImageFormat::Png), Err(Error::PdfiumNotFound(_, _))));
}

#[test]
fn service_keeps_path_and_settings() {
    let service = PdfService::new("/tmp/a b.pdf", 600, 800);
    assert_eq!(service.path(), "/tmp/a b.pdf");
    assert_eq!(
        service.config(),
        RenderConfig { target_width: 600, maximum_height: 800, landscape_rotation: Rotation::Degrees90 }
    );
}

#[test]
fn truncated_buffer_is_an_extraction_failure() {
    let mut pixels = rgba_2x1();
    pixels.pop();
    assert!(build_page_image(raw(pixels.clone(), 2, 1, ReportedFormat::Bgra), PageImageFormat::Png).is_none());
    match image_from_raw(raw(pixels, 2, 1, ReportedFormat::Bgra), PageImageFormat::Png, "doc.pdf", 4) {
        Err(Error::ExtractDynamicImageError(path, page)) => {
            assert_eq!(path, "doc.pdf");
            assert_eq!(page, 4);
        }
        other => panic!("unexpected {:?}", other.map(|i| i.width)),
    }
    let mut longer = rgba_2x1();
    longer.push(0);
    assert!(build_page_image(raw(longer, 2, 1, ReportedFormat::Bgr), PageImageFormat::Webp).is_none());
    assert!(build_page_image(raw(vec![1, 2, 3], 2, 2, ReportedFormat::Gray), PageImageFormat::Png).is_none());
}

#[test]
fn unknown_format_is_an_extraction_failure() {
    assert!(build_page_image(raw(rgba_2x1(), 2, 1, ReportedFormat::Unknown), PageImageFormat::Png).is_none());
    assert!(matches!(
        image_from_raw(raw(rgba_2x1(), 2, 1, ReportedFormat::Unknown), PageImageFormat::Jpeg, "d", 1),
        Err(Error::ExtractDynamicImageError(_, 1))
    ));
}

#[test]
fn colour_pages_are_rgba_except_for_jpeg() {
    for format in [ReportedFormat::Bgr, ReportedFormat::Bgrx, ReportedFormat::Bgra] {
        let png = build_page_image(raw(rgba_2x1(), 2, 1, format), PageImageFormat::Png).unwrap();
        assert_eq!(png.model, PixelModel::Rgba);
        assert_eq!(png.pixels, rgba_2x1());
        let webp = build_page_image(raw(rgba_2x1(), 2, 1, format), PageImageFormat::Webp).unwrap();
        assert_eq!(webp.model, PixelModel::Rgba);
        let jpeg = build_page_image(raw(rgba_2x1(), 2, 1, format), PageImageFormat::Jpeg).unwrap();
        assert_eq!(jpeg.model, PixelModel::Rgb);
        assert_eq!(jpeg.pixels, vec![10, 20, 30, 40, 50, 60]);
        assert_eq!((jpeg.width, jpeg.height), (2, 1));
    }
}

#[test]
fn gray_pages_stay_one_channel() {
    let img = build_page_image(raw(vec![7, 8, 9, 10], 2, 2, ReportedFormat::Gray), PageImageFormat::Jpeg).unwrap();
    assert_eq!(img.model, PixelModel::Gray);
    assert_eq!(img.pixels, vec![7, 8, 9, 10]);
    assert!(img.is_well_formed());
}

#[test]
fn empty_page_builds_an_empty_image() {
    let img = build_page_image(raw(vec![], 0, 0, ReportedFormat::Bgra), PageImageFormat::Png).unwrap();
    assert!(img.pixels.is_empty());
    assert!(img.is_well_formed());
}

#[test]
fn well_formed_images() {
    let img = PageImage { pixels: vec![0; 12], width: 2, height: 2, model: PixelModel::Rgb };
    assert!(img.is_well_formed());
    let img = PageImage { pixels: vec![0; 12], width: 2, height: 2, model: PixelModel::Rgba };
    assert!(!img.is_well_formed());
    let img = PageImage { pixels: vec![], width: u32::MAX, height: u32::MAX, model: PixelModel::Rgba };
    assert!(!img.is_well_formed());
}

#[test]
fn png_round_trips_through_the_codec() {
    let img = PageImage { pixels: rgba_2x1(), width: 2, height: 1, model: PixelModel::Rgba };
    let bytes = encode_page(&img, PageImageFormat::Png, "doc.pdf", 1).unwrap();
    assert_eq!(&bytes[..8], &[137, 80, 78, 71, 13, 10, 26, 10]);
    let decoded = image::load_from_memory(&bytes).unwrap().to_rgba8();
    assert_eq!(decoded.dimensions(), (2, 1));
    assert_eq!(decoded.into_raw(), rgba_2x1());
}

#[test]
fn webp_is_lossless() {
    let img = PageImage { pixels: rgba_2x1(), width: 2, height: 1, model: PixelModel::Rgba };
    let bytes = encode_page(&img, PageImageFormat::Webp, "doc.pdf", 1).unwrap();
    assert_eq!(&bytes[..4], b"RIFF");
    assert_eq!(&bytes[8..12], b"WEBP");
    let decoded = image::load_from_memory(&bytes).unwrap().to_rgba8();
    assert_eq!(decoded.dimensions(), (2, 1));
    assert_eq!(decoded.into_raw(), rgba_2x1());
}

#[test]
fn jpeg_is_written_from_rgb() {
    let img = PageImage { pixels: vec![200; 4 * 3 * 3], width: 4, height: 3, model: PixelModel::Rgb };
    let bytes = encode_page(&img, PageImageFormat::Jpeg, "doc.pdf", 2).unwrap();
    assert_eq!(&bytes[..2], &[0xFF, 0xD8]);
    let decoded = image::load_from_memory(&bytes).unwrap();
    assert_eq!((decoded.width(), decoded.height()), (4, 3));
}

#[test]
fn wrong_pixel_model_is_a_mismatch() {
    let rgb = PageImage { pixels: vec![0; 6], width: 2, height: 1, model: PixelModel::Rgb };
    let rgba = PageImage { pixels: rgba_2x1(), width: 2, height: 1, model: PixelModel::Rgba };
    let gray = PageImage { pixels: vec![0; 2], width: 2, height: 1, model: PixelModel::Gray };
    for (img, format) in [
        (&rgb, PageImageFormat::Png),
        (&rgb, PageImageFormat::Webp),
        (&rgba, PageImageFormat::Jpeg),
        (&gray, PageImageFormat::Png),
        (&gray, PageImageFormat::Jpeg),
        (&gray, PageImageFormat::Webp),
    ] {
        match encode_page(img, format, "doc.pdf", 9) {
            Err(Error::Rgba8ConvertError(path, page)) => {
                assert_eq!(path, "doc.pdf");
                assert_eq!(page, 9);
            }
            other => panic!("unexpected {:?}", other),
        }
    }
}

#[test]
fn codec_failure_names_the_format() {
    let empty = PageImage { pixels: vec![], width: 0, height: 0, model: PixelModel::Rgba };
    match encode_page(&empty, PageImageFormat::Webp, "doc.pdf", 3) {
        Err(Error::ImageConvertingError(page, path, format)) => {
            assert_eq!(page, 3);
            assert_eq!(path, "doc.pdf");
            assert_eq!(format, "webp");
        }
        other => panic!("unexpected {:?}", other),
    }
}

#[test]
fn format_names() {
    assert_eq!(format_name(PageImageFormat::Png), "png");
    assert_eq!(format_name(PageImageFormat::Jpeg), "jpeg");
    assert_eq!(format_name(PageImageFormat::Webp), "webp");
}

#[test]
fn lost_result_is_a_channel_failure() {
    match receive::<u16>(None, "doc.pdf") {
        Err(Error::ChannelError(path)) => assert_eq!(path, "doc.pdf"),
        other => panic!("unexpected {:?}", other),
    }
    assert_eq!(receive(Some(Ok::<u16, Error>(12)), "doc.pdf").unwrap(), 12);
    assert!(matches!(
        receive::<u16>(Some(Err(Error::FileTimeCopyError("x".to_string()))), "doc.pdf"),
        Err(Error::FileTimeCopyError(_))
    ));
}

#[test]
fn codec_size_limits() {
    let wide_rgb = PageImage { pixels: vec![0; 65536 * 3], width: 65536, height: 1, model: PixelModel::Rgb };
    assert!(matches!(
        encode_page(&wide_rgb, PageImageFormat::Jpeg, "doc.pdf", 1),
        Err(Error::ImageConvertingError(1, _, ref f)) if f == "jpeg"
    ));
    let widest_rgb = PageImage { pixels: vec![0; 65535 * 3], width: 65535, height: 1, model: PixelModel::Rgb };
    assert!(encode_page(&widest_rgb, PageImageFormat::Jpeg, "doc.pdf", 1).is_ok());
    let wide_rgba = PageImage { pixels: vec![0; 16385 * 4], width: 16385, height: 1, model: PixelModel::Rgba };
    assert!(matches!(
        encode_page(&wide_rgba, PageImageFormat::Webp, "doc.pdf", 2),
        Err(Error::ImageConvertingError(2, _, ref f)) if f == "webp"
    ));
    assert!(encode_page(&wide_rgba, PageImageFormat::Png, "doc.pdf", 2).is_ok());
    let widest_rgba = PageImage { pixels: vec![0; 16384 * 4], width: 16384, height: 1, model: PixelModel::Rgba };
    assert!(encode_page(&widest_rgba, PageImageFormat::Webp, "doc.pdf", 2).is_ok());
    let empty = PageImage { pixels: vec![], width: 0, height: 5, model: PixelModel::Rgba };
    assert!(matches!(
        encode_page(&empty, PageImageFormat::Png, "doc.pdf", 3),
        Err(Error::ImageConvertingError(3, _, ref f)) if f == "png"
    ));
}
