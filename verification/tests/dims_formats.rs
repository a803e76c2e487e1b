use imgrs_core::{
    calculate_height_with_aspect_ratio, get_supported_formats, infer_output_format, is_blank,
    map_algorithm_to_filter, normalize_format_string, resolve_height, FilterKind, ImageError,
    OutputFormat, ResamplingStrategy, ResizeAlgorithm,
};

#[test]
fn aspect_height_matches_floor_formula() {
    assert_eq!(calculate_height_with_aspect_ratio(100, 50, 50), 25);
    assert_eq!(calculate_height_with_aspect_ratio(3, 2, 2), 1);
    assert_eq!(calculate_height_with_aspect_ratio(640, 480, 320), 240);
    assert_eq!(calculate_height_with_aspect_ratio(7, 5, 3), 2);
}

#[test]
fn aspect_height_clamps_to_one() {
    // floor(3 * 1 / 10) == 0, clamped
    assert_eq!(calculate_height_with_aspect_ratio(10, 1, 3), 1);
    // non-representable result, clamped
    assert_eq!(calculate_height_with_aspect_ratio(1, u32::MAX, u32::MAX), 1);
}

#[test]
fn aspect_height_degenerate_inputs_give_one() {
    assert_eq!(calculate_height_with_aspect_ratio(0, 50, 50), 1);
    assert_eq!(calculate_height_with_aspect_ratio(100, 0, 50), 1);
    assert_eq!(calculate_height_with_aspect_ratio(100, 50, 0), 1);
    assert_eq!(resolve_height(0, 0, 0, None), 1);
}

#[test]
fn resolve_height_passes_explicit_height_through() {
    assert_eq!(resolve_height(100, 50, 30, Some(77)), 77);
    assert_eq!(resolve_height(100, 50, 50, None), 25);
}

#[test]
fn supported_formats_fixed_list() {
    let expected: Vec<String> = ["png", "jpeg", "jpg", "webp", "gif", "bmp", "tiff"]
        .iter()
        .map(|s| s.to_string())
        .collect();
    assert_eq!(get_supported_formats(), expected);
}

#[test]
fn normalize_trims_strips_one_dot_and_lowercases() {
    assert_eq!(normalize_format_string("  .JpEg \t"), "jpeg");
    assert_eq!(normalize_format_string(".PNG"), "png");
    assert_eq!(normalize_format_string("PNG"), "png");
    // only a single leading dot is stripped
    assert_eq!(normalize_format_string("..png"), ".png");
    assert_eq!(normalize_format_string(""), "");
}

#[test]
fn infer_format_is_case_insensitive_in_extension() {
    let r = infer_output_format("x.PNG", None);
    assert!(matches!(r, Ok(OutputFormat::Png)));
    let r = infer_output_format("x.png", None);
    assert!(matches!(r, Ok(OutputFormat::Png)));
}

#[test]
fn infer_format_is_case_and_dot_insensitive_in_override() {
    let r = infer_output_format("x.png", Some(".PNG".to_string()));
    assert!(matches!(r, Ok(OutputFormat::Png)));
    let r = infer_output_format("ignored.gif", Some("JPG".to_string()));
    assert!(matches!(r, Ok(OutputFormat::Jpeg)));
}

#[test]
fn infer_format_accepts_every_registry_name() {
    let cases = [
        ("png", OutputFormat::Png),
        ("jpeg", OutputFormat::Jpeg),
        ("jpg", OutputFormat::Jpeg),
        ("webp", OutputFormat::Webp),
        ("gif", OutputFormat::Gif),
        ("bmp", OutputFormat::Bmp),
        ("tiff", OutputFormat::Tiff),
    ];
    for (name, fmt) in cases {
        let r = infer_output_format("x", Some(name.to_string()));
        assert_eq!(r.ok(), Some(fmt));
    }
}

#[test]
fn infer_format_rejects_unknown_extension() {
    match infer_output_format("notes.txt", None) {
        Err(ImageError::UnsupportedFormat { format }) => assert_eq!(format, "txt"),
        _ => panic!("expected UnsupportedFormat"),
    }
}

#[test]
fn infer_format_rejects_missing_extension() {
    match infer_output_format("no_extension", None) {
        Err(ImageError::UnsupportedFormat { format }) => {
            assert_eq!(format, "<missing extension>")
        }
        _ => panic!("expected UnsupportedFormat"),
    }
    // a lone leading dot in the file name is not an extension
    match infer_output_format("dir/.png", None) {
        Err(ImageError::UnsupportedFormat { format }) => {
            assert_eq!(format, "<missing extension>")
        }
        _ => panic!("expected UnsupportedFormat"),
    }
}

#[test]
fn infer_format_rejects_unknown_override() {
    match infer_output_format("x.png", Some(" .ICO ".to_string())) {
        Err(ImageError::UnsupportedFormat { format }) => assert_eq!(format, "ico"),
        _ => panic!("expected UnsupportedFormat"),
    }
}

#[test]
fn infer_format_uses_last_component_and_last_dot() {
    let r = infer_output_format("a.b/c.d.BMP", None);
    assert!(matches!(r, Ok(OutputFormat::Bmp)));
}

#[test]
fn algorithm_mapping_is_one_to_one() {
    assert_eq!(
        map_algorithm_to_filter(&ResizeAlgorithm::Nearest),
        ResamplingStrategy::Nearest
    );
    assert_eq!(
        map_algorithm_to_filter(&ResizeAlgorithm::Bilinear),
        ResamplingStrategy::Convolution(FilterKind::Bilinear)
    );
    assert_eq!(
        map_algorithm_to_filter(&ResizeAlgorithm::Lanczos3),
        ResamplingStrategy::Convolution(FilterKind::Lanczos3)
    );
}

#[test]
fn blank_detection() {
    assert!(is_blank(""));
    assert!(is_blank("  \t\n"));
    assert!(!is_blank(" a "));
}
