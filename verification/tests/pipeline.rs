use imgrs_core::{
    drop_alpha, get_image_info, resize_image_bytes, validate_resize_request, ImageError,
    ResizeAlgorithm, ResizeOptions,
};

fn options(width: u32, height: Option<u32>, output_format: Option<&str>) -> ResizeOptions {
    ResizeOptions {
        width,
        height,
        algorithm: ResizeAlgorithm::Lanczos3,
        output_format: output_format.map(|s| s.to_string()),
    }
}

/// A width x height RGBA test image with a translucent gradient, encoded as PNG.
fn png_with_alpha(width: u32, height: u32) -> Vec<u8> {
    let img = image::RgbaImage::from_fn(width, height, |x, y| {
        image::Rgba([(x % 256) as u8, (y % 256) as u8, 200, 128])
    });
    let mut cursor = std::io::Cursor::new(Vec::new());
    image::DynamicImage::ImageRgba8(img)
        .write_to(&mut cursor, image::ImageFormat::Png)
        .unwrap();
    cursor.into_inner()
}

#[test]
fn drop_alpha_truncates_every_fourth_byte() {
    let rgba: Vec<u8> = vec![1, 2, 3, 4, 5, 6, 7, 8];
    assert_eq!(drop_alpha(&rgba), vec![1, 2, 3, 5, 6, 7]);
    assert_eq!(drop_alpha(&Vec::new()), Vec::<u8>::new());
}

#[test]
fn info_reports_dimensions_and_color() {
    let bytes = png_with_alpha(100, 50);
    let info = get_image_info("in.png".to_string(), &bytes, bytes.len() as u64).unwrap();
    assert_eq!(info.width, 100);
    assert_eq!(info.height, 50);
    assert_eq!(info.format, "Rgba8");
    assert_eq!(info.file_size_bytes, bytes.len() as u64);
    assert_eq!(info.path, "in.png");
}

#[test]
fn info_rejects_blank_path_before_reading_bytes() {
    let r = get_image_info("   ".to_string(), &Vec::new(), 0);
    match r {
        Err(ImageError::IoError { message }) => assert_eq!(message, "path is empty"),
        _ => panic!("expected IoError"),
    }
}

#[test]
fn info_maps_undecodable_bytes_to_error() {
    let r = get_image_info("x.png".to_string(), &vec![1, 2, 3], 3);
    assert!(matches!(
        r,
        Err(ImageError::UnsupportedFormat { .. }) | Err(ImageError::ProcessingError { .. })
    ));
}

#[test]
fn resize_round_trip_preserves_aspect_ratio() {
    let bytes = png_with_alpha(100, 50);
    let out = resize_image_bytes("in.png", "out.png", &bytes, &options(50, None, None)).unwrap();
    let info = get_image_info("out.png".to_string(), &out, out.len() as u64).unwrap();
    assert_eq!(info.width, 50);
    assert_eq!(info.height, 25);
}

#[test]
fn resize_with_explicit_height_and_nearest() {
    let bytes = png_with_alpha(64, 64);
    let opts = ResizeOptions {
        width: 10,
        height: Some(7),
        algorithm: ResizeAlgorithm::Nearest,
        output_format: None,
    };
    let out = resize_image_bytes("in.png", "out.png", &bytes, &opts).unwrap();
    let info = get_image_info("out.png".to_string(), &out, out.len() as u64).unwrap();
    assert_eq!(info.width, 10);
    assert_eq!(info.height, 7);
}

#[test]
fn resize_to_jpeg_drops_alpha_silently() {
    let bytes = png_with_alpha(32, 16);
    let out = resize_image_bytes("in.png", "out.jpg", &bytes, &options(16, None, None)).unwrap();
    let info = get_image_info("out.jpg".to_string(), &out, out.len() as u64).unwrap();
    assert_eq!(info.width, 16);
    assert_eq!(info.height, 8);
    assert_eq!(info.format, "Rgb8");
}

#[test]
fn resize_honors_format_override_over_extension() {
    let bytes = png_with_alpha(20, 20);
    let out = resize_image_bytes("in.png", "out.png", &bytes, &options(10, None, Some("BMP")))
        .unwrap();
    let info = get_image_info("out.bmp".to_string(), &out, out.len() as u64).unwrap();
    assert_eq!(info.width, 10);
    assert_eq!(info.height, 10);
    // PNG magic bytes must be absent: the override chose BMP
    assert_eq!(&out[0..2], b"BM");
}

#[test]
fn resize_with_zero_width_fails_before_any_decode() {
    // garbage input bytes: validation must reject the request first
    let r = resize_image_bytes(
        "definitely/not/a/file.png",
        "out.png",
        &vec![0, 1, 2],
        &options(0, None, None),
    );
    match r {
        Err(ImageError::InvalidDimensions { message }) => {
            assert_eq!(message, "width must be > 0")
        }
        _ => panic!("expected InvalidDimensions"),
    }
}

#[test]
fn resize_with_explicit_zero_height_fails_eagerly() {
    let r = resize_image_bytes("in.png", "out.png", &vec![0], &options(5, Some(0), None));
    match r {
        Err(ImageError::InvalidDimensions { message }) => {
            assert_eq!(message, "height must be > 0")
        }
        _ => panic!("expected InvalidDimensions"),
    }
}

#[test]
fn resize_with_empty_input_path_is_io_error() {
    let bytes = png_with_alpha(8, 8);
    let r = resize_image_bytes("", "out.png", &bytes, &options(4, None, None));
    match r {
        Err(ImageError::IoError { message }) => assert_eq!(message, "input_path is empty"),
        _ => panic!("expected IoError"),
    }
}

#[test]
fn resize_with_blank_output_path_is_io_error() {
    let bytes = png_with_alpha(8, 8);
    let r = resize_image_bytes("in.png", " \t", &bytes, &options(4, None, None));
    match r {
        Err(ImageError::IoError { message }) => assert_eq!(message, "output_path is empty"),
        _ => panic!("expected IoError"),
    }
}

#[test]
fn validation_checks_paths_before_dimensions() {
    let r = validate_resize_request("", "out.png", &options(0, None, None));
    assert!(matches!(r, Err(ImageError::IoError { .. })));
    let r = validate_resize_request("in.png", "", &options(0, None, None));
    assert!(matches!(r, Err(ImageError::IoError { .. })));
    let r = validate_resize_request("in.png", "out.png", &options(0, None, None));
    assert!(matches!(r, Err(ImageError::InvalidDimensions { .. })));
    assert!(validate_resize_request("in.png", "out.png", &options(1, Some(1), None)).is_ok());
}

#[test]
fn resize_maps_corrupt_image_to_processing_error() {
    // a real PNG whose interior bytes are flipped: recognized, not decodable
    let mut bytes = png_with_alpha(16, 16);
    let n = bytes.len();
    for b in bytes[12..n - 12].iter_mut() {
        *b ^= 0xff;
    }
    let r = resize_image_bytes("in.png", "out.png", &bytes, &options(4, None, None));
    assert!(matches!(r, Err(ImageError::ProcessingError { .. })));
}

#[test]
fn resize_rejects_unsupported_target_format() {
    let bytes = png_with_alpha(8, 8);
    let r = resize_image_bytes("in.png", "out.xyz", &bytes, &options(4, None, None));
    match r {
        Err(ImageError::UnsupportedFormat { format }) => assert_eq!(format, "xyz"),
        _ => panic!("expected UnsupportedFormat"),
    }
}

#[test]
fn resize_supports_every_registry_output_format() {
    let bytes = png_with_alpha(12, 10);
    for ext in ["png", "jpg", "jpeg", "webp", "gif", "bmp", "tiff"] {
        let path = format!("out.{}", ext);
        let out = resize_image_bytes("in.png", &path, &bytes, &options(6, None, None)).unwrap();
        let info = get_image_info(path, &out, out.len() as u64).unwrap();
        assert_eq!(info.width, 6);
        assert_eq!(info.height, 5);
    }
}

#[test]
fn resize_with_bilinear_strategy() {
    let bytes = png_with_alpha(40, 30);
    let opts = ResizeOptions {
        width: 20,
        height: None,
        algorithm: ResizeAlgorithm::Bilinear,
        output_format: None,
    };
    let out = resize_image_bytes("in.png", "out.png", &bytes, &opts).unwrap();
    let info = get_image_info("out.png".to_string(), &out, out.len() as u64).unwrap();
    assert_eq!(info.width, 20);
    assert_eq!(info.height, 15);
}
