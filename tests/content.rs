use albums::ViewerContentType;

#[test]
fn classify_scenario_mixed_cases() {
    assert_eq!(ViewerContentType::from_ext(Some("SVG")), ViewerContentType::VectorGraphics);
    assert_eq!(ViewerContentType::from_ext(Some("heif")), ViewerContentType::Image);
    assert_eq!(ViewerContentType::from_ext(Some("avi")), ViewerContentType::Video);
    assert_eq!(ViewerContentType::from_ext(Some("txt")), ViewerContentType::Invalid);
}

#[test]
fn classify_ignores_case() {
    assert_eq!(ViewerContentType::from_ext(Some("JPG")), ViewerContentType::Image);
    assert_eq!(ViewerContentType::from_ext(Some("jpg")), ViewerContentType::Image);
    assert_eq!(ViewerContentType::from_ext(Some("Mp4")), ViewerContentType::Video);
    assert_eq!(ViewerContentType::from_ext(Some("WeBm")), ViewerContentType::Video);
}

#[test]
fn classify_every_listed_extension() {
    for ext in ["png", "jpg", "jpeg", "webp", "heic", "heif"] {
        assert_eq!(ViewerContentType::from_ext(Some(ext)), ViewerContentType::Image);
    }
    for ext in ["mp4", "webm", "mkv", "mov", "avi", "gif"] {
        assert_eq!(ViewerContentType::from_ext(Some(ext)), ViewerContentType::Video);
    }
    assert_eq!(ViewerContentType::from_ext(Some("svg")), ViewerContentType::VectorGraphics);
}

#[test]
fn classify_unlisted_is_invalid() {
    for ext in ["", "txt", "pn", "pngg", "svgz", "tiff", " png", "jpg.", "webp2"] {
        assert_eq!(ViewerContentType::from_ext(Some(ext)), ViewerContentType::Invalid);
    }
}

#[test]
fn classify_non_text_is_invalid() {
    assert_eq!(ViewerContentType::from_ext(None), ViewerContentType::Invalid);
}

#[test]
fn lowercase_classifier_is_case_sensitive() {
    assert_eq!(ViewerContentType::from_lowercase_ext("png"), ViewerContentType::Image);
    assert_eq!(ViewerContentType::from_lowercase_ext("PNG"), ViewerContentType::Invalid);
}

#[test]
fn classify_lowercases_beyond_ascii() {
    // KELVIN SIGN lowercases to an ASCII 'k'.
    assert_eq!(ViewerContentType::from_ext(Some("m\u{212A}v")), ViewerContentType::Video);
}

#[test]
fn str_equal_compares_characters() {
    assert!(albums::str_equal("image", "image"));
    assert!(!albums::str_equal("image", "imag"));
    assert!(!albums::str_equal("video", "vidEo"));
    assert!(albums::str_equal("", ""));
}
