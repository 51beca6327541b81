use media_converter::format::{
    media_kind, normalize_extension, pool, recognized_extensions, resolve, source_format,
    ExtensionEntry, MediaKind, OutputFormat,
};

fn extensions(choices: &[ExtensionEntry]) -> Vec<&'static str> {
    choices.iter().map(|choice| choice.extension).collect()
}

fn labels(choices: &[ExtensionEntry]) -> Vec<&'static str> {
    choices.iter().map(|choice| choice.label).collect()
}

#[test]
fn png_input_is_offered_the_other_image_formats() {
    let choices = resolve("png");
    assert_eq!(extensions(&choices), vec!["jpg", "webp", "avif"]);
    assert_eq!(
        labels(&choices),
        vec!["JPG (compressed)", "WEBP (for web)", "AVIF (modern)"]
    );
}

#[test]
fn jpg_input_is_offered_the_other_image_formats() {
    assert_eq!(extensions(&resolve("jpg")), vec!["png", "webp", "avif"]);
}

#[test]
fn jpeg_input_counts_as_jpg() {
    assert_eq!(extensions(&resolve("jpeg")), vec!["png", "webp", "avif"]);
    assert_eq!(resolve("jpeg"), resolve("jpg"));
}

#[test]
fn webp_input_is_offered_the_other_image_formats() {
    assert_eq!(extensions(&resolve("webp")), vec!["png", "jpg", "avif"]);
}

#[test]
fn avif_input_is_offered_the_other_image_formats() {
    assert_eq!(extensions(&resolve("avif")), vec!["png", "jpg", "webp"]);
}

#[test]
fn image_choices_never_include_the_input_extension() {
    for ext in ["jpg", "jpeg", "heic", "png", "webp", "avif"] {
        let choices = resolve(ext);
        assert_eq!(choices.len(), 3);
        for choice in &choices {
            assert_ne!(choice.extension, ext);
            assert_ne!(choice.extension, normalize_extension(ext));
        }
    }
}

#[test]
fn image_choices_keep_the_pool_order() {
    let order = ["png", "jpg", "webp", "avif"];
    for ext in ["jpg", "jpeg", "heic", "png", "webp", "avif"] {
        let expected: Vec<&str> = order
            .iter()
            .copied()
            .filter(|e| *e != normalize_extension(ext))
            .collect();
        assert_eq!(extensions(&resolve(ext)), expected);
    }
}

#[test]
fn video_inputs_are_offered_nothing() {
    for ext in ["mp4", "mov", "avi", "webm"] {
        assert_eq!(resolve(ext), Vec::<ExtensionEntry>::new());
    }
}

#[test]
fn heic_is_offered_what_jpg_is_offered() {
    assert_eq!(resolve("heic"), resolve("jpg"));
    assert_eq!(extensions(&resolve("heic")), vec!["png", "webp", "avif"]);
}

#[test]
fn unknown_extensions_are_offered_nothing() {
    for ext in ["", "txt", "gif", "PNG", "Jpg", " png", "png ", "mp3", "jp", "jpgg"] {
        assert!(resolve(ext).is_empty());
    }
}

#[test]
fn first_choice_is_the_default() {
    assert_eq!(resolve("jpg")[0].extension, "png");
    assert_eq!(resolve("png")[0].extension, "jpg");
}

#[test]
fn synonyms_collapse_when_normalised() {
    assert_eq!(normalize_extension("jpg"), "jpg");
    assert_eq!(normalize_extension("jpeg"), "jpg");
    assert_eq!(normalize_extension("heic"), "jpg");
    assert_eq!(normalize_extension("png"), "png");
    assert_eq!(normalize_extension("webp"), "webp");
    assert_eq!(normalize_extension("avif"), "avif");
    assert_eq!(normalize_extension("mp4"), "mp4");
    assert_eq!(normalize_extension("mov"), "mp4");
    assert_eq!(normalize_extension("avi"), "mp4");
    assert_eq!(normalize_extension("webm"), "mp4");
    assert_eq!(normalize_extension("txt"), "");
    assert_eq!(normalize_extension(""), "");
}

#[test]
fn normalising_twice_changes_nothing() {
    for ext in ["jpg", "jpeg", "heic", "png", "webp", "avif", "mp4", "mov", "avi", "webm", "x"] {
        let once = normalize_extension(ext);
        assert_eq!(normalize_extension(once), once);
    }
}

#[test]
fn kinds_follow_the_extension() {
    for ext in ["jpg", "jpeg", "heic", "png", "webp", "avif"] {
        assert_eq!(media_kind(ext), MediaKind::Image);
    }
    for ext in ["mp4", "mov", "avi", "webm"] {
        assert_eq!(media_kind(ext), MediaKind::Video);
    }
    for ext in ["", "txt", "MP4"] {
        assert_eq!(media_kind(ext), MediaKind::Unknown);
    }
}

#[test]
fn source_formats_follow_the_extension() {
    assert_eq!(source_format("heic"), Some(OutputFormat::Jpg));
    assert_eq!(source_format("jpeg"), Some(OutputFormat::Jpg));
    assert_eq!(source_format("webm"), Some(OutputFormat::Mp4));
    assert_eq!(source_format("avif"), Some(OutputFormat::Avif));
    assert_eq!(source_format("bmp"), None);
}

#[test]
fn pools_are_in_declared_order() {
    assert_eq!(
        pool(MediaKind::Image),
        vec![
            OutputFormat::Png,
            OutputFormat::Jpg,
            OutputFormat::Webp,
            OutputFormat::Avif
        ]
    );
    assert_eq!(pool(MediaKind::Video), vec![OutputFormat::Mp4]);
    assert_eq!(pool(MediaKind::Unknown), Vec::<OutputFormat>::new());
}

#[test]
fn formats_have_their_extensions_and_labels() {
    let table = [
        (OutputFormat::Mp4, "mp4", "MP4 (H.264)"),
        (OutputFormat::Png, "png", "PNG (lossless)"),
        (OutputFormat::Jpg, "jpg", "JPG (compressed)"),
        (OutputFormat::Webp, "webp", "WEBP (for web)"),
        (OutputFormat::Avif, "avif", "AVIF (modern)"),
    ];
    for (format, extension, label) in table {
        assert_eq!(format.extension(), extension);
        assert_eq!(format.label(), label);
        assert_eq!(format.entry(), ExtensionEntry { extension, label });
        assert_eq!(OutputFormat::from_extension(extension), Some(format));
        assert_eq!(OutputFormat::from_label(label), Some(format));
    }
}

#[test]
fn formats_are_not_found_under_other_names() {
    assert_eq!(OutputFormat::from_extension("jpeg"), None);
    assert_eq!(OutputFormat::from_extension("heic"), None);
    assert_eq!(OutputFormat::from_extension("mov"), None);
    assert_eq!(OutputFormat::from_extension("PNG"), None);
    assert_eq!(OutputFormat::from_extension(""), None);
    assert_eq!(OutputFormat::from_extension("PNG (lossless)"), None);
    assert_eq!(OutputFormat::from_label("png"), None);
    assert_eq!(OutputFormat::from_label("PNG"), None);
    assert_eq!(OutputFormat::from_label(""), None);
}

#[test]
fn encoders_are_named_for_mp4_and_avif_only() {
    assert_eq!(OutputFormat::Mp4.codec_args(), vec!["-c:v", "libx264"]);
    assert_eq!(OutputFormat::Avif.codec_args(), vec!["-c:v", "libaom-av1"]);
    assert!(OutputFormat::Png.codec_args().is_empty());
    assert!(OutputFormat::Jpg.codec_args().is_empty());
    assert!(OutputFormat::Webp.codec_args().is_empty());
}

#[test]
fn format_kinds() {
    assert_eq!(OutputFormat::Mp4.kind(), MediaKind::Video);
    assert_eq!(OutputFormat::Png.kind(), MediaKind::Image);
    assert_eq!(OutputFormat::Jpg.kind(), MediaKind::Image);
    assert_eq!(OutputFormat::Webp.kind(), MediaKind::Image);
    assert_eq!(OutputFormat::Avif.kind(), MediaKind::Image);
}

#[test]
fn recognised_extensions_are_those_with_a_source_format() {
    let listed = recognized_extensions();
    assert_eq!(
        listed,
        vec!["mp4", "mov", "avi", "webm", "png", "jpg", "jpeg", "webp", "heic", "avif"]
    );
    for ext in &listed {
        assert!(source_format(ext).is_some());
    }
}
