use media_converter::format::OutputFormat;
use media_converter::path::{
    input_extension, output_directory, output_file_name, output_path, output_stem,
};
use media_converter::text::str_eq;

#[test]
fn input_extension_is_lower_cased() {
    assert_eq!(input_extension("/tmp/photo.heic"), "heic");
    assert_eq!(input_extension("/tmp/photo.HEIC"), "heic");
    assert_eq!(input_extension("Clip.MoV"), "mov");
    assert_eq!(input_extension("archive.tar.GZ"), "gz");
}

#[test]
fn input_extension_is_empty_where_the_path_has_none() {
    assert_eq!(input_extension("/tmp/photo"), "");
    assert_eq!(input_extension(""), "");
    assert_eq!(input_extension("/tmp/.hidden"), "");
    assert_eq!(input_extension("/"), "");
    assert_eq!(input_extension("/tmp/photo."), "");
}

#[test]
fn output_stem_is_the_file_name_without_extension() {
    assert_eq!(output_stem("/tmp/photo.heic"), "photo");
    assert_eq!(output_stem("clip.mov"), "clip");
    assert_eq!(output_stem("/a/b/archive.tar.gz"), "archive.tar");
    assert_eq!(output_stem("/tmp/.hidden"), ".hidden");
    assert_eq!(output_stem("/tmp/Photo.PNG"), "Photo");
}

#[test]
fn output_stem_falls_back_to_output() {
    assert_eq!(output_stem(""), "output");
    assert_eq!(output_stem("/"), "output");
    assert_eq!(output_stem("/tmp/.."), "output");
}

#[test]
fn output_directory_is_the_parent() {
    assert_eq!(output_directory("/tmp/photo.heic"), "/tmp");
    assert_eq!(output_directory("/a/b/c.png"), "/a/b");
    assert_eq!(output_directory("clip.mov"), "");
    assert_eq!(output_directory("/photo.png"), "/");
}

#[test]
fn output_directory_falls_back_to_the_current_one() {
    assert_eq!(output_directory(""), ".");
    assert_eq!(output_directory("/"), ".");
}

#[test]
fn output_file_name_is_stem_converted_extension() {
    assert_eq!(output_file_name("photo", "png"), "photo_converted.png");
    assert_eq!(output_file_name("", "mp4"), "_converted.mp4");
    assert_eq!(output_file_name("a.b", "unknown"), "a.b_converted.unknown");
    assert_eq!(output_file_name("výlet", "webp"), "výlet_converted.webp");
}

#[test]
fn output_path_sits_beside_the_input() {
    assert_eq!(
        output_path("/tmp/photo.heic", OutputFormat::Png),
        "/tmp/photo_converted.png"
    );
    assert_eq!(
        output_path("clip.mov", OutputFormat::Mp4),
        "clip_converted.mp4"
    );
    assert_eq!(
        output_path("/photo.jpg", OutputFormat::Avif),
        "/photo_converted.avif"
    );
    assert_eq!(
        output_path("relative/dir/pic.webp", OutputFormat::Jpg),
        "relative/dir/pic_converted.jpg"
    );
}

#[test]
fn output_path_without_a_file_name_uses_the_fallbacks() {
    assert_eq!(output_path("/", OutputFormat::Png), "./output_converted.png");
    assert_eq!(output_path("", OutputFormat::Png), "./output_converted.png");
}

#[test]
fn str_eq_compares_characters() {
    assert!(str_eq("", ""));
    assert!(str_eq("png", "png"));
    assert!(str_eq("výlet", "výlet"));
    assert!(!str_eq("png", "pnG"));
    assert!(!str_eq("png", "pn"));
    assert!(!str_eq("pn", "png"));
    assert!(!str_eq("", "a"));
    assert!(!str_eq("é", "e"));
}
