use chameleon::launcher::config::default_change_command;
use chameleon::launcher::wallpapers::{
    cache_filename, change_wallpaper_command, is_image_extension, matugen_arguments,
    matugen_image_path, sanitize_file_name, to_hex, wallpaper_path,
};

#[test]
fn hex_is_lowercase_two_digits_a_byte() {
    assert_eq!(to_hex(&vec![0x00, 0x0f, 0xa5, 0xff]), "000fa5ff");
    assert_eq!(to_hex(&vec![]), "");
}

#[test]
fn file_names_keep_letters_digits_and_dots() {
    assert_eq!(sanitize_file_name("My Photo (1).PNG"), "My_Photo__1_.PNG");
    assert_eq!(sanitize_file_name("été.jpg"), "_t_.jpg");
    assert_eq!(sanitize_file_name(""), "");
}

#[test]
fn cache_file_name_hashes_the_path() {
    assert_eq!(
        cache_filename("abc", "a b.png", 160, 90),
        "6437b3ac38465133ffb63b75273a8db5-a_b.png-160x90.png"
    );
}

#[test]
fn cache_file_names_differ_by_size() {
    let small = cache_filename("/p/w.png", "w.png", 160, 90);
    let large = cache_filename("/p/w.png", "w.png", 1920, 1080);
    assert!(small.ends_with("-w.png-160x90.png"));
    assert!(large.ends_with("-w.png-1920x1080.png"));
    assert_eq!(small[..32], large[..32]);
    assert_eq!(&small[32..33], "-");
}

#[test]
fn image_extensions_ignore_case() {
    assert!(is_image_extension("png"));
    assert!(is_image_extension("PNG"));
    assert!(is_image_extension("JpEg"));
    assert!(is_image_extension("webp"));
    assert!(is_image_extension("svg"));
    assert!(!is_image_extension("txt"));
    assert!(!is_image_extension(""));
    assert!(!is_image_extension("pngx"));
}

#[test]
fn wallpaper_path_joins_with_a_slash() {
    assert_eq!(wallpaper_path("/home/u/Pictures", "sea.jpg"), "/home/u/Pictures/sea.jpg");
}

#[test]
fn default_change_command_uses_the_placeholder() {
    assert_eq!(default_change_command(), "awww img {{image}}");
    let (program, args) = change_wallpaper_command(&default_change_command(), "/w/sea.jpg");
    assert_eq!(program, "awww");
    assert_eq!(args, vec!["img".to_string(), "/w/sea.jpg".to_string()]);
}

#[test]
fn change_command_keeps_other_words() {
    let (program, args) =
        change_wallpaper_command("swww  img {{image}} --transition-type  grow", "/a.png");
    assert_eq!(program, "swww");
    assert_eq!(
        args,
        vec![
            "img".to_string(),
            "/a.png".to_string(),
            "--transition-type".to_string(),
            "grow".to_string()
        ]
    );
}

#[test]
fn matugen_gets_image_flags_then_path() {
    let flags = vec!["-m".to_string(), "dark".to_string()];
    assert_eq!(
        matugen_arguments(&flags, "/c/x.png"),
        vec!["image".to_string(), "-m".to_string(), "dark".to_string(), "/c/x.png".to_string()]
    );
    assert_eq!(matugen_arguments(&vec![], "/c/x.png"), vec!["image".to_string(), "/c/x.png".to_string()]);
}

#[test]
fn matugen_reads_the_small_preview() {
    let p = matugen_image_path("/home/u", "abc", "a b.png");
    assert_eq!(
        p,
        "/home/u/.cache/chameleon/thumbnails/6437b3ac38465133ffb63b75273a8db5-a_b.png-160x90.png"
    );
}

use chameleon::launcher::wallpapers::{cache_name_from_digest, is_listed_image_extension};

#[test]
fn cache_name_from_a_given_digest() {
    assert_eq!(cache_name_from_digest(&vec![0xab, 0x01], "a b", 1, 2), "ab01-a_b-1x2.png");
    assert_eq!(cache_name_from_digest(&vec![], "", 0, 0), "--0x0.png");
}

#[test]
fn listed_extensions_are_lower_case() {
    assert!(is_listed_image_extension("gif"));
    assert!(is_listed_image_extension("bmp"));
    assert!(!is_listed_image_extension("GIF"));
    assert!(!is_listed_image_extension("tiff"));
}

#[test]
fn cache_names_use_the_first_sixteen_bytes_of_the_hash() {
    let digest: Vec<u8> = (0u8..32).collect();
    assert_eq!(
        cache_name_from_digest(&digest, "w.png", 160, 90),
        "000102030405060708090a0b0c0d0e0f-w.png-160x90.png"
    );
}
