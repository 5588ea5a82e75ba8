use arkview_core::matcher::is_image;

#[test]
fn empty_name_is_not_image() {
    assert!(!is_image(""));
}

#[test]
fn directory_name_is_not_image() {
    assert!(!is_image("dir/"));
}

#[test]
fn name_without_extension_is_not_image() {
    assert!(!is_image("noext"));
}

#[test]
fn every_known_extension_matches() {
    let exts = [".jpg", ".jpeg", ".png", ".gif", ".bmp", ".tiff", ".webp", ".ico"];
    for ext in exts {
        let name = format!("picture{}", ext);
        assert!(is_image(&name), "{} should match", name);
    }
}

#[test]
fn unknown_extensions_do_not_match() {
    for name in ["a.txt", "a.zip", "a.pn", "a.pngg", "a.jp", "a.tif", "a.svg"] {
        assert!(!is_image(name), "{} should not match", name);
    }
}

#[test]
fn matching_is_case_insensitive() {
    assert_eq!(is_image("photo.jpg"), is_image("PHOTO.JPG"));
    assert_eq!(is_image("photo.jpeg"), is_image("PHOTO.JPEG"));
    assert_eq!(is_image("notes.txt"), is_image("NOTES.TXT"));
    assert!(is_image("photo.JpEg"));
    assert!(is_image("PHOTO.WEBP"));
    assert!(is_image("scan.TIFF"));
}

#[test]
fn only_the_last_extension_counts() {
    assert!(!is_image("archive.tar.gz"));
    assert!(is_image("weird.txt.png"));
    assert!(!is_image("weird.png.txt"));
}

#[test]
fn dot_edge_cases() {
    assert!(is_image(".png"));
    assert!(!is_image("name."));
    assert!(!is_image("."));
}

#[test]
fn trailing_separator_beats_extension() {
    assert!(!is_image("a.png/"));
}
