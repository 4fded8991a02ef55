use ninegag_video::fetch::derive_filename;

#[test]
fn correct_filename() {
    let test_filename =
        derive_filename("https://img-9gag-fun.9cache.com/photo/a2WL8RE_460svav1.mp4");
    assert_eq!(test_filename, "a2WL8RE_460svav1.mp4");
}

#[test]
fn placeholder_for_empty_segment() {
    // The final path segment is empty: the placeholder takes its place,
    // never an empty filename.
    let test_filename = derive_filename("https://img-9gag-fun.9cache.com/");
    assert_eq!(test_filename, "tmp.bin");
}

#[test]
fn placeholder_for_trailing_slash_path() {
    let test_filename = derive_filename("https://example.com/photo/");
    assert_eq!(test_filename, "tmp.bin");
}

#[test]
fn placeholder_without_path_segments() {
    // A cannot-be-a-base URL offers no path segment at all.
    let test_filename = derive_filename("mailto:someone@example.com");
    assert_eq!(test_filename, "tmp.bin");
}
