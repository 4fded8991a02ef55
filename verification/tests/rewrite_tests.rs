use ninegag_video::rewrite::extract_filename;
use ninegag_video::rewrite::handle_message;
use ninegag_video::rewrite::transform_ninegag_name;
use ninegag_video::rewrite::RewriteError;

#[test]
fn handle_correct_message() {
    let message = "https://img-9gag-fun.9cache.com/photo/aeDQMYq_460svav1.mp4";
    let handled = handle_message(message).unwrap();
    assert_eq!(
        handled,
        "https://img-9gag-fun.9cache.com/photo/aeDQMYq_460sv.mp4"
    );
}

#[test]
fn handle_not_url_message() {
    let message = "owowoowo";
    match handle_message(message) {
        Ok(_) => panic!(),
        Err(err) => assert_eq!(err, RewriteError::InvalidUrl),
    };
}

#[test]
fn handle_empty_host_message() {
    let message = "https://";
    match handle_message(message) {
        Ok(_) => panic!(),
        Err(err) => assert_eq!(err, RewriteError::InvalidUrl),
    };
}

#[test]
fn handle_not_video_message() {
    let message = "https://img-9gag-fun.9cache.com/photo/some_file.jpg";
    match handle_message(message) {
        Ok(_) => panic!("Here had to be Result with wrong filename error"),
        Err(err) => assert_eq!(err, RewriteError::UnsupportedFormat),
    };
}

#[test]
fn handle_no_path_message() {
    // A cannot-be-a-base URL parses but has no hierarchical path.
    let message = "mailto:someone@example.com";
    match handle_message(message) {
        Ok(_) => panic!(),
        Err(err) => assert_eq!(err, RewriteError::NotBase),
    };
}

#[test]
fn handle_normalizes_scheme_and_host() {
    // The parser normalizes the scheme and host, so the rewritten link is
    // not the input with only the filename changed.
    let message = "HTTPS://IMG-9GAG-FUN.9cache.com/photo/aeDQMYq_460svav1.mp4";
    let handled = handle_message(message).unwrap();
    assert_eq!(
        handled,
        "https://img-9gag-fun.9cache.com/photo/aeDQMYq_460sv.mp4"
    );
}

#[test]
fn filename_form_url() {
    let filename = extract_filename("https://img-9gag-fun.9cache.com/photo/aeDQMYq_460svav1.mp4")
        .expect("Error while unwrap filename");
    assert_eq!(filename, "aeDQMYq_460svav1.mp4");
}

#[test]
fn filename_error() {
    match extract_filename("https://img-9gag-fun.9cache.com/") {
        Ok(_) => panic!("Here had to be filename error"),
        Err(err) => assert_eq!(err.message(), "Filename is not webm or mp4"),
    }
}

#[test]
fn not_video_filename() {
    let error = extract_filename("https://img-9gag-fun.9cache.com/photo/some_file.jpg");
    match error {
        Ok(_) => panic!("Here had to be Result with wrong filename error"),
        Err(err) => assert_eq!(err.message(), "Filename is not webm or mp4"),
    }
}

#[test]
fn transform_vp9_name() {
    let name_webm = "aXgnj6P_460svvp9.webm";
    let result_name = transform_ninegag_name(name_webm);
    assert_eq!(result_name, "aXgnj6P_460sv.webm");
}

#[test]
fn transform_av1_name() {
    let name_mp4 = "aeDQMYq_460svav1.mp4";
    let result_name = transform_ninegag_name(name_mp4);
    assert_eq!(result_name, "aeDQMYq_460sv.mp4");
}

#[test]
fn transform_good_name() {
    let good_name = "arVmMEy_460sv.mp4";
    let result_name = transform_ninegag_name(good_name);
    assert_eq!(result_name, good_name);
}

#[test]
fn transform_both_markers() {
    // Both markers go, wherever they stand in the name.
    let name = "av1clip_vp9_av1.webm";
    let result_name = transform_ninegag_name(name);
    assert_eq!(result_name, "clip__.webm");
}

#[test]
fn transform_marker_removal_can_expose_a_marker() {
    // The removal is one left-to-right pass per marker, `vp9` first: it
    // does not rescan what the passes leave behind.
    let name = "vvp9p9";
    let result_name = transform_ninegag_name(name);
    assert_eq!(result_name, "vp9");
}
