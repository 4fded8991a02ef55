use ninegag_video::resource::Action;
use ninegag_video::resource::Phase;
use ninegag_video::resource::PipelineError;
use ninegag_video::resource::VideoResource;
use ninegag_video::rewrite::RewriteError;

#[test]
fn walk_success_path_with_conversion() {
    let (mut resource, action) = VideoResource::start(
        "https://img-9gag-fun.9cache.com/photo/aXgnj6P_460svvp9.webm",
    );
    assert_eq!(
        action,
        Action::Fetch {
            url: "https://img-9gag-fun.9cache.com/photo/aXgnj6P_460sv.webm".to_owned()
        }
    );
    assert_eq!(resource.current_phase(), Phase::Fetching);

    let action = resource.on_fetched(Some(
        "https://img-9gag-fun.9cache.com/photo/aXgnj6P_460sv.webm",
    ));
    assert_eq!(
        action,
        Action::Persist {
            filename: "aXgnj6P_460sv.webm".to_owned()
        }
    );

    let action = resource.on_persisted(true);
    assert_eq!(
        action,
        Action::Encode {
            source: "aXgnj6P_460sv.webm".to_owned(),
            target: "aXgnj6P_460sv.mp4".to_owned()
        }
    );

    // The encoder succeeded: the source file is retired at once.
    let action = resource.on_encoded(true);
    assert_eq!(
        action,
        Action::Delete {
            filename: "aXgnj6P_460sv.webm".to_owned()
        }
    );
    assert_eq!(resource.current_phase(), Phase::Ready);
    assert_eq!(resource.filename(), "aXgnj6P_460sv.mp4");

    // Release from the ready phase deletes the backing file.
    let action = resource.release();
    assert_eq!(
        action,
        Action::Delete {
            filename: "aXgnj6P_460sv.mp4".to_owned()
        }
    );
    assert_eq!(resource.current_phase(), Phase::Released);
}

#[test]
fn walk_success_path_without_conversion() {
    let (mut resource, _) = VideoResource::start(
        "https://img-9gag-fun.9cache.com/photo/aeDQMYq_460svav1.mp4",
    );
    let action = resource.on_fetched(Some(
        "https://img-9gag-fun.9cache.com/photo/aeDQMYq_460sv.mp4",
    ));
    assert_eq!(
        action,
        Action::Persist {
            filename: "aeDQMYq_460sv.mp4".to_owned()
        }
    );

    // An `.mp4` file is ready at once, with no encoder run.
    let action = resource.on_persisted(true);
    assert_eq!(action, Action::Idle);
    assert_eq!(resource.current_phase(), Phase::Ready);
    assert_eq!(resource.filename(), "aeDQMYq_460sv.mp4");

    let action = resource.release();
    assert_eq!(
        action,
        Action::Delete {
            filename: "aeDQMYq_460sv.mp4".to_owned()
        }
    );
    assert_eq!(resource.current_phase(), Phase::Released);
}

#[test]
fn rewrite_failure_owns_no_file() {
    let (mut resource, action) = VideoResource::start("owowoowo");
    assert_eq!(action, Action::Idle);
    assert_eq!(resource.current_phase(), Phase::Failed);
    assert_eq!(
        resource.current_failure(),
        Some(PipelineError::Rewrite(RewriteError::InvalidUrl))
    );

    // Nothing was persisted, so release has nothing to delete.
    let action = resource.release();
    assert_eq!(action, Action::Idle);
    assert_eq!(resource.current_phase(), Phase::Released);
}

#[test]
fn network_failure_owns_no_file() {
    let (mut resource, _) = VideoResource::start(
        "https://img-9gag-fun.9cache.com/photo/aXgnj6P_460svvp9.webm",
    );
    let action = resource.on_fetched(None);
    assert_eq!(action, Action::Idle);
    assert_eq!(resource.current_phase(), Phase::Failed);
    assert_eq!(resource.current_failure(), Some(PipelineError::Network));

    let action = resource.release();
    assert_eq!(action, Action::Idle);
}

#[test]
fn persist_failure_owns_no_file() {
    let (mut resource, _) = VideoResource::start(
        "https://img-9gag-fun.9cache.com/photo/aXgnj6P_460svvp9.webm",
    );
    resource.on_fetched(Some(
        "https://img-9gag-fun.9cache.com/photo/aXgnj6P_460sv.webm",
    ));
    let action = resource.on_persisted(false);
    assert_eq!(action, Action::Idle);
    assert_eq!(resource.current_phase(), Phase::Failed);
    assert_eq!(resource.current_failure(), Some(PipelineError::Persist));

    let action = resource.release();
    assert_eq!(action, Action::Idle);
}

#[test]
fn transcode_failure_keeps_source_until_release() {
    let (mut resource, _) = VideoResource::start(
        "https://img-9gag-fun.9cache.com/photo/aXgnj6P_460svvp9.webm",
    );
    resource.on_fetched(Some(
        "https://img-9gag-fun.9cache.com/photo/aXgnj6P_460sv.webm",
    ));
    resource.on_persisted(true);

    // The encoder failed: the source file is not deleted now.
    let action = resource.on_encoded(false);
    assert_eq!(action, Action::Idle);
    assert_eq!(resource.current_phase(), Phase::Failed);
    assert_eq!(resource.current_failure(), Some(PipelineError::Transcode));

    // Release still retires the kept source file.
    let action = resource.release();
    assert_eq!(
        action,
        Action::Delete {
            filename: "aXgnj6P_460sv.webm".to_owned()
        }
    );
    assert_eq!(resource.current_phase(), Phase::Released);
}

#[test]
fn placeholder_filename_when_resolved_path_is_bare() {
    let (mut resource, _) = VideoResource::start(
        "https://img-9gag-fun.9cache.com/photo/aXgnj6P_460svvp9.webm",
    );
    // The server resolved to a URL with an empty final segment.
    let action = resource.on_fetched(Some("https://img-9gag-fun.9cache.com/"));
    assert_eq!(
        action,
        Action::Persist {
            filename: "tmp.bin".to_owned()
        }
    );
}
