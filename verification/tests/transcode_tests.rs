use ninegag_video::transcode::conclude_transcode;
use ninegag_video::transcode::transcode_plan;
use ninegag_video::transcode::TranscodeOutcome;
use ninegag_video::transcode::TranscodePlan;

#[test]
fn plan_keeps_mp4() {
    // An `.mp4` file needs no encoder run at all.
    let plan = transcode_plan("clip.mp4");
    assert_eq!(
        plan,
        TranscodePlan::AlreadyMp4 {
            filename: "clip.mp4".to_owned()
        }
    );
}

#[test]
fn plan_converts_webm() {
    let plan = transcode_plan("clip.webm");
    assert_eq!(
        plan,
        TranscodePlan::Convert {
            source: "clip.webm".to_owned(),
            target: "clip.mp4".to_owned()
        }
    );
}

#[test]
fn plan_substitutes_only_the_extension() {
    // `webm` elsewhere in the name is left alone; only the extension turns
    // into `mp4`.
    let plan = transcode_plan("webm_clip.webm");
    assert_eq!(
        plan,
        TranscodePlan::Convert {
            source: "webm_clip.webm".to_owned(),
            target: "webm_clip.mp4".to_owned()
        }
    );
}

#[test]
fn plan_converts_other_containers() {
    let plan = transcode_plan("clip.mkv");
    assert_eq!(
        plan,
        TranscodePlan::Convert {
            source: "clip.mkv".to_owned(),
            target: "clip.mp4".to_owned()
        }
    );
}

#[test]
fn plan_appends_extension_when_none() {
    let plan = transcode_plan("rawclip");
    assert_eq!(
        plan,
        TranscodePlan::Convert {
            source: "rawclip".to_owned(),
            target: "rawclip.mp4".to_owned()
        }
    );
}

#[test]
fn conclude_unchanged_without_encoder() {
    let plan = transcode_plan("clip.mp4");
    // The encoder never ran; its flag is irrelevant for a kept file.
    let outcome = conclude_transcode(plan, false);
    assert_eq!(outcome, Some(TranscodeOutcome::Unchanged("clip.mp4".to_owned())));
}

#[test]
fn conclude_converted_on_encoder_success() {
    let plan = transcode_plan("clip.webm");
    let outcome = conclude_transcode(plan, true);
    assert_eq!(outcome, Some(TranscodeOutcome::Converted("clip.mp4".to_owned())));
}

#[test]
fn conclude_failure_on_encoder_error() {
    let plan = transcode_plan("clip.webm");
    let outcome = conclude_transcode(plan, false);
    assert_eq!(outcome, None);
}
