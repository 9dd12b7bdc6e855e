use cinema_engine::error::CinemaError;
use cinema_engine::project_state::types::{
    default_project_settings, Clip, ClipTransitions, MediaAsset, MediaStatus, ProjectState, TrackType,
};
use cinema_engine::render_pipeline::segments::{playback_path, resolve_export_segments, resolve_export_source, resolve_segments_checked};

// A path that exists wherever the tests run, and one that does not.
const PRESENT: &str = ".";
const ABSENT: &str = "/no/such/dir/clip.mp4";

fn asset(id: u128, file: &str, proxy: Option<&str>) -> MediaAsset {
    MediaAsset {
        id,
        original_path: file.to_string(),
        proxy_path: proxy.map(|p| p.to_string()),
        thumbnail_path: None,
        file_name: "clip.mp4".to_string(),
        mime_type: "video/mp4".to_string(),
        duration_ms: 10_000,
        width: 1920,
        height: 1080,
        file_size_bytes: 1,
        status: MediaStatus::Ready,
        imported_at: 0,
        checksum: None,
    }
}

fn clip(id: u128, media_id: u128, start_ms: u64) -> Clip {
    Clip {
        id,
        media_id,
        start_ms,
        duration_ms: 1500,
        source_in_ms: 250,
        source_out_ms: 1750,
        label: format!("clip {id}"),
        transitions: ClipTransitions::default(),
    }
}

fn project(clips: Vec<Clip>, media: Vec<MediaAsset>) -> ProjectState {
    let mut s = ProjectState::new("Export".to_string(), "/p".to_string(), default_project_settings());
    let video = s.timeline.tracks.iter_mut().find(|t| t.track_type == TrackType::Video).unwrap();
    video.clips = clips;
    s.media = media;
    s
}

fn validation(r: &CinemaError) -> &str {
    match r {
        CinemaError::Validation(m) => m,
        other => panic!("expected a validation error, got {other:?}"),
    }
}

#[test]
fn playback_path_prefers_proxy() {
    assert_eq!(playback_path(&asset(1, "/orig.mp4", None)), "/orig.mp4");
    assert_eq!(playback_path(&asset(1, "/orig.mp4", Some("/proxy.mp4"))), "/proxy.mp4");
}

#[test]
fn segments_follow_timeline_order() {
    let s = project(vec![clip(1, 10, 3000), clip(2, 10, 0), clip(3, 10, 3000)], vec![asset(10, PRESENT, None)]);
    let segs = resolve_export_segments(&s).unwrap();
    let ids: Vec<u128> = segs.iter().map(|g| g.clip_id).collect();
    assert_eq!(ids, vec![2, 1, 3]);
    assert_eq!(segs[0].timeline_start_ms, 0);
    assert_eq!(segs[1].timeline_start_ms, 3000);
    assert_eq!(segs[0].source_in_ms, 250);
    assert_eq!(segs[0].duration_ms, 1500);
    assert_eq!(segs[0].media_id, 10);
    assert_eq!(segs[0].source_path, PRESENT);
}

#[test]
fn segments_read_from_proxy() {
    let s = project(vec![clip(1, 10, 0)], vec![asset(10, ABSENT, Some(PRESENT))]);
    let segs = resolve_export_segments(&s).unwrap();
    assert_eq!(segs.len(), 1);
    assert_eq!(segs[0].source_path, PRESENT);
}

#[test]
fn segments_refuse_unknown_media() {
    let s = project(vec![clip(1, 10, 0), clip(5, 99, 100)], vec![asset(10, PRESENT, None)]);
    let err = resolve_export_segments(&s).unwrap_err();
    assert_eq!(validation(&err), "media missing for clip 00000000-0000-0000-0000-000000000005");
}

#[test]
fn segments_refuse_missing_source() {
    let s = project(vec![clip(1, 10, 0)], vec![asset(10, ABSENT, None)]);
    match resolve_export_segments(&s).unwrap_err() {
        CinemaError::Storage(m) => assert_eq!(m, format!("export source not found: {ABSENT}")),
        other => panic!("unexpected {other:?}"),
    }
}

#[test]
fn segments_of_empty_timeline() {
    let s = project(vec![], vec![]);
    let err = resolve_export_segments(&s).unwrap_err();
    assert_eq!(validation(&err), "timeline empty \u{2014} nothing to export");
}

#[test]
fn segments_without_video_track() {
    let mut s = project(vec![], vec![]);
    s.timeline.tracks.retain(|t| t.track_type != TrackType::Video);
    let err = resolve_export_segments(&s).unwrap_err();
    assert_eq!(validation(&err), "no video track");
    let err = resolve_export_source(&s).unwrap_err();
    assert_eq!(validation(&err), "no video track");
}

#[test]
fn stub_source_is_first_clip_in_track_order() {
    let s = project(vec![clip(1, 10, 3000), clip(2, 20, 0)], vec![asset(10, PRESENT, None), asset(20, ABSENT, None)]);
    assert_eq!(resolve_export_source(&s).unwrap(), PRESENT);
}

#[test]
fn stub_source_errors() {
    let empty = project(vec![], vec![]);
    assert_eq!(validation(&resolve_export_source(&empty).unwrap_err()), "timeline empty");
    let unknown = project(vec![clip(1, 99, 0)], vec![]);
    assert_eq!(validation(&resolve_export_source(&unknown).unwrap_err()), "media missing");
    let absent = project(vec![clip(1, 10, 0)], vec![asset(10, ABSENT, None)]);
    match resolve_export_source(&absent).unwrap_err() {
        CinemaError::Storage(m) => assert_eq!(m, format!("source not found: {ABSENT}")),
        other => panic!("unexpected {other:?}"),
    }
}

#[test]
fn resolves_sorted_segments() {
    let s = project(vec![clip(1, 10, 2000)], vec![asset(10, PRESENT, None)]);
    let segs = resolve_export_segments(&s).unwrap();
    assert_eq!(segs.len(), 1);
    assert_eq!(segs[0].timeline_start_ms, 2000);
}

#[test]
fn checked_segments_follow_the_existence_answers() {
    let s = project(vec![clip(1, 10, 3000), clip(2, 10, 0)], vec![asset(10, ABSENT, None)]);
    // Answers are in start order: clip 2 first, then clip 1.
    let segs = resolve_segments_checked(&s, &vec![true, true]).unwrap();
    let ids: Vec<u128> = segs.iter().map(|g| g.clip_id).collect();
    assert_eq!(ids, vec![2, 1]);
    match resolve_segments_checked(&s, &vec![true, false]).unwrap_err() {
        CinemaError::Storage(m) => assert_eq!(m, format!("export source not found: {ABSENT}")),
        other => panic!("unexpected {other:?}"),
    }
    let unknown = project(vec![clip(4, 10, 0), clip(5, 99, 100)], vec![asset(10, ABSENT, None)]);
    let err = resolve_segments_checked(&unknown, &vec![true, false]).unwrap_err();
    assert_eq!(validation(&err), "media missing for clip 00000000-0000-0000-0000-000000000005");
}
