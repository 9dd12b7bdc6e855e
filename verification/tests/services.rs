use cinema_engine::beta::BetaRegistry;
use cinema_engine::billing::{cancelled_state, pro_features_enabled, pro_stub_state, BillingStore, SubscriptionState, SubscriptionTier};
use cinema_engine::cloud::auth::{login_stub, AuthSession};
use cinema_engine::cloud::backup::CloudBackupService;
use cinema_engine::cloud::providers::{backend_status, CloudBackend, CloudBackendKind, LocalCloudBackend, SupabaseCloudBackend};
use cinema_engine::crash_reporting::CrashReporter;
use cinema_engine::error::CinemaError;
use cinema_engine::media_decoder::registry::DecoderRegistry;
use cinema_engine::media_decoder::stub::StubDecoder;
use cinema_engine::media_decoder::types::{DecoderBackend, DecoderError, PixelFormat};
use cinema_engine::native_bridge::{
    decode_frame_at, decode_frame_checked, init_render_backend, register_decode_callback, render_pipeline_backend, require_native_decode,
    set_decoder_backend, BridgeState,
};
use cinema_engine::release_readiness::evaluate;
use cinema_engine::render_pipeline::types::RenderBackend;

#[test]
fn tracks_completions() {
    let mut reg = BetaRegistry::new();
    reg.mark_complete(0x1234, "Film A", "beta_user_1");
    assert_eq!(reg.count(), 1);
}

#[test]
fn completion_is_recorded_once() {
    let mut reg = BetaRegistry::new();
    assert!(reg.mark_complete(7, "Film A", "u1"));
    assert!(!reg.mark_complete(7, "Film A again", "u2"));
    assert_eq!(reg.count(), 1);
    assert!(!reg.gate_met());
}

#[test]
fn free_by_default_pro_upgrade() {
    let store = BillingStore::new("/tmp/cloud");
    assert!(!store.is_pro(Ok(SubscriptionState::default())).unwrap());
    assert!(store.is_pro(Ok(pro_stub_state())).unwrap());
}

#[test]
fn cancel_returns_to_free() {
    let pro = pro_stub_state();
    assert!(pro_features_enabled(&pro));
    let free = cancelled_state(pro);
    assert_eq!(free.tier, SubscriptionTier::Free);
    assert_eq!(free.stripe_customer_id.as_deref(), Some("cus_stub_phase6"));
    assert!(free.stripe_subscription_id.is_none());
}

#[test]
fn is_pro_passes_read_errors_on() {
    let store = BillingStore::new("/tmp/cloud");
    assert!(matches!(store.is_pro(Err(CinemaError::Io("gone".to_string()))), Err(CinemaError::Io(_))));
}

#[test]
fn guest_by_default() {
    assert!(!AuthSession::guest().logged_in);
}

#[test]
fn login_persists() {
    let session = login_stub("user@cinemastudio.dev", "pass").unwrap();
    assert!(session.logged_in);
    assert_eq!(session.email.as_deref(), Some("user@cinemastudio.dev"));
    assert_eq!(session.token_hint.as_deref(), Some("stub_tok…"));
}

#[test]
fn login_rejects_email_without_at() {
    match login_stub("nobody", "pass") {
        Err(CinemaError::Validation(msg)) => assert_eq!(msg, "invalid email"),
        other => panic!("unexpected {other:?}"),
    }
}

#[test]
fn local_backend_default() {
    assert_eq!(CloudBackendKind::from_name(None), CloudBackendKind::Local);
    assert!(LocalCloudBackend.wired());
}

#[test]
fn supabase_is_not_wired() {
    assert_eq!(CloudBackendKind::from_name(Some("supabase")), CloudBackendKind::Supabase);
    assert!(!SupabaseCloudBackend.wired());
    assert!(SupabaseCloudBackend.login("a@b", "x").is_err());
    let status = backend_status(CloudBackendKind::Supabase);
    assert!(!status.wired);
    assert_eq!(status.data_root_hint, "CinemaStudio/cloud");
    assert_eq!(CloudBackendKind::Local.as_str(), "local");
}

#[test]
fn backup_and_restore_roundtrip() {
    let svc = CloudBackupService::new("/cloud");
    let dest = svc.backup_destination(1, 2);
    assert_eq!(dest, "/cloud/backups/00000000-0000-0000-0000-000000000001/00000000-0000-0000-0000-000000000002.bundle");
    assert_eq!(svc.restore_project(&dest, "/restored.csproj", true, false).unwrap(), "/restored.csproj");
    assert!(matches!(svc.restore_project(&dest, "/x", false, false), Err(CinemaError::ProjectNotFound(_))));
    match svc.restore_project(&dest, "/x", true, true) {
        Err(CinemaError::Validation(msg)) => assert_eq!(msg, "destination already exists: /x"),
        other => panic!("unexpected {other:?}"),
    }
}

#[test]
fn writes_crash_report_when_enabled() {
    let reporter = CrashReporter::new("/proj", true);
    let path = reporter.report_path(3);
    assert_eq!(path.as_deref(), Some("/proj/crash_reports/00000000-0000-0000-0000-000000000003.crash.json"));
}

#[test]
fn disabled_writes_nothing() {
    let reporter = CrashReporter::new("/proj", false);
    assert!(reporter.report_path(3).is_none());
}

#[test]
fn stub_decoder_returns_metadata_frame() {
    let reg = DecoderRegistry::default();
    let frame = reg.decode_at(".", 500, 1920, 1080).unwrap();
    assert_eq!(frame.time_ms, 500);
    assert_eq!(frame.width, 1920);
    assert_eq!(frame.pixel_bytes_len, 1920 * 1080 * 4);
    assert_eq!(frame.format, PixelFormat::Rgba8);
}

#[test]
fn decoding_a_missing_file_fails() {
    let reg = DecoderRegistry::new(DecoderBackend::MediaCodec);
    assert!(matches!(reg.decode_at("/definitely/not/here.mp4", 0, 2, 2), Err(CinemaError::ProjectNotFound(_))));
    assert_eq!(DecoderError::SeekFailed(40).message(), "seek failed at 40ms");
}

#[test]
fn stub_decode_without_callback() {
    let bridge = BridgeState::new();
    let frame = decode_frame_at(&bridge, ".", 0, 1280, 720).unwrap().unwrap();
    assert_eq!(frame.width, 1280);
}

#[test]
fn registered_callback_takes_over_decoding() {
    let mut bridge = BridgeState::new();
    assert!(require_native_decode(&bridge).is_err());
    register_decode_callback(&mut bridge);
    assert_eq!(bridge.decoder_backend, DecoderBackend::AvFoundation);
    assert!(decode_frame_at(&bridge, ".", 0, 1280, 720).is_none());
    assert!(require_native_decode(&bridge).is_ok());
    set_decoder_backend(&mut bridge, DecoderBackend::MediaCodec);
    assert_eq!(bridge.decoder_backend, DecoderBackend::MediaCodec);
}

#[test]
fn render_backend_prefers_ffmpeg_when_present() {
    let mut bridge = BridgeState::new();
    assert_eq!(render_pipeline_backend(&bridge, false), RenderBackend::Stub);
    assert_eq!(render_pipeline_backend(&bridge, true), RenderBackend::Ffmpeg);
    init_render_backend(&mut bridge, true);
    assert_eq!(bridge.render_backend, RenderBackend::Ffmpeg);
}

fn full_beta_registry() -> BetaRegistry {
    let mut reg = BetaRegistry::new();
    for i in 0..10u128 {
        reg.mark_complete(i + 1, &format!("Film {i}"), &format!("beta_{i}"));
    }
    reg
}

#[test]
fn ready_when_beta_and_crash_gates_pass() {
    // A crash rate of 0.005 is 5000 parts per million.
    let report = evaluate(&full_beta_registry(), 5000, "1.0.0", false);
    assert!(report.beta_gate_met);
    assert!(report.crash_gate_met);
    assert!(report.ready_to_ship);
    assert!(report.blockers.is_empty());
}

#[test]
fn blocked_when_beta_incomplete() {
    let report = evaluate(&BetaRegistry::new(), 0, "1.0.0", false);
    assert!(!report.ready_to_ship);
    assert!(!report.blockers.is_empty());
}

#[test]
fn blockers_name_the_gates() {
    let report = evaluate(&BetaRegistry::new(), 12345, "1.0.0", true);
    assert_eq!(report.blockers[0], "Beta gate: 0/10 projects complete (need 10)");
    assert_eq!(report.blockers[1], "Crash rate 1.23% exceeds 1% threshold");
    assert_eq!(report.recommendations.len(), 2);
}

#[test]
fn backend_names_round_trip() {
    for k in [CloudBackendKind::Local, CloudBackendKind::Supabase] {
        assert_eq!(CloudBackendKind::from_name(Some(k.as_str())), k);
    }
}

#[test]
fn checked_decode_follows_the_existence_answer() {
    let reg = DecoderRegistry::new(DecoderBackend::MediaCodec);
    let frame = reg.decode_checked("/any/clip.mp4", true, 40, 4, 2).unwrap();
    assert_eq!(frame.time_ms, 40);
    assert_eq!(frame.pixel_bytes_len, 32);
    assert_eq!(frame.backend, DecoderBackend::MediaCodec);
    match reg.decode_checked("/any/clip.mp4", false, 40, 4, 2) {
        Err(CinemaError::ProjectNotFound(p)) => assert_eq!(p, "/any/clip.mp4"),
        other => panic!("unexpected {other:?}"),
    }
    let mut bridge = BridgeState::new();
    assert_eq!(decode_frame_checked(&bridge, "/x.mp4", true, 0, 2, 2).unwrap().unwrap().width, 2);
    assert!(matches!(decode_frame_checked(&bridge, "/x.mp4", false, 0, 2, 2), Some(Err(CinemaError::ProjectNotFound(_)))));
    register_decode_callback(&mut bridge);
    assert!(decode_frame_checked(&bridge, "/x.mp4", true, 0, 2, 2).is_none());
}

#[test]
fn stub_decoder_opens_when_the_file_is_there() {
    let mut d = StubDecoder::new();
    assert!(matches!(d.open_checked("/gone.mp4", false), Err(CinemaError::ProjectNotFound(_))));
    assert!(d.open_path.is_none());
    d.open_checked("/here.mp4", true).unwrap();
    assert_eq!(d.open_path.as_deref(), Some("/here.mp4"));
}
