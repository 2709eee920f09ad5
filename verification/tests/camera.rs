use honeybee_camera::controller::{
    CameraService, StartStatus, StopBegin, StopPollStep, stop_wait,
};
use honeybee_camera::photo::{
    PhotoPlan, SaveOutcome, Timestamp, make_timestamp, no_frame_result, photo_dir_for,
    photo_filename, photo_save_result,
};
use honeybee_camera::worker::{
    CycleFrame, open_error_message, pace_sleep_ms, run_worker_session, stream_error_message,
};
use honeybee_camera::{FRAME_INTERVAL_MS, STOP_POLL_MAX_ATTEMPTS};

fn sample_timestamp() -> Timestamp {
    make_timestamp(2024, 3, 9, 14, 5, 7).unwrap()
}

fn rgb_pixels(width: u32, height: u32) -> Vec<u8> {
    let mut v = Vec::new();
    for i in 0..(3 * width * height) {
        v.push((i % 251) as u8);
    }
    v
}

#[test]
fn start_is_idempotent_and_single_worker() {
    let mut svc = CameraService::new();
    assert!(!svc.is_running());
    assert!(matches!(svc.request_start(), StartStatus::Started));
    assert!(svc.is_running());
    // A second and third start while running spawn nothing.
    assert!(matches!(svc.request_start(), StartStatus::AlreadyRunning));
    assert!(matches!(svc.request_start(), StartStatus::AlreadyRunning));
    assert!(svc.is_running());
}

#[test]
fn stop_clears_slot_and_running() {
    let mut svc = CameraService::new();
    svc.request_start();
    let ev = svc.process_frame(rgb_pixels(2, 2), 2, 2);
    assert!(ev.is_some());
    assert!(svc.has_frame());
    assert!(matches!(svc.request_stop_begin(), StopBegin::PollNeeded));
    assert!(svc.is_stop_requested());
    // The worker observes the stop flag and cleans up.
    svc.worker_cleanup();
    assert!(!svc.is_running());
    assert!(!svc.is_stop_requested());
    assert!(!svc.has_frame());
    assert!(svc.read_frame_bytes().is_none());
}

#[test]
fn double_stop_second_is_noop() {
    let mut svc = CameraService::new();
    svc.request_start();
    assert!(matches!(svc.request_stop_begin(), StopBegin::PollNeeded));
    svc.worker_cleanup();
    assert!(matches!(svc.stop_poll_step(0), StopPollStep::Stopped));
    // Second stop in a row: not running, so success immediately, no wait.
    assert!(matches!(svc.request_stop_begin(), StopBegin::NotRunning));
    assert!(!svc.is_running());
}

#[test]
fn stop_wait_succeeds_at_first_clear_poll() {
    let mut observed = vec![true; STOP_POLL_MAX_ATTEMPTS + 1];
    observed[3] = false;
    let outcome = stop_wait(&observed);
    assert!(outcome.stopped);
    assert_eq!(outcome.sleeps, 3);
}

#[test]
fn stop_wait_times_out_after_bounded_sleeps() {
    let observed = vec![true; STOP_POLL_MAX_ATTEMPTS + 1];
    let outcome = stop_wait(&observed);
    assert!(!outcome.stopped);
    assert_eq!(outcome.sleeps, STOP_POLL_MAX_ATTEMPTS);
}

#[test]
fn stop_poll_step_decisions() {
    let mut svc = CameraService::new();
    svc.request_start();
    assert!(matches!(svc.stop_poll_step(0), StopPollStep::SleepAgain));
    assert!(matches!(
        svc.stop_poll_step(STOP_POLL_MAX_ATTEMPTS - 1),
        StopPollStep::SleepAgain
    ));
    assert!(matches!(
        svc.stop_poll_step(STOP_POLL_MAX_ATTEMPTS),
        StopPollStep::TimedOut
    ));
    svc.worker_cleanup();
    assert!(matches!(svc.stop_poll_step(0), StopPollStep::Stopped));
}

#[test]
fn open_failure_resets_running_without_streaming() {
    let mut svc = CameraService::new();
    assert!(matches!(svc.request_start(), StartStatus::Started));
    // The device fails to open: an error event is due and the worker exits.
    let ev = svc.worker_fatal(open_error_message("device busy"));
    assert_eq!(ev.message, "Failed to open camera: device busy");
    assert!(!svc.is_running());
    assert!(!svc.has_frame());
    // Stream-activation failures report their own message.
    assert_eq!(
        stream_error_message("no stream"),
        "Failed to start camera stream: no stream".to_string()
    );
}

#[test]
fn frame_event_carries_data_url_and_dimensions() {
    let mut svc = CameraService::new();
    svc.request_start();
    let ev = svc.process_frame(rgb_pixels(4, 2), 4, 2).expect("cycle should publish");
    assert_eq!(ev.width, 4);
    assert_eq!(ev.height, 2);
    assert!(ev.data.starts_with("data:image/jpeg;base64,"));
    // The event and the slot carry the same encoding.
    let slot_bytes = svc.read_frame_bytes().expect("slot filled");
    let b64_part = &ev.data["data:image/jpeg;base64,".len()..];
    let decoded = base64::Engine::decode(&base64::engine::general_purpose::STANDARD, b64_part)
        .expect("valid base64");
    assert_eq!(decoded, slot_bytes);
    // The slot holds a real JPEG of the stated dimensions.
    assert_eq!(&slot_bytes[0..2], &[0xffu8, 0xd8u8]);
    let img = image::load_from_memory(&slot_bytes).expect("decodable image");
    assert_eq!(image::GenericImageView::dimensions(&img), (4, 2));
}

#[test]
fn mismatched_pixel_buffer_skips_cycle() {
    let mut svc = CameraService::new();
    svc.request_start();
    let ev = svc.process_frame(vec![0u8; 11], 2, 2);
    assert!(ev.is_none());
    assert!(!svc.has_frame());
}

#[test]
fn publish_replaces_previous_frame() {
    let mut svc = CameraService::new();
    svc.request_start();
    svc.process_frame(rgb_pixels(2, 2), 2, 2).unwrap();
    let first = svc.read_frame_bytes().unwrap();
    svc.process_frame(rgb_pixels(4, 4), 4, 4).unwrap();
    let second = svc.read_frame_bytes().unwrap();
    assert_ne!(first, second);
    let img = image::load_from_memory(&second).unwrap();
    assert_eq!(image::GenericImageView::dimensions(&img), (4, 4));
}

#[test]
fn capture_without_any_stream_reports_no_frame() {
    let svc = CameraService::new();
    let plan = svc.plan_photo("/tmp/pics", &sample_timestamp());
    match plan {
        PhotoPlan::NoFrame(res) => {
            assert!(!res.success);
            assert_eq!(res.path, "");
            assert_eq!(
                res.error.as_deref(),
                Some("No frame available. Is the camera streaming?")
            );
        }
        PhotoPlan::Save { .. } => panic!("no write may be planned without a frame"),
    }
}

#[test]
fn capture_with_frame_plans_exact_bytes_and_path() {
    let mut svc = CameraService::new();
    svc.request_start();
    for _ in 0..3 {
        assert!(svc.process_frame(rgb_pixels(2, 2), 2, 2).is_some());
    }
    let slot_bytes = svc.read_frame_bytes().unwrap();
    let dir = photo_dir_for("/home/user/Pictures");
    assert_eq!(dir, "/home/user/Pictures/honeybee-camera");
    let plan = svc.plan_photo(dir.as_str(), &sample_timestamp());
    match plan {
        PhotoPlan::Save { bytes, path } => {
            assert_eq!(bytes, slot_bytes);
            assert_eq!(
                path,
                "/home/user/Pictures/honeybee-camera/IMG_20240309_140507.jpg"
            );
            let name = path.rsplit('/').next().unwrap();
            assert!(name_matches_photo_pattern(name));
        }
        PhotoPlan::NoFrame(_) => panic!("a frame is cached"),
    }
}

fn name_matches_photo_pattern(name: &str) -> bool {
    let b: Vec<char> = name.chars().collect();
    b.len() == 23
        && name.starts_with("IMG_")
        && b[4..12].iter().all(|c| c.is_ascii_digit())
        && b[12] == '_'
        && b[13..19].iter().all(|c| c.is_ascii_digit())
        && name.ends_with(".jpg")
}

#[test]
fn photo_filename_is_exact() {
    let t = make_timestamp(2026, 12, 1, 0, 59, 6).unwrap();
    assert_eq!(photo_filename(&t), "IMG_20261201_005906.jpg");
    let t2 = make_timestamp(7, 1, 31, 23, 0, 0).unwrap();
    assert_eq!(photo_filename(&t2), "IMG_00070131_230000.jpg");
}

#[test]
fn timestamp_ranges_are_enforced() {
    assert!(make_timestamp(2024, 3, 9, 14, 5, 7).is_some());
    assert!(make_timestamp(-1, 3, 9, 14, 5, 7).is_none());
    assert!(make_timestamp(10000, 3, 9, 14, 5, 7).is_none());
    assert!(make_timestamp(2024, 0, 9, 14, 5, 7).is_none());
    assert!(make_timestamp(2024, 13, 9, 14, 5, 7).is_none());
    assert!(make_timestamp(2024, 3, 0, 14, 5, 7).is_none());
    assert!(make_timestamp(2024, 3, 32, 14, 5, 7).is_none());
    assert!(make_timestamp(2024, 3, 9, 24, 5, 7).is_none());
    assert!(make_timestamp(2024, 3, 9, 14, 60, 7).is_none());
    assert!(make_timestamp(2024, 3, 9, 14, 5, 60).is_none());
}

#[test]
fn photo_save_results_cover_every_outcome() {
    let ok = photo_save_result("/p/a.jpg".to_string(), SaveOutcome::Written);
    assert!(ok.success);
    assert_eq!(ok.path, "/p/a.jpg");
    assert!(ok.error.is_none());

    let err = photo_save_result(
        "/p/a.jpg".to_string(),
        SaveOutcome::WriteFailed("disk full".to_string()),
    );
    assert!(!err.success);
    assert_eq!(err.path, "");
    assert_eq!(err.error.as_deref(), Some("Failed to save photo: disk full"));

    let err = photo_save_result(
        "/p/a.jpg".to_string(),
        SaveOutcome::DirCreateFailed("read-only".to_string()),
    );
    assert!(!err.success);
    assert_eq!(err.path, "");
    assert_eq!(
        err.error.as_deref(),
        Some("Failed to create camera directory: read-only")
    );

    let err = photo_save_result(String::new(), SaveOutcome::NoPicturesDir);
    assert!(!err.success);
    assert_eq!(err.path, "");
    assert_eq!(err.error.as_deref(), Some("Failed to get Pictures directory"));

    let nf = no_frame_result();
    assert!(!nf.success);
    assert_eq!(nf.path, "");
    assert_eq!(
        nf.error.as_deref(),
        Some("No frame available. Is the camera streaming?")
    );
}

#[test]
fn pacing_sleeps_exactly_the_remainder() {
    assert_eq!(FRAME_INTERVAL_MS, 40);
    assert_eq!(pace_sleep_ms(0), 40);
    assert_eq!(pace_sleep_ms(39), 1);
    assert_eq!(pace_sleep_ms(40), 0);
    assert_eq!(pace_sleep_ms(1000), 0);
    // Under-interval cycles are padded to the full interval.
    let cycles = [10u64, 25, 39, 0];
    let total: u64 = cycles.iter().map(|&p| p + pace_sleep_ms(p)).sum();
    assert!(total >= cycles.len() as u64 * FRAME_INTERVAL_MS);
    assert_eq!(total, 160);
}

#[test]
fn session_with_failed_open_never_streams() {
    let mut svc = CameraService::new();
    assert!(matches!(svc.request_start(), StartStatus::Started));
    let (frames, error) = run_worker_session(
        &mut svc,
        Some(open_error_message("no such device")),
        &Vec::new(),
    );
    assert!(frames.is_empty());
    assert_eq!(
        error.expect("an error event is due").message,
        "Failed to open camera: no such device"
    );
    assert!(!svc.is_running());
    assert!(!svc.has_frame());
}

#[test]
fn session_streams_then_capture_succeeds() {
    let mut svc = CameraService::new();
    svc.request_start();
    // Three successful cycles, one transient per-cycle failure in between.
    let script = vec![
        Some(CycleFrame { pixels: rgb_pixels(2, 2), width: 2, height: 2 }),
        None,
        Some(CycleFrame { pixels: rgb_pixels(2, 2), width: 2, height: 2 }),
        Some(CycleFrame { pixels: rgb_pixels(4, 2), width: 4, height: 2 }),
    ];
    // Run the streaming part of the session manually stopped after the
    // script: first without a stop request, frames flow and a photo plan
    // uses the latest one.
    let mut probe = CameraService::new();
    probe.request_start();
    for entry in &script {
        if let Some(cf) = entry {
            probe.process_frame(cf.pixels.clone(), cf.width, cf.height);
        }
    }
    assert!(probe.has_frame());
    let plan = probe.plan_photo("/pics/honeybee-camera", &sample_timestamp());
    assert!(matches!(plan, PhotoPlan::Save { .. }));

    // The full session consumes a stop request and drains.
    svc.request_stop_begin();
    let (frames, error) = run_worker_session(&mut svc, None, &script);
    // The stop flag was already up at the first cycle: no frame was
    // published, and the worker drained cleanly.
    assert!(frames.is_empty());
    assert!(error.is_none());
    assert!(!svc.is_running());
    assert!(!svc.is_stop_requested());
    assert!(!svc.has_frame());
}

#[test]
fn unstopped_session_emits_one_event_per_publishable_entry() {
    let mut svc = CameraService::new();
    svc.request_start();
    let script = vec![
        Some(CycleFrame { pixels: rgb_pixels(2, 2), width: 2, height: 2 }),
        None,
        Some(CycleFrame { pixels: vec![0u8; 5], width: 2, height: 2 }),
        Some(CycleFrame { pixels: rgb_pixels(4, 2), width: 4, height: 2 }),
    ];
    let (frames, error) = run_worker_session(&mut svc, None, &script);
    assert!(error.is_none());
    // Two entries publish: the mismatched buffer and the skip do not.
    assert_eq!(frames.len(), 2);
    assert_eq!((frames[0].width, frames[0].height), (2, 2));
    assert_eq!((frames[1].width, frames[1].height), (4, 2));
    assert!(frames.iter().all(|f| f.data.starts_with("data:image/jpeg;base64,")));
    // The session drained: slot empty, flags down.
    assert!(!svc.is_running());
    assert!(!svc.has_frame());
}

#[test]
fn oversize_dimensions_skip_the_cycle() {
    let mut svc = CameraService::new();
    svc.request_start();
    // A zero-sized frame matches its (empty) buffer but cannot be encoded.
    assert!(svc.process_frame(Vec::new(), 0, 0).is_none());
    assert!(!svc.has_frame());
}
