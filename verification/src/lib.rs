//! Device-facing core of a kiosk desktop application.
//!
//! The heart of the crate is the camera streaming and capture subsystem: a
//! lifecycle controller that guarantees at most one capture worker at a time,
//! a single-slot cache for the most recently encoded frame, the per-cycle
//! worker transitions (encode once, publish, pace), and on-demand photo
//! capture planning.  Around it stand the pure parts of the host glue:
//! path construction, QR-code payload building, Wi-Fi status parsing, and
//! the brightness/volume arithmetic.
//!
//! All I/O (device access, file writes, event transport) is left to the
//! embedding binary; the library computes every decision and every payload,
//! with contracts.
use vstd::prelude::*;

pub mod codec;
pub mod controller;
pub mod frame;
pub mod ipc;
pub mod paths;
pub mod photo;
pub mod qr;
pub mod scan;
pub mod system;
pub mod textfmt;
pub mod wifi;
pub mod worker;

verus! {

/// Fixed capture profile: frame width in pixels.
pub const CAMERA_WIDTH: u32 = 640;

/// Fixed capture profile: frame height in pixels.
pub const CAMERA_HEIGHT: u32 = 480;

/// Fixed re-encode quality on the 0-100 lossy scale.
pub const JPEG_QUALITY: u8 = 85;

/// Fixed target frame rate of the capture loop.
pub const TARGET_FPS: u64 = 25;

/// Per-frame pacing interval derived from the target frame rate.
pub const FRAME_INTERVAL_MS: u64 = 1000 / TARGET_FPS;

/// Interval at which a stop request polls for worker exit.
pub const STOP_POLL_INTERVAL_MS: u64 = 50;

/// Bound on the number of poll sleeps a stop request may perform.
pub const STOP_POLL_MAX_ATTEMPTS: usize = 50;

} // verus!
