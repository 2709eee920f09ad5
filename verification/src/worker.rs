//! The capture worker's verified transitions: fatal open failures, the
//! per-cycle encode-once / publish / emit step, cleanup, and frame pacing.
//!
//! One worker runs per admitted start request.  The embedding binary owns
//! the device and the clock; it feeds decoded pixel buffers and elapsed
//! times in, and carries the returned event payloads out.
use vstd::prelude::*;

use crate::FRAME_INTERVAL_MS;
use crate::JPEG_QUALITY;
use crate::codec::{MAX_B64_INPUT, b64_encode, b64_of, jpeg_encode_rgb, jpeg_of};
use crate::controller::CameraService;
use crate::frame::EncodedFrame;

verus! {

/// Event payload for one successfully encoded frame: the JPEG bytes as a
/// base64 data URL, plus the pixel dimensions.
#[derive(Clone)]
pub struct CameraFrame {
    pub data: String,
    pub width: u32,
    pub height: u32,
}

/// Event payload for a fatal worker error.
#[derive(Clone)]
pub struct CameraError {
    pub message: String,
}

/// The data-URL text carrying a JPEG image: a fixed prefix followed by the
/// base64 text of the encoded bytes.
pub open spec fn frame_data_of(jpeg: Seq<u8>) -> Seq<char> {
    "data:image/jpeg;base64,"@ + b64_of(jpeg)
}

/// Build the data-URL text for a JPEG buffer.
pub fn frame_data_string(jpeg: &[u8]) -> (r: String)
    requires
        jpeg@.len() <= MAX_B64_INPUT,
    ensures
        r@ == frame_data_of(jpeg@),
{
    let encoded = b64_encode(jpeg);
    let mut s = String::from_str("data:image/jpeg;base64,");
    s.append(encoded.as_str());
    s
}

/// The error event for a device that could not be opened.
pub fn open_error_message(detail: &str) -> (r: String)
    ensures
        r@ == "Failed to open camera: "@ + detail@,
{
    let mut s = String::from_str("Failed to open camera: ");
    s.append(detail);
    s
}

/// The error event for a stream that could not be activated.
pub fn stream_error_message(detail: &str) -> (r: String)
    ensures
        r@ == "Failed to start camera stream: "@ + detail@,
{
    let mut s = String::from_str("Failed to start camera stream: ");
    s.append(detail);
    s
}

impl CameraService {
    /// A fatal worker failure (device open or stream activation): the
    /// worker terminates without streaming, so the running flag falls, the
    /// slot is left as it was, and an error event carries the message.
    pub fn worker_fatal(&mut self, message: String) -> (ev: CameraError)
        requires
            old(self).spec_running(),
        ensures
            !final(self).spec_running(),
            final(self).spec_stop_requested() == old(self).spec_stop_requested(),
            final(self).spec_frame() == old(self).spec_frame(),
            ev.message@ == message@,
    {
        let stop = self.is_stop_requested();
        self.set_flags(false, stop);
        CameraError { message }
    }

    /// Publish one encoded frame: overwrite the slot with it (replacing,
    /// never queuing) and return the frame-ready event payload carrying the
    /// same encoding, so the bytes are encoded once and reused twice.
    pub fn publish_frame(&mut self, jpeg: Vec<u8>, width: u32, height: u32) -> (ev: CameraFrame)
        requires
            old(self).spec_running(),
            jpeg@.len() <= MAX_B64_INPUT,
        ensures
            final(self).spec_running() == old(self).spec_running(),
            final(self).spec_stop_requested() == old(self).spec_stop_requested(),
            final(self).spec_frame() is Some,
            final(self).spec_frame()->Some_0.bytes@ == jpeg@,
            final(self).spec_frame()->Some_0.width == width,
            final(self).spec_frame()->Some_0.height == height,
            ev.data@ == frame_data_of(jpeg@),
            ev.width == width,
            ev.height == height,
    {
        let data = frame_data_string(jpeg.as_slice());
        self.publish_slot(EncodedFrame { bytes: jpeg, width, height });
        CameraFrame { data, width, height }
    }

    /// One streaming cycle after the device handed over a decoded RGB8
    /// pixel buffer: encode it to JPEG once, publish the encoding into the
    /// slot and return the frame-ready event built from the same encoding.
    /// A frame is published exactly when the cycle is publishable: any
    /// other buffer skips the cycle, nothing changes and no event is due.
    pub fn process_frame(&mut self, pixels: Vec<u8>, width: u32, height: u32) -> (r: Option<
        CameraFrame,
    >)
        requires
            old(self).spec_running(),
        ensures
            (r is Some) == cycle_publishes(pixels@, width, height),
            r is None ==> *final(self) == *old(self),
            r matches Some(ev) ==> {
                &&& final(self).spec_running() == old(self).spec_running()
                &&& final(self).spec_stop_requested() == old(self).spec_stop_requested()
                &&& final(self).spec_frame() is Some
                &&& final(self).spec_frame()->Some_0.bytes@ == jpeg_of(
                    pixels@,
                    width,
                    height,
                    JPEG_QUALITY,
                )
                &&& final(self).spec_frame()->Some_0.width == width
                &&& final(self).spec_frame()->Some_0.height == height
                &&& ev.data@ == frame_data_of(jpeg_of(pixels@, width, height, JPEG_QUALITY))
                &&& ev.width == width
                &&& ev.height == height
            },
    {
        proof {
            assert((width as u64) * (height as u64) <= 0xffff_ffffu64 * 0xffff_ffffu64)
                by (nonlinear_arith)
                requires
                    width <= 0xffff_ffffu32,
                    height <= 0xffff_ffffu32,
            ;
        }
        let area: u64 = (width as u64) * (height as u64);
        if (pixels.len() as u128) != 3u128 * (area as u128) {
            proof {
                assert(pixels@.len() != 3 * width * height) by (nonlinear_arith)
                    requires
                        pixels@.len() != 3 * (area as int),
                        area == (width as int) * (height as int),
                ;
            }
            return None;
        }
        proof {
            assert(pixels@.len() == 3 * width * height) by (nonlinear_arith)
                requires
                    pixels@.len() == 3 * (area as int),
                    area == (width as int) * (height as int),
            ;
        }
        match jpeg_encode_rgb(pixels, width, height, JPEG_QUALITY) {
            Some(jpeg) => {
                if jpeg.len() > MAX_B64_INPUT {
                    None
                } else {
                    Some(self.publish_frame(jpeg, width, height))
                }
            },
            None => None,
        }
    }

    /// Worker cleanup on exit from streaming: the slot is emptied exactly
    /// once, the running flag falls, and the stop request is consumed.
    pub fn worker_cleanup(&mut self)
        requires
            old(self).spec_running(),
        ensures
            !final(self).spec_running(),
            !final(self).spec_stop_requested(),
            final(self).spec_frame() is None,
    {
        self.clear_slot();
        self.set_flags(false, false);
    }
}

/// Whether one cycle's decoded buffer leads to a published frame: the
/// buffer matches its stated dimensions, the dimensions are in the JPEG
/// encoder's range, and the encoding fits the base64 boundary.
pub open spec fn cycle_publishes(pixels: Seq<u8>, width: u32, height: u32) -> bool {
    &&& pixels.len() == 3 * width * height
    &&& 1 <= width <= 65535
    &&& 1 <= height <= 65535
    &&& jpeg_of(pixels, width, height, JPEG_QUALITY).len() <= MAX_B64_INPUT
}

/// One decoded frame handed over by the device for one cycle.
pub struct CycleFrame {
    pub pixels: Vec<u8>,
    pub width: u32,
    pub height: u32,
}

/// The view of a frame event: its payload text and its dimensions.
pub open spec fn frame_event_view(ev: CameraFrame) -> (Seq<char>, u32, u32) {
    (ev.data@, ev.width, ev.height)
}

/// The frame events a streaming run over a script produces, in order: one
/// per publishable entry, carrying that entry's encoding as a data URL.
pub open spec fn session_events(frames: Seq<Option<CycleFrame>>) -> Seq<(Seq<char>, u32, u32)>
    decreases frames.len(),
{
    if frames.len() == 0 {
        Seq::empty()
    } else {
        let rest = session_events(frames.drop_last());
        match frames.last() {
            Some(cf) => if cycle_publishes(cf.pixels@, cf.width, cf.height) {
                rest.push(
                    (
                        frame_data_of(jpeg_of(cf.pixels@, cf.width, cf.height, JPEG_QUALITY)),
                        cf.width,
                        cf.height,
                    ),
                )
            } else {
                rest
            },
            None => rest,
        }
    }
}

/// One complete worker life over scripted device outcomes, for driving the
/// subsystem without a device: a failed open ends the worker before any
/// streaming (no frame event is ever produced, the slot is untouched, and
/// the running flag still falls); a successful open streams one cycle per
/// script entry — exiting as soon as the stop flag is observed at the top
/// of a cycle, so with the flag already up nothing is ever published — and
/// then cleans up, leaving the slot empty and both flags down.  The frame
/// events are exactly one per publishable script entry, in script order.
pub fn run_worker_session(svc: &mut CameraService, open_error: Option<String>, frames: &Vec<
    Option<CycleFrame>,
>) -> (r: (Vec<CameraFrame>, Option<CameraError>))
    requires
        old(svc).spec_running(),
    ensures
        !final(svc).spec_running(),
        open_error matches Some(m) ==> ({
            &&& r.1 matches Some(e)
            &&& e.message@ == m@
            &&& r.0.len() == 0
            &&& final(svc).spec_frame() == old(svc).spec_frame()
            &&& final(svc).spec_stop_requested() == old(svc).spec_stop_requested()
        }),
        open_error is None ==> ({
            &&& r.1 is None
            &&& final(svc).spec_frame() is None
            &&& !final(svc).spec_stop_requested()
            &&& old(svc).spec_stop_requested() ==> r.0@.len() == 0
            &&& !old(svc).spec_stop_requested() ==> r.0@.map_values(
                |ev: CameraFrame| frame_event_view(ev),
            ) == session_events(frames@)
        }),
{
    match open_error {
        Some(message) => {
            let ev = svc.worker_fatal(message);
            (Vec::new(), Some(ev))
        },
        None => {
            let mut events: Vec<CameraFrame> = Vec::new();
            let mut i: usize = 0;
            while i < frames.len()
                invariant
                    open_error is None,
                    svc.spec_running(),
                    svc.spec_stop_requested() == old(svc).spec_stop_requested(),
                    i <= frames.len(),
                    old(svc).spec_stop_requested() ==> events@.len() == 0,
                    !old(svc).spec_stop_requested() ==> events@.map_values(
                        |ev: CameraFrame| frame_event_view(ev),
                    ) == session_events(frames@.take(i as int)),
                decreases frames.len() - i,
            {
                if svc.is_stop_requested() {
                    // The flag cannot rise mid-run here, so it was up at
                    // entry and nothing has been published yet.
                    svc.worker_cleanup();
                    return (events, None);
                }
                let ghost previous = events@.map_values(|ev: CameraFrame| frame_event_view(ev));
                match &frames[i] {
                    Some(cf) => {
                        let pixels = crate::frame::copy_bytes(cf.pixels.as_slice());
                        match svc.process_frame(pixels, cf.width, cf.height) {
                            Some(ev) => {
                                events.push(ev);
                                proof {
                                    assert(events@.map_values(
                                        |e: CameraFrame| frame_event_view(e),
                                    ) =~= previous.push(frame_event_view(ev)));
                                }
                            },
                            None => (),
                        }
                    },
                    None => (),
                }
                proof {
                    assert(frames@.take((i + 1) as int).drop_last() =~= frames@.take(i as int));
                    assert(frames@.take((i + 1) as int).last() == frames@[i as int]);
                }
                i = i + 1;
            }
            proof {
                assert(frames@.take(frames@.len() as int) =~= frames@);
            }
            svc.worker_cleanup();
            (events, None)
        },
    }
}

/// How long a cycle that took `elapsed_ms` of processing must still sleep:
/// the remainder of the fixed interval, and nothing when the cycle overran
/// it (no catch-up, no added delay).
pub open spec fn pace_sleep_spec(elapsed_ms: u64) -> u64 {
    if elapsed_ms < FRAME_INTERVAL_MS {
        (FRAME_INTERVAL_MS - elapsed_ms) as u64
    } else {
        0u64
    }
}

/// Compute the pacing sleep for one cycle.
pub fn pace_sleep_ms(elapsed_ms: u64) -> (r: u64)
    ensures
        r == pace_sleep_spec(elapsed_ms),
        (r == 0) <==> elapsed_ms >= FRAME_INTERVAL_MS,
        elapsed_ms + r >= FRAME_INTERVAL_MS,
{
    if elapsed_ms < FRAME_INTERVAL_MS {
        FRAME_INTERVAL_MS - elapsed_ms
    } else {
        0
    }
}

/// Total wall time of a run of consecutive cycles whose processing parts
/// took the given times, each followed by its pacing sleep.
pub open spec fn paced_total_ms(processing_ms: Seq<u64>) -> int
    decreases processing_ms.len(),
{
    if processing_ms.len() == 0 {
        0
    } else {
        paced_total_ms(processing_ms.drop_last()) + processing_ms.last() + pace_sleep_spec(
            processing_ms.last(),
        )
    }
}

/// Pacing law: over any run of consecutive cycles, the total of processing
/// plus pacing sleeps is at least the cycle count times the fixed interval,
/// so the achieved frame rate never exceeds the target.  (A cycle that
/// overruns the interval sleeps nothing: `pace_sleep_spec` is zero there.)
pub proof fn lemma_pacing_lower_bound(processing_ms: Seq<u64>)
    ensures
        paced_total_ms(processing_ms) >= processing_ms.len() * FRAME_INTERVAL_MS,
    decreases processing_ms.len(),
{
    if processing_ms.len() == 0 {
    } else {
        lemma_pacing_lower_bound(processing_ms.drop_last());
        assert(processing_ms.len() * FRAME_INTERVAL_MS == processing_ms.drop_last().len()
            * FRAME_INTERVAL_MS + FRAME_INTERVAL_MS) by (nonlinear_arith)
            requires
                processing_ms.len() >= 1,
                processing_ms.drop_last().len() == processing_ms.len() - 1,
        ;
    }
}

} // verus!
