//! On-demand photo capture: planning which bytes go to which path, building
//! the timestamped filename, and shaping the result that is both returned
//! and announced.  The file write itself is the embedding binary's; the
//! plan pins its inputs exactly.
use vstd::prelude::*;

use crate::controller::CameraService;
use crate::textfmt::{dec2, dec4, is_decimal_digit, push_dec2, push_dec4};

verus! {

/// A local wall-clock instant at second resolution.
#[derive(Clone, Copy)]
pub struct Timestamp {
    pub year: u16,
    pub month: u8,
    pub day: u8,
    pub hour: u8,
    pub minute: u8,
    pub second: u8,
}

impl Timestamp {
    /// Field ranges of a calendar timestamp with a four-digit year.
    pub open spec fn valid(&self) -> bool {
        &&& self.year <= 9999
        &&& 1 <= self.month <= 12
        &&& 1 <= self.day <= 31
        &&& self.hour < 24
        &&& self.minute < 60
        &&& self.second < 60
    }
}

/// Relies on chrono's `Local::now` and the `Datelike` / `Timelike`
/// accessors `year`, `month` (1-12), `day` (1-31), `hour` (0-23), `minute`
/// (0-59) and `second` (0-59); the year is whatever the local clock says.
#[verifier::external_body]
pub fn now_local_parts() -> (r: (i32, u32, u32, u32, u32, u32))
    ensures
        1 <= r.1 <= 12,
        1 <= r.2 <= 31,
        r.3 < 24,
        r.4 < 60,
        r.5 < 60,
{
    let now = chrono::Local::now();
    (
        chrono::Datelike::year(&now),
        chrono::Datelike::month(&now),
        chrono::Datelike::day(&now),
        chrono::Timelike::hour(&now),
        chrono::Timelike::minute(&now),
        chrono::Timelike::second(&now),
    )
}

/// Check the parts of a wall-clock reading and assemble a timestamp.
/// None exactly when a part is outside the calendar ranges (for the year:
/// outside the four-digit span the filename format carries).
pub fn make_timestamp(year: i32, month: u32, day: u32, hour: u32, minute: u32, second: u32) -> (r:
    Option<Timestamp>)
    ensures
        r is Some <==> 0 <= year <= 9999 && 1 <= month <= 12 && 1 <= day <= 31 && hour < 24
            && minute < 60 && second < 60,
        r matches Some(t) ==> t.valid() && t.year == year && t.month == month && t.day == day
            && t.hour == hour && t.minute == minute && t.second == second,
{
    if 0 <= year && year <= 9999 && 1 <= month && month <= 12 && 1 <= day && day <= 31 && hour < 24
        && minute < 60 && second < 60 {
        Some(
            Timestamp {
                year: year as u16,
                month: month as u8,
                day: day as u8,
                hour: hour as u8,
                minute: minute as u8,
                second: second as u8,
            },
        )
    } else {
        None
    }
}

/// Read the local clock and assemble a timestamp.
pub fn now_timestamp() -> (r: Option<Timestamp>)
    ensures
        r matches Some(t) ==> t.valid(),
{
    let (year, month, day, hour, minute, second) = now_local_parts();
    make_timestamp(year, month, day, hour, minute, second)
}

/// The `YYYYMMDD_HHMMSS` text of a timestamp.
pub open spec fn timestamp_text(t: Timestamp) -> Seq<char> {
    dec4(t.year as int) + dec2(t.month as int) + dec2(t.day as int) + seq!['_'] + dec2(
        t.hour as int,
    ) + dec2(t.minute as int) + dec2(t.second as int)
}

/// The photo filename for a timestamp: `IMG_<YYYYMMDD_HHMMSS>.jpg`.
pub open spec fn photo_filename_text(t: Timestamp) -> Seq<char> {
    seq!['I', 'M', 'G', '_'] + timestamp_text(t) + seq!['.', 'j', 'p', 'g']
}

/// Build the photo filename for a timestamp.
pub fn photo_filename(t: &Timestamp) -> (r: String)
    requires
        t.valid(),
    ensures
        r@ == photo_filename_text(*t),
{
    let mut s = String::from_str("IMG_");
    proof {
        reveal_strlit("IMG_");
        assert(s@ =~= seq!['I', 'M', 'G', '_']);
    }
    push_dec4(&mut s, t.year);
    push_dec2(&mut s, t.month);
    push_dec2(&mut s, t.day);
    s.append("_");
    proof {
        reveal_strlit("_");
        assert("_"@ =~= seq!['_']);
    }
    push_dec2(&mut s, t.hour);
    push_dec2(&mut s, t.minute);
    push_dec2(&mut s, t.second);
    s.append(".jpg");
    proof {
        reveal_strlit(".jpg");
        assert(".jpg"@ =~= seq!['.', 'j', 'p', 'g']);
        assert(s@ =~= photo_filename_text(*t));
    }
    s
}

/// Shape of the filename: 23 characters, the fixed `IMG_` head, eight date
/// digits, an underscore, six time digits, and the fixed `.jpg` tail.
pub proof fn lemma_photo_filename_shape(t: Timestamp)
    requires
        t.valid(),
    ensures
        photo_filename_text(t).len() == 23,
        photo_filename_text(t).subrange(0, 4) =~= seq!['I', 'M', 'G', '_'],
        forall|i: int| 4 <= i < 12 ==> is_decimal_digit(#[trigger] photo_filename_text(t)[i]),
        photo_filename_text(t)[12] == '_',
        forall|i: int| 13 <= i < 19 ==> is_decimal_digit(#[trigger] photo_filename_text(t)[i]),
        photo_filename_text(t).subrange(19, 23) =~= seq!['.', 'j', 'p', 'g'],
{
    assert forall|i: int| 4 <= i < 12 implies is_decimal_digit(
        #[trigger] photo_filename_text(t)[i],
    ) by {
        assert(photo_filename_text(t)[i] == timestamp_text(t)[i - 4]);
    }
    assert forall|i: int| 13 <= i < 19 implies is_decimal_digit(
        #[trigger] photo_filename_text(t)[i],
    ) by {
        assert(photo_filename_text(t)[i] == timestamp_text(t)[i - 4]);
    }
}

/// Result of a capture-photo request, returned to the caller and announced
/// as an event in the same shape.
#[derive(Clone)]
pub struct PhotoSaved {
    pub path: String,
    pub success: bool,
    pub error: Option<String>,
}

/// What a capture-photo request must do: either report the failure result
/// as it stands (no frame: nothing touches the filesystem), or write the
/// given bytes to the given path.
pub enum PhotoPlan {
    NoFrame(PhotoSaved),
    Save { bytes: Vec<u8>, path: String },
}

/// The error text reported when no frame is cached.
pub open spec fn no_frame_message() -> Seq<char> {
    "No frame available. Is the camera streaming?"@
}

/// The result of a capture request that found no cached frame: a reported
/// outcome, not an error, and no reason to touch the clock or the
/// filesystem.
pub fn no_frame_result() -> (r: PhotoSaved)
    ensures
        !r.success,
        r.path@.len() == 0,
        r.error matches Some(m) && m@ == no_frame_message(),
{
    PhotoSaved {
        path: String::new(),
        success: false,
        error: Some(String::from_str("No frame available. Is the camera streaming?")),
    }
}

/// Join a directory and a filename with the path separator.
pub fn join_path(dir: &str, name: &str) -> (r: String)
    ensures
        r@ == dir@ + seq!['/'] + name@,
{
    let mut s = String::from_str(dir);
    s.append("/");
    s.append(name);
    proof {
        reveal_strlit("/");
        assert("/"@ =~= seq!['/']);
        assert(s@ =~= dir@ + seq!['/'] + name@);
    }
    s
}

/// The fixed photo directory under the user's pictures location.
pub fn photo_dir_for(pictures_dir: &str) -> (r: String)
    ensures
        r@ == pictures_dir@ + "/honeybee-camera"@,
{
    let mut s = String::from_str(pictures_dir);
    s.append("/honeybee-camera");
    s
}

/// Relies on dirs' `picture_dir`: the user's pictures location, if the
/// environment defines one; nothing can be promised of its value.
#[verifier::external_body]
pub fn picture_dir_string() -> Option<String> {
    dirs::picture_dir().map(|p| p.to_string_lossy().into_owned())
}

impl CameraService {
    /// Plan a capture-photo request against the current slot.  With no
    /// cached frame the plan is the failure result itself — so no write is
    /// planned and the filesystem stays untouched.  With a cached frame the
    /// plan is to write exactly the cached bytes, byte for byte, to the
    /// timestamped filename under the given directory.  Neither case
    /// changes any streaming state.
    pub fn plan_photo(&self, photo_dir: &str, t: &Timestamp) -> (p: PhotoPlan)
        requires
            self.spec_frame() is Some ==> t.valid(),
        ensures
            self.spec_frame() is None ==> ({
                &&& p matches PhotoPlan::NoFrame(res)
                &&& !res.success
                &&& res.path@.len() == 0
                &&& res.error matches Some(m)
                &&& m@ == no_frame_message()
            }),
            self.spec_frame() matches Some(f) ==> ({
                &&& p matches PhotoPlan::Save { bytes, path }
                &&& bytes@ == f.bytes@
                &&& path@ == photo_dir@ + seq!['/'] + photo_filename_text(*t)
            }),
    {
        match self.read_frame_bytes() {
            None => PhotoPlan::NoFrame(no_frame_result()),
            Some(bytes) => {
                let name = photo_filename(t);
                PhotoPlan::Save { bytes, path: join_path(photo_dir, name.as_str()) }
            },
        }
    }
}

/// How far the filesystem side of a `Save` plan got; the embedding binary
/// performs the directory and file work and reports the outcome here.
pub enum SaveOutcome {
    /// The environment defines no pictures location.
    NoPicturesDir,
    /// Creating the camera directory failed, with the I/O error text.
    DirCreateFailed(String),
    /// Writing the photo file failed, with the I/O error text.
    WriteFailed(String),
    /// The bytes were written to the resolved path.
    Written,
}

/// The result reported for each possible outcome of saving a photo: every
/// failure is a structured result carrying its message, never a propagated
/// error; success carries the full resolved path.
pub fn photo_save_result(path: String, outcome: SaveOutcome) -> (r: PhotoSaved)
    ensures
        outcome is NoPicturesDir ==> ({
            &&& !r.success
            &&& r.path@.len() == 0
            &&& r.error matches Some(m)
            &&& m@ == "Failed to get Pictures directory"@
        }),
        outcome matches SaveOutcome::DirCreateFailed(e) ==> ({
            &&& !r.success
            &&& r.path@.len() == 0
            &&& r.error matches Some(m)
            &&& m@ == "Failed to create camera directory: "@ + e@
        }),
        outcome matches SaveOutcome::WriteFailed(e) ==> ({
            &&& !r.success
            &&& r.path@.len() == 0
            &&& r.error matches Some(m)
            &&& m@ == "Failed to save photo: "@ + e@
        }),
        outcome is Written ==> r.success && r.path@ == path@ && r.error is None,
{
    match outcome {
        SaveOutcome::NoPicturesDir => PhotoSaved {
            path: String::new(),
            success: false,
            error: Some(String::from_str("Failed to get Pictures directory")),
        },
        SaveOutcome::DirCreateFailed(e) => {
            let mut m = String::from_str("Failed to create camera directory: ");
            m.append(e.as_str());
            PhotoSaved { path: String::new(), success: false, error: Some(m) }
        },
        SaveOutcome::WriteFailed(e) => {
            let mut m = String::from_str("Failed to save photo: ");
            m.append(e.as_str());
            PhotoSaved { path: String::new(), success: false, error: Some(m) }
        },
        SaveOutcome::Written => PhotoSaved { path, success: true, error: None },
    }
}

} // verus!
