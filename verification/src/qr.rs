//! The QR-code command payloads: turning a read of the QR image file (or
//! its absence) into the response the GUI receives, and deciding which
//! file-watcher events concern the QR file.
use vstd::prelude::*;

use crate::codec::{MAX_B64_INPUT, b64_encode, b64_of};

verus! {

/// Response to a QR-code request: whether the image exists, its contents as
/// a base64 data URL, and any read error.
#[derive(Clone)]
pub struct QrCodeResponse {
    pub exists: bool,
    pub data: Option<String>,
    pub error: Option<String>,
}

/// The data-URL text carrying a PNG image.
pub open spec fn qr_data_of(bytes: Seq<u8>) -> Seq<char> {
    "data:image/png;base64,"@ + b64_of(bytes)
}

/// The response when the QR image file does not exist: not an error.
pub fn qr_missing_response() -> (r: QrCodeResponse)
    ensures
        !r.exists,
        r.data is None,
        r.error is None,
{
    QrCodeResponse { exists: false, data: None, error: None }
}

/// The response carrying the bytes read from the QR image file, as a
/// base64 data URL.
pub fn qr_response_from_bytes(bytes: &[u8]) -> (r: QrCodeResponse)
    requires
        bytes@.len() <= MAX_B64_INPUT,
    ensures
        r.exists,
        r.data matches Some(d) && d@ == qr_data_of(bytes@),
        r.error is None,
{
    let encoded = b64_encode(bytes);
    let mut data = String::from_str("data:image/png;base64,");
    data.append(encoded.as_str());
    QrCodeResponse { exists: true, data: Some(data), error: None }
}

/// The response when the QR image file exists but could not be read.
pub fn qr_read_error_response(message: String) -> (r: QrCodeResponse)
    ensures
        !r.exists,
        r.data is None,
        r.error matches Some(m) && m@ == message@,
{
    QrCodeResponse { exists: false, data: None, error: Some(message) }
}

/// Whether a file-change notification concerns the QR file: true exactly
/// when one of the event's paths is that file.
pub fn event_concerns_qr(event_paths: &Vec<String>, qr_path: &str) -> (r: bool)
    ensures
        r == exists|i: int| 0 <= i < event_paths@.len() && event_paths@[i]@ == qr_path@,
{
    let q = String::from_str(qr_path);
    let mut i: usize = 0;
    while i < event_paths.len()
        invariant
            q@ == qr_path@,
            i <= event_paths.len(),
            forall|j: int| 0 <= j < i ==> event_paths@[j]@ != qr_path@,
        decreases event_paths.len() - i,
    {
        if event_paths[i].eq(&q) {
            return true;
        }
        i = i + 1;
    }
    false
}

} // verus!
