//! Payload shapes of the two notification channels and of the
//! provisioning-retry command, and the exact result texts of a retry
//! attempt.  The sockets themselves are the embedding binary's.
use vstd::prelude::*;

verus! {

/// Provisioning status received over the provisioning socket and relayed
/// to the GUI.
#[derive(Clone)]
pub struct ProvisioningStatus {
    pub status: String,
    pub message: String,
    pub progress: Option<i32>,
    pub hostname: Option<String>,
    pub dashboard_hostname: Option<String>,
    pub error_details: Option<String>,
    pub retry_count: Option<i32>,
}

/// Voice agent event kinds received over the voice-agent socket.
#[derive(Clone, Copy, PartialEq, Eq, Structural)]
pub enum VoiceAgentEventType {
    SessionStarted,
    SessionEnded,
    TokenRefreshed,
    TokenError,
    QuotaWarning,
    QuotaExceeded,
    NetworkError,
    Error,
    QuotaStatus,
    Ready,
    Listening,
}

impl VoiceAgentEventType {
    /// Whether this event kind is also relayed on the dedicated error
    /// channel.
    pub fn is_error_kind(&self) -> (r: bool)
        ensures
            r == (*self == VoiceAgentEventType::Error || *self == VoiceAgentEventType::TokenError
                || *self == VoiceAgentEventType::NetworkError),
    {
        match self {
            VoiceAgentEventType::Error => true,
            VoiceAgentEventType::TokenError => true,
            VoiceAgentEventType::NetworkError => true,
            _ => false,
        }
    }

    /// Whether this event kind carries quota data that is also relayed on
    /// the dedicated quota channel.
    pub fn is_quota_kind(&self) -> (r: bool)
        ensures
            r == (*self == VoiceAgentEventType::QuotaWarning || *self
                == VoiceAgentEventType::QuotaExceeded),
    {
        match self {
            VoiceAgentEventType::QuotaWarning => true,
            VoiceAgentEventType::QuotaExceeded => true,
            _ => false,
        }
    }
}

/// Token validity information carried by voice-agent events.
#[derive(Clone, Copy)]
pub struct TokenInfo {
    pub expires_in_seconds: i32,
    pub is_valid: bool,
}

/// Response to a provisioning-retry request.
#[derive(Clone)]
pub struct RetryResponse {
    pub success: bool,
    pub message: String,
}

/// How far a provisioning-retry attempt got; the embedding binary performs
/// the socket I/O and reports the outcome here.
pub enum RetryOutcome {
    /// The provisioning socket does not exist.
    SocketMissing,
    /// Connecting to the socket failed, with the I/O error text.
    ConnectFailed(String),
    /// Sending the command failed, with the I/O error text.
    SendFailed(String),
    /// The command was sent and a response was read back.
    ResponseRead,
    /// The command was sent but reading the response failed; the command
    /// may still have been received.
    ResponseReadFailed,
}

/// The line sent over the socket to request a retry.
pub fn retry_command() -> (r: String)
    ensures
        r@ == "{\"command\":\"retry\"}"@,
{
    String::from_str("{\"command\":\"retry\"}")
}

/// The response reported for each possible outcome of a retry attempt.
/// Only a missing socket, a failed connect or a failed send count as
/// failures; once the command is out, the retry is considered triggered
/// whether or not a confirmation could be read.
pub fn retry_response_for(outcome: RetryOutcome) -> (r: RetryResponse)
    ensures
        outcome is SocketMissing ==> (!r.success && r.message@
            == "Provisioning service not running"@),
        outcome matches RetryOutcome::ConnectFailed(e) ==> (!r.success && r.message@
            == "Failed to connect to provisioning service: "@ + e@),
        outcome matches RetryOutcome::SendFailed(e) ==> (!r.success && r.message@
            == "Failed to send retry command: "@ + e@),
        outcome is ResponseRead ==> (r.success && r.message@ == "Retry triggered successfully"@),
        outcome is ResponseReadFailed ==> (r.success && r.message@
            == "Retry triggered (no confirmation)"@),
{
    match outcome {
        RetryOutcome::SocketMissing => RetryResponse {
            success: false,
            message: String::from_str("Provisioning service not running"),
        },
        RetryOutcome::ConnectFailed(e) => {
            let mut m = String::from_str("Failed to connect to provisioning service: ");
            m.append(e.as_str());
            RetryResponse { success: false, message: m }
        },
        RetryOutcome::SendFailed(e) => {
            let mut m = String::from_str("Failed to send retry command: ");
            m.append(e.as_str());
            RetryResponse { success: false, message: m }
        },
        RetryOutcome::ResponseRead => RetryResponse {
            success: true,
            message: String::from_str("Retry triggered successfully"),
        },
        RetryOutcome::ResponseReadFailed => RetryResponse {
            success: true,
            message: String::from_str("Retry triggered (no confirmation)"),
        },
    }
}

} // verus!
