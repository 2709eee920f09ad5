use honeybee_camera::ipc::{
    ProvisioningStatus, RetryOutcome, TokenInfo, VoiceAgentEventType, retry_command,
    retry_response_for,
};
use honeybee_camera::paths::{get_qr_code_path, ipc_socket_path_for, qr_dir_for, qr_path_for};
use honeybee_camera::qr::{
    event_concerns_qr, qr_missing_response, qr_read_error_response, qr_response_from_bytes,
};
use honeybee_camera::system::{
    AudioBackend, brightness_percent, brightness_target, choose_audio_backend, clamp_volume,
    parse_amixer_volume, parse_busctl_value, parse_pactl_volume, percent_arg, pipewire_volume_arg,
};
use honeybee_camera::wifi::parse_wifi_status;

#[test]
fn wifi_finds_first_connected_wireless_device() {
    let out = "eth0:connected:Wired\nwlan0:connected:HomeNet\nwlan1:connected:Other\n";
    let w = parse_wifi_status(out);
    assert!(w.connected);
    assert_eq!(w.ssid.as_deref(), Some("HomeNet"));
}

#[test]
fn wifi_ignores_disconnected_and_wired_devices() {
    let w = parse_wifi_status("wlan0:disconnected:\neth0:connected:Wired\nlo:unmanaged:\n");
    assert!(!w.connected);
    assert!(w.ssid.is_none());
    let empty = parse_wifi_status("");
    assert!(!empty.connected);
    assert!(empty.ssid.is_none());
}

#[test]
fn wifi_connected_with_empty_name_has_no_ssid() {
    let w = parse_wifi_status("wlan0:connected:\n");
    assert!(w.connected);
    assert!(w.ssid.is_none());
}

#[test]
fn wifi_needs_three_fields_and_wl_prefix() {
    assert!(!parse_wifi_status("wlan0:connected\n").connected);
    assert!(!parse_wifi_status("xlan0:connected:Net\n").connected);
    let extra = parse_wifi_status("wlp3s0:connected:My Net:extra");
    assert!(extra.connected);
    assert_eq!(extra.ssid.as_deref(), Some("My Net"));
}

#[test]
fn busctl_value_parses_second_token() {
    assert_eq!(parse_busctl_value("i 19200\n"), Some(19200));
    assert_eq!(parse_busctl_value("   i    7"), Some(7));
    assert_eq!(parse_busctl_value("i -42"), Some(-42));
    assert_eq!(parse_busctl_value("i +5"), Some(5));
    assert_eq!(parse_busctl_value("i 2147483647"), Some(i32::MAX));
    assert_eq!(parse_busctl_value("i -2147483648"), Some(i32::MIN));
    assert_eq!(parse_busctl_value("i 2147483648"), None);
    assert_eq!(parse_busctl_value("i"), None);
    assert_eq!(parse_busctl_value("i 12x"), None);
    assert_eq!(parse_busctl_value(""), None);
}

#[test]
fn brightness_percent_rounds_and_clamps() {
    assert_eq!(brightness_percent(9600, 19200), 50);
    assert_eq!(brightness_percent(19200, 19200), 100);
    assert_eq!(brightness_percent(0, 19200), 0);
    assert_eq!(brightness_percent(-5, 19200), 0);
    assert_eq!(brightness_percent(1, 3), 33);
    assert_eq!(brightness_percent(2, 3), 67);
    assert_eq!(brightness_percent(30000, 19200), 100);
}

#[test]
fn brightness_target_scales_with_safe_floor() {
    assert_eq!(brightness_target(50, 19200), 9600);
    assert_eq!(brightness_target(100, 19200), 19200);
    // Levels below the floor are raised to five percent.
    assert_eq!(brightness_target(0, 19200), 960);
    assert_eq!(brightness_target(3, 19200), 960);
    assert_eq!(brightness_target(33, 100), 33);
    assert_eq!(brightness_target(33, 10), 3);
}

#[test]
fn audio_backend_prefers_pipewire_then_pulse() {
    assert_eq!(choose_audio_backend(true, true), AudioBackend::PipeWire);
    assert_eq!(choose_audio_backend(true, false), AudioBackend::PipeWire);
    assert_eq!(choose_audio_backend(false, true), AudioBackend::PulseAudio);
    assert_eq!(choose_audio_backend(false, false), AudioBackend::Alsa);
}

#[test]
fn pactl_volume_takes_first_percent_token() {
    let out = "Volume: front-left: 32768 /  50% / -18.06 dB,   front-right: 32768 /  50%";
    assert_eq!(parse_pactl_volume(out), Some(50));
    assert_eq!(parse_pactl_volume("Volume: 150%"), Some(100));
    assert_eq!(parse_pactl_volume("Volume: 0.50 [MUTED]"), None);
    assert_eq!(parse_pactl_volume(""), None);
}

#[test]
fn amixer_volume_reads_bracketed_percent() {
    let out = "Simple mixer control 'Master',0\n  Mono: Playback 45 [70%] [on]\n";
    assert_eq!(parse_amixer_volume(out), Some(70));
    assert_eq!(parse_amixer_volume("  Mono: Playback 200 [200%] [on]"), Some(100));
    // A value that does not fit a byte is no reading at all.
    assert_eq!(parse_amixer_volume("  Mono: Playback 300 [300%] [on]"), None);
    assert_eq!(parse_amixer_volume("no brackets here"), None);
    assert_eq!(parse_amixer_volume("[x%]"), None);
}

#[test]
fn volume_arguments_are_formatted_exactly() {
    assert_eq!(pipewire_volume_arg(0), "0.00");
    assert_eq!(pipewire_volume_arg(5), "0.05");
    assert_eq!(pipewire_volume_arg(75), "0.75");
    assert_eq!(pipewire_volume_arg(100), "1.00");
    assert_eq!(percent_arg(0), "0%");
    assert_eq!(percent_arg(7), "7%");
    assert_eq!(percent_arg(45), "45%");
    assert_eq!(percent_arg(100), "100%");
    assert_eq!(clamp_volume(250), 100);
    assert_eq!(clamp_volume(99), 99);
}

#[test]
fn qr_paths_are_built_under_home() {
    assert_eq!(qr_dir_for("/home/bee"), "/home/bee/.config/honeybee/qr");
    assert_eq!(
        qr_path_for("/home/bee/.config/honeybee/qr"),
        "/home/bee/.config/honeybee/qr/honeybee-qr.png"
    );
    assert!(get_qr_code_path().ends_with("honeybee-qr.png"));
    assert_eq!(
        ipc_socket_path_for("/home/bee"),
        "/home/bee/.config/honeybee/provisioning.sock"
    );
}

#[test]
fn qr_responses_are_exact() {
    let missing = qr_missing_response();
    assert!(!missing.exists && missing.data.is_none() && missing.error.is_none());

    let resp = qr_response_from_bytes(&[1u8, 2, 3]);
    assert!(resp.exists);
    // Cross-check the embedded base64 against the encoder itself.
    let expect = base64::Engine::encode(&base64::engine::general_purpose::STANDARD, [1u8, 2, 3]);
    assert_eq!(expect, "AQID");
    assert_eq!(resp.data.as_deref(), Some("data:image/png;base64,AQID"));
    assert!(resp.error.is_none());

    let err = qr_read_error_response("denied".to_string());
    assert!(!err.exists && err.data.is_none());
    assert_eq!(err.error.as_deref(), Some("denied"));
}

#[test]
fn qr_watcher_matches_only_the_qr_file() {
    let paths = vec![
        "/home/bee/.config/honeybee/qr/other.png".to_string(),
        "/home/bee/.config/honeybee/qr/honeybee-qr.png".to_string(),
    ];
    assert!(event_concerns_qr(&paths, "/home/bee/.config/honeybee/qr/honeybee-qr.png"));
    assert!(!event_concerns_qr(&paths, "/home/bee/.config/honeybee/qr/missing.png"));
    assert!(!event_concerns_qr(&Vec::new(), "/any"));
}

#[test]
fn retry_responses_cover_every_outcome() {
    assert_eq!(retry_command(), "{\"command\":\"retry\"}");

    let r = retry_response_for(RetryOutcome::SocketMissing);
    assert!(!r.success);
    assert_eq!(r.message, "Provisioning service not running");

    let r = retry_response_for(RetryOutcome::ConnectFailed("refused".to_string()));
    assert!(!r.success);
    assert_eq!(r.message, "Failed to connect to provisioning service: refused");

    let r = retry_response_for(RetryOutcome::SendFailed("broken pipe".to_string()));
    assert!(!r.success);
    assert_eq!(r.message, "Failed to send retry command: broken pipe");

    let r = retry_response_for(RetryOutcome::ResponseRead);
    assert!(r.success);
    assert_eq!(r.message, "Retry triggered successfully");

    let r = retry_response_for(RetryOutcome::ResponseReadFailed);
    assert!(r.success);
    assert_eq!(r.message, "Retry triggered (no confirmation)");
}

#[test]
fn voice_agent_event_kinds_route_to_extra_channels() {
    assert!(VoiceAgentEventType::Error.is_error_kind());
    assert!(VoiceAgentEventType::TokenError.is_error_kind());
    assert!(VoiceAgentEventType::NetworkError.is_error_kind());
    assert!(!VoiceAgentEventType::Ready.is_error_kind());
    assert!(!VoiceAgentEventType::QuotaWarning.is_error_kind());
    assert!(VoiceAgentEventType::QuotaWarning.is_quota_kind());
    assert!(VoiceAgentEventType::QuotaExceeded.is_quota_kind());
    assert!(!VoiceAgentEventType::QuotaStatus.is_quota_kind());
    assert!(!VoiceAgentEventType::SessionStarted.is_quota_kind());

    let token = TokenInfo { expires_in_seconds: 90, is_valid: true };
    assert!(token.is_valid && token.expires_in_seconds == 90);
    let status = ProvisioningStatus {
        status: "provisioning".to_string(),
        message: "joining".to_string(),
        progress: Some(40),
        hostname: None,
        dashboard_hostname: None,
        error_details: None,
        retry_count: Some(1),
    };
    assert_eq!(status.progress, Some(40));
}
