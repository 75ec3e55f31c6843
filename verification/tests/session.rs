use speech_stream::capture::{open_capture, DeviceConfig, SampleFormat};
use speech_stream::error::{Route, SessionError};
use speech_stream::session::{authorization, plan_connection, push_decimal, session_url, ConnectionPlan};

const PREFIX: &str = "wss://api.deepgram.com/v1/listen?model=nova-2&language=en-US&punctuate=true&interim_results=true&encoding=linear16&sample_rate=";

fn device(sample_rate: u32) -> DeviceConfig {
    DeviceConfig { sample_rate, channels: 1, sample_format: SampleFormat::F32 }
}

#[test]
fn session_url_holds_the_sample_rate() {
    assert_eq!(
        session_url(16000),
        "wss://api.deepgram.com/v1/listen?model=nova-2&language=en-US&punctuate=true&interim_results=true&encoding=linear16&sample_rate=16000"
    );
    assert_eq!(session_url(48000), format!("{}48000", PREFIX));
    assert_eq!(session_url(44100), format!("{}44100", PREFIX));
}

#[test]
fn session_url_at_the_ends_of_the_range() {
    assert_eq!(session_url(0), format!("{}0", PREFIX));
    assert_eq!(session_url(9), format!("{}9", PREFIX));
    assert_eq!(session_url(10), format!("{}10", PREFIX));
    assert_eq!(session_url(u32::MAX), format!("{}4294967295", PREFIX));
}

#[test]
fn push_decimal_appends_plain_decimal() {
    for n in [0u32, 7, 10, 99, 100, 1001, 16000, 1_000_000, u32::MAX] {
        let mut out = String::from("x=");
        push_decimal(&mut out, n);
        assert_eq!(out, format!("x={}", n));
    }
}

#[test]
fn authorization_is_token_and_credential() {
    assert_eq!(authorization("key123"), "Token key123");
    assert_eq!(authorization(""), "Token ");
}

#[test]
fn plan_for_mono_16k_device() {
    let plan = plan_connection(Some(device(16000)), "key123");
    assert_eq!(
        plan,
        Ok(ConnectionPlan {
            url: format!("{}16000", PREFIX),
            authorization: "Token key123".to_string(),
        })
    );
}

#[test]
fn plan_authorization_is_a_header_value() {
    let plan = plan_connection(Some(device(48000)), "abc\tdef ~").unwrap();
    let value = http::HeaderValue::from_str(&plan.authorization).unwrap();
    assert_eq!(value.as_bytes(), b"Token abc\tdef ~");
}

#[test]
fn plan_without_device_is_device_unavailable() {
    assert_eq!(plan_connection(None, "key123"), Err(SessionError::DeviceUnavailable));
    assert_eq!(plan_connection(None, "bad\nkey"), Err(SessionError::DeviceUnavailable));
}

#[test]
fn plan_with_control_character_in_credential_fails() {
    for key in ["bad\nkey", "bad\rkey", "\u{0}", "del\u{7f}", "esc\u{1b}"] {
        assert_eq!(
            plan_connection(Some(device(16000)), key),
            Err(SessionError::ConnectionFailed)
        );
    }
}

#[test]
fn plan_accepts_tab_and_characters_beyond_ascii() {
    for key in ["a\tb", "clé", "鍵", "\u{80}", ""] {
        let plan = plan_connection(Some(device(16000)), key).unwrap();
        assert_eq!(plan.authorization, format!("Token {}", key));
        assert!(http::HeaderValue::from_str(&plan.authorization).is_ok());
    }
}

#[test]
fn plan_does_not_look_at_the_sample_format() {
    let config = DeviceConfig { sample_rate: 8000, channels: 2, sample_format: SampleFormat::Other };
    let plan = plan_connection(Some(config), "k").unwrap();
    assert_eq!(plan.url, format!("{}8000", PREFIX));
}

#[test]
fn capture_needs_a_device() {
    assert_eq!(open_capture(None), Err(SessionError::DeviceUnavailable));
}

#[test]
fn capture_needs_float_samples() {
    let config = DeviceConfig { sample_rate: 44100, channels: 2, sample_format: SampleFormat::Other };
    assert_eq!(open_capture(Some(config)), Err(SessionError::UnsupportedSampleFormat));
}

#[test]
fn capture_takes_the_device_as_reported() {
    let config = DeviceConfig { sample_rate: 44100, channels: 2, sample_format: SampleFormat::F32 };
    assert_eq!(open_capture(Some(config)), Ok(config));
}

#[test]
fn every_error_has_its_text() {
    assert_eq!(SessionError::DeviceUnavailable.describe(), "No microphone found");
    assert_eq!(
        SessionError::UnsupportedSampleFormat.describe(),
        "Unsupported sample format (need f32)"
    );
    assert_eq!(
        SessionError::ConnectionFailed.describe(),
        "Failed to connect to the transcription service"
    );
    assert_eq!(
        SessionError::ConnectionLost.describe(),
        "Connection to the transcription service was lost"
    );
    assert_eq!(
        SessionError::MalformedServerMessage.describe(),
        "Failed to parse server message"
    );
    assert_eq!(SessionError::StreamStartFailed.describe(), "Failed to start stream");
}

#[test]
fn every_error_has_its_destination() {
    assert_eq!(SessionError::DeviceUnavailable.destination(), Route::Caller);
    assert_eq!(SessionError::UnsupportedSampleFormat.destination(), Route::Caller);
    assert_eq!(SessionError::ConnectionFailed.destination(), Route::Caller);
    assert_eq!(SessionError::StreamStartFailed.destination(), Route::Caller);
    assert_eq!(SessionError::ConnectionLost.destination(), Route::Consumer);
    assert_eq!(SessionError::MalformedServerMessage.destination(), Route::Log);
}
