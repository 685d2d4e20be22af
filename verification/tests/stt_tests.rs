use aura::cortex::stt_cloud::{
    after_provider_attempt, cloud_stt_attempts, multipart_body, status_failure, wav_header,
    CloudAttempt, CloudSttError, CloudSttProvider,
};
use aura::cortex::stt_local::{
    check_recording, is_model_available, join_segments, model_path, LocalSttError,
    MAX_RECORDING_SECONDS,
};
use aura::cortex::voice_pipeline::{
    after_cloud_attempt, first_stt_step, local_transcription, PipelineError, SttStep,
};

#[test]
fn provider_name_roundtrips_through_parse() {
    assert_eq!(
        "groq".parse::<CloudSttProvider>().unwrap(),
        CloudSttProvider::Groq
    );
    assert_eq!(
        "OpenAI".parse::<CloudSttProvider>().unwrap(),
        CloudSttProvider::OpenAi
    );
    assert!("unknown".parse::<CloudSttProvider>().is_err());
}

#[test]
fn max_recording_limit_is_sane() {
    assert!((0.5..=120.0).contains(&(MAX_RECORDING_SECONDS as f32)));
}

#[test]
fn missing_key_surfaces_an_actionable_error() {
    let result = cloud_stt_attempts(2, CloudSttProvider::Groq, None, None);
    assert!(matches!(
        result,
        Err(CloudSttError::NoApiKeyConfigured(CloudSttProvider::Groq))
    ));
}

#[test]
fn empty_audio_is_rejected() {
    let result = cloud_stt_attempts(0, CloudSttProvider::Groq, Some("key"), Some("key"));
    assert!(matches!(result, Err(CloudSttError::RequestFailed(..))));
}

#[test]
fn error_display_is_human_readable() {
    let message = LocalSttError::TooLong(60).message();
    assert!(message.contains("push-to-talk limit"));
    assert_eq!(message, "recording exceeded the 60 second push-to-talk limit");
}

#[test]
fn wav_header_is_a_riff_wave_pcm_header() {
    let header = wav_header(4, 16_000);
    assert_eq!(header.len(), 44);
    assert_eq!(&header[0..4], b"RIFF");
    assert_eq!(u32::from_le_bytes([header[4], header[5], header[6], header[7]]), 36 + 8);
    assert_eq!(&header[8..12], b"WAVE");
    assert_eq!(&header[12..16], b"fmt ");
    assert_eq!(u32::from_le_bytes([header[24], header[25], header[26], header[27]]), 16_000);
    assert_eq!(u32::from_le_bytes([header[28], header[29], header[30], header[31]]), 32_000);
    assert_eq!(&header[36..40], b"data");
    assert_eq!(u32::from_le_bytes([header[40], header[41], header[42], header[43]]), 8);
}

#[test]
fn multipart_body_frames_model_file_and_language() {
    let body = multipart_body("B", b"WAV");
    let text = String::from_utf8(body).unwrap();
    let expected = "--B\r\nContent-Disposition: form-data; name=\"model\"\r\n\r\nwhisper-1\r\n\
--B\r\nContent-Disposition: form-data; name=\"file\"; filename=\"voice.wav\"\r\nContent-Type: audio/wav\r\n\r\nWAV\r\n\
--B\r\nContent-Disposition: form-data; name=\"language\"\r\n\r\nen\r\n--B--\r\n";
    assert_eq!(text, expected);
}

#[test]
fn failed_status_reports_the_body_or_the_code() {
    match status_failure(CloudSttProvider::OpenAi, 429, None) {
        CloudSttError::RequestFailed(provider, detail) => {
            assert_eq!(provider, CloudSttProvider::OpenAi);
            assert_eq!(detail, "HTTP 429");
        }
        _ => panic!("a failed status is a failed request"),
    }
    let error = status_failure(CloudSttProvider::Groq, 500, Some("overloaded".into()));
    assert_eq!(error.message(), "groq transcription request failed: overloaded");
}

#[test]
fn cloud_keys_fall_through_groq_then_openai_then_local() {
    assert!(matches!(first_stt_step(true), SttStep::TryCloud(CloudSttProvider::Groq)));
    assert!(matches!(first_stt_step(false), SttStep::RunLocal));
    let next = after_cloud_attempt(
        CloudSttProvider::Groq,
        Err(CloudSttError::NoApiKeyConfigured(CloudSttProvider::Groq)),
    );
    assert!(matches!(next, SttStep::TryCloud(CloudSttProvider::OpenAi)));
    let next = after_cloud_attempt(
        CloudSttProvider::OpenAi,
        Err(CloudSttError::NoApiKeyConfigured(CloudSttProvider::OpenAi)),
    );
    assert!(matches!(next, SttStep::RunLocal));
    let next = after_cloud_attempt(
        CloudSttProvider::Groq,
        Err(CloudSttError::ProviderUnreachable(CloudSttProvider::Groq)),
    );
    assert!(matches!(next, SttStep::RunLocal));
    match after_cloud_attempt(CloudSttProvider::OpenAi, Ok("hello".into())) {
        SttStep::Finished(result) => {
            assert_eq!(result.transcript, "hello");
            assert_eq!(result.source, "cloud:openai");
        }
        _ => panic!("a transcript finishes the request"),
    }
    assert_eq!(local_transcription("hi".into()).source, "local:whisper-rs");
}

#[test]
fn recordings_are_bounded_push_to_talk_sessions() {
    assert!(matches!(check_recording(0), Err(LocalSttError::EmptyAudio)));
    assert!(check_recording(960_000).is_ok());
    assert!(matches!(check_recording(960_001), Err(LocalSttError::TooLong(60))));
}

#[test]
fn model_location_and_availability() {
    assert_eq!(model_path("/data"), "/data/whisper/ggml-base.bin");
    assert!(!is_model_available(None));
    assert!(!is_model_available(Some(1024)));
    assert!(is_model_available(Some(1025)));
    let segments = vec![" hello ".to_string(), "  ".to_string(), "world".to_string()];
    assert_eq!(join_segments(&segments), "hello world");
}

#[test]
fn pipeline_errors_wrap_either_tier_and_keep_its_text() {
    let local = LocalSttError::TooLong(61);
    let wrapped = PipelineError::from(LocalSttError::TooLong(61));
    assert!(matches!(wrapped, PipelineError::Local(LocalSttError::TooLong(61))));
    assert_eq!(wrapped.message(), local.message());

    let cloud = CloudSttError::NoApiKeyConfigured(CloudSttProvider::Groq);
    let wrapped = PipelineError::from(CloudSttError::NoApiKeyConfigured(CloudSttProvider::Groq));
    assert!(matches!(wrapped, PipelineError::Cloud(CloudSttError::NoApiKeyConfigured(CloudSttProvider::Groq))));
    assert_eq!(wrapped.message(), cloud.message());
}

#[test]
fn groq_is_tried_first_and_openai_only_with_its_own_key() {
    let attempts = cloud_stt_attempts(2, CloudSttProvider::OpenAi, Some("gk"), None).unwrap();
    assert_eq!(attempts, vec![(CloudSttProvider::Groq, "gk".to_string())]);

    let attempts = cloud_stt_attempts(2, CloudSttProvider::Groq, Some("gk"), Some("ok")).unwrap();
    assert_eq!(
        attempts,
        vec![(CloudSttProvider::Groq, "gk".to_string()), (CloudSttProvider::OpenAi, "ok".to_string())]
    );

    let attempts = cloud_stt_attempts(2, CloudSttProvider::Groq, Some(""), Some("ok")).unwrap();
    assert_eq!(attempts, vec![(CloudSttProvider::OpenAi, "ok".to_string())]);

    let result = cloud_stt_attempts(2, CloudSttProvider::OpenAi, Some(""), None);
    assert!(matches!(result, Err(CloudSttError::NoApiKeyConfigured(CloudSttProvider::OpenAi))));
}

#[test]
fn cloud_attempts_stop_at_a_transcript_and_report_the_first_failure() {
    let step = after_provider_attempt(None, Ok("hello".to_string()), true);
    assert!(matches!(step, CloudAttempt::Done(Ok(ref t)) if t == "hello"));

    let step = after_provider_attempt(None, Err(CloudSttError::ProviderUnreachable(CloudSttProvider::Groq)), true);
    let first = match step {
        CloudAttempt::Next(error) => error,
        CloudAttempt::Done(_) => panic!("a second provider was left to try"),
    };
    let step = after_provider_attempt(
        Some(first),
        Err(CloudSttError::ProviderUnreachable(CloudSttProvider::OpenAi)),
        false,
    );
    assert!(matches!(
        step,
        CloudAttempt::Done(Err(CloudSttError::ProviderUnreachable(CloudSttProvider::Groq)))
    ));
}
