use caption_translator::asr::{
    filter_source_text_by_expected_lang, parse_asr_message, SegmentFinalizeConfig,
    SpeechSegmentState,
};
use caption_translator::caption::{
    get_realtime_caption_snapshot, update_raw_transcript, update_translated_text,
    RealtimeCaptionSnapshot,
};
use caption_translator::json::JsonValue;
use caption_translator::pcm::{AsrPcmChunker, ASR_CHUNK_SAMPLES, ASR_SAMPLE_RATE};
use caption_translator::session::SessionKind;
use caption_translator::translation::{
    build_dashscope_chat_url, build_system_prompt, build_translate_url, config_missing_response,
    is_dashscope_provider, LOCAL_TRANSLATION_ENDPOINT_MISSING,
};
use caption_translator::tts::{
    event_name_for_tts_status, extract_audio_reference, prepare_tts_audio, TtsAudioBytes,
    TtsAudioReference, TtsPlaybackRoute,
};

const MS: u64 = 1_000_000;

fn text(s: &str) -> JsonValue {
    JsonValue::String(s.to_string())
}

fn object(members: Vec<(&str, JsonValue)>) -> JsonValue {
    JsonValue::Object(members.into_iter().map(|(k, v)| (k.to_string(), v)).collect())
}

fn finalize_config() -> SegmentFinalizeConfig {
    SegmentFinalizeConfig {
        silence_ms: 500,
        tail_delay_ms: 0,
        preferred_chars: 60,
        hard_chars: 220,
        source_lang: "en".to_string(),
    }
}

#[test]
fn mic_raw_transcript_for_new_utterance_clears_previous_mic_translation() {
    let mut state = RealtimeCaptionSnapshot::default();
    update_translated_text(
        &mut state,
        SessionKind::MicInterpretation,
        "mic-session",
        "mic-old",
        "old",
    );
    update_raw_transcript(
        &mut state,
        SessionKind::MicInterpretation,
        "mic-session",
        "mic-new",
        "new",
    );

    let snapshot = get_realtime_caption_snapshot(&state);

    assert_eq!(snapshot.mic_raw_transcript, "new");
    assert_eq!(snapshot.mic_translated_text, "");
}

#[test]
fn parses_dashscope_like_local_asr_message() {
    let value = object(vec![
        (
            "header",
            object(vec![("event", text("result-generated")), ("task_id", text("local-asr-1"))]),
        ),
        (
            "payload",
            object(vec![(
                "output",
                object(vec![(
                    "sentence",
                    object(vec![("text", text("hello world")), ("sentence_end", JsonValue::Bool(true))]),
                )]),
            )]),
        ),
    ]);
    let parsed = parse_asr_message(&value);
    assert_eq!(parsed.utterance_id, "local-asr-1");
    assert_eq!(parsed.transcript, "hello world");
    assert!(parsed.is_final);
}

#[test]
fn chunks_microphone_audio_as_16khz_100ms_pcm16() {
    let mut chunker = AsrPcmChunker::new(48_000, ASR_SAMPLE_RATE, ASR_CHUNK_SAMPLES);
    let samples = vec![0i16; 4_800];

    let chunks = chunker.push_i16_interleaved(&samples, 1);

    let chunk = chunks.first().expect("expected one ASR chunk");
    assert_eq!(chunk.len(), ASR_CHUNK_SAMPLES * 2);
    assert_eq!(chunks.len(), 1);
}

#[test]
fn interval_finalize_does_not_wait_for_voice_silence() {
    let now: u64 = 10_000 * MS;
    let mut state = SpeechSegmentState::new();
    state.partial_text = "what is happening here".to_string();
    state.segment_started_at = Some(now - 500 * MS);
    state.last_voice_at = Some(now);
    state.last_text_at = Some(now);

    let config = finalize_config();

    assert_eq!(state.should_finalize(now, &config), Some("interval"));
}

#[test]
fn source_language_mismatch_is_kept_for_translation_instead_of_dropped() {
    let filtered = filter_source_text_by_expected_lang("这是中文内容".to_string(), "en");

    assert_eq!(filtered.as_deref(), Some("这是中文内容"));
}

#[test]
fn interval_finalize_waits_until_configured_duration() {
    let now: u64 = 10_000 * MS;
    let mut state = SpeechSegmentState::new();
    state.partial_text = "what is happening here".to_string();
    state.segment_started_at = Some(now - 499 * MS);
    state.last_voice_at = Some(now - 1_000 * MS);
    state.last_text_at = Some(now);

    let config = finalize_config();

    assert_eq!(state.should_finalize(now, &config), None);
}

#[test]
fn builds_translate_url_from_base_endpoint() {
    assert_eq!(
        build_translate_url("http://127.0.0.1:8777").as_deref(),
        Some("http://127.0.0.1:8777/translate")
    );
    assert_eq!(
        build_translate_url("http://127.0.0.1:8777/").as_deref(),
        Some("http://127.0.0.1:8777/translate")
    );
}

#[test]
fn preserves_explicit_translate_url() {
    assert_eq!(
        build_translate_url("http://127.0.0.1:8777/api/translate").as_deref(),
        Some("http://127.0.0.1:8777/api/translate")
    );
}

#[test]
fn builds_dashscope_chat_completions_url() {
    assert_eq!(
        build_dashscope_chat_url("https://dashscope.aliyuncs.com/compatible-mode/v1").as_deref(),
        Some("https://dashscope.aliyuncs.com/compatible-mode/v1/chat/completions")
    );
    assert_eq!(
        build_dashscope_chat_url("https://dashscope.aliyuncs.com/compatible-mode/v1/chat/completions")
            .as_deref(),
        Some("https://dashscope.aliyuncs.com/compatible-mode/v1/chat/completions")
    );
}

#[test]
fn detects_dashscope_translation_provider_aliases() {
    assert!(is_dashscope_provider("dashscope_openai"));
    assert!(is_dashscope_provider("bailian"));
    assert!(!is_dashscope_provider("transformers_seq2seq"));
}

#[test]
fn appends_custom_cloud_translation_prompt_to_system_prompt() {
    let prompt = build_system_prompt("Use concise gaming terminology.");

    assert!(prompt.contains("professional real-time subtitle translator"));
    assert!(prompt.contains("Use concise gaming terminology."));
}

#[test]
fn rejects_unconfigured_endpoint() {
    assert!(build_translate_url("").is_none());
    assert!(build_translate_url("   ").is_none());
}

#[test]
fn config_missing_response_preserves_request_id() {
    let result = config_missing_response("req-1");
    assert_eq!(result.request_id, "req-1");
    assert_eq!(result.status, "failed");
    assert_eq!(result.translated_text, "");
    assert_eq!(result.error.as_deref(), Some(LOCAL_TRANSLATION_ENDPOINT_MISSING));
}

#[test]
fn extracts_dashscope_audio_url() {
    let value = object(vec![(
        "output",
        object(vec![("audio", object(vec![("url", text("https://example.local/audio.wav"))]))]),
    )]);

    assert_eq!(
        extract_audio_reference(&value),
        Some(TtsAudioReference::Url("https://example.local/audio.wav".to_string()))
    );
}

#[test]
fn extracts_base64_audio_payload() {
    let value = object(vec![(
        "output",
        object(vec![("audio", object(vec![("data", text("UklGRg=="))]))]),
    )]);

    assert_eq!(
        extract_audio_reference(&value),
        Some(TtsAudioReference::Base64("UklGRg==".to_string()))
    );
}

#[test]
fn prepares_tts_audio_without_local_audio_path() {
    let saved = prepare_tts_audio(
        "abc-123",
        "translation-1",
        "mp3",
        24_000,
        "Cherry",
        "qwen3-tts-flash",
        123,
        TtsAudioBytes { bytes: vec![1, 2, 3], audio_url: None },
    )
    .expect("saved audio");

    assert_eq!(saved.file_size, 3);
    assert_eq!(saved.bytes, vec![1, 2, 3]);
    assert!(saved.audio_path.is_none());
}

#[test]
fn defaults_tts_playback_to_virtual_mic_route() {
    assert_eq!(
        TtsPlaybackRoute::from_settings("virtual_mic_only", "CABLE Input (VB-Audio Virtual Cable)"),
        TtsPlaybackRoute::VirtualMicOnly {
            device_name: "CABLE Input (VB-Audio Virtual Cable)".to_string()
        }
    );
}

#[test]
fn maps_playback_statuses_to_specific_events() {
    assert_eq!(event_name_for_tts_status("playing"), "mic_tts_playing");
    assert_eq!(event_name_for_tts_status("completed"), "mic_tts_completed");
    assert_eq!(event_name_for_tts_status("failed"), "mic_tts_error");
    assert_eq!(event_name_for_tts_status("audio_saved"), "mic_tts_status");
}
