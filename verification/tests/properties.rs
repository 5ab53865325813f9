use caption_translator::asr::{
    asr_event_type, classify_health_reply, detected_lang, merge_transcript, normalize_lang,
    parse_asr_message, readable_limit_for_lang, should_log_audio_chunk, should_synthesize_tts,
    target_normalize_plan, trim_completed_prefix, AsrHealthOutcome, ParsedAsrMessage,
    SegmentFinalizeConfig, SpeechSegmentState,
};
use caption_translator::caption::{
    get_realtime_caption_snapshot, update_raw_transcript, update_translated_text,
    RealtimeCaptionSnapshot,
};
use caption_translator::commands::{list_tts_voices, tts_connection_check};
use caption_translator::devices::{find_device_by_name, summarize_devices};
use caption_translator::events::{drain_session_events, SessionEventLog};
use caption_translator::json::JsonValue;
use caption_translator::pcm::{i16_to_le_bytes, AsrPcmChunker};
use caption_translator::redact::{redact_json, redact_text};
use caption_translator::services::{
    asr_probe_result, combine_probes, finish_ensure, scripts_to_start, service_log_file_name,
    translation_connection_precheck, translation_probe_precheck, TranslationCheck,
};
use caption_translator::session::{SessionKind, SessionRegistry};
use caption_translator::settings::{
    default_app_settings, prepare_settings_for_save, tts_api_key, validate_settings,
    ConnectionTestResult, EnvVars,
};
use caption_translator::startup::{session_start_notice, system_subtitle_precheck};
use caption_translator::translation::{http_error_response, parse_translation_response};
use caption_translator::tts::{
    make_tts_audio_path_at, normalize_audio_format, playback_device, prepare_tts_audio,
    stop_outcome, tts_audio_from_reply, StopTtsPlaybackRequest, TtsAudioBytes, TtsAudioRegistry,
    TtsAudioStep,
};

const MS: u64 = 1_000_000;

fn text(s: &str) -> JsonValue {
    JsonValue::String(s.to_string())
}

fn object(members: Vec<(&str, JsonValue)>) -> JsonValue {
    JsonValue::Object(members.into_iter().map(|(k, v)| (k.to_string(), v)).collect())
}

fn env(pairs: &[(&str, &str)]) -> EnvVars {
    EnvVars { vars: pairs.iter().map(|(k, v)| (k.to_string(), v.to_string())).collect() }
}

fn result(ok: bool, message: &str) -> ConnectionTestResult {
    ConnectionTestResult { ok, message: message.to_string() }
}

fn parsed(utterance: &str, transcript: &str, is_final: bool) -> ParsedAsrMessage {
    ParsedAsrMessage {
        utterance_id: utterance.to_string(),
        transcript: transcript.to_string(),
        is_final,
        provider: "vosk".to_string(),
    }
}

fn saved(tts_id: &str, bytes: Vec<u8>) -> caption_translator::tts::SavedTtsAudio {
    prepare_tts_audio(
        tts_id,
        "translation-1",
        "wav",
        24_000,
        "Cherry",
        "qwen3-tts-flash",
        1,
        TtsAudioBytes { bytes, audio_url: None },
    )
    .expect("valid id")
}

#[test]
fn sessions_of_each_kind_are_kept_apart() {
    let mut registry = SessionRegistry::new();
    let system = registry.start(SessionKind::SystemSubtitle);
    let mic = registry.start(SessionKind::MicInterpretation);
    registry.stop(SessionKind::SystemSubtitle);

    assert!(!registry.get(SessionKind::SystemSubtitle).unwrap().is_running);
    let still = registry.get(SessionKind::MicInterpretation).unwrap();
    assert!(still.is_running);
    assert_eq!(still.session_id, mic.session_id);
    assert_ne!(system.session_id, mic.session_id);
}

#[test]
fn session_ids_are_version_four_uuids() {
    let mut registry = SessionRegistry::new();
    let session = registry.start(SessionKind::MicInterpretation);
    let id: Vec<char> = session.session_id.chars().collect();
    assert_eq!(id.len(), 36);
    assert_eq!(id[8], '-');
    assert_eq!(id[13], '-');
    assert_eq!(id[14], '4');
    assert_eq!(id[18], '-');
    assert_eq!(id[23], '-');
}

#[test]
fn stopping_a_session_never_started_changes_nothing() {
    let mut registry = SessionRegistry::new();
    registry.stop(SessionKind::SystemSubtitle);
    assert!(registry.get(SessionKind::SystemSubtitle).is_none());
}

#[test]
fn caption_read_after_write_and_isolation() {
    let mut state = RealtimeCaptionSnapshot::default();
    update_raw_transcript(&mut state, SessionKind::SystemSubtitle, "s1", "u1", "hello");
    update_translated_text(&mut state, SessionKind::SystemSubtitle, "s1", "u1", "你好");
    update_raw_transcript(&mut state, SessionKind::MicInterpretation, "m1", "u2", "mic text");
    let snapshot = get_realtime_caption_snapshot(&state);
    assert_eq!(snapshot.system_raw_transcript, "hello");
    assert_eq!(snapshot.system_translated_text, "你好");
    assert_eq!(snapshot.mic_raw_transcript, "mic text");
    assert_eq!(snapshot.mic_translated_text, "");
    assert!(snapshot.updated_at > 0);
}

#[test]
fn mic_translation_survives_partials_of_the_same_utterance() {
    let mut state = RealtimeCaptionSnapshot::default();
    update_translated_text(&mut state, SessionKind::MicInterpretation, "m", "u1", "译文");
    update_raw_transcript(&mut state, SessionKind::MicInterpretation, "m", "u1", "more");
    assert_eq!(state.mic_translated_text, "译文");
}

#[test]
fn redacts_texts_that_mention_secrets_in_any_case() {
    assert_eq!(redact_text("Authorization: Bearer abc"), "[REDACTED]");
    assert_eq!(redact_text("the BEARER is here"), "[REDACTED]");
    assert_eq!(redact_text("Dashscope_Api_Key=1"), "[REDACTED]");
    assert_eq!(redact_text("plain words"), "plain words");
}

#[test]
fn redacts_sensitive_json_members_and_keeps_shape() {
    let value = object(vec![
        ("apiKey", text("sk-123")),
        ("Authorization", text("x")),
        ("name", text("ok")),
        ("count", JsonValue::Number("3".to_string())),
        ("list", JsonValue::Array(vec![text("bearer token"), JsonValue::Null])),
    ]);
    let redacted = redact_json(value);
    match redacted {
        JsonValue::Object(entries) => {
            assert_eq!(entries.len(), 5);
            assert_eq!(entries[0].0, "apiKey");
            assert!(matches!(&entries[0].1, JsonValue::String(s) if s == "[REDACTED]"));
            assert!(matches!(&entries[1].1, JsonValue::String(s) if s == "[REDACTED]"));
            assert!(matches!(&entries[2].1, JsonValue::String(s) if s == "ok"));
            assert!(matches!(&entries[3].1, JsonValue::Number(n) if n == "3"));
            match &entries[4].1 {
                JsonValue::Array(items) => {
                    assert!(matches!(&items[0], JsonValue::String(s) if s == "[REDACTED]"));
                    assert!(matches!(&items[1], JsonValue::Null));
                }
                _ => panic!("array expected"),
            }
        }
        _ => panic!("object expected"),
    }
}

#[test]
fn default_settings_follow_the_environment() {
    let vars = env(&[("LOCAL_ASR_PROVIDER", "sherpa"), ("GAME_TTS_API_KEY", "k")]);
    let settings = default_app_settings(&vars, 1.0f32.to_bits());
    assert_eq!(settings.local_asr.provider, "sherpa");
    assert_eq!(settings.local_asr.ws_url, "ws://127.0.0.1:8765/ws");
    assert_eq!(settings.local_asr.sample_rate, 16_000);
    assert!(settings.qwen_tts.has_api_key);
    assert!(settings.qwen_tts.game_tts_api_key_configured);
    assert!(!settings.qwen_tts.dashscope_api_key_configured);
    assert!(validate_settings(&settings).is_ok());
}

#[test]
fn validation_reports_the_first_failed_check() {
    let mut settings = default_app_settings(&env(&[]), 1.0f32.to_bits());
    settings.local_asr.sample_rate = 0;
    settings.local_translation.timeout_ms = 0;
    assert_eq!(validate_settings(&settings).unwrap_err(), "采样率必须大于 0。");
    settings.local_asr.ws_url = "  ".to_string();
    assert_eq!(validate_settings(&settings).unwrap_err(), "本地 ASR 地址不能为空。");
    let refused = prepare_settings_for_save(settings, &env(&[]));
    assert_eq!(refused.unwrap_err(), "本地 ASR 地址不能为空。");
}

#[test]
fn saving_refreshes_key_flags() {
    let mut settings = default_app_settings(&env(&[]), 1.0f32.to_bits());
    assert!(!settings.qwen_tts.has_api_key);
    settings.qwen_tts.api_key = "own-key".to_string();
    let saved = prepare_settings_for_save(settings, &env(&[("DASHSCOPE_API_KEY", "d")])).unwrap();
    assert!(saved.qwen_tts.has_api_key);
    assert!(saved.qwen_tts.dashscope_api_key_configured);
}

#[test]
fn tts_keys_come_from_the_environment_game_then_dashscope() {
    let vars = env(&[("GAME_TTS_API_KEY", "game"), ("DASHSCOPE_API_KEY", "dash")]);
    assert_eq!(tts_api_key(&vars).as_deref(), Some("game"));
    let only_dash = env(&[("GAME_TTS_API_KEY", ""), ("DASHSCOPE_API_KEY", "dash")]);
    assert_eq!(tts_api_key(&only_dash).as_deref(), Some("dash"));
    assert_eq!(tts_api_key(&env(&[])), None);
}

#[test]
fn a_key_held_only_by_the_settings_is_not_available() {
    let mut settings = default_app_settings(&env(&[]), 1.0f32.to_bits());
    settings.qwen_tts.api_key = "own-key".to_string();
    let saved = prepare_settings_for_save(settings, &env(&[])).unwrap();
    assert!(!saved.qwen_tts.has_api_key);
}

#[test]
fn defaults_follow_the_model_documentation() {
    let settings = default_app_settings(&env(&[]), 1.0f32.to_bits());
    assert_eq!(settings.local_asr.provider, "sherpa_onnx");
    assert_eq!(settings.local_asr.ws_url, "ws://127.0.0.1:8765/ws");
    assert_eq!(
        settings.local_asr.model_dir,
        "local-asr/models/sherpa-onnx-streaming-paraformer-bilingual-zh-en"
    );
    assert_eq!(
        settings.qwen_tts.endpoint,
        "https://dashscope.aliyuncs.com/api/v1/services/aigc/multimodal-generation/generation"
    );
    assert_eq!(settings.qwen_tts.model, "qwen-qwen-tts-latest");
    assert!(!caption_translator::translation::is_dashscope_provider(&settings.local_translation.provider));
    match translation_connection_precheck(&settings.local_translation) {
        TranslationCheck::Done(r) => {
            assert!(!r.ok);
            assert!(r.message.contains("本地翻译模型未配置"));
        }
        other => panic!("unexpected {:?}", other),
    }
    match translation_probe_precheck(&settings.local_translation) {
        TranslationCheck::Done(r) => assert_eq!(r.message, "本地翻译模型未配置。"),
        other => panic!("unexpected {:?}", other),
    }
}

#[test]
fn local_http_errors_name_the_missing_model() {
    let missing = http_error_response(404, "404 Not Found", "  no model ", "r1");
    assert_eq!(missing.status, "failed");
    assert_eq!(missing.error.as_deref(), Some("本地翻译模型未配置或未安装: no model"));
    let other = http_error_response(500, "500 Internal Server Error", "", "r1");
    assert_eq!(other.error.as_deref(), Some("本地翻译服务连接失败: HTTP 500 Internal Server Error"));
}

#[test]
fn translation_replies_must_answer_the_request() {
    let wrong = parse_translation_response(
        Ok(caption_translator::translation::LocalTranslationResponse {
            request_id: "other".to_string(),
            translated_text: "x".to_string(),
            status: "completed".to_string(),
            error: None,
        }),
        "req",
    );
    assert_eq!(wrong.error.as_deref(), Some("本地翻译服务 requestId 不匹配: expected req, got other"));
    let broken = parse_translation_response(Err("eof".to_string()), "req");
    assert_eq!(broken.error.as_deref(), Some("本地翻译服务返回格式无效: eof"));
}

#[test]
fn language_helpers_give_exact_values() {
    assert_eq!(normalize_lang(" Chinese "), "zh");
    assert_eq!(normalize_lang("EN-us"), "en");
    assert_eq!(normalize_lang(" ja "), "ja");
    assert_eq!(detected_lang("hello 你"), Some("en"));
    assert_eq!(detected_lang("你好 hi"), Some("zh"));
    assert_eq!(detected_lang("123"), None);
    assert_eq!(readable_limit_for_lang("zh"), 16);
    assert_eq!(readable_limit_for_lang("english"), 60);
    assert_eq!(readable_limit_for_lang("fr"), 40);
    let plan = target_normalize_plan("this is english", "zh").unwrap();
    assert_eq!((plan.0.as_str(), plan.1.as_str()), ("en", "zh"));
    assert!(target_normalize_plan("this is english", "fr").is_none());
}

#[test]
fn merging_transcripts_keeps_the_newest_text() {
    let mut t = "hello".to_string();
    merge_transcript(&mut t, " hello world ");
    assert_eq!(t, "hello world");
    merge_transcript(&mut t, "world");
    assert_eq!(t, "hello world");
    merge_transcript(&mut t, "again");
    assert_eq!(t, "hello world again");
    assert_eq!(trim_completed_prefix("hello world again", "hello world"), "again");
}

#[test]
fn segment_is_handed_over_once_and_not_repeated() {
    let mut state = SpeechSegmentState::new();
    let visible = state.record_asr_visible(&parsed("u1", "good morning.", true), 100 * MS);
    assert_eq!(visible.as_deref(), Some("good morning."));
    let config = SegmentFinalizeConfig {
        silence_ms: 500,
        tail_delay_ms: 0,
        preferred_chars: 60,
        hard_chars: 220,
        source_lang: "en".to_string(),
    };
    let segment = state.poll_finalize(200 * MS, &config, true).expect("stop hands over");
    assert_eq!(segment.source_text, "good morning.");
    assert_eq!(segment.finalize_reason, "session_stop");
    state.finish_translation(&segment.source_text);
    assert_eq!(state.combined_text(), "");
    state.record_asr(&parsed("u1", "good morning.", true), 300 * MS);
    assert_eq!(state.combined_text(), "");
    assert!(state.poll_finalize(400 * MS, &config, true).is_none());
}

#[test]
fn asr_messages_fall_back_to_defaults() {
    let message = parse_asr_message(&object(vec![("text", text("hi"))]));
    assert_eq!(message.utterance_id, "local-asr-utterance");
    assert_eq!(message.provider, "local-sherpa-onnx-realtime");
    assert!(!message.is_final);
    assert_eq!(asr_event_type(SessionKind::MicInterpretation, true), "mic_asr_final");
    assert_eq!(asr_event_type(SessionKind::SystemSubtitle, false), "system_asr_partial");
    assert!(should_log_audio_chunk(3));
    assert!(!should_log_audio_chunk(4));
    assert!(should_log_audio_chunk(200));
    assert!(should_synthesize_tts(SessionKind::MicInterpretation, "completed", "你好"));
    assert!(!should_synthesize_tts(SessionKind::SystemSubtitle, "completed", "你好"));
}

#[test]
fn health_replies_are_classified() {
    let good = object(vec![("ok", JsonValue::Bool(true)), ("provider", text("vosk-local"))]);
    assert_eq!(classify_health_reply(&good, "vosk").0, true);
    let other = object(vec![("ok", JsonValue::Bool(true)), ("provider", text("sherpa"))]);
    assert_eq!(classify_health_reply(&other, "vosk").1, "ASR 服务引擎不匹配：当前=sherpa，期望=vosk");
    let down = object(vec![("ok", JsonValue::Bool(false))]);
    assert_eq!(classify_health_reply(&down, "vosk").1, "ASR 服务未就绪。");
}

#[test]
fn pcm_bytes_are_little_endian() {
    assert_eq!(i16_to_le_bytes(&[1, -2, 256]), vec![1, 0, 254, 255, 0, 1]);
}

#[test]
fn equal_rates_pass_samples_through_in_fixed_chunks() {
    let mut chunker = AsrPcmChunker::new(16_000, 16_000, 2);
    let chunks = chunker.push_i16_interleaved(&[1, 2, 3, 4, 5], 1);
    assert_eq!(chunks, vec![vec![1, 0, 2, 0], vec![3, 0, 4, 0]]);
    let more = chunker.push_i16_interleaved(&[6], 1);
    assert_eq!(more, vec![vec![5, 0, 6, 0]]);
}

#[test]
fn stereo_is_averaged_to_mono() {
    let mut chunker = AsrPcmChunker::new(16_000, 16_000, 1);
    let chunks = chunker.push_i16_interleaved(&[100, 300, -5, -6], 2);
    assert_eq!(chunks, vec![vec![200, 0], vec![251, 255]]);
    let unsigned = chunker.push_u16_interleaved(&[32768, 32770], 2);
    assert_eq!(unsigned, vec![vec![1, 0]]);
}

#[test]
fn event_log_drains_by_sequence() {
    let mut log = SessionEventLog::new();
    let first = log.record("a", SessionKind::SystemSubtitle, "s", JsonValue::Null);
    let second = log.record("b", SessionKind::MicInterpretation, "m", JsonValue::Bool(true));
    assert_eq!((first, second), (1, 2));
    let all = drain_session_events(&log, 0);
    assert_eq!(all.len(), 2);
    assert_eq!(all[0].event_type, "a");
    let newer = drain_session_events(&log, 1);
    assert_eq!(newer.len(), 1);
    assert_eq!(newer[0].sequence, 2);
    assert!(drain_session_events(&log, log.last_sequence()).is_empty());
}

#[test]
fn event_log_keeps_the_newest_thousand() {
    let mut log = SessionEventLog::new();
    for _ in 0..1_005 {
        log.record("e", SessionKind::SystemSubtitle, "s", JsonValue::Null);
    }
    let all = drain_session_events(&log, 0);
    assert_eq!(all.len(), 1_000);
    assert_eq!(all[0].sequence, 6);
    assert_eq!(all[999].sequence, 1_005);
}

#[test]
fn registry_replaces_audio_of_the_same_id() {
    let mut registry = TtsAudioRegistry::new();
    registry.register(saved("a", vec![1]));
    registry.register(saved("b", vec![2]));
    registry.register(saved("a", vec![3]));
    assert_eq!(registry.find("a").unwrap().bytes, vec![3]);
    assert_eq!(registry.find("b").unwrap().bytes, vec![2]);
    assert!(registry.find("c").is_none());
    assert_eq!(
        registry.find_for_replay("c").unwrap_err(),
        "当前没有可重播的 TTS 音频：c"
    );
    let completed = registry.find("a").unwrap().completed_at_time(99);
    assert_eq!(completed.completed_at, Some(99));
}

#[test]
fn base64_audio_is_decoded() {
    let reply = object(vec![("output", object(vec![("audio", object(vec![("data", text("UklGRg=="))]))]))]);
    match tts_audio_from_reply(&reply) {
        TtsAudioStep::Ready { audio } => {
            assert_eq!(audio.bytes, b"RIFF".to_vec());
            assert!(audio.audio_url.is_none());
        }
        other => panic!("unexpected {:?}", other),
    }
    let broken = object(vec![("data", text("@@@"))]);
    match tts_audio_from_reply(&broken) {
        TtsAudioStep::Failed { message } => {
            assert!(message.starts_with("Qwen TTS base64 音频解码失败："));
            assert!(message.chars().count() > "Qwen TTS base64 音频解码失败：".chars().count());
        }
        other => panic!("unexpected {:?}", other),
    }
    match tts_audio_from_reply(&object(vec![("url", text("  "))])) {
        TtsAudioStep::Failed { message } => assert_eq!(message, "TTS 返回音频为空。"),
        other => panic!("unexpected {:?}", other),
    }
}

#[test]
fn tts_ids_and_formats_are_checked() {
    assert_eq!(
        prepare_tts_audio("bad id", "t", "mp3", 1, "v", "m", 1, TtsAudioBytes {
            bytes: vec![],
            audio_url: None
        })
        .unwrap_err(),
        "TTS id 鏃犳晥銆?"
    );
    assert_eq!(normalize_audio_format(" .MP3 "), "mp3");
    assert_eq!(normalize_audio_format(""), "wav");
    assert_eq!(normalize_audio_format("..Ogg"), "ogg");
    assert_eq!(make_tts_audio_path_at("a b/c", "MP3", 42).unwrap(), "tts_42_abc.mp3");
    assert_eq!(make_tts_audio_path_at("%%", "mp3", 42).unwrap_err(), "TTS id 无效。");
}

#[test]
fn stopping_playback_reports_the_right_status() {
    let stopped = stop_outcome(StopTtsPlaybackRequest { tts_id: None }, true);
    assert_eq!(stopped.tts_id, "current");
    assert_eq!(stopped.playback_state, "stopped");
    assert_eq!(stopped.saved_status, "failed");
    let idle = stop_outcome(StopTtsPlaybackRequest { tts_id: Some("x".to_string()) }, false);
    assert_eq!(idle.tts_id, "x");
    assert_eq!(idle.saved_status, "completed");
    assert_eq!(playback_device(None), Ok(None));
    assert_eq!(playback_device(Some(" ")), Err("TTS 虚拟麦输出设备未配置。".to_string()));
}

#[test]
fn service_probes_report_exact_messages() {
    let refused = asr_probe_result("vosk", AsrHealthOutcome::ConnectFailed("refused".to_string()));
    assert!(!refused.ok);
    assert_eq!(refused.message, "ASR 服务未启动。");
    let good = asr_probe_result(
        "vosk",
        AsrHealthOutcome::Reply(object(vec![("ok", JsonValue::Bool(true)), ("provider", text("vosk"))])),
    );
    assert!(good.ok);
    assert_eq!(good.message, "连接成功。");
    let status = combine_probes(result(true, "连接成功。"), result(false, "本地翻译服务未启动。"));
    assert!(!status.ready());
    assert_eq!(status.message, "ASR：连接成功。；翻译：本地翻译服务未启动。");
    assert_eq!(scripts_to_start(&status), vec!["start_local_translation.ps1"]);
    let done = finish_ensure(status, false, true);
    assert_eq!(done.message, "本地服务尚未就绪：ASR=已连接，翻译=未连接");
    assert!(done.started_translation);
    assert_eq!(service_log_file_name("start_local_asr.ps1"), "start_local_asr.log");
    assert_eq!(service_log_file_name("x.ps1.ps1"), "x.log");
}

#[test]
fn translation_checks_ask_for_health_only_when_configured() {
    let mut settings = default_app_settings(&env(&[]), 1.0f32.to_bits()).local_translation;
    settings.provider = "local".to_string();
    settings.endpoint = " http://127.0.0.1:8777// ".to_string();
    settings.model_name = "m".to_string();
    match translation_probe_precheck(&settings) {
        TranslationCheck::CheckHealth(url) => assert_eq!(url, "http://127.0.0.1:8777/health"),
        other => panic!("unexpected {:?}", other),
    }
    settings.provider = "bailian".to_string();
    settings.api_key = String::new();
    match translation_connection_precheck(&settings) {
        TranslationCheck::Done(r) => {
            assert!(!r.ok);
            assert_eq!(r.message, "百炼 API 地址已配置，请填写 API Key 后再测试。");
        }
        other => panic!("unexpected {:?}", other),
    }
}

#[test]
fn devices_are_summarized_and_found_by_name() {
    let names = vec!["Speakers".to_string(), "CABLE Input".to_string()];
    let summary = summarize_devices(names.clone(), Some("CABLE Input".to_string()));
    assert_eq!(summary.len(), 2);
    assert!(!summary[0].is_default);
    assert!(summary[1].is_default);
    let optional = vec![None, Some("CABLE Input".to_string())];
    assert_eq!(find_device_by_name(&optional, " CABLE Input "), Some(1));
    assert_eq!(find_device_by_name(&optional, "  "), None);
    assert_eq!(
        caption_translator::tts::find_output_device(&names, "CABLE"),
        Some(1)
    );
}

#[test]
fn settings_page_checks_are_exact() {
    let voices = list_tts_voices();
    assert_eq!(voices.len(), 4);
    assert_eq!(voices[3].value, "Chelsie");
    let mut tts = default_app_settings(&env(&[]), 1.0f32.to_bits()).qwen_tts;
    tts.has_api_key = false;
    assert_eq!(tts_connection_check(&tts).message, "TTS 密钥未配置。");
    tts.has_api_key = true;
    assert!(tts_connection_check(&tts).ok);
}

#[test]
fn sessions_start_only_with_asr_when_required() {
    let status = caption_translator::asr::LocalAsrConnectionStatus {
        session_kind: SessionKind::SystemSubtitle,
        provider: "vosk".to_string(),
        endpoint: "ws://x".to_string(),
        connected: false,
        error: None,
    };
    assert_eq!(
        system_subtitle_precheck(&status).unwrap_err(),
        "本地 ASR 服务未就绪，请等待服务启动完成。"
    );
    let (message, connected) = session_start_notice(SessionKind::MicInterpretation, &status);
    assert_eq!(message, "Local ASR unavailable");
    assert!(!connected);
}

#[test]
fn tts_requests_of_system_subtitles_are_refused_first() {
    let request = caption_translator::tts::TtsInvokeRequest {
        session_kind: SessionKind::SystemSubtitle,
        tts_id: "a".to_string(),
        translation_item_id: "t".to_string(),
        text: "hi".to_string(),
        target_lang: "en".to_string(),
    };
    assert_eq!(
        caption_translator::tts::check_tts_session(&request).unwrap_err(),
        "TTS 只能用于麦克风同声传译模块。"
    );
}
