//! Application settings: their defaults taken from the environment, the
//! secret-status flags, validation before saving, and the TTS key priority.
use vstd::prelude::*;
use crate::text::{is_blank, is_blank_seq, owned, parse_unsigned, parse_unsigned_seq, str_eq};

verus! {

#[derive(Debug)]
pub struct LocalAsrSettings {
    pub provider: String,
    pub ws_url: String,
    pub model_dir: String,
    pub sample_rate: u32,
    pub language_mode: String,
    pub enable_endpoint_detection: bool,
}

#[derive(Debug)]
pub struct LocalTranslationSettings {
    pub provider: String,
    pub endpoint: String,
    pub api_key: String,
    pub proxy_url: String,
    pub prompt: String,
    pub model_path: String,
    pub model_name: String,
    pub source_lang: String,
    pub target_lang: String,
    pub timeout_ms: u64,
}

/// Qwen TTS settings. The speaking speed is a 32-bit float; it is carried
/// here as its IEEE-754 bit pattern, since nothing in the library computes
/// with it.
#[derive(Debug)]
pub struct QwenTtsSettings {
    pub endpoint: String,
    pub api_key: String,
    pub model: String,
    pub voice: String,
    pub format: String,
    pub sample_rate: u32,
    pub speed_bits: u32,
    pub volume: u32,
    pub has_api_key: bool,
    pub game_tts_api_key_configured: bool,
    pub dashscope_api_key_configured: bool,
    /// Where synthesized speech is played: `preview_only`,
    /// `preview_and_virtual_mic`, or the virtual microphone only.
    pub output_mode: String,
    /// The output device that feeds the virtual microphone.
    pub virtual_mic_device_name: String,
}

#[derive(Debug)]
pub struct AudioDeviceSettings {
    pub system_output_device_name: String,
    pub mic_input_device_name: String,
}

#[derive(Debug)]
pub struct LanguageSettings {
    pub system_source_lang: String,
    pub system_target_lang: String,
    pub mic_source_lang: String,
    pub mic_target_lang: String,
}

#[derive(Debug)]
pub struct SystemSegmenterSettings {
    pub min_words_before_finalize: u32,
    pub preferred_max_chars: u32,
    pub hard_max_chars: u32,
    pub silence_for_visual_finalize_ms: u32,
    pub allow_comma_finalize: bool,
    pub allow_short_pause_finalize: bool,
}

#[derive(Debug)]
pub struct MicSegmenterSettings {
    pub min_words_before_translate: u32,
    pub preferred_max_chars: u32,
    pub hard_max_chars: u32,
    pub silence_for_translate_ms: u32,
    pub allow_comma_translate: bool,
}

#[derive(Debug)]
pub struct DiagnosticsSettings {
    pub log_level: String,
    pub diagnostics_enabled: bool,
    pub show_system_logs: bool,
    pub show_mic_logs: bool,
    pub show_asr_logs: bool,
    pub show_translation_logs: bool,
    pub show_tts_logs: bool,
    pub show_error_logs: bool,
}

#[derive(Debug)]
pub struct AppSettings {
    pub local_asr: LocalAsrSettings,
    pub local_translation: LocalTranslationSettings,
    pub qwen_tts: QwenTtsSettings,
    pub audio_devices: AudioDeviceSettings,
    pub language: LanguageSettings,
    pub system_segmenter: SystemSegmenterSettings,
    pub mic_segmenter: MicSegmenterSettings,
    pub diagnostics: DiagnosticsSettings,
    pub log_level: String,
    pub diagnostics_enabled: bool,
    pub e2e_autostart_system_subtitle: bool,
}

/// Whether each TTS key variable holds a non-empty value.
#[derive(Debug)]
pub struct SecretStatus {
    pub game_tts_api_key_configured: bool,
    pub dashscope_api_key_configured: bool,
}

#[derive(Debug)]
pub struct ConnectionTestResult {
    pub ok: bool,
    pub message: String,
}

/// The process environment as name/value pairs (variables whose name or
/// value is not valid Unicode are left out, as `std::env::var` treats them as
/// absent).
pub struct EnvVars {
    pub vars: Vec<(String, String)>,
}

/// The value of the first variable named `name`.
pub open spec fn env_lookup(vars: Seq<(String, String)>, name: Seq<char>) -> Option<Seq<char>>
    decreases vars.len(),
{
    if vars.len() == 0 {
        None
    } else if vars[0].0@ == name {
        Some(vars[0].1@)
    } else {
        env_lookup(vars.drop_first(), name)
    }
}

impl EnvVars {
    pub open spec fn lookup(&self, name: Seq<char>) -> Option<Seq<char>> {
        env_lookup(self.vars@, name)
    }

    pub open spec fn value_or(&self, name: Seq<char>, fallback: Seq<char>) -> Seq<char> {
        match self.lookup(name) {
            Some(v) => v,
            None => fallback,
        }
    }

    /// The value of `name` where it is set and not empty.
    pub open spec fn non_empty(&self, name: Seq<char>) -> Option<Seq<char>> {
        match self.lookup(name) {
            Some(v) => if v.len() > 0 {
                Some(v)
            } else {
                None
            },
            None => None,
        }
    }

    /// `name` read as a flag: true exactly when its value, or the fallback
    /// where it is unset, is `true`.
    pub open spec fn flag_or(&self, name: Seq<char>, fallback: bool) -> bool {
        self.value_or(name, if fallback { "true"@ } else { "false"@ }) == "true"@
    }

    /// `name` read as an unsigned number no larger than `max`, or `fallback`
    /// where it is unset or does not parse.
    pub open spec fn number_or(&self, name: Seq<char>, fallback: Seq<char>, max: nat, default: nat) -> nat {
        match parse_unsigned_seq(self.value_or(name, fallback), max) {
            Some(n) => n,
            None => default,
        }
    }

    /// The value of `name`, if set.
    #[verifier::loop_isolation(false)]
    pub fn var(&self, name: &str) -> (r: Option<String>)
        ensures
            match self.lookup(name@) {
                Some(v) => r is Some && r->0@ == v,
                None => r is None,
            },
    {
        let mut i: usize = 0;
        assert(self.vars@.skip(0) =~= self.vars@);
        while i < self.vars.len()
            invariant
                i <= self.vars.len(),
                self.lookup(name@) == env_lookup(self.vars@.skip(i as int), name@),
            decreases self.vars.len() - i,
        {
            assert(self.vars@.skip(i as int)[0] == self.vars@[i as int]);
            if str_eq(self.vars[i].0.as_str(), name) {
                return Some(self.vars[i].1.clone());
            }
            assert(self.vars@.skip(i as int).drop_first() =~= self.vars@.skip(i + 1));
            i += 1;
        }
        None
    }

    /// `std::env::var(name).unwrap_or(fallback)`.
    pub fn value_or_else(&self, name: &str, fallback: &str) -> (r: String)
        ensures
            r@ == self.value_or(name@, fallback@),
    {
        match self.var(name) {
            Some(v) => v,
            None => owned(fallback),
        }
    }

    /// The value of `name` where it is set and not empty.
    pub fn non_empty_var(&self, name: &str) -> (r: Option<String>)
        ensures
            match self.non_empty(name@) {
                Some(v) => r is Some && r->0@ == v,
                None => r is None,
            },
    {
        match self.var(name) {
            Some(v) => if v.as_str().is_empty() {
                None
            } else {
                Some(v)
            },
            None => None,
        }
    }

    pub fn flag(&self, name: &str, fallback: bool) -> (b: bool)
        ensures
            b == self.flag_or(name@, fallback),
    {
        let v = self.value_or_else(
            name,
            if fallback {
                "true"
            } else {
                "false"
            },
        );
        str_eq(v.as_str(), "true")
    }

    pub fn number(&self, name: &str, fallback: &str, max: u64, default: u64) -> (n: u64)
        requires
            max >= 9,
            default <= max,
        ensures
            n == self.number_or(name@, fallback@, max as nat, default as nat),
            n <= max,
    {
        let v = self.value_or_else(name, fallback);
        match parse_unsigned(v.as_str(), max) {
            Some(n) => n,
            None => default,
        }
    }
}

/// The key status that the environment gives.
pub open spec fn secret_status_of(env: &EnvVars) -> (bool, bool) {
    (env.non_empty("GAME_TTS_API_KEY"@) is Some, env.non_empty("DASHSCOPE_API_KEY"@) is Some)
}

/// Which of the TTS key variables hold a non-empty value.
pub fn get_secret_status(env: &EnvVars) -> (s: SecretStatus)
    ensures
        (s.game_tts_api_key_configured, s.dashscope_api_key_configured) == secret_status_of(env),
{
    SecretStatus {
        game_tts_api_key_configured: env.non_empty_var("GAME_TTS_API_KEY").is_some(),
        dashscope_api_key_configured: env.non_empty_var("DASHSCOPE_API_KEY").is_some(),
    }
}

/// The audio devices named by the environment.
pub fn default_audio_devices(env: &EnvVars) -> (d: AudioDeviceSettings)
    ensures
        d.system_output_device_name@ == env.value_or("SYSTEM_AUDIO_OUTPUT_DEVICE"@, ""@),
        d.mic_input_device_name@ == env.value_or("MIC_AUDIO_INPUT_DEVICE"@, ""@),
{
    AudioDeviceSettings {
        system_output_device_name: env.value_or_else("SYSTEM_AUDIO_OUTPUT_DEVICE", ""),
        mic_input_device_name: env.value_or_else("MIC_AUDIO_INPUT_DEVICE", ""),
    }
}

/// The first non-empty value among the variables `first` and `second`, or
/// the empty text.
pub open spec fn key_priority(env: &EnvVars, first: Seq<char>, second: Seq<char>) -> Seq<char> {
    match env.non_empty(first) {
        Some(v) => v,
        None => match env.non_empty(second) {
            Some(v) => v,
            None => Seq::empty(),
        },
    }
}

fn key_from(env: &EnvVars, first: &str, second: &str) -> (r: String)
    ensures
        r@ == key_priority(env, first@, second@),
{
    match env.non_empty_var(first) {
        Some(v) => v,
        None => match env.non_empty_var(second) {
            Some(v) => v,
            None => String::new(),
        },
    }
}

/// The settings that apply when no settings file exists, read from the
/// environment. `tts_speed_bits` is the bit pattern of the TTS speed, the
/// value of `GAME_TTS_API_SPEED` read as a float (1.0 where that fails).
pub fn default_app_settings(env: &EnvVars, tts_speed_bits: u32) -> (s: AppSettings)
    ensures
        s.local_asr.provider@ == env.value_or("LOCAL_ASR_PROVIDER"@, "sherpa_onnx"@),
        s.local_asr.ws_url@ == env.value_or("LOCAL_ASR_WS_URL"@, "ws://127.0.0.1:8765/ws"@),
        s.local_asr.model_dir@ == env.value_or(
            "LOCAL_ASR_MODEL_DIR"@,
            "local-asr/models/sherpa-onnx-streaming-paraformer-bilingual-zh-en"@,
        ),
        s.local_asr.sample_rate == env.number_or(
            "LOCAL_ASR_SAMPLE_RATE"@,
            "16000"@,
            u32::MAX as nat,
            16000,
        ),
        s.local_asr.language_mode@ == env.value_or("LOCAL_ASR_LANGUAGE_MODE"@, "bilingual"@),
        s.local_asr.enable_endpoint_detection == env.flag_or(
            "LOCAL_ASR_ENABLE_ENDPOINT_DETECTION"@,
            true,
        ),
        s.local_translation.provider@ == env.value_or(
            "LOCAL_TRANSLATION_PROVIDER"@,
            "local"@,
        ),
        s.local_translation.endpoint@ == env.value_or(
            "LOCAL_TRANSLATION_ENDPOINT"@,
            ""@,
        ),
        s.local_translation.api_key@ == key_priority(
            env,
            "LOCAL_TRANSLATION_API_KEY"@,
            "DASHSCOPE_API_KEY"@,
        ),
        s.local_translation.proxy_url@ == env.value_or("LOCAL_TRANSLATION_PROXY_URL"@, ""@),
        s.local_translation.prompt@ == env.value_or("LOCAL_TRANSLATION_PROMPT"@, ""@),
        s.local_translation.model_path@ == env.value_or("LOCAL_TRANSLATION_MODEL_PATH"@, ""@),
        s.local_translation.model_name@ == env.value_or("LOCAL_TRANSLATION_MODEL_NAME"@, ""@),
        s.local_translation.source_lang@ == env.value_or("LOCAL_TRANSLATION_SOURCE_LANG"@, "en"@),
        s.local_translation.target_lang@ == env.value_or("LOCAL_TRANSLATION_TARGET_LANG"@, "zh"@),
        s.local_translation.timeout_ms == env.number_or(
            "LOCAL_TRANSLATION_TIMEOUT_MS"@,
            "15000"@,
            u64::MAX as nat,
            15000,
        ),
        s.qwen_tts.endpoint@ == env.value_or(
            "GAME_TTS_API_ENDPOINT"@,
            "https://dashscope.aliyuncs.com/api/v1/services/aigc/multimodal-generation/generation"@,
        ),
        s.qwen_tts.api_key@ == key_priority(env, "GAME_TTS_API_KEY"@, "DASHSCOPE_API_KEY"@),
        s.qwen_tts.model@ == env.value_or("GAME_TTS_API_MODEL"@, "qwen-qwen-tts-latest"@),
        s.qwen_tts.voice@ == env.value_or("GAME_TTS_API_VOICE"@, ""@),
        s.qwen_tts.format@ == env.value_or("GAME_TTS_API_FORMAT"@, "wav"@),
        s.qwen_tts.sample_rate == env.number_or(
            "GAME_TTS_API_SAMPLE_RATE"@,
            "24000"@,
            u32::MAX as nat,
            24000,
        ),
        s.qwen_tts.speed_bits == tts_speed_bits,
        s.qwen_tts.volume == env.number_or("GAME_TTS_API_VOLUME"@, "50"@, u32::MAX as nat, 50),
        s.qwen_tts.game_tts_api_key_configured == secret_status_of(env).0,
        s.qwen_tts.dashscope_api_key_configured == secret_status_of(env).1,
        s.qwen_tts.has_api_key == (secret_status_of(env).0 || secret_status_of(env).1),
        s.qwen_tts.output_mode@.len() == 0,
        s.qwen_tts.virtual_mic_device_name@.len() == 0,
        s.audio_devices.system_output_device_name@ == env.value_or(
            "SYSTEM_AUDIO_OUTPUT_DEVICE"@,
            ""@,
        ),
        s.audio_devices.mic_input_device_name@ == env.value_or("MIC_AUDIO_INPUT_DEVICE"@, ""@),
        s.language.system_source_lang@ == env.value_or("SYSTEM_SUBTITLE_SOURCE_LANG"@, "en"@),
        s.language.system_target_lang@ == env.value_or("SYSTEM_SUBTITLE_TARGET_LANG"@, "zh"@),
        s.language.mic_source_lang@ == env.value_or("MIC_INTERPRETATION_SOURCE_LANG"@, "zh"@),
        s.language.mic_target_lang@ == env.value_or("MIC_INTERPRETATION_TARGET_LANG"@, "en"@),
        s.system_segmenter.min_words_before_finalize == 10,
        s.system_segmenter.preferred_max_chars == 140,
        s.system_segmenter.hard_max_chars == 220,
        s.system_segmenter.silence_for_visual_finalize_ms == 500,
        !s.system_segmenter.allow_comma_finalize,
        !s.system_segmenter.allow_short_pause_finalize,
        s.mic_segmenter.min_words_before_translate == 6,
        s.mic_segmenter.preferred_max_chars == 80,
        s.mic_segmenter.hard_max_chars == 140,
        s.mic_segmenter.silence_for_translate_ms == 800,
        !s.mic_segmenter.allow_comma_translate,
        s.log_level@ == env.value_or("APP_LOG_LEVEL"@, "info"@),
        s.diagnostics.log_level@ == s.log_level@,
        s.diagnostics_enabled == env.flag_or("APP_ENABLE_DIAGNOSTICS"@, false),
        s.diagnostics.diagnostics_enabled == s.diagnostics_enabled,
        s.diagnostics.show_system_logs && s.diagnostics.show_mic_logs
            && s.diagnostics.show_asr_logs && s.diagnostics.show_translation_logs
            && s.diagnostics.show_tts_logs && s.diagnostics.show_error_logs,
        s.e2e_autostart_system_subtitle == env.flag_or("APP_E2E_AUTOSTART_SYSTEM_SUBTITLE"@, false),
{
    let secret_status = get_secret_status(env);
    let has_api_key = secret_status.game_tts_api_key_configured
        || secret_status.dashscope_api_key_configured;
    let log_level = env.value_or_else("APP_LOG_LEVEL", "info");
    let diagnostics_enabled = env.flag("APP_ENABLE_DIAGNOSTICS", false);
    let sample_rate = env.number("LOCAL_ASR_SAMPLE_RATE", "16000", 0xffff_ffff, 16000);
    let tts_sample_rate = env.number("GAME_TTS_API_SAMPLE_RATE", "24000", 0xffff_ffff, 24000);
    let volume = env.number("GAME_TTS_API_VOLUME", "50", 0xffff_ffff, 50);
    AppSettings {
        local_asr: LocalAsrSettings {
            provider: env.value_or_else("LOCAL_ASR_PROVIDER", "sherpa_onnx"),
            ws_url: env.value_or_else("LOCAL_ASR_WS_URL", "ws://127.0.0.1:8765/ws"),
            model_dir: env.value_or_else(
                "LOCAL_ASR_MODEL_DIR",
                "local-asr/models/sherpa-onnx-streaming-paraformer-bilingual-zh-en",
            ),
            sample_rate: sample_rate as u32,
            language_mode: env.value_or_else("LOCAL_ASR_LANGUAGE_MODE", "bilingual"),
            enable_endpoint_detection: env.flag("LOCAL_ASR_ENABLE_ENDPOINT_DETECTION", true),
        },
        local_translation: LocalTranslationSettings {
            provider: env.value_or_else("LOCAL_TRANSLATION_PROVIDER", "local"),
            endpoint: env.value_or_else(
                "LOCAL_TRANSLATION_ENDPOINT",
                "",
            ),
            api_key: key_from(env, "LOCAL_TRANSLATION_API_KEY", "DASHSCOPE_API_KEY"),
            proxy_url: env.value_or_else("LOCAL_TRANSLATION_PROXY_URL", ""),
            prompt: env.value_or_else("LOCAL_TRANSLATION_PROMPT", ""),
            model_path: env.value_or_else("LOCAL_TRANSLATION_MODEL_PATH", ""),
            model_name: env.value_or_else("LOCAL_TRANSLATION_MODEL_NAME", ""),
            source_lang: env.value_or_else("LOCAL_TRANSLATION_SOURCE_LANG", "en"),
            target_lang: env.value_or_else("LOCAL_TRANSLATION_TARGET_LANG", "zh"),
            timeout_ms: env.number(
                "LOCAL_TRANSLATION_TIMEOUT_MS",
                "15000",
                0xffff_ffff_ffff_ffff,
                15000,
            ),
        },
        qwen_tts: QwenTtsSettings {
            endpoint: env.value_or_else(
                "GAME_TTS_API_ENDPOINT",
                "https://dashscope.aliyuncs.com/api/v1/services/aigc/multimodal-generation/generation",
            ),
            api_key: key_from(env, "GAME_TTS_API_KEY", "DASHSCOPE_API_KEY"),
            model: env.value_or_else("GAME_TTS_API_MODEL", "qwen-qwen-tts-latest"),
            voice: env.value_or_else("GAME_TTS_API_VOICE", ""),
            format: env.value_or_else("GAME_TTS_API_FORMAT", "wav"),
            sample_rate: tts_sample_rate as u32,
            speed_bits: tts_speed_bits,
            volume: volume as u32,
            has_api_key,
            game_tts_api_key_configured: secret_status.game_tts_api_key_configured,
            dashscope_api_key_configured: secret_status.dashscope_api_key_configured,
            output_mode: String::new(),
            virtual_mic_device_name: String::new(),
        },
        audio_devices: default_audio_devices(env),
        language: LanguageSettings {
            system_source_lang: env.value_or_else("SYSTEM_SUBTITLE_SOURCE_LANG", "en"),
            system_target_lang: env.value_or_else("SYSTEM_SUBTITLE_TARGET_LANG", "zh"),
            mic_source_lang: env.value_or_else("MIC_INTERPRETATION_SOURCE_LANG", "zh"),
            mic_target_lang: env.value_or_else("MIC_INTERPRETATION_TARGET_LANG", "en"),
        },
        system_segmenter: SystemSegmenterSettings {
            min_words_before_finalize: 10,
            preferred_max_chars: 140,
            hard_max_chars: 220,
            silence_for_visual_finalize_ms: 500,
            allow_comma_finalize: false,
            allow_short_pause_finalize: false,
        },
        mic_segmenter: MicSegmenterSettings {
            min_words_before_translate: 6,
            preferred_max_chars: 80,
            hard_max_chars: 140,
            silence_for_translate_ms: 800,
            allow_comma_translate: false,
        },
        diagnostics: DiagnosticsSettings {
            log_level: log_level.clone(),
            diagnostics_enabled,
            show_system_logs: true,
            show_mic_logs: true,
            show_asr_logs: true,
            show_translation_logs: true,
            show_tts_logs: true,
            show_error_logs: true,
        },
        log_level,
        diagnostics_enabled,
        e2e_autostart_system_subtitle: env.flag("APP_E2E_AUTOSTART_SYSTEM_SUBTITLE", false),
    }
}

/// Sets the TTS key flags from the environment; a key counts as available
/// when either variable is set, since TTS keys are read from the
/// environment only.
pub fn refresh_secret_status(settings: &mut AppSettings, env: &EnvVars)
    ensures
        final(settings).qwen_tts.game_tts_api_key_configured == secret_status_of(env).0,
        final(settings).qwen_tts.dashscope_api_key_configured == secret_status_of(env).1,
        final(settings).qwen_tts.has_api_key == (secret_status_of(env).0 || secret_status_of(
            env,
        ).1),
        final(settings).qwen_tts.api_key == old(settings).qwen_tts.api_key,
        final(settings).local_asr == old(settings).local_asr,
        final(settings).local_translation == old(settings).local_translation,
        final(settings).audio_devices == old(settings).audio_devices,
        final(settings).language == old(settings).language,
        final(settings).system_segmenter == old(settings).system_segmenter,
        final(settings).mic_segmenter == old(settings).mic_segmenter,
        final(settings).diagnostics == old(settings).diagnostics,
{
    let secret_status = get_secret_status(env);
    settings.qwen_tts.game_tts_api_key_configured = secret_status.game_tts_api_key_configured;
    settings.qwen_tts.dashscope_api_key_configured = secret_status.dashscope_api_key_configured;
    settings.qwen_tts.has_api_key = secret_status.game_tts_api_key_configured
        || secret_status.dashscope_api_key_configured;
}

/// Why settings are refused, in the order the checks run.
pub open spec fn settings_problem(s: &AppSettings) -> Option<Seq<char>> {
    if is_blank_seq(s.local_asr.ws_url@) {
        Some("本地 ASR 地址不能为空。"@)
    } else if is_blank_seq(s.local_asr.model_dir@) {
        Some("本地 ASR 模型目录未配置。"@)
    } else if s.local_asr.sample_rate == 0 {
        Some("采样率必须大于 0。"@)
    } else if s.local_translation.timeout_ms == 0 {
        Some("翻译超时时间必须大于 0。"@)
    } else if s.system_segmenter.hard_max_chars < s.system_segmenter.preferred_max_chars {
        Some("系统字幕硬上限不能小于推荐字符数。"@)
    } else if s.mic_segmenter.hard_max_chars < s.mic_segmenter.preferred_max_chars {
        Some("麦克风分段硬上限不能小于推荐字符数。"@)
    } else {
        None
    }
}

/// Accepts the settings, or returns the message of the first check that
/// fails.
pub fn validate_settings(settings: &AppSettings) -> (r: Result<(), String>)
    ensures
        match settings_problem(settings) {
            Some(m) => r is Err && r->Err_0@ == m,
            None => r is Ok,
        },
{
    if is_blank(settings.local_asr.ws_url.as_str()) {
        return Err(owned("本地 ASR 地址不能为空。"));
    }
    if is_blank(settings.local_asr.model_dir.as_str()) {
        return Err(owned("本地 ASR 模型目录未配置。"));
    }
    if settings.local_asr.sample_rate == 0 {
        return Err(owned("采样率必须大于 0。"));
    }
    if settings.local_translation.timeout_ms == 0 {
        return Err(owned("翻译超时时间必须大于 0。"));
    }
    if settings.system_segmenter.hard_max_chars < settings.system_segmenter.preferred_max_chars {
        return Err(owned("系统字幕硬上限不能小于推荐字符数。"));
    }
    if settings.mic_segmenter.hard_max_chars < settings.mic_segmenter.preferred_max_chars {
        return Err(owned("麦克风分段硬上限不能小于推荐字符数。"));
    }
    Ok(())
}

/// The key that TTS calls use, from the environment only:
/// `GAME_TTS_API_KEY`, then `DASHSCOPE_API_KEY`, each where not empty.
pub open spec fn tts_key_choice(env: &EnvVars) -> Option<Seq<char>> {
    match env.non_empty("GAME_TTS_API_KEY"@) {
        Some(v) => Some(v),
        None => env.non_empty("DASHSCOPE_API_KEY"@),
    }
}

/// The key that TTS calls use.
pub fn tts_api_key(env: &EnvVars) -> (r: Option<String>)
    ensures
        match tts_key_choice(env) {
            Some(k) => r is Some && r->0@ == k,
            None => r is None,
        },
{
    match env.non_empty_var("GAME_TTS_API_KEY") {
        Some(v) => Some(v),
        None => env.non_empty_var("DASHSCOPE_API_KEY"),
    }
}

/// Settings that pass validation hold a non-blank ASR address and model
/// directory, positive rates and timeouts, and hard limits no smaller than
/// the preferred ones, and all such settings pass.
pub proof fn lemma_valid_settings_meaning(s: &AppSettings)
    ensures
        settings_problem(s) is None <==> (!is_blank_seq(s.local_asr.ws_url@) && !is_blank_seq(
            s.local_asr.model_dir@,
        ) && s.local_asr.sample_rate > 0 && s.local_translation.timeout_ms > 0
            && s.system_segmenter.hard_max_chars >= s.system_segmenter.preferred_max_chars
            && s.mic_segmenter.hard_max_chars >= s.mic_segmenter.preferred_max_chars),
{
}

/// TTS keys come from the environment only: `GAME_TTS_API_KEY` when set and
/// not empty, else `DASHSCOPE_API_KEY` when set and not empty, else none.
pub proof fn lemma_tts_key_priority(env: &EnvVars)
    ensures
        env.non_empty("GAME_TTS_API_KEY"@) is Some ==> tts_key_choice(env) == env.non_empty(
            "GAME_TTS_API_KEY"@,
        ),
        env.non_empty("GAME_TTS_API_KEY"@) is None ==> tts_key_choice(env) == env.non_empty(
            "DASHSCOPE_API_KEY"@,
        ),
{
}

/// `after` is `before` with its TTS key flags refreshed from `env`.
pub open spec fn is_refreshed(before: &AppSettings, after: &AppSettings, env: &EnvVars) -> bool {
    &&& after.qwen_tts.game_tts_api_key_configured == secret_status_of(env).0
    &&& after.qwen_tts.dashscope_api_key_configured == secret_status_of(env).1
    &&& after.qwen_tts.has_api_key == (secret_status_of(env).0 || secret_status_of(env).1)
    &&& after.qwen_tts.api_key == before.qwen_tts.api_key
    &&& after.local_asr == before.local_asr
    &&& after.local_translation == before.local_translation
    &&& after.audio_devices == before.audio_devices
    &&& after.language == before.language
    &&& after.system_segmenter == before.system_segmenter
    &&& after.mic_segmenter == before.mic_segmenter
    &&& after.diagnostics == before.diagnostics
}

/// Settings as they are saved: refused with the message of the first check
/// that fails, else with their TTS key flags refreshed.
pub fn prepare_settings_for_save(settings: AppSettings, env: &EnvVars) -> (r: Result<AppSettings, String>)
    ensures
        match settings_problem(&settings) {
            Some(m) => r is Err && r->Err_0@ == m,
            None => r is Ok && is_refreshed(&settings, &r->Ok_0, env),
        },
{
    match validate_settings(&settings) {
        Err(e) => Err(e),
        Ok(()) => {
            let mut settings = settings;
            refresh_secret_status(&mut settings, env);
            Ok(settings)
        },
    }
}

/// The name of the settings file.
pub const SETTINGS_FILE_NAME: &'static str = "app-settings.json";

/// Whether the settings file lives in the parent of the working directory:
/// so it does when that directory is `src-tauri`.
pub fn settings_in_parent_dir(dir_name: Option<&str>) -> (b: bool)
    ensures
        b == match dir_name {
            Some(n) => n@ == "src-tauri"@,
            None => false,
        },
{
    match dir_name {
        Some(n) => str_eq(n, "src-tauri"),
        None => false,
    }
}

/// Refreshing the key flags never changes whether settings pass validation.
pub proof fn lemma_refresh_keeps_validity(before: &AppSettings, after: &AppSettings, env: &EnvVars)
    requires
        is_refreshed(before, after, env),
    ensures
        settings_problem(after) == settings_problem(before),
{
}

/// The key flag that settings carry says exactly whether a TTS call has a
/// key to use.
pub proof fn lemma_key_flag_matches_choice(env: &EnvVars)
    ensures
        (secret_status_of(env).0 || secret_status_of(env).1) == (tts_key_choice(env) is Some),
{
}

} // verus!
