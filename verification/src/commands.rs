//! What the settings page's commands answer where no service is asked: the
//! TTS voices offered, the TTS connection test, and the ASR connection test.
use vstd::prelude::*;
use crate::services::LocalServicesStatus;
use crate::settings::{ConnectionTestResult, QwenTtsSettings};
use crate::text::{is_blank, is_blank_seq, owned};

verus! {

/// A TTS voice the settings page offers.
#[derive(Debug)]
pub struct TtsVoiceOption {
    pub value: String,
    pub label_zh: String,
    pub language_hint: String,
}

pub open spec fn voice_is(
    o: TtsVoiceOption,
    value: Seq<char>,
    label_zh: Seq<char>,
    language_hint: Seq<char>,
) -> bool {
    o.value@ == value && o.label_zh@ == label_zh && o.language_hint@ == language_hint
}

fn voice(value: &str, label_zh: &str, language_hint: &str) -> (r: TtsVoiceOption)
    ensures
        voice_is(r, value@, label_zh@, language_hint@),
{
    TtsVoiceOption {
        value: owned(value),
        label_zh: owned(label_zh),
        language_hint: owned(language_hint),
    }
}

/// The voices offered for Qwen TTS, in the order shown.
pub fn list_tts_voices() -> (r: Vec<TtsVoiceOption>)
    ensures
        r@.len() == 4,
        voice_is(r@[0], "Cherry"@, "Cherry - 女声，中文自然"@, "zh"@),
        voice_is(r@[1], "Serena"@, "Serena - 女声，中英双语"@, "zh/en"@),
        voice_is(r@[2], "Ethan"@, "Ethan - 男声，中英双语"@, "zh/en"@),
        voice_is(r@[3], "Chelsie"@, "Chelsie - 女声，英文"@, "en"@),
{
    let mut r: Vec<TtsVoiceOption> = Vec::new();
    r.push(voice("Cherry", "Cherry - 女声，中文自然", "zh"));
    r.push(voice("Serena", "Serena - 女声，中英双语", "zh/en"));
    r.push(voice("Ethan", "Ethan - 男声，中英双语", "zh/en"));
    r.push(voice("Chelsie", "Chelsie - 女声，英文", "en"));
    r
}

/// The TTS connection test: the endpoint, the model and a key must be set.
pub fn tts_connection_check(settings: &QwenTtsSettings) -> (r: ConnectionTestResult)
    ensures
        r.ok == (!is_blank_seq(settings.endpoint@) && !is_blank_seq(settings.model@)
            && settings.has_api_key),
        r.message@ == (if is_blank_seq(settings.endpoint@) {
            "TTS API 地址未填写。"@
        } else if is_blank_seq(settings.model@) {
            "TTS 模型名称未填写。"@
        } else if !settings.has_api_key {
            "TTS 密钥未配置。"@
        } else {
            "连接成功。"@
        }),
{
    if is_blank(settings.endpoint.as_str()) {
        return ConnectionTestResult { ok: false, message: owned("TTS API 地址未填写。") };
    }
    if is_blank(settings.model.as_str()) {
        return ConnectionTestResult { ok: false, message: owned("TTS 模型名称未填写。") };
    }
    if !settings.has_api_key {
        return ConnectionTestResult { ok: false, message: owned("TTS 密钥未配置。") };
    }
    ConnectionTestResult { ok: true, message: owned("连接成功。") }
}

/// The ASR connection test reports the ASR half of a probe of both services,
/// with the probe's message.
pub fn asr_connection_test(status: LocalServicesStatus) -> (r: ConnectionTestResult)
    ensures
        r.ok == status.asr_ok,
        r.message@ == status.message@,
{
    ConnectionTestResult { ok: status.asr_ok, message: status.message }
}

} // verus!
