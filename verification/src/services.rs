//! The local ASR and translation services: what a probe of each reports,
//! which start scripts to run, and when waiting for them ends.
use vstd::prelude::*;
use crate::asr::{
    classify_health_reply, mismatch_message, not_ready_message, reply_matches, reply_ok,
    AsrHealthOutcome,
};
use crate::settings::{ConnectionTestResult, LocalAsrSettings, LocalTranslationSettings};
use crate::text::{
    concat, ends_with, ends_with_seq, is_blank, is_blank_seq, owned, push_str, string_of, chars_of,
};
use crate::translation::{dashscope_provider, endpoint_base, is_dashscope_provider};

verus! {

/// How long to wait for started services, in milliseconds.
pub const SERVICE_READY_TIMEOUT_MS: u64 = 120_000;

/// How long to wait between two probes, in milliseconds.
pub const SERVICE_POLL_INTERVAL_MS: u64 = 1_000;

/// The script that starts the local ASR service.
pub const ASR_START_SCRIPT: &'static str = "start_local_asr.ps1";

/// The script that starts the local translation service.
pub const TRANSLATION_START_SCRIPT: &'static str = "start_local_translation.ps1";

/// What a probe of both services found.
#[derive(Debug)]
pub struct LocalServicesStatus {
    pub asr_ok: bool,
    pub translation_ok: bool,
    pub started_asr: bool,
    pub started_translation: bool,
    pub message: String,
}

impl LocalServicesStatus {
    /// Both services answer.
    pub fn ready(&self) -> (b: bool)
        ensures
            b == (self.asr_ok && self.translation_ok),
    {
        self.asr_ok && self.translation_ok
    }
}

fn failed(message: &str) -> (r: ConnectionTestResult)
    ensures
        !r.ok,
        r.message@ == message@,
{
    ConnectionTestResult { ok: false, message: owned(message) }
}

fn succeeded(message: &str) -> (r: ConnectionTestResult)
    ensures
        r.ok,
        r.message@ == message@,
{
    ConnectionTestResult { ok: true, message: owned(message) }
}

/// The ASR probe's answer before connecting: a failure where no model
/// directory is configured, else nothing (connect and ask).
pub fn asr_probe_precheck(settings: &LocalAsrSettings) -> (r: Option<ConnectionTestResult>)
    ensures
        is_blank_seq(settings.model_dir@) ==> r is Some && !r->0.ok && r->0.message@
            == "ASR 模型目录未配置。"@,
        !is_blank_seq(settings.model_dir@) ==> r is None,
{
    if is_blank(settings.model_dir.as_str()) {
        Some(failed("ASR 模型目录未配置。"))
    } else {
        None
    }
}

/// What the ASR probe reports for the outcome of its health check.
pub open spec fn asr_probe_report(provider: Seq<char>, outcome: AsrHealthOutcome) -> (bool, Seq<char>) {
    match outcome {
        AsrHealthOutcome::ConnectFailed(_) => (false, "ASR 服务未启动。"@),
        AsrHealthOutcome::SendFailed => (false, "ASR 服务已连接，但健康检查发送失败。"@),
        AsrHealthOutcome::NoResponse => (false, "ASR 服务健康检查无响应。"@),
        AsrHealthOutcome::InvalidReply => (false, "ASR 服务健康检查返回格式无效。"@),
        AsrHealthOutcome::Reply(v) => if reply_matches(v, provider) {
            (true, "连接成功。"@)
        } else if reply_ok(v) {
            (false, mismatch_message(v, provider))
        } else {
            (false, not_ready_message(v))
        },
    }
}

/// The ASR probe's result for the outcome of its health check.
pub fn asr_probe_result(provider: &str, outcome: AsrHealthOutcome) -> (r: ConnectionTestResult)
    ensures
        (r.ok, r.message@) == asr_probe_report(provider@, outcome),
{
    match outcome {
        AsrHealthOutcome::ConnectFailed(_) => failed("ASR 服务未启动。"),
        AsrHealthOutcome::SendFailed => failed("ASR 服务已连接，但健康检查发送失败。"),
        AsrHealthOutcome::NoResponse => failed("ASR 服务健康检查无响应。"),
        AsrHealthOutcome::InvalidReply => failed("ASR 服务健康检查返回格式无效。"),
        AsrHealthOutcome::Reply(v) => {
            let (ok, message) = classify_health_reply(&v, provider);
            if ok {
                succeeded("连接成功。")
            } else {
                ConnectionTestResult { ok: false, message }
            }
        },
    }
}

/// What a translation check does next: it has its answer, or it asks the
/// health endpoint at this URL.
#[derive(Debug)]
pub enum TranslationCheck {
    Done(ConnectionTestResult),
    CheckHealth(String),
}

/// The health URL of a local translation service.
pub open spec fn health_url(endpoint: Seq<char>) -> Seq<char> {
    endpoint_base(endpoint) + "/health"@
}

fn build_health_url(endpoint: &str) -> (r: String)
    ensures
        r@ == health_url(endpoint@),
{
    let trimmed = crate::text::trim(endpoint);
    let mut base = crate::text::trim_end_char(trimmed.as_str(), '/');
    push_str(&mut base, "/health");
    base
}

pub open spec fn is_done(c: TranslationCheck, ok: bool, message: Seq<char>) -> bool {
    c is Done && c->Done_0.ok == ok && c->Done_0.message@ == message
}

/// The translation probe of the service manager before any request: the
/// DashScope API counts as up once its address is set; a local service
/// needs a model and then an endpoint before its health is asked, so an
/// unconfigured one reports its model as missing.
pub fn translation_probe_precheck(settings: &LocalTranslationSettings) -> (r: TranslationCheck)
    ensures
        dashscope_provider(settings.provider@) ==> if is_blank_seq(settings.endpoint@) {
            is_done(r, false, "百炼 API 地址未配置。"@)
        } else {
            is_done(r, true, "百炼 API 翻译已启用。"@)
        },
        !dashscope_provider(settings.provider@) ==> if is_blank_seq(settings.model_path@)
            && is_blank_seq(settings.model_name@) {
            is_done(r, false, "本地翻译模型未配置。"@)
        } else if is_blank_seq(settings.endpoint@) {
            is_done(r, false, "翻译 endpoint 未配置。"@)
        } else {
            r is CheckHealth && r->CheckHealth_0@ == health_url(settings.endpoint@)
        },
{
    if is_dashscope_provider(settings.provider.as_str()) {
        if is_blank(settings.endpoint.as_str()) {
            return TranslationCheck::Done(failed("百炼 API 地址未配置。"));
        }
        return TranslationCheck::Done(succeeded("百炼 API 翻译已启用。"));
    }
    if is_blank(settings.model_path.as_str()) && is_blank(settings.model_name.as_str()) {
        return TranslationCheck::Done(failed("本地翻译模型未配置。"));
    }
    if is_blank(settings.endpoint.as_str()) {
        return TranslationCheck::Done(failed("翻译 endpoint 未配置。"));
    }
    TranslationCheck::CheckHealth(build_health_url(settings.endpoint.as_str()))
}

/// The connection test of the settings page before any request: DashScope
/// needs its address, key and model filled in; a local service needs a model
/// and then an endpoint before its health is asked, so an unconfigured one
/// reports its model as missing.
pub fn translation_connection_precheck(settings: &LocalTranslationSettings) -> (r: TranslationCheck)
    ensures
        dashscope_provider(settings.provider@) ==> if is_blank_seq(settings.endpoint@) {
            is_done(r, false, "百炼 API 地址未配置。"@)
        } else if is_blank_seq(settings.api_key@) {
            is_done(r, false, "百炼 API 地址已配置，请填写 API Key 后再测试。"@)
        } else if is_blank_seq(settings.model_name@) {
            is_done(r, false, "百炼 API 地址已配置，请填写模型名称后再测试。"@)
        } else {
            is_done(r, true, "百炼 API 配置项已填写，实时翻译将直接调用 API。"@)
        },
        !dashscope_provider(settings.provider@) ==> if is_blank_seq(settings.model_path@)
            && is_blank_seq(settings.model_name@) {
            is_done(r, false, "本地翻译模型未配置或未安装。"@)
        } else if is_blank_seq(settings.endpoint@) {
            is_done(r, false, "endpoint 未配置。"@)
        } else {
            r is CheckHealth && r->CheckHealth_0@ == health_url(settings.endpoint@)
        },
{
    if is_dashscope_provider(settings.provider.as_str()) {
        if is_blank(settings.endpoint.as_str()) {
            return TranslationCheck::Done(failed("百炼 API 地址未配置。"));
        }
        if is_blank(settings.api_key.as_str()) {
            return TranslationCheck::Done(failed("百炼 API 地址已配置，请填写 API Key 后再测试。"));
        }
        if is_blank(settings.model_name.as_str()) {
            return TranslationCheck::Done(failed("百炼 API 地址已配置，请填写模型名称后再测试。"));
        }
        return TranslationCheck::Done(succeeded("百炼 API 配置项已填写，实时翻译将直接调用 API。"));
    }
    if is_blank(settings.model_path.as_str()) && is_blank(settings.model_name.as_str()) {
        return TranslationCheck::Done(failed("本地翻译模型未配置或未安装。"));
    }
    if is_blank(settings.endpoint.as_str()) {
        return TranslationCheck::Done(failed("endpoint 未配置。"));
    }
    TranslationCheck::CheckHealth(build_health_url(settings.endpoint.as_str()))
}

/// The result of asking a local translation service's health: whether it
/// answered with a success status.
pub fn translation_health_result(healthy: bool) -> (r: ConnectionTestResult)
    ensures
        r.ok == healthy,
        r.message@ == (if healthy { "连接成功。"@ } else { "本地翻译服务未启动。"@ }),
{
    if healthy {
        succeeded("连接成功。")
    } else {
        failed("本地翻译服务未启动。")
    }
}

/// The status of a probe of both services.
pub fn combine_probes(asr: ConnectionTestResult, translation: ConnectionTestResult) -> (r:
    LocalServicesStatus)
    ensures
        r.asr_ok == asr.ok,
        r.translation_ok == translation.ok,
        !r.started_asr,
        !r.started_translation,
        r.message@ == (if asr.ok && translation.ok {
            "本地服务已就绪。"@
        } else {
            "ASR："@ + asr.message@ + "；翻译："@ + translation.message@
        }),
{
    let message = if asr.ok && translation.ok {
        owned("本地服务已就绪。")
    } else {
        let mut m = concat("ASR：", asr.message.as_str());
        push_str(&mut m, "；翻译：");
        push_str(&mut m, translation.message.as_str());
        m
    };
    LocalServicesStatus {
        asr_ok: asr.ok,
        translation_ok: translation.ok,
        started_asr: false,
        started_translation: false,
        message,
    }
}

/// The start scripts to run after a first probe: one for each service that
/// did not answer, ASR first.
pub fn scripts_to_start(status: &LocalServicesStatus) -> (r: Vec<&'static str>)
    ensures
        r@.len() == (if status.asr_ok { 0int } else { 1int }) + (if status.translation_ok {
            0int
        } else {
            1int
        }),
        !status.asr_ok ==> r@[0]@ == ASR_START_SCRIPT@,
        !status.translation_ok ==> r@[r@.len() - 1]@ == TRANSLATION_START_SCRIPT@,
{
    let mut r: Vec<&'static str> = Vec::new();
    if !status.asr_ok {
        r.push(ASR_START_SCRIPT);
    }
    if !status.translation_ok {
        r.push(TRANSLATION_START_SCRIPT);
    }
    r
}

/// The time until which started services are awaited, or nothing where the
/// clock is too close to its end to add the timeout.
pub fn ready_deadline(start_ms: u64) -> (r: Option<u64>)
    ensures
        start_ms + SERVICE_READY_TIMEOUT_MS <= u64::MAX ==> r == Some(
            (start_ms + SERVICE_READY_TIMEOUT_MS) as u64,
        ),
        start_ms + SERVICE_READY_TIMEOUT_MS > u64::MAX ==> r is None,
{
    start_ms.checked_add(SERVICE_READY_TIMEOUT_MS)
}

/// Whether to probe again after a probe at `now_ms`: the services are not
/// both up and the deadline has not come.
pub fn keep_waiting(status: &LocalServicesStatus, now_ms: u64, deadline_ms: u64) -> (b: bool)
    ensures
        b == (!(status.asr_ok && status.translation_ok) && now_ms < deadline_ms),
{
    !status.ready() && now_ms < deadline_ms
}

pub open spec fn connected_word(ok: bool) -> Seq<char> {
    if ok {
        "已连接"@
    } else {
        "未连接"@
    }
}

/// The final status of an attempt to make the services ready: the last
/// probe, what was started, and a summary.
pub fn finish_ensure(status: LocalServicesStatus, started_asr: bool, started_translation: bool) -> (r:
    LocalServicesStatus)
    ensures
        r.asr_ok == status.asr_ok,
        r.translation_ok == status.translation_ok,
        r.started_asr == started_asr,
        r.started_translation == started_translation,
        r.message@ == (if status.asr_ok && status.translation_ok {
            "本地 ASR 与翻译服务已就绪。"@
        } else {
            "本地服务尚未就绪：ASR="@ + connected_word(status.asr_ok) + "，翻译="@
                + connected_word(status.translation_ok)
        }),
{
    let message = if status.ready() {
        owned("本地 ASR 与翻译服务已就绪。")
    } else {
        let mut m = owned("本地服务尚未就绪：ASR=");
        push_str(&mut m, if status.asr_ok { "已连接" } else { "未连接" });
        push_str(&mut m, "，翻译=");
        push_str(&mut m, if status.translation_ok { "已连接" } else { "未连接" });
        m
    };
    LocalServicesStatus {
        asr_ok: status.asr_ok,
        translation_ok: status.translation_ok,
        started_asr,
        started_translation,
        message,
    }
}

/// `s` with every trailing copy of `suffix` removed.
pub open spec fn strip_suffixes(s: Seq<char>, suffix: Seq<char>) -> Seq<char>
    decreases s.len(),
{
    if suffix.len() > 0 && ends_with_seq(s, suffix) {
        strip_suffixes(s.subrange(0, s.len() - suffix.len()), suffix)
    } else {
        s
    }
}

/// The log file of a start script: its name without `.ps1`, with `.log`.
pub fn service_log_file_name(script_name: &str) -> (r: String)
    ensures
        r@ == strip_suffixes(script_name@, ".ps1"@) + ".log"@,
{
    proof {
        reveal_strlit(".ps1");
    }
    let v = chars_of(script_name);
    let mut end: usize = v.len();
    let mut current = string_of(&v, 0, end);
    assert(v@.subrange(0, end as int) =~= script_name@);
    while ends_with(current.as_str(), ".ps1")
        invariant
            end <= v@.len(),
            current@ == v@.subrange(0, end as int),
            v@ == script_name@,
            strip_suffixes(current@, ".ps1"@) == strip_suffixes(script_name@, ".ps1"@),
        decreases end,
    {
        proof {
            reveal_strlit(".ps1");
            assert(".ps1"@.len() == 4);
        }
        end = end - 4;
        current = string_of(&v, 0, end);
        assert(v@.subrange(0, end as int) =~= v@.subrange(0, end + 4).subrange(0, end as int));
    }
    push_str(&mut current, ".log");
    current
}

/// The PowerShell program that runs the start scripts.
pub fn powershell_program(windows: bool) -> (r: &'static str)
    ensures
        r@ == (if windows { "powershell.exe"@ } else { "pwsh"@ }),
{
    if windows {
        "powershell.exe"
    } else {
        "pwsh"
    }
}

} // verus!
