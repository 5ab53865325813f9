//! Starting a capture session: whether the local ASR service allows it, what
//! the start reports, and which audio the session captures.
use vstd::prelude::*;
use crate::asr::{AudioCaptureSource, LocalAsrConnectionStatus};
use crate::session::SessionKind;
use crate::text::owned;

verus! {

pub open spec fn error_or(error: Option<String>, fallback: Seq<char>) -> Seq<char> {
    match error {
        Some(e) => e@,
        None => fallback,
    }
}

/// System subtitles start only with the local ASR service connected; the
/// refusal carries the service's error.
pub fn system_subtitle_precheck(status: &LocalAsrConnectionStatus) -> (r: Result<(), String>)
    ensures
        status.connected ==> r is Ok,
        !status.connected ==> r is Err && r->Err_0@ == error_or(
            status.error,
            "本地 ASR 服务未就绪，请等待服务启动完成。"@,
        ),
{
    if status.connected {
        Ok(())
    } else {
        match &status.error {
            Some(e) => Err(e.clone()),
            None => Err(owned("本地 ASR 服务未就绪，请等待服务启动完成。")),
        }
    }
}

/// What a session reports when it starts: an empty message with the service
/// connected, else the service's error (or a fallback for the session kind),
/// and whether the service is connected.
pub fn session_start_notice(session_kind: SessionKind, status: &LocalAsrConnectionStatus) -> (r: (
    String,
    bool,
))
    ensures
        r.1 == status.connected,
        status.connected ==> r.0@.len() == 0,
        !status.connected && session_kind == SessionKind::SystemSubtitle ==> r.0@ == error_or(
            status.error,
            "本地 ASR 服务未启动，请先运行 scripts/start_local_asr.ps1。"@,
        ),
        !status.connected && session_kind == SessionKind::MicInterpretation ==> r.0@ == error_or(
            status.error,
            "Local ASR unavailable"@,
        ),
{
    if status.connected {
        return (String::new(), true);
    }
    let message = match &status.error {
        Some(e) => e.clone(),
        None => match session_kind {
            SessionKind::SystemSubtitle => owned(
                "本地 ASR 服务未启动，请先运行 scripts/start_local_asr.ps1。",
            ),
            SessionKind::MicInterpretation => owned("Local ASR unavailable"),
        },
    };
    (message, false)
}

/// The audio a session captures: the system output for subtitles, the
/// microphone for interpretation.
pub fn capture_source(session_kind: SessionKind) -> (r: AudioCaptureSource)
    ensures
        session_kind == SessionKind::SystemSubtitle ==> r == AudioCaptureSource::SystemLoopback,
        session_kind == SessionKind::MicInterpretation ==> r == AudioCaptureSource::Microphone,
{
    match session_kind {
        SessionKind::SystemSubtitle => AudioCaptureSource::SystemLoopback,
        SessionKind::MicInterpretation => AudioCaptureSource::Microphone,
    }
}

} // verus!
