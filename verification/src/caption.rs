//! The latest raw and translated caption of each session, as shown by the
//! caption overlay.
use vstd::prelude::*;
use crate::session::SessionKind;

verus! {

#[verifier::external_type_specification]
#[verifier::external_body]
pub struct ExSystemTime(std::time::SystemTime);

/// Calls `std::time::SystemTime::now`. It reads the clock; nothing is
/// claimed of the time it gives.
#[verifier::external_body]
fn system_time_now() -> (t: std::time::SystemTime) {
    std::time::SystemTime::now()
}

/// Calls `SystemTime::duration_since` with `UNIX_EPOCH`: the time since the
/// epoch, or `None` where `t` is earlier (the call's error). Nothing is
/// claimed of the duration.
#[verifier::external_body]
fn since_unix_epoch(t: &std::time::SystemTime) -> (d: Option<core::time::Duration>) {
    match t.duration_since(std::time::UNIX_EPOCH) {
        Ok(d) => Some(d),
        Err(_) => None,
    }
}

/// Calls `Duration::as_millis`. Nothing is claimed of the count.
#[verifier::external_body]
fn duration_millis(d: &core::time::Duration) -> (ms: u128) {
    d.as_millis()
}

/// Milliseconds since the Unix epoch by the system clock, or 0 where the
/// clock reads before the epoch.
pub fn now_ms() -> (t: u128) {
    let now = system_time_now();
    match since_unix_epoch(&now) {
        Some(d) => duration_millis(&d),
        None => 0,
    }
}

/// The latest caption text of both sessions.
#[derive(Debug)]
pub struct RealtimeCaptionSnapshot {
    pub system_session_id: String,
    pub system_utterance_id: String,
    pub system_raw_transcript: String,
    pub system_translated_text: String,
    pub mic_session_id: String,
    pub mic_utterance_id: String,
    pub mic_raw_transcript: String,
    pub mic_translated_text: String,
    pub updated_at: u128,
}

/// The snapshot's fields as sequences of characters.
pub struct CaptionView {
    pub system_session_id: Seq<char>,
    pub system_utterance_id: Seq<char>,
    pub system_raw_transcript: Seq<char>,
    pub system_translated_text: Seq<char>,
    pub mic_session_id: Seq<char>,
    pub mic_utterance_id: Seq<char>,
    pub mic_raw_transcript: Seq<char>,
    pub mic_translated_text: Seq<char>,
    pub updated_at: nat,
}

impl View for RealtimeCaptionSnapshot {
    type V = CaptionView;

    open spec fn view(&self) -> CaptionView {
        CaptionView {
            system_session_id: self.system_session_id@,
            system_utterance_id: self.system_utterance_id@,
            system_raw_transcript: self.system_raw_transcript@,
            system_translated_text: self.system_translated_text@,
            mic_session_id: self.mic_session_id@,
            mic_utterance_id: self.mic_utterance_id@,
            mic_raw_transcript: self.mic_raw_transcript@,
            mic_translated_text: self.mic_translated_text@,
            updated_at: self.updated_at as nat,
        }
    }
}

/// The snapshot after a raw transcript of `kind` arrived at time `t`: the
/// session's ids and raw text are replaced; a microphone transcript of a new
/// utterance also clears the microphone translation, which belongs to the
/// previous utterance.
pub open spec fn after_raw_transcript(
    s: CaptionView,
    kind: SessionKind,
    session_id: Seq<char>,
    utterance_id: Seq<char>,
    text: Seq<char>,
    t: nat,
) -> CaptionView {
    match kind {
        SessionKind::SystemSubtitle => CaptionView {
            system_session_id: session_id,
            system_utterance_id: utterance_id,
            system_raw_transcript: text,
            updated_at: t,
            ..s
        },
        SessionKind::MicInterpretation => CaptionView {
            mic_session_id: session_id,
            mic_utterance_id: utterance_id,
            mic_raw_transcript: text,
            mic_translated_text: if s.mic_utterance_id != utterance_id {
                Seq::empty()
            } else {
                s.mic_translated_text
            },
            updated_at: t,
            ..s
        },
    }
}

/// The snapshot after a translation of `kind` arrived at time `t`: the
/// session's ids and translated text are replaced.
pub open spec fn after_translated_text(
    s: CaptionView,
    kind: SessionKind,
    session_id: Seq<char>,
    utterance_id: Seq<char>,
    text: Seq<char>,
    t: nat,
) -> CaptionView {
    match kind {
        SessionKind::SystemSubtitle => CaptionView {
            system_session_id: session_id,
            system_utterance_id: utterance_id,
            system_translated_text: text,
            updated_at: t,
            ..s
        },
        SessionKind::MicInterpretation => CaptionView {
            mic_session_id: session_id,
            mic_utterance_id: utterance_id,
            mic_translated_text: text,
            updated_at: t,
            ..s
        },
    }
}

/// The fields that belong to the system subtitle session.
pub open spec fn system_part(s: CaptionView) -> (Seq<char>, Seq<char>, Seq<char>, Seq<char>) {
    (s.system_session_id, s.system_utterance_id, s.system_raw_transcript, s.system_translated_text)
}

/// The fields that belong to the microphone interpretation session.
pub open spec fn mic_part(s: CaptionView) -> (Seq<char>, Seq<char>, Seq<char>, Seq<char>) {
    (s.mic_session_id, s.mic_utterance_id, s.mic_raw_transcript, s.mic_translated_text)
}

impl RealtimeCaptionSnapshot {
    /// The snapshot with every text empty and time 0.
    pub fn empty() -> (r: RealtimeCaptionSnapshot)
        ensures
            r@.system_session_id.len() == 0,
            r@.system_utterance_id.len() == 0,
            r@.system_raw_transcript.len() == 0,
            r@.system_translated_text.len() == 0,
            r@.mic_session_id.len() == 0,
            r@.mic_utterance_id.len() == 0,
            r@.mic_raw_transcript.len() == 0,
            r@.mic_translated_text.len() == 0,
            r@.updated_at == 0,
    {
        RealtimeCaptionSnapshot {
            system_session_id: String::new(),
            system_utterance_id: String::new(),
            system_raw_transcript: String::new(),
            system_translated_text: String::new(),
            mic_session_id: String::new(),
            mic_utterance_id: String::new(),
            mic_raw_transcript: String::new(),
            mic_translated_text: String::new(),
            updated_at: 0,
        }
    }
}

impl Default for RealtimeCaptionSnapshot {
    fn default() -> (r: RealtimeCaptionSnapshot)
        ensures
            r@.system_raw_transcript.len() == 0,
            r@.mic_raw_transcript.len() == 0,
            r@.system_translated_text.len() == 0,
            r@.mic_translated_text.len() == 0,
            r@.updated_at == 0,
    {
        RealtimeCaptionSnapshot::empty()
    }
}

/// A copy of the current snapshot.
pub fn get_realtime_caption_snapshot(state: &RealtimeCaptionSnapshot) -> (r:
    RealtimeCaptionSnapshot)
    ensures
        r@ == state@,
{
    RealtimeCaptionSnapshot {
        system_session_id: state.system_session_id.clone(),
        system_utterance_id: state.system_utterance_id.clone(),
        system_raw_transcript: state.system_raw_transcript.clone(),
        system_translated_text: state.system_translated_text.clone(),
        mic_session_id: state.mic_session_id.clone(),
        mic_utterance_id: state.mic_utterance_id.clone(),
        mic_raw_transcript: state.mic_raw_transcript.clone(),
        mic_translated_text: state.mic_translated_text.clone(),
        updated_at: state.updated_at,
    }
}

/// Records a raw transcript of `session_kind`, stamped with the clock.
pub fn update_raw_transcript(
    state: &mut RealtimeCaptionSnapshot,
    session_kind: SessionKind,
    session_id: &str,
    utterance_id: &str,
    text: &str,
)
    ensures
        final(state)@ == after_raw_transcript(
            old(state)@,
            session_kind,
            session_id@,
            utterance_id@,
            text@,
            final(state)@.updated_at,
        ),
{
    match session_kind {
        SessionKind::SystemSubtitle => {
            state.system_session_id = crate::text::owned(session_id);
            state.system_utterance_id = crate::text::owned(utterance_id);
            state.system_raw_transcript = crate::text::owned(text);
        },
        SessionKind::MicInterpretation => {
            if !crate::text::str_eq(state.mic_utterance_id.as_str(), utterance_id) {
                state.mic_translated_text = String::new();
            }
            state.mic_session_id = crate::text::owned(session_id);
            state.mic_utterance_id = crate::text::owned(utterance_id);
            state.mic_raw_transcript = crate::text::owned(text);
        },
    }
    state.updated_at = now_ms();
}

/// Records a translation of `session_kind`, stamped with the clock.
pub fn update_translated_text(
    state: &mut RealtimeCaptionSnapshot,
    session_kind: SessionKind,
    session_id: &str,
    utterance_id: &str,
    text: &str,
)
    ensures
        final(state)@ == after_translated_text(
            old(state)@,
            session_kind,
            session_id@,
            utterance_id@,
            text@,
            final(state)@.updated_at,
        ),
{
    match session_kind {
        SessionKind::SystemSubtitle => {
            state.system_session_id = crate::text::owned(session_id);
            state.system_utterance_id = crate::text::owned(utterance_id);
            state.system_translated_text = crate::text::owned(text);
        },
        SessionKind::MicInterpretation => {
            state.mic_session_id = crate::text::owned(session_id);
            state.mic_utterance_id = crate::text::owned(utterance_id);
            state.mic_translated_text = crate::text::owned(text);
        },
    }
    state.updated_at = now_ms();
}

/// An update of one session's captions leaves the other session's caption
/// fields exactly as they were.
pub proof fn lemma_caption_sessions_isolated(
    s: CaptionView,
    session_id: Seq<char>,
    utterance_id: Seq<char>,
    text: Seq<char>,
    t: nat,
)
    ensures
        mic_part(
            after_raw_transcript(s, SessionKind::SystemSubtitle, session_id, utterance_id, text, t),
        ) == mic_part(s),
        mic_part(
            after_translated_text(
                s,
                SessionKind::SystemSubtitle,
                session_id,
                utterance_id,
                text,
                t,
            ),
        ) == mic_part(s),
        system_part(
            after_raw_transcript(
                s,
                SessionKind::MicInterpretation,
                session_id,
                utterance_id,
                text,
                t,
            ),
        ) == system_part(s),
        system_part(
            after_translated_text(
                s,
                SessionKind::MicInterpretation,
                session_id,
                utterance_id,
                text,
                t,
            ),
        ) == system_part(s),
{
}

/// A translation fills the translated text and never overwrites the raw
/// transcript of either session.
pub proof fn lemma_translation_keeps_raw(
    s: CaptionView,
    kind: SessionKind,
    session_id: Seq<char>,
    utterance_id: Seq<char>,
    text: Seq<char>,
    t: nat,
)
    ensures
        after_translated_text(s, kind, session_id, utterance_id, text, t).system_raw_transcript
            == s.system_raw_transcript,
        after_translated_text(s, kind, session_id, utterance_id, text, t).mic_raw_transcript
            == s.mic_raw_transcript,
{
}

/// What was written is what the snapshot then shows: the raw transcript after
/// a raw update, the translation after a translation update.
pub proof fn lemma_caption_read_after_write(
    s: CaptionView,
    kind: SessionKind,
    session_id: Seq<char>,
    utterance_id: Seq<char>,
    text: Seq<char>,
    t: nat,
)
    ensures
        kind == SessionKind::SystemSubtitle ==> after_raw_transcript(
            s,
            kind,
            session_id,
            utterance_id,
            text,
            t,
        ).system_raw_transcript == text && after_translated_text(
            s,
            kind,
            session_id,
            utterance_id,
            text,
            t,
        ).system_translated_text == text,
        kind == SessionKind::MicInterpretation ==> after_raw_transcript(
            s,
            kind,
            session_id,
            utterance_id,
            text,
            t,
        ).mic_raw_transcript == text && after_translated_text(
            s,
            kind,
            session_id,
            utterance_id,
            text,
            t,
        ).mic_translated_text == text,
{
}

/// A microphone transcript of a new utterance clears the previous
/// utterance's translation; one of the same utterance keeps it, so a
/// translation recorded for an utterance survives later partial transcripts
/// of that utterance.
pub proof fn lemma_mic_translation_follows_utterance(
    s: CaptionView,
    session_id: Seq<char>,
    utterance_id: Seq<char>,
    text: Seq<char>,
    translation: Seq<char>,
    t1: nat,
    t2: nat,
)
    ensures
        s.mic_utterance_id != utterance_id ==> after_raw_transcript(
            s,
            SessionKind::MicInterpretation,
            session_id,
            utterance_id,
            text,
            t1,
        ).mic_translated_text.len() == 0,
        after_raw_transcript(
            after_translated_text(
                s,
                SessionKind::MicInterpretation,
                session_id,
                utterance_id,
                translation,
                t1,
            ),
            SessionKind::MicInterpretation,
            session_id,
            utterance_id,
            text,
            t2,
        ).mic_translated_text == translation,
{
}

} // verus!
