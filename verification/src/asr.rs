//! Local ASR: what its messages say, how partial and final transcripts
//! accumulate into a caption segment, when a segment is finished and handed
//! to translation, and the decisions around that translation.
use vstd::prelude::*;
use std::collections::VecDeque;
use crate::json::{JsonValue, pointer_path, text_of, bool_of, str_views, deref_opt};
use crate::session::{SessionKind, new_uuid_v4, is_uuid_v4_text};
use crate::settings::AppSettings;
use crate::text::{
    ascii_lower_seq, chars_of, ends_with, ends_with_seq, is_alpha, is_ascii_alpha,
    is_blank, is_blank_seq, is_whitespace, is_ws, owned, push_str, starts_with, starts_with_seq,
    str_eq, string_of, to_ascii_lowercase, trim, trim_end_seq, trim_seq,
};

verus! {

/// Where captured audio comes from.
#[derive(Debug, Clone, Copy, PartialEq, Eq, Structural)]
pub enum AudioCaptureSource {
    Microphone,
    SystemLoopback,
}

/// The language code that a configured language name stands for: `zh` and
/// `en` for their usual spellings (in any ASCII letter case), otherwise the
/// name itself, trimmed.
pub open spec fn normalized_lang(lang: Seq<char>) -> Seq<char> {
    let l = ascii_lower_seq(trim_seq(lang));
    if l == "zh"@ || l == "zh-cn"@ || l == "zh_hans"@ || l == "chinese"@ {
        "zh"@
    } else if l == "en"@ || l == "en-us"@ || l == "english"@ {
        "en"@
    } else {
        trim_seq(lang)
    }
}

pub fn normalize_lang(lang: &str) -> (r: String)
    ensures
        r@ == normalized_lang(lang@),
{
    let trimmed = trim(lang);
    let lower = to_ascii_lowercase(trimmed.as_str());
    let l = lower.as_str();
    if str_eq(l, "zh") || str_eq(l, "zh-cn") || str_eq(l, "zh_hans") || str_eq(l, "chinese") {
        owned("zh")
    } else if str_eq(l, "en") || str_eq(l, "en-us") || str_eq(l, "english") {
        owned("en")
    } else {
        trimmed
    }
}

/// A CJK unified ideograph of the basic block, U+4E00 to U+9FFF.
pub open spec fn is_cjk(c: char) -> bool {
    0x4e00 <= (c as u32) <= 0x9fff
}

pub open spec fn count_cjk(s: Seq<char>) -> nat
    decreases s.len(),
{
    if s.len() == 0 {
        0
    } else {
        count_cjk(s.drop_last()) + if is_cjk(s.last()) {
            1nat
        } else {
            0nat
        }
    }
}

pub open spec fn count_latin(s: Seq<char>) -> nat
    decreases s.len(),
{
    if s.len() == 0 {
        0
    } else {
        count_latin(s.drop_last()) + if is_ascii_alpha(s.last()) {
            1nat
        } else {
            0nat
        }
    }
}

pub open spec fn count_non_ws(s: Seq<char>) -> nat
    decreases s.len(),
{
    if s.len() == 0 {
        0
    } else {
        count_non_ws(s.drop_last()) + if !is_ws(s.last()) {
            1nat
        } else {
            0nat
        }
    }
}

/// The language a text is mostly written in: `zh` where it holds at least as
/// many CJK ideographs as ASCII letters, `en` where it holds more letters,
/// nothing where it holds neither.
pub open spec fn detected_lang_spec(text: Seq<char>) -> Option<Seq<char>> {
    let zh = count_cjk(text);
    let en = count_latin(text);
    if zh == 0 && en == 0 {
        None
    } else if zh >= en {
        Some("zh"@)
    } else {
        Some("en"@)
    }
}

pub fn detected_lang(text: &str) -> (r: Option<&'static str>)
    ensures
        match detected_lang_spec(text@) {
            Some(l) => r is Some && r->0@ == l,
            None => r is None,
        },
{
    let v = chars_of(text);
    let mut chinese: usize = 0;
    let mut latin: usize = 0;
    let mut i: usize = 0;
    while i < v.len()
        invariant
            i <= v.len(),
            chinese as nat == count_cjk(v@.subrange(0, i as int)),
            latin as nat == count_latin(v@.subrange(0, i as int)),
            chinese <= i,
            latin <= i,
        decreases v.len() - i,
    {
        let c = v[i];
        let u = c as u32;
        proof {
            assert(v@.subrange(0, i + 1).drop_last() =~= v@.subrange(0, i as int));
        }
        if 0x4e00 <= u && u <= 0x9fff {
            chinese += 1;
        } else if is_alpha(c) {
            latin += 1;
        }
        i += 1;
    }
    assert(v@.subrange(0, v@.len() as int) =~= v@);
    if chinese == 0 && latin == 0 {
        None
    } else if chinese >= latin {
        Some("zh")
    } else {
        Some("en")
    }
}

/// The number of characters that are not whitespace.
pub fn non_ws_count(text: &str) -> (n: usize)
    ensures
        n as nat == count_non_ws(text@),
{
    let v = chars_of(text);
    let mut n: usize = 0;
    let mut i: usize = 0;
    while i < v.len()
        invariant
            i <= v.len(),
            n as nat == count_non_ws(v@.subrange(0, i as int)),
            n <= i,
        decreases v.len() - i,
    {
        proof {
            assert(v@.subrange(0, i + 1).drop_last() =~= v@.subrange(0, i as int));
        }
        if !is_whitespace(v[i]) {
            n += 1;
        }
        i += 1;
    }
    assert(v@.subrange(0, v@.len() as int) =~= v@);
    n
}

/// The readable length of a caption: its characters other than whitespace,
/// whatever the language (as a `u32`).
pub fn readable_len(text: &str, lang: &str) -> (n: u32)
    ensures
        n == count_non_ws(text@) as u32,
{
    let _ = lang;
    non_ws_count(text) as u32
}

/// How many readable characters make a caption segment long enough to end
/// at a sentence boundary.
pub open spec fn readable_limit(lang: Seq<char>) -> u32 {
    if normalized_lang(lang) == "zh"@ {
        16
    } else if normalized_lang(lang) == "en"@ {
        60
    } else {
        40
    }
}

pub fn readable_limit_for_lang(lang: &str) -> (n: u32)
    ensures
        n == readable_limit(lang@),
{
    let l = normalize_lang(lang);
    if str_eq(l.as_str(), "zh") {
        16
    } else if str_eq(l.as_str(), "en") {
        60
    } else {
        40
    }
}

/// Sentence and clause punctuation, ASCII and full width.
pub open spec fn is_boundary_char(c: char) -> bool {
    c == '.' || c == '?' || c == '!' || c == ',' || c == ';' || c == ':' || c == '。' || c == '？'
        || c == '！' || c == '，' || c == '；' || c == '：'
}

/// Whether a text, ignoring trailing whitespace, ends with punctuation.
pub open spec fn semantic_boundary(text: Seq<char>) -> bool {
    let t = trim_end_seq(text);
    t.len() > 0 && is_boundary_char(t.last())
}

pub fn has_semantic_boundary(text: &str) -> (b: bool)
    ensures
        b == semantic_boundary(text@),
{
    let v = chars_of(text);
    let mut hi: usize = v.len();
    while hi > 0 && is_whitespace(v[hi - 1])
        invariant
            hi <= v.len(),
            forall|i: int| hi <= i < v.len() ==> is_ws(#[trigger] v@[i]),
        decreases hi,
    {
        hi -= 1;
    }
    proof {
        crate::text::lemma_trim_end_take(v@, hi as int);
    }
    if hi == 0 {
        return false;
    }
    let c = v[hi - 1];
    c == '.' || c == '?' || c == '!' || c == ',' || c == ';' || c == ':' || c == '。' || c == '？'
        || c == '！' || c == '，' || c == '；' || c == '：'
}

/// A caption after merging `next` into it: a blank `next`, or one that the
/// caption already is or already ends with, changes nothing; one that
/// extends the caption replaces it; anything else is appended after a space.
pub open spec fn merged(target: Seq<char>, next: Seq<char>) -> Seq<char> {
    let n = trim_seq(next);
    if n.len() == 0 || target == n || ends_with_seq(target, n) {
        target
    } else if starts_with_seq(n, target) {
        n
    } else if target.len() == 0 {
        n
    } else {
        target + seq![' '] + n
    }
}

pub fn merge_transcript(target: &mut String, next: &str)
    ensures
        final(target)@ == merged(old(target)@, next@),
{
    let n = trim(next);
    if n.as_str().is_empty() || str_eq(target.as_str(), n.as_str()) || ends_with(
        target.as_str(),
        n.as_str(),
    ) {
        return ;
    }
    if starts_with(n.as_str(), target.as_str()) {
        *target = n;
        return ;
    }
    if !target.as_str().is_empty() {
        target.push(' ');
    }
    push_str(target, n.as_str());
}

/// A transcript with what was already handed to translation taken off its
/// front: nothing when it is that text or its tail, the rest (trimmed) when
/// it starts with it, and the transcript itself otherwise.
pub open spec fn without_completed_prefix(text: Seq<char>, completed: Seq<char>) -> Seq<char> {
    let t = trim_seq(text);
    let c = trim_seq(completed);
    if t.len() == 0 || c.len() == 0 {
        t
    } else if t == c || ends_with_seq(c, t) {
        Seq::empty()
    } else if starts_with_seq(t, c) {
        trim_seq(t.subrange(c.len() as int, t.len() as int))
    } else {
        t
    }
}

pub fn trim_completed_prefix(text: &str, completed_prefix: &str) -> (r: String)
    ensures
        r@ == without_completed_prefix(text@, completed_prefix@),
{
    let t = trim(text);
    let c = trim(completed_prefix);
    if t.as_str().is_empty() || c.as_str().is_empty() {
        return t;
    }
    if str_eq(t.as_str(), c.as_str()) || ends_with(c.as_str(), t.as_str()) {
        return String::new();
    }
    if starts_with(t.as_str(), c.as_str()) {
        let tv = chars_of(t.as_str());
        let cl = chars_of(c.as_str()).len();
        let rest = string_of(&tv, cl, tv.len());
        return trim(rest.as_str());
    }
    t
}

/// Merging never loses the newest text: afterwards the caption ends with the
/// trimmed new text, unless that text is blank.
pub proof fn lemma_merge_keeps_newest(target: Seq<char>, next: Seq<char>)
    requires
        trim_seq(next).len() > 0,
    ensures
        ends_with_seq(merged(target, next), trim_seq(next)),
{
    let n = trim_seq(next);
    let m = merged(target, next);
    if target == n || ends_with_seq(target, n) {
        if target == n {
            assert(m.subrange(m.len() - n.len(), m.len() as int) =~= n);
        }
    } else if starts_with_seq(n, target) || target.len() == 0 {
        assert(m.subrange(m.len() - n.len(), m.len() as int) =~= n);
    } else {
        assert(m.subrange(m.len() - n.len(), m.len() as int) =~= n);
    }
}

/// A member of an object; nothing for any other value.
pub open spec fn field(v: JsonValue, key: Seq<char>) -> Option<JsonValue> {
    match v {
        JsonValue::Object(entries) => crate::json::member(entries@, key),
        _ => None,
    }
}

/// The first of two lookups that found a value.
pub open spec fn first_present(a: Option<JsonValue>, b: Option<JsonValue>) -> Option<JsonValue> {
    match a {
        Some(x) => Some(x),
        None => b,
    }
}

fn first_of<'a>(a: Option<&'a JsonValue>, b: Option<&'a JsonValue>) -> (r: Option<&'a JsonValue>)
    ensures
        deref_opt(r) == first_present(deref_opt(a), deref_opt(b)),
{
    match a {
        Some(x) => Some(x),
        None => b,
    }
}

/// The text of a string value, or `default`.
pub open spec fn text_or(v: Option<JsonValue>, default: Seq<char>) -> Seq<char> {
    match text_of(v) {
        Some(t) => t,
        None => default,
    }
}

fn string_or(v: Option<&JsonValue>, default: &str) -> (r: String)
    ensures
        r@ == text_or(deref_opt(v), default@),
{
    match v {
        Some(x) => match x.as_str() {
            Some(t) => owned(t),
            None => owned(default),
        },
        None => owned(default),
    }
}

/// What one ASR message says.
#[derive(Debug)]
pub struct ParsedAsrMessage {
    pub utterance_id: String,
    pub transcript: String,
    pub is_final: bool,
    pub provider: String,
}

pub open spec fn path2(a: Seq<char>, b: Seq<char>) -> Seq<Seq<char>> {
    seq![a, b]
}

pub open spec fn path4(a: Seq<char>, b: Seq<char>, c: Seq<char>, d: Seq<char>) -> Seq<Seq<char>> {
    seq![a, b, c, d]
}

/// The utterance id: the first of `utteranceId`, `utterance_id`,
/// `segment_id` and `/header/task_id` that is present, if it is a string.
pub open spec fn asr_utterance_id(v: JsonValue) -> Seq<char> {
    text_or(
        first_present(
            field(v, "utteranceId"@),
            first_present(
                field(v, "utterance_id"@),
                first_present(
                    field(v, "segment_id"@),
                    pointer_path(v, path2("header"@, "task_id"@)),
                ),
            ),
        ),
        "local-asr-utterance"@,
    )
}

/// The transcript: the first of `text`, `rawTranscript` and
/// `/payload/output/sentence/text` that is present, if it is a string.
pub open spec fn asr_transcript(v: JsonValue) -> Seq<char> {
    text_or(
        first_present(
            field(v, "text"@),
            first_present(
                field(v, "rawTranscript"@),
                pointer_path(v, path4("payload"@, "output"@, "sentence"@, "text"@)),
            ),
        ),
        Seq::empty(),
    )
}

/// Whether the transcript is final: the first of `isFinal`, `is_final` and
/// `/payload/output/sentence/sentence_end` that is present, if it is a
/// boolean.
pub open spec fn asr_is_final(v: JsonValue) -> bool {
    match bool_of(
        first_present(
            field(v, "isFinal"@),
            first_present(
                field(v, "is_final"@),
                pointer_path(v, path4("payload"@, "output"@, "sentence"@, "sentence_end"@)),
            ),
        ),
    ) {
        Some(b) => b,
        None => false,
    }
}

/// The engine: `provider` or `/header/provider`, if a string.
pub open spec fn asr_provider(v: JsonValue) -> Seq<char> {
    text_or(
        first_present(field(v, "provider"@), pointer_path(v, path2("header"@, "provider"@))),
        "local-sherpa-onnx-realtime"@,
    )
}

/// Reads an ASR message in the local server's own shape or in the
/// DashScope-like shape, with defaults for whatever is missing.
pub fn parse_asr_message(value: &JsonValue) -> (p: ParsedAsrMessage)
    ensures
        p.utterance_id@ == asr_utterance_id(*value),
        p.transcript@ == asr_transcript(*value),
        p.is_final == asr_is_final(*value),
        p.provider@ == asr_provider(*value),
{
    let header_task = vec!["header", "task_id"];
    let sentence_text = vec!["payload", "output", "sentence", "text"];
    let sentence_end = vec!["payload", "output", "sentence", "sentence_end"];
    let header_provider = vec!["header", "provider"];
    proof {
        reveal_strlit("header");
        reveal_strlit("task_id");
        reveal_strlit("payload");
        reveal_strlit("output");
        reveal_strlit("sentence");
        reveal_strlit("text");
        reveal_strlit("sentence_end");
        reveal_strlit("provider");
        reveal_strlit("");
        assert(str_views(header_task@) =~= path2("header"@, "task_id"@));
        assert(str_views(sentence_text@) =~= path4("payload"@, "output"@, "sentence"@, "text"@));
        assert(str_views(sentence_end@) =~= path4(
            "payload"@,
            "output"@,
            "sentence"@,
            "sentence_end"@,
        ));
        assert(str_views(header_provider@) =~= path2("header"@, "provider"@));
    }
    let utterance = first_of(
        value.get("utteranceId"),
        first_of(
            value.get("utterance_id"),
            first_of(value.get("segment_id"), value.pointer(&header_task)),
        ),
    );
    let transcript = first_of(
        value.get("text"),
        first_of(value.get("rawTranscript"), value.pointer(&sentence_text)),
    );
    let fin = first_of(
        value.get("isFinal"),
        first_of(value.get("is_final"), value.pointer(&sentence_end)),
    );
    let provider = first_of(value.get("provider"), value.pointer(&header_provider));
    let is_final = match fin {
        Some(x) => match x.as_bool() {
            Some(b) => b,
            None => false,
        },
        None => false,
    };
    ParsedAsrMessage {
        utterance_id: string_or(utterance, "local-asr-utterance"),
        transcript: string_or(transcript, ""),
        is_final,
        provider: string_or(provider, "local-sherpa-onnx-realtime"),
    }
}

/// How many earlier sentences are kept as translation context.
pub const TRANSLATION_CONTEXT_SENTENCES: usize = 4;

/// A segment that runs this long is finished whatever it holds.
pub const FORCE_FINALIZE_MS: u64 = 3_500;

/// When a segment is finished, for one session.
#[derive(Debug)]
pub struct SegmentFinalizeConfig {
    pub silence_ms: u32,
    pub tail_delay_ms: u32,
    pub preferred_chars: u32,
    pub hard_chars: u32,
    pub source_lang: String,
}

/// A finished segment on its way to translation.
#[derive(Debug)]
pub struct PendingSpeechSegment {
    pub utterance_id: String,
    pub source_text: String,
    pub finalize_reason: String,
    pub context_before: Vec<String>,
}

/// The transcript of the current segment and the recent translation
/// context of one session. Times are nanoseconds on a monotonic clock.
#[derive(Debug)]
pub struct SpeechSegmentState {
    pub committed_text: String,
    pub partial_text: String,
    pub completed_prefix: String,
    pub context_history: VecDeque<String>,
    pub utterance_id: String,
    pub provider: String,
    pub segment_started_at: Option<u64>,
    pub last_voice_at: Option<u64>,
    pub last_text_at: Option<u64>,
    pub translating: bool,
}

/// The segment state with strings as character sequences.
pub struct SegmentView {
    pub committed: Seq<char>,
    pub partial: Seq<char>,
    pub completed_prefix: Seq<char>,
    pub context: Seq<Seq<char>>,
    pub utterance_id: Seq<char>,
    pub provider: Seq<char>,
    pub segment_started_at: Option<u64>,
    pub last_voice_at: Option<u64>,
    pub last_text_at: Option<u64>,
    pub translating: bool,
}

impl View for SpeechSegmentState {
    type V = SegmentView;

    open spec fn view(&self) -> SegmentView {
        SegmentView {
            committed: self.committed_text@,
            partial: self.partial_text@,
            completed_prefix: self.completed_prefix@,
            context: crate::text::string_views(self.context_history@),
            utterance_id: self.utterance_id@,
            provider: self.provider@,
            segment_started_at: self.segment_started_at,
            last_voice_at: self.last_voice_at,
            last_text_at: self.last_text_at,
            translating: self.translating,
        }
    }
}

/// The caption shown for a segment: the partial transcript where it already
/// repeats the committed text, otherwise both joined, with runs of
/// whitespace collapsed to single spaces.
pub open spec fn combined(committed: Seq<char>, partial: Seq<char>) -> Seq<char> {
    if partial.len() == 0 {
        committed
    } else if committed.len() == 0 || starts_with_seq(partial, committed) {
        partial
    } else {
        crate::text::collapse_ws(committed + seq![' '] + partial)
    }
}

/// The caption of a segment keeps everything said. With no partial
/// transcript it is the committed text; a partial that already repeats the
/// committed text (or follows none) stands alone; otherwise, where both hold
/// words, it is the committed words, one space, then the partial words, so
/// it starts with the committed words.
pub proof fn lemma_caption_keeps_committed(s: SegmentView)
    ensures
        s.partial.len() == 0 ==> combined_of(s) == s.committed,
        s.partial.len() > 0 && (s.committed.len() == 0 || starts_with_seq(s.partial, s.committed))
            ==> combined_of(s) == s.partial,
        crate::text::has_word(s.committed) && crate::text::has_word(s.partial) && !starts_with_seq(
            s.partial,
            s.committed,
        ) ==> {
            &&& combined_of(s) == crate::text::collapse_ws(s.committed) + seq![' ']
                + crate::text::collapse_ws(s.partial)
            &&& starts_with_seq(combined_of(s), crate::text::collapse_ws(s.committed))
        },
{
    let c = s.committed;
    let p = s.partial;
    if crate::text::has_word(c) && crate::text::has_word(p) && !starts_with_seq(p, c) {
        let w = choose|i: int| 0 <= i < p.len() && !is_ws(#[trigger] p[i]);
        assert(p.len() > 0);
        let v = choose|i: int| 0 <= i < c.len() && !is_ws(#[trigger] c[i]);
        assert(c.len() > 0);
        crate::text::lemma_collapse_join(c, p);
        let cc = crate::text::collapse_ws(c);
        assert((cc + seq![' '] + crate::text::collapse_ws(p)).subrange(0, cc.len() as int) =~= cc);
    }
}

pub open spec fn combined_of(s: SegmentView) -> Seq<char> {
    combined(s.committed, s.partial)
}

/// The last `n` elements of a sequence (all of them where it is shorter).
pub open spec fn last_n<A>(s: Seq<A>, n: nat) -> Seq<A> {
    if s.len() > n {
        s.skip(s.len() - n)
    } else {
        s
    }
}

/// Time from `start` to `now`, zero where `start` is later.
pub open spec fn elapsed(now: u64, start: u64) -> nat {
    if now >= start {
        (now - start) as nat
    } else {
        0
    }
}

pub open spec fn ms(n: nat) -> nat {
    n * 1_000_000
}

/// The state after a voiced or silent chunk of audio at `now`.
pub open spec fn after_audio(s: SegmentView, has_voice: bool, now: u64) -> SegmentView {
    if has_voice {
        SegmentView { last_voice_at: Some(now), ..s }
    } else {
        s
    }
}

/// The state after an ASR transcript at `now`. The transcript, trimmed and
/// without what was already handed to translation, is ignored when blank;
/// otherwise it starts the segment's clock (from the last voiced audio where
/// there was any), and a final one is merged into the committed text while a
/// partial one replaces the partial text.
pub open spec fn after_asr(
    s: SegmentView,
    utterance_id: Seq<char>,
    transcript: Seq<char>,
    is_final: bool,
    provider: Seq<char>,
    now: u64,
) -> SegmentView {
    let text = without_completed_prefix(trim_seq(transcript), s.completed_prefix);
    if text.len() == 0 {
        s
    } else {
        SegmentView {
            last_text_at: Some(now),
            segment_started_at: if s.segment_started_at is None {
                if s.last_voice_at is Some {
                    s.last_voice_at
                } else {
                    Some(now)
                }
            } else {
                s.segment_started_at
            },
            utterance_id,
            provider,
            committed: if is_final {
                merged(s.committed, text)
            } else {
                s.committed
            },
            partial: if is_final {
                Seq::empty()
            } else {
                text
            },
            ..s
        }
    }
}

/// Why the segment should be finished at `now`, if it should: it grew past
/// the hard limit, it ran for the forced maximum, it reached the preferred
/// length at a sentence boundary, or the configured interval passed since it
/// started. Never while a translation is being taken or nothing is said.
pub open spec fn finalize_reason(s: SegmentView, now: u64, silence_ms: nat, preferred: u32, hard: u32) -> Option<Seq<char>> {
    let text = combined_of(s);
    let len = crate::asr::count_non_ws(text) as u32;
    let limit = if hard >= preferred {
        hard
    } else {
        preferred
    };
    if s.translating || is_blank_seq(text) {
        None
    } else if len >= limit {
        Some("hard_length_limit"@)
    } else if s.segment_started_at matches Some(start) && elapsed(now, start) >= ms(
        FORCE_FINALIZE_MS as nat,
    ) {
        Some("force_timeout"@)
    } else if len >= preferred && semantic_boundary(text) {
        Some("semantic_length_boundary"@)
    } else if s.segment_started_at matches Some(start) && elapsed(now, start) >= ms(silence_ms) {
        Some("interval"@)
    } else {
        None
    }
}

/// The state once its segment was handed over: the transcript, its id and
/// clocks are cleared, and the handed-over text is merged into the completed
/// prefix.
pub open spec fn after_take(s: SegmentView) -> SegmentView {
    SegmentView {
        committed: Seq::empty(),
        partial: Seq::empty(),
        completed_prefix: merged(s.completed_prefix, combined_of(s)),
        utterance_id: Seq::empty(),
        segment_started_at: None,
        last_voice_at: None,
        last_text_at: None,
        translating: false,
        ..s
    }
}

/// The state once the translation of `source_text` finished: the trimmed
/// text, where not blank, becomes the newest context sentence, and only the
/// last few sentences are kept.
pub open spec fn after_translation(s: SegmentView, source_text: Seq<char>) -> SegmentView {
    let t = trim_seq(source_text);
    if t.len() == 0 {
        s
    } else {
        SegmentView {
            context: last_n(s.context.push(t), TRANSLATION_CONTEXT_SENTENCES as nat),
            ..s
        }
    }
}

impl SpeechSegmentState {
    /// At most the configured number of context sentences are kept.
    pub open spec fn well_formed(&self) -> bool {
        self.context_history@.len() <= TRANSLATION_CONTEXT_SENTENCES
    }

    /// A state with nothing recorded.
    pub fn new() -> (r: SpeechSegmentState)
        ensures
            r.well_formed(),
            r@.committed.len() == 0,
            r@.partial.len() == 0,
            r@.completed_prefix.len() == 0,
            r@.context.len() == 0,
            r@.utterance_id.len() == 0,
            r@.provider.len() == 0,
            r@.segment_started_at is None,
            r@.last_voice_at is None,
            r@.last_text_at is None,
            !r@.translating,
    {
        SpeechSegmentState {
            committed_text: String::new(),
            partial_text: String::new(),
            completed_prefix: String::new(),
            context_history: VecDeque::new(),
            utterance_id: String::new(),
            provider: String::new(),
            segment_started_at: None,
            last_voice_at: None,
            last_text_at: None,
            translating: false,
        }
    }

    /// Notes a chunk of audio; voiced audio moves the last-voice time.
    pub fn record_audio(&mut self, has_voice: bool, now_ns: u64)
        ensures
            final(self)@ == after_audio(old(self)@, has_voice, now_ns),
            final(self).context_history == old(self).context_history,
    {
        if has_voice {
            self.last_voice_at = Some(now_ns);
        }
    }

    /// Records a partial or final transcript.
    pub fn record_asr(&mut self, parsed: &ParsedAsrMessage, now_ns: u64)
        ensures
            final(self)@ == after_asr(
                old(self)@,
                parsed.utterance_id@,
                parsed.transcript@,
                parsed.is_final,
                parsed.provider@,
                now_ns,
            ),
            final(self).context_history == old(self).context_history,
    {
        let trimmed = trim(parsed.transcript.as_str());
        let text = trim_completed_prefix(trimmed.as_str(), self.completed_prefix.as_str());
        if text.as_str().is_empty() {
            return ;
        }
        self.last_text_at = Some(now_ns);
        if self.segment_started_at.is_none() {
            self.segment_started_at = match self.last_voice_at {
                Some(t) => Some(t),
                None => Some(now_ns),
            };
        }
        self.utterance_id = parsed.utterance_id.clone();
        self.provider = parsed.provider.clone();
        if parsed.is_final {
            merge_transcript(&mut self.committed_text, text.as_str());
            self.partial_text = String::new();
        } else {
            self.partial_text = text;
        }
    }

    /// Records a transcript and gives the caption to show now: the
    /// segment's caption, unless it is blank.
    pub fn record_asr_visible(&mut self, parsed: &ParsedAsrMessage, now_ns: u64) -> (r: Option<String>)
        ensures
            final(self)@ == after_asr(
                old(self)@,
                parsed.utterance_id@,
                parsed.transcript@,
                parsed.is_final,
                parsed.provider@,
                now_ns,
            ),
            final(self).context_history == old(self).context_history,
            match r {
                Some(t) => t@ == combined_of(final(self)@) && !is_blank_seq(t@),
                None => is_blank_seq(combined_of(final(self)@)),
            },
    {
        self.record_asr(parsed, now_ns);
        let visible = self.combined_text();
        if is_blank(visible.as_str()) {
            None
        } else {
            Some(visible)
        }
    }

    /// The caption of the current segment.
    pub fn combined_text(&self) -> (r: String)
        ensures
            r@ == combined_of(self@),
    {
        if self.partial_text.as_str().is_empty() {
            return self.committed_text.clone();
        }
        if self.committed_text.as_str().is_empty() || starts_with(
            self.partial_text.as_str(),
            self.committed_text.as_str(),
        ) {
            return self.partial_text.clone();
        }
        let mut joined = self.committed_text.clone();
        joined.push(' ');
        push_str(&mut joined, self.partial_text.as_str());
        assert(joined@ =~= self.committed_text@ + seq![' '] + self.partial_text@);
        crate::text::collapse_whitespace(joined.as_str())
    }

    /// Why the segment should be finished now, if it should.
    pub fn should_finalize(&self, now_ns: u64, config: &SegmentFinalizeConfig) -> (r: Option<
        &'static str,
    >)
        requires
            config.silence_ms + config.tail_delay_ms <= u32::MAX,
        ensures
            match finalize_reason(
                self@,
                now_ns,
                (config.silence_ms + config.tail_delay_ms) as nat,
                config.preferred_chars,
                config.hard_chars,
            ) {
                Some(m) => r is Some && r->0@ == m,
                None => r is None,
            },
    {
        let combined = self.combined_text();
        if self.translating || is_blank(combined.as_str()) {
            return None;
        }
        let len = readable_len(combined.as_str(), config.source_lang.as_str());
        let limit = if config.hard_chars >= config.preferred_chars {
            config.hard_chars
        } else {
            config.preferred_chars
        };
        if len >= limit {
            return Some("hard_length_limit");
        }
        if let Some(started) = self.segment_started_at {
            let run = if now_ns >= started {
                now_ns - started
            } else {
                0
            };
            if run >= FORCE_FINALIZE_MS * 1_000_000 {
                return Some("force_timeout");
            }
        }
        if len >= config.preferred_chars && has_semantic_boundary(combined.as_str()) {
            return Some("semantic_length_boundary");
        }
        let started = match self.segment_started_at {
            Some(t) => t,
            None => {
                return None;
            },
        };
        let run = if now_ns >= started {
            now_ns - started
        } else {
            0
        };
        let interval = (config.silence_ms as u64 + config.tail_delay_ms as u64) * 1_000_000;
        if run >= interval {
            Some("interval")
        } else {
            None
        }
    }

    /// The last `max_sentences` context sentences, oldest first.
    pub fn context_before(&self, max_sentences: usize) -> (r: Vec<String>)
        ensures
            crate::text::string_views(r@) == last_n(self@.context, max_sentences as nat),
    {
        let n = self.context_history.len();
        let start = if n > max_sentences {
            n - max_sentences
        } else {
            0
        };
        let mut out: Vec<String> = Vec::new();
        let mut i = start;
        while i < n
            invariant
                start <= i <= n,
                n == self.context_history.len(),
                crate::text::string_views(out@) == crate::text::string_views(
                    self.context_history@,
                ).subrange(start as int, i as int),
            decreases n - i,
        {
            let ghost prev = out@;
            let item = self.context_history[i].clone();
            out.push(item);
            proof {
                assert(out@ == prev.push(item));
                assert(item@ == self.context_history@[i as int]@);
                let a = crate::text::string_views(out@);
                let b = crate::text::string_views(self.context_history@).subrange(
                    start as int,
                    i + 1,
                );
                assert(crate::text::string_views(prev) == crate::text::string_views(
                    self.context_history@,
                ).subrange(start as int, i as int));
                assert(crate::text::string_views(prev).len() == prev.len());
                assert(crate::text::string_views(self.context_history@).len()
                    == self.context_history@.len());
                assert(a.len() == b.len());
                assert forall|j: int| 0 <= j < a.len() implies a[j] == b[j] by {
                    if j < prev.len() {
                        assert(a[j] == prev[j]@);
                        assert(crate::text::string_views(prev)[j] == prev[j]@);
                    } else {
                        assert(j == i - start);
                        assert(a[j] == out@[j]@);
                        assert(out@[j] == item);
                        assert(b[j] == crate::text::string_views(self.context_history@)[i as int]);
                    }
                }
                assert(a =~= b);
            }
            i += 1;
        }
        assert(crate::text::string_views(self.context_history@).subrange(start as int, n as int)
            =~= last_n(self@.context, max_sentences as nat));
        out
    }

    /// Hands the current segment over to translation, with `finalize_reason`
    /// recorded; nothing where the caption is blank. A segment without an
    /// utterance id gets a fresh random one.
    pub fn take_segment(&mut self, finalize_reason: &str) -> (r: Option<PendingSpeechSegment>)
        requires
            old(self).well_formed(),
        ensures
            final(self).well_formed(),
            is_blank_seq(combined_of(old(self)@)) ==> r is None && final(self)@ == old(self)@,
            !is_blank_seq(combined_of(old(self)@)) ==> {
                &&& r is Some
                &&& final(self)@ == after_take(old(self)@)
                &&& r->0.source_text@ == combined_of(old(self)@)
                &&& r->0.finalize_reason@ == finalize_reason@
                &&& crate::text::string_views(r->0.context_before@) == last_n(
                    old(self)@.context,
                    TRANSLATION_CONTEXT_SENTENCES as nat,
                )
                &&& old(self)@.utterance_id.len() > 0 ==> r->0.utterance_id@ == old(
                    self,
                )@.utterance_id
                &&& old(self)@.utterance_id.len() == 0 ==> is_uuid_v4_text(r->0.utterance_id@)
            },
    {
        let text = self.combined_text();
        if is_blank(text.as_str()) {
            return None;
        }
        self.translating = true;
        merge_transcript(&mut self.completed_prefix, text.as_str());
        let utterance_id = if self.utterance_id.as_str().is_empty() {
            new_uuid_v4()
        } else {
            self.utterance_id.clone()
        };
        let pending = PendingSpeechSegment {
            utterance_id,
            source_text: text,
            finalize_reason: owned(finalize_reason),
            context_before: self.context_before(TRANSLATION_CONTEXT_SENTENCES),
        };
        self.committed_text = String::new();
        self.partial_text = String::new();
        self.last_voice_at = None;
        self.last_text_at = None;
        self.segment_started_at = None;
        self.utterance_id = String::new();
        self.translating = false;
        assert(self@.context == old(self)@.context);
        Some(pending)
    }

    /// Adds the text of a translated segment to the context.
    pub fn finish_translation(&mut self, completed_text: &str)
        requires
            old(self).well_formed(),
        ensures
            final(self).well_formed(),
            final(self)@ == after_translation(old(self)@, completed_text@),
    {
        let completed = trim(completed_text);
        if completed.as_str().is_empty() {
            return ;
        }
        let mut hist: VecDeque<String> = VecDeque::new();
        std::mem::swap(&mut hist, &mut self.context_history);
        let ghost full = crate::text::string_views(hist@).push(completed@);
        hist.push_back(completed);
        assert(crate::text::string_views(hist@) =~= full);
        while hist.len() > TRANSLATION_CONTEXT_SENTENCES
            invariant
                hist.len() <= full.len(),
                crate::text::string_views(hist@) == full.skip(full.len() - hist.len()),
                full.len() <= TRANSLATION_CONTEXT_SENTENCES + 1,
                hist.len() >= TRANSLATION_CONTEXT_SENTENCES || hist.len() == full.len(),
            decreases hist.len(),
        {
            let ghost before = crate::text::string_views(hist@);
            let _ = hist.pop_front();
            assert(crate::text::string_views(hist@) =~= before.drop_first());
            assert(full.skip(full.len() - hist.len()) =~= before.drop_first());
        }
        proof {
            if hist.len() == full.len() {
                assert(full.skip(0) =~= full);
            }
        }
        assert(crate::text::string_views(hist@) =~= last_n(
            full,
            TRANSLATION_CONTEXT_SENTENCES as nat,
        ));
        self.context_history = hist;
    }

    /// One tick of the finalizer: hands over the segment when it should be
    /// finished, or, once the session is stopping, whatever is left.
    pub fn poll_finalize(&mut self, now_ns: u64, config: &SegmentFinalizeConfig, should_stop: bool) -> (r: Option<PendingSpeechSegment>)
        requires
            old(self).well_formed(),
            config.silence_ms + config.tail_delay_ms <= u32::MAX,
        ensures
            final(self).well_formed(),
            ({
                let reason = finalize_reason(
                    old(self)@,
                    now_ns,
                    (config.silence_ms + config.tail_delay_ms) as nat,
                    config.preferred_chars,
                    config.hard_chars,
                );
                let blank = is_blank_seq(combined_of(old(self)@));
                if reason is Some || (should_stop && !blank) {
                    &&& r is Some
                    &&& final(self)@ == after_take(old(self)@)
                    &&& r->0.source_text@ == combined_of(old(self)@)
                    &&& r->0.finalize_reason@ == (if reason is Some {
                        reason->0
                    } else {
                        "session_stop"@
                    })
                } else {
                    r is None && final(self)@ == old(self)@
                }
            }),
    {
        if let Some(reason) = self.should_finalize(now_ns, config) {
            return self.take_segment(reason);
        }
        if should_stop {
            let text = self.combined_text();
            if !is_blank(text.as_str()) {
                return self.take_segment("session_stop");
            }
        }
        None
    }
}

/// A transcript that only repeats what was already handed to translation
/// changes nothing; and a handed-over segment leaves no caption behind.
pub proof fn lemma_completed_text_not_repeated(
    s: SegmentView,
    utterance_id: Seq<char>,
    transcript: Seq<char>,
    is_final: bool,
    provider: Seq<char>,
    now: u64,
)
    requires
        trim_seq(transcript) == trim_seq(s.completed_prefix),
    ensures
        after_asr(s, utterance_id, transcript, is_final, provider, now) == s,
        combined_of(after_take(s)).len() == 0,
{
    crate::text::lemma_trim_idempotent(transcript);
}

/// A segment is never finished while its translation is being taken or while
/// it holds nothing to translate.
pub proof fn lemma_no_finalize_when_idle(s: SegmentView, now: u64, silence_ms: nat, preferred: u32, hard: u32)
    requires
        s.translating || is_blank_seq(combined_of(s)),
    ensures
        finalize_reason(s, now, silence_ms, preferred, hard) is None,
{
}

/// Clamps a silence interval to 200..=5000 ms.
pub open spec fn clamp_silence(ms: u32) -> u32 {
    if ms < 200 {
        200
    } else if ms > 5_000 {
        5_000
    } else {
        ms
    }
}

/// The finalize settings of one session: its silence interval (clamped),
/// the readable length of its source language and its hard limit.
pub fn segment_finalize_config(settings: &AppSettings, session_kind: SessionKind) -> (c:
    SegmentFinalizeConfig)
    ensures
        c.tail_delay_ms == 0,
        c.silence_ms + c.tail_delay_ms <= u32::MAX,
        session_kind == SessionKind::SystemSubtitle ==> {
            &&& c.silence_ms == clamp_silence(
                settings.system_segmenter.silence_for_visual_finalize_ms,
            )
            &&& c.preferred_chars == readable_limit(settings.language.system_source_lang@)
            &&& c.hard_chars == settings.system_segmenter.hard_max_chars
            &&& c.source_lang@ == settings.language.system_source_lang@
        },
        session_kind == SessionKind::MicInterpretation ==> {
            &&& c.silence_ms == clamp_silence(settings.mic_segmenter.silence_for_translate_ms)
            &&& c.preferred_chars == readable_limit(settings.language.mic_source_lang@)
            &&& c.hard_chars == settings.mic_segmenter.hard_max_chars
            &&& c.source_lang@ == settings.language.mic_source_lang@
        },
{
    let (silence, lang, hard) = match session_kind {
        SessionKind::SystemSubtitle => (
            settings.system_segmenter.silence_for_visual_finalize_ms,
            &settings.language.system_source_lang,
            settings.system_segmenter.hard_max_chars,
        ),
        SessionKind::MicInterpretation => (
            settings.mic_segmenter.silence_for_translate_ms,
            &settings.language.mic_source_lang,
            settings.mic_segmenter.hard_max_chars,
        ),
    };
    let clamped = if silence < 200 {
        200
    } else if silence > 5_000 {
        5_000
    } else {
        silence
    };
    SegmentFinalizeConfig {
        silence_ms: clamped,
        tail_delay_ms: 0,
        preferred_chars: readable_limit_for_lang(lang.as_str()),
        hard_chars: hard,
        source_lang: lang.clone(),
    }
}

/// The source language and target language of one session.
pub fn translation_languages(settings: &AppSettings, session_kind: SessionKind) -> (r: (
    String,
    String,
))
    ensures
        session_kind == SessionKind::SystemSubtitle ==> r.0@ == settings.language.system_source_lang@
            && r.1@ == settings.language.system_target_lang@,
        session_kind == SessionKind::MicInterpretation ==> r.0@ == settings.language.mic_source_lang@
            && r.1@ == settings.language.mic_target_lang@,
{
    match session_kind {
        SessionKind::SystemSubtitle => (
            settings.language.system_source_lang.clone(),
            settings.language.system_target_lang.clone(),
        ),
        SessionKind::MicInterpretation => (
            settings.language.mic_source_lang.clone(),
            settings.language.mic_target_lang.clone(),
        ),
    }
}

/// The event name of an ASR transcript.
pub open spec fn asr_event_type_spec(session_kind: SessionKind, is_final: bool) -> Seq<char> {
    match (session_kind, is_final) {
        (SessionKind::SystemSubtitle, false) => "system_asr_partial"@,
        (SessionKind::SystemSubtitle, true) => "system_asr_final"@,
        (SessionKind::MicInterpretation, false) => "mic_asr_partial"@,
        (SessionKind::MicInterpretation, true) => "mic_asr_final"@,
    }
}

pub fn asr_event_type(session_kind: SessionKind, is_final: bool) -> (r: &'static str)
    ensures
        r@ == asr_event_type_spec(session_kind, is_final),
{
    match (session_kind, is_final) {
        (SessionKind::SystemSubtitle, false) => "system_asr_partial",
        (SessionKind::SystemSubtitle, true) => "system_asr_final",
        (SessionKind::MicInterpretation, false) => "mic_asr_partial",
        (SessionKind::MicInterpretation, true) => "mic_asr_final",
    }
}

/// The event name of a finished translation.
pub fn translation_event_name(session_kind: SessionKind) -> (r: &'static str)
    ensures
        session_kind == SessionKind::SystemSubtitle ==> r@ == "system_translation_final"@,
        session_kind == SessionKind::MicInterpretation ==> r@ == "mic_translation_final"@,
{
    match session_kind {
        SessionKind::SystemSubtitle => "system_translation_final",
        SessionKind::MicInterpretation => "mic_translation_final",
    }
}

/// How the window should render an ASR message: final text waits for the
/// segment to freeze, partial text is a live draft.
pub fn render_policy(is_final: bool) -> (r: &'static str)
    ensures
        r@ == (if is_final { "await_vad_freeze"@ } else { "realtime_draft"@ }),
{
    if is_final {
        "await_vad_freeze"
    } else {
        "realtime_draft"
    }
}

/// The log prefix of an ASR message.
pub fn asr_log_prefix(session_kind: SessionKind, is_final: bool) -> (r: &'static str)
    ensures
        r@ == match (session_kind, is_final) {
            (SessionKind::SystemSubtitle, false) => "[SYS][ASR_PARTIAL]"@,
            (SessionKind::SystemSubtitle, true) => "[SYS][ASR_FINAL]"@,
            (SessionKind::MicInterpretation, false) => "[MIC][ASR_PARTIAL]"@,
            (SessionKind::MicInterpretation, true) => "[MIC][ASR_FINAL]"@,
        },
{
    match (session_kind, is_final) {
        (SessionKind::SystemSubtitle, false) => "[SYS][ASR_PARTIAL]",
        (SessionKind::SystemSubtitle, true) => "[SYS][ASR_FINAL]",
        (SessionKind::MicInterpretation, false) => "[MIC][ASR_PARTIAL]",
        (SessionKind::MicInterpretation, true) => "[MIC][ASR_FINAL]",
    }
}


/// Whether audio chunk `count` (counting from 1) is logged: the first three
/// and every hundredth.
pub fn should_log_audio_chunk(count: u64) -> (b: bool)
    ensures
        b == (count <= 3 || count % 100 == 0),
{
    count <= 3 || count % 100 == 0
}

/// A final segment goes to translation whatever language it was detected
/// in: a mismatch with the expected source language is only reported.
pub fn filter_source_text_by_expected_lang(text: String, expected_source_lang: &str) -> (r: Option<
    String,
>)
    ensures
        r == Some(text),
{
    let _ = expected_source_lang;
    Some(text)
}

/// The detected language of a text, where it differs from the expected
/// language (normalized).
pub open spec fn lang_mismatch(text: Seq<char>, expected: Seq<char>) -> Option<Seq<char>> {
    match detected_lang_spec(text) {
        Some(d) => if d != normalized_lang(expected) {
            Some(d)
        } else {
            None
        },
        None => None,
    }
}

pub fn source_language_mismatch(text: &str, expected: &str) -> (r: Option<&'static str>)
    ensures
        match lang_mismatch(text@, expected@) {
            Some(d) => r is Some && r->0@ == d,
            None => r is None,
        },
{
    let normalized = normalize_lang(expected);
    match detected_lang(text) {
        Some(d) => if str_eq(d, normalized.as_str()) {
            None
        } else {
            Some(d)
        },
        None => None,
    }
}

/// Whether a translation must be translated again into the expected target
/// language: it was detected in another language and the target is `zh` or
/// `en`. Gives the detected and the target language.
pub open spec fn retranslation(text: Seq<char>, expected_target: Seq<char>) -> Option<(Seq<char>, Seq<char>)> {
    let target = normalized_lang(expected_target);
    match lang_mismatch(text, expected_target) {
        Some(d) => if target == "en"@ || target == "zh"@ {
            Some((d, target))
        } else {
            None
        },
        None => None,
    }
}

pub fn target_normalize_plan(text: &str, expected_target_lang: &str) -> (r: Option<(String, String)>)
    ensures
        match (retranslation(text@, expected_target_lang@), r) {
            (Some((d, t)), Some((rd, rt))) => rd@ == d && rt@ == t,
            (None, None) => true,
            _ => false,
        },
{
    let target = normalize_lang(expected_target_lang);
    match source_language_mismatch(text, expected_target_lang) {
        Some(d) => if str_eq(target.as_str(), "en") || str_eq(target.as_str(), "zh") {
            Some((owned(d), target))
        } else {
            None
        },
        None => None,
    }
}

/// The translation after the target-language check: the second translation
/// where it completed with text, else the first one.
pub fn pick_normalized_text(original: String, status: &str, retranslated: String) -> (r: String)
    ensures
        r@ == (if status@ == "completed"@ && !is_blank_seq(retranslated@) {
            retranslated@
        } else {
            original@
        }),
{
    if str_eq(status, "completed") && !is_blank(retranslated.as_str()) {
        retranslated
    } else {
        original
    }
}

/// Whether a finished translation is shown: it completed with text.
pub fn should_show_translation(status: &str, translated_text: &str) -> (b: bool)
    ensures
        b == (status@ == "completed"@ && !is_blank_seq(translated_text@)),
{
    str_eq(status, "completed") && !is_blank(translated_text)
}

/// Whether a finished translation is spoken: only in microphone
/// interpretation, and only when it completed with text.
pub fn should_synthesize_tts(session_kind: SessionKind, status: &str, translated_text: &str) -> (b:
    bool)
    ensures
        b == (session_kind == SessionKind::MicInterpretation && status@ == "completed"@
            && !is_blank_seq(translated_text@)),
{
    session_kind == SessionKind::MicInterpretation && should_show_translation(
        status,
        translated_text,
    )
}

/// The language announced to the ASR server when a session starts.
pub fn asr_start_language(settings: &AppSettings, session_kind: SessionKind) -> (r: String)
    ensures
        session_kind == SessionKind::SystemSubtitle ==> r@ == settings.language.system_source_lang@,
        session_kind == SessionKind::MicInterpretation ==> r@ == settings.language.mic_source_lang@,
{
    match session_kind {
        SessionKind::SystemSubtitle => settings.language.system_source_lang.clone(),
        SessionKind::MicInterpretation => settings.language.mic_source_lang.clone(),
    }
}

/// Whether the ASR service answered a health check, and with what.
#[derive(Debug)]
pub enum AsrHealthOutcome {
    /// The connection failed with this error.
    ConnectFailed(String),
    /// The health request could not be sent.
    SendFailed,
    /// No text reply came within the wait.
    NoResponse,
    /// The reply was not JSON.
    InvalidReply,
    /// The reply, as JSON.
    Reply(JsonValue),
}

/// What the engine reported in a health reply.
pub open spec fn reply_provider(v: JsonValue) -> Option<Seq<char>> {
    text_of(field(v, "provider"@))
}

pub open spec fn reply_ok(v: JsonValue) -> bool {
    bool_of(field(v, "ok"@)) == Some(true)
}

/// A healthy reply from the configured engine: `ok` is true and the
/// reported engine name contains the configured one.
pub open spec fn reply_matches(v: JsonValue, provider: Seq<char>) -> bool {
    reply_ok(v) && match reply_provider(v) {
        Some(p) => crate::text::contains_seq(p, provider),
        None => false,
    }
}

pub open spec fn mismatch_message(v: JsonValue, provider: Seq<char>) -> Seq<char> {
    "ASR 服务引擎不匹配：当前="@ + text_or(field(v, "provider"@), "unknown"@) + "，期望="@ + provider
}

pub open spec fn not_ready_message(v: JsonValue) -> Seq<char> {
    text_or(field(v, "error"@), "ASR 服务未就绪。"@)
}

/// Classifies a health reply: `(healthy, message)`, where the message is
/// empty for a healthy one.
pub fn classify_health_reply(reply: &JsonValue, provider: &str) -> (r: (bool, String))
    ensures
        r.0 == reply_matches(*reply, provider@),
        reply_matches(*reply, provider@) ==> r.1@.len() == 0,
        !reply_matches(*reply, provider@) && reply_ok(*reply) ==> r.1@ == mismatch_message(
            *reply,
            provider@,
        ),
        !reply_ok(*reply) ==> r.1@ == not_ready_message(*reply),
{
    let ok = match reply.get("ok") {
        Some(v) => match v.as_bool() {
            Some(b) => b,
            None => false,
        },
        None => false,
    };
    let reported = match reply.get("provider") {
        Some(v) => v.as_str(),
        None => None,
    };
    let matches = match reported {
        Some(p) => crate::text::contains(p, provider),
        None => false,
    };
    if ok && matches {
        (true, String::new())
    } else if ok {
        let mut m = owned("ASR 服务引擎不匹配：当前=");
        match reported {
            Some(p) => push_str(&mut m, p),
            None => push_str(&mut m, "unknown"),
        }
        push_str(&mut m, "，期望=");
        push_str(&mut m, provider);
        (false, m)
    } else {
        (false, string_or(reply.get("error"), "ASR 服务未就绪。"))
    }
}

/// The reported state of the local ASR service for one session.
#[derive(Debug)]
pub struct LocalAsrConnectionStatus {
    pub session_kind: SessionKind,
    pub provider: String,
    pub endpoint: String,
    pub connected: bool,
    pub error: Option<String>,
}

/// The engine named in a status: the one the reply reports, else the
/// configured one.
pub open spec fn status_provider(outcome: AsrHealthOutcome, provider: Seq<char>) -> Seq<char> {
    match outcome {
        AsrHealthOutcome::Reply(v) => text_or(field(v, "provider"@), provider),
        _ => provider,
    }
}

/// The error of a status, nothing where the service is healthy.
pub open spec fn status_error(outcome: AsrHealthOutcome, provider: Seq<char>) -> Option<Seq<char>> {
    match outcome {
        AsrHealthOutcome::ConnectFailed(e) => Some(e@),
        AsrHealthOutcome::SendFailed => Some("ASR 服务已连接，但健康检查发送失败。"@),
        AsrHealthOutcome::NoResponse => Some("ASR 服务健康检查无响应。"@),
        AsrHealthOutcome::InvalidReply => Some("ASR 服务健康检查返回格式无效。"@),
        AsrHealthOutcome::Reply(v) => if reply_matches(v, provider) {
            None
        } else if reply_ok(v) {
            Some(mismatch_message(v, provider))
        } else {
            Some(not_ready_message(v))
        },
    }
}

/// The connection status that a health check outcome gives, for the
/// configured engine `provider` at `ws_url`.
pub fn asr_connection_status(
    session_kind: SessionKind,
    provider: &str,
    ws_url: &str,
    outcome: AsrHealthOutcome,
) -> (s: LocalAsrConnectionStatus)
    ensures
        s.session_kind == session_kind,
        s.endpoint@ == ws_url@,
        s.provider@ == status_provider(outcome, provider@),
        s.connected == (status_error(outcome, provider@) is None),
        match status_error(outcome, provider@) {
            Some(e) => s.error is Some && s.error->0@ == e,
            None => s.error is None,
        },
{
    let endpoint = owned(ws_url);
    match outcome {
        AsrHealthOutcome::ConnectFailed(e) => LocalAsrConnectionStatus {
            session_kind,
            provider: owned(provider),
            endpoint,
            connected: false,
            error: Some(e),
        },
        AsrHealthOutcome::SendFailed => LocalAsrConnectionStatus {
            session_kind,
            provider: owned(provider),
            endpoint,
            connected: false,
            error: Some(owned("ASR 服务已连接，但健康检查发送失败。")),
        },
        AsrHealthOutcome::NoResponse => LocalAsrConnectionStatus {
            session_kind,
            provider: owned(provider),
            endpoint,
            connected: false,
            error: Some(owned("ASR 服务健康检查无响应。")),
        },
        AsrHealthOutcome::InvalidReply => LocalAsrConnectionStatus {
            session_kind,
            provider: owned(provider),
            endpoint,
            connected: false,
            error: Some(owned("ASR 服务健康检查返回格式无效。")),
        },
        AsrHealthOutcome::Reply(v) => {
            let (healthy, message) = classify_health_reply(&v, provider);
            let reported = string_or(v.get("provider"), provider);
            LocalAsrConnectionStatus {
                session_kind,
                provider: reported,
                endpoint,
                connected: healthy,
                error: if healthy {
                    None
                } else {
                    Some(message)
                },
            }
        },
    }
}

/// A translation is translated again exactly when its detected language
/// differs from the expected target and that target (normalized) is `en` or
/// `zh`; then it goes from the detected language into the target. One in
/// the target's language, or in no detectable language, or for another
/// target, is kept.
pub proof fn lemma_retranslation_plan(text: Seq<char>, expected_target: Seq<char>)
    ensures
        ({
            let t = normalized_lang(expected_target);
            match detected_lang_spec(text) {
                Some(d) => d != t && (t == "en"@ || t == "zh"@) ==> retranslation(
                    text,
                    expected_target,
                ) == Some((d, t)),
                None => true,
            }
        }),
        detected_lang_spec(text) is None ==> retranslation(text, expected_target) is None,
        detected_lang_spec(text) == Some(normalized_lang(expected_target)) ==> retranslation(
            text,
            expected_target,
        ) is None,
        normalized_lang(expected_target) != "en"@ && normalized_lang(expected_target) != "zh"@
            ==> retranslation(text, expected_target) is None,
{
}

} // verus!
