//! Qwen TTS for microphone interpretation: checking a request before it is
//! sent, finding the audio in a reply, keeping synthesized audio for replay,
//! and the status events of playback.
use vstd::prelude::*;
use base64::Engine;
use crate::json::{JsonValue, pointer_path, text_of, str_views};
use crate::session::SessionKind;
use crate::settings::QwenTtsSettings;
use crate::text::{
    ascii_lower_seq, chars_of, concat, concat3, contains, contains_seq, decimal_seq, decimal_string,
    is_alnum, is_ascii_alnum, is_blank, is_blank_seq, owned, push_str, str_eq, trim,
    trim_seq, trim_start_char, trim_start_char_seq, to_ascii_lowercase,
};

verus! {

/// What base64 decoding with the standard alphabet and canonical padding
/// gives for the characters of some input text: the decoded bytes, or, where
/// the input is not valid base64, the text (`Display`) of the decode error.
pub uninterp spec fn standard_base64_decode(input: Seq<char>) -> Result<Seq<u8>, Seq<char>>;

/// Calls `base64::engine::general_purpose::STANDARD.decode` on the bytes of
/// `data`, with the error rendered by `to_string`. The result is named, not
/// described.
#[verifier::external_body]
fn decode_base64_standard(data: &str) -> (r: Result<Vec<u8>, String>)
    ensures
        match standard_base64_decode(data@) {
            Ok(b) => r is Ok && r->Ok_0@ == b,
            Err(e) => r is Err && r->Err_0@ == e,
        },
{
    match base64::engine::general_purpose::STANDARD.decode(data) {
        Ok(bytes) => Ok(bytes),
        Err(error) => Err(error.to_string()),
    }
}

/// A request to speak a translation.
#[derive(Debug)]
pub struct TtsInvokeRequest {
    pub session_kind: SessionKind,
    pub tts_id: String,
    pub translation_item_id: String,
    pub text: String,
    pub target_lang: String,
}

#[derive(Debug)]
pub struct RetryTtsPlaybackRequest {
    pub tts_id: String,
}

#[derive(Debug)]
pub struct StopTtsPlaybackRequest {
    pub tts_id: Option<String>,
}

/// Where a TTS reply says its audio is.
#[derive(Debug)]
pub enum TtsAudioReference {
    Url(String),
    Base64(String),
}

impl PartialEq for TtsAudioReference {
    fn eq(&self, other: &Self) -> (r: bool) {
        match (self, other) {
            (TtsAudioReference::Url(a), TtsAudioReference::Url(b)) => str_eq(a.as_str(), b.as_str()),
            (TtsAudioReference::Base64(a), TtsAudioReference::Base64(b)) => str_eq(
                a.as_str(),
                b.as_str(),
            ),
            _ => false,
        }
    }
}

impl vstd::std_specs::cmp::PartialEqSpecImpl for TtsAudioReference {
    open spec fn obeys_eq_spec() -> bool {
        true
    }

    open spec fn eq_spec(&self, other: &Self) -> bool {
        match (self, other) {
            (TtsAudioReference::Url(a), TtsAudioReference::Url(b)) => a@ == b@,
            (TtsAudioReference::Base64(a), TtsAudioReference::Base64(b)) => a@ == b@,
            _ => false,
        }
    }
}

/// The first value among `cands` that is a non-blank string.
pub open spec fn first_text(cands: Seq<Option<JsonValue>>) -> Option<Seq<char>>
    decreases cands.len(),
{
    if cands.len() == 0 {
        None
    } else {
        match text_of(cands[0]) {
            Some(t) => if !is_blank_seq(t) {
                Some(t)
            } else {
                first_text(cands.drop_first())
            },
            None => first_text(cands.drop_first()),
        }
    }
}

pub open spec fn p1(a: Seq<char>) -> Seq<Seq<char>> {
    seq![a]
}

pub open spec fn p2(a: Seq<char>, b: Seq<char>) -> Seq<Seq<char>> {
    seq![a, b]
}

pub open spec fn p3(a: Seq<char>, b: Seq<char>, c: Seq<char>) -> Seq<Seq<char>> {
    seq![a, b, c]
}

/// The places where a reply may give an audio URL, in order.
pub open spec fn url_candidates(v: JsonValue) -> Seq<Option<JsonValue>> {
    seq![
        pointer_path(v, p3("output"@, "audio"@, "url"@)),
        pointer_path(v, p2("output"@, "audio_url"@)),
        pointer_path(v, p2("output"@, "url"@)),
        pointer_path(v, p2("audio"@, "url"@)),
        pointer_path(v, p1("audio_url"@)),
        pointer_path(v, p1("url"@)),
    ]
}

/// The places where a reply may give base64 audio, in order.
pub open spec fn data_candidates(v: JsonValue) -> Seq<Option<JsonValue>> {
    seq![
        pointer_path(v, p3("output"@, "audio"@, "data"@)),
        pointer_path(v, p3("output"@, "audio"@, "base64"@)),
        pointer_path(v, p2("output"@, "audio"@)),
        pointer_path(v, p2("audio"@, "data"@)),
        pointer_path(v, p2("audio"@, "base64"@)),
        pointer_path(v, p1("data"@)),
    ]
}

/// Where a reply's audio is: the first non-blank URL, else the first
/// non-blank base64 text, else nowhere.
pub open spec fn audio_reference(v: JsonValue) -> Option<(bool, Seq<char>)> {
    match first_text(url_candidates(v)) {
        Some(u) => Some((true, u)),
        None => match first_text(data_candidates(v)) {
            Some(d) => Some((false, d)),
            None => None,
        },
    }
}

pub open spec fn reference_view(r: Option<TtsAudioReference>) -> Option<(bool, Seq<char>)> {
    match r {
        Some(TtsAudioReference::Url(u)) => Some((true, u@)),
        Some(TtsAudioReference::Base64(d)) => Some((false, d@)),
        None => None,
    }
}

/// The first of the given pointers whose value is a non-blank string.
fn first_text_at(value: &JsonValue, paths: &Vec<Vec<&str>>) -> (r: Option<String>)
    ensures
        match first_text(paths@.map_values(|p: Vec<&str>| pointer_path(*value, str_views(p@)))) {
            Some(t) => r is Some && r->0@ == t,
            None => r is None,
        },
{
    let ghost cands = paths@.map_values(|p: Vec<&str>| pointer_path(*value, str_views(p@)));
    let mut i: usize = 0;
    assert(cands.skip(0) =~= cands);
    while i < paths.len()
        invariant
            i <= paths.len(),
            cands == paths@.map_values(|p: Vec<&str>| pointer_path(*value, str_views(p@))),
            first_text(cands) == first_text(cands.skip(i as int)),
        decreases paths.len() - i,
    {
        let ghost rest = cands.skip(i as int);
        proof {
            assert(rest[0] == pointer_path(*value, str_views(paths@[i as int]@)));
            assert(rest.drop_first() =~= cands.skip(i + 1));
        }
        if let Some(v) = value.pointer(&paths[i]) {
            if let Some(t) = v.as_str() {
                if !is_blank(t) {
                    return Some(owned(t));
                }
            }
        }
        i += 1;
    }
    None
}

/// Finds the audio in a TTS reply.
pub fn extract_audio_reference(value: &JsonValue) -> (r: Option<TtsAudioReference>)
    ensures
        reference_view(r) == audio_reference(*value),
{
    let urls = vec![
        vec!["output", "audio", "url"],
        vec!["output", "audio_url"],
        vec!["output", "url"],
        vec!["audio", "url"],
        vec!["audio_url"],
        vec!["url"],
    ];
    let data = vec![
        vec!["output", "audio", "data"],
        vec!["output", "audio", "base64"],
        vec!["output", "audio"],
        vec!["audio", "data"],
        vec!["audio", "base64"],
        vec!["data"],
    ];
    proof {
        reveal_strlit("output");
        reveal_strlit("audio");
        reveal_strlit("url");
        reveal_strlit("audio_url");
        reveal_strlit("data");
        reveal_strlit("base64");
        assert(urls@.map_values(|p: Vec<&str>| pointer_path(*value, str_views(p@)))
            =~= url_candidates(*value)) by {
            assert(str_views(urls@[0]@) =~= p3("output"@, "audio"@, "url"@));
            assert(str_views(urls@[1]@) =~= p2("output"@, "audio_url"@));
            assert(str_views(urls@[2]@) =~= p2("output"@, "url"@));
            assert(str_views(urls@[3]@) =~= p2("audio"@, "url"@));
            assert(str_views(urls@[4]@) =~= p1("audio_url"@));
            assert(str_views(urls@[5]@) =~= p1("url"@));
        }
        assert(data@.map_values(|p: Vec<&str>| pointer_path(*value, str_views(p@)))
            =~= data_candidates(*value)) by {
            assert(str_views(data@[0]@) =~= p3("output"@, "audio"@, "data"@));
            assert(str_views(data@[1]@) =~= p3("output"@, "audio"@, "base64"@));
            assert(str_views(data@[2]@) =~= p2("output"@, "audio"@));
            assert(str_views(data@[3]@) =~= p2("audio"@, "data"@));
            assert(str_views(data@[4]@) =~= p2("audio"@, "base64"@));
            assert(str_views(data@[5]@) =~= p1("data"@));
        }
    }
    if let Some(url) = first_text_at(value, &urls) {
        return Some(TtsAudioReference::Url(url));
    }
    match first_text_at(value, &data) {
        Some(d) => Some(TtsAudioReference::Base64(d)),
        None => None,
    }
}

/// An audio format name as stored: `mp3`, `wav` (also for an empty name),
/// or the name itself, trimmed, without leading dots and in ASCII lower case.
pub open spec fn normalized_format(format: Seq<char>) -> Seq<char> {
    let f = ascii_lower_seq(trim_start_char_seq(trim_seq(format), '.'));
    if f == "mp3"@ {
        "mp3"@
    } else if f == "wav"@ || f.len() == 0 {
        "wav"@
    } else {
        f
    }
}

pub fn normalize_audio_format(format: &str) -> (r: String)
    ensures
        r@ == normalized_format(format@),
{
    let trimmed = trim(format);
    let no_dots = trim_start_char(trimmed.as_str(), '.');
    let f = to_ascii_lowercase(no_dots.as_str());
    if str_eq(f.as_str(), "mp3") {
        owned("mp3")
    } else if str_eq(f.as_str(), "wav") || f.as_str().is_empty() {
        owned("wav")
    } else {
        f
    }
}

/// Synthesized audio, as returned by the API.
#[derive(Debug)]
pub struct TtsAudioBytes {
    pub bytes: Vec<u8>,
    pub audio_url: Option<String>,
}

/// Synthesized audio kept for replay.
#[derive(Debug)]
pub struct SavedTtsAudio {
    pub tts_id: String,
    pub translation_item_id: String,
    pub bytes: Vec<u8>,
    pub audio_path: Option<String>,
    pub audio_url: Option<String>,
    pub file_size: u64,
    pub format: String,
    pub sample_rate: u32,
    pub voice: String,
    pub model: String,
    pub created_at: u128,
    pub completed_at: Option<u128>,
}

/// Saved audio with its texts and bytes as sequences.
pub struct SavedAudioView {
    pub tts_id: Seq<char>,
    pub translation_item_id: Seq<char>,
    pub bytes: Seq<u8>,
    pub audio_path: Option<Seq<char>>,
    pub audio_url: Option<Seq<char>>,
    pub file_size: u64,
    pub format: Seq<char>,
    pub sample_rate: u32,
    pub voice: Seq<char>,
    pub model: Seq<char>,
    pub created_at: u128,
    pub completed_at: Option<u128>,
}

pub open spec fn opt_view(o: Option<String>) -> Option<Seq<char>> {
    match o {
        Some(s) => Some(s@),
        None => None,
    }
}

fn opt_clone(o: &Option<String>) -> (r: Option<String>)
    ensures
        opt_view(r) == opt_view(*o),
{
    match o {
        Some(s) => Some(s.clone()),
        None => None,
    }
}

fn bytes_clone(v: &Vec<u8>) -> (r: Vec<u8>)
    ensures
        r@ == v@,
{
    let mut r: Vec<u8> = Vec::new();
    let mut i: usize = 0;
    while i < v.len()
        invariant
            i <= v.len(),
            r@ == v@.subrange(0, i as int),
        decreases v.len() - i,
    {
        r.push(v[i]);
        i += 1;
        assert(r@ =~= v@.subrange(0, i as int));
    }
    assert(v@.subrange(0, v@.len() as int) =~= v@);
    r
}

impl View for SavedTtsAudio {
    type V = SavedAudioView;

    open spec fn view(&self) -> SavedAudioView {
        SavedAudioView {
            tts_id: self.tts_id@,
            translation_item_id: self.translation_item_id@,
            bytes: self.bytes@,
            audio_path: opt_view(self.audio_path),
            audio_url: opt_view(self.audio_url),
            file_size: self.file_size,
            format: self.format@,
            sample_rate: self.sample_rate,
            voice: self.voice@,
            model: self.model@,
            created_at: self.created_at,
            completed_at: self.completed_at,
        }
    }
}

impl SavedTtsAudio {
    /// A copy.
    pub fn duplicate(&self) -> (r: SavedTtsAudio)
        ensures
            r@ == self@,
    {
        SavedTtsAudio {
            tts_id: self.tts_id.clone(),
            translation_item_id: self.translation_item_id.clone(),
            bytes: bytes_clone(&self.bytes),
            audio_path: opt_clone(&self.audio_path),
            audio_url: opt_clone(&self.audio_url),
            file_size: self.file_size,
            format: self.format.clone(),
            sample_rate: self.sample_rate,
            voice: self.voice.clone(),
            model: self.model.clone(),
            created_at: self.created_at,
            completed_at: self.completed_at,
        }
    }
}

/// A TTS id usable in names: non-empty, of ASCII letters, digits, `-` and
/// `_`.
pub open spec fn safe_tts_id(id: Seq<char>) -> bool {
    id.len() > 0 && forall|i: int|
        0 <= i < id.len() ==> is_ascii_alnum(#[trigger] id[i]) || id[i] == '-' || id[i] == '_'
}

pub fn is_safe_tts_id(id: &str) -> (b: bool)
    ensures
        b == safe_tts_id(id@),
{
    let v = chars_of(id);
    if v.len() == 0 {
        return false;
    }
    let mut i: usize = 0;
    while i < v.len()
        invariant
            i <= v.len(),
            v@ == id@,
            forall|j: int| 0 <= j < i ==> is_ascii_alnum(#[trigger] v@[j]) || v@[j] == '-' || v@[j] == '_',
        decreases v.len() - i,
    {
        let c = v[i];
        if !(is_alnum(c) || c == '-' || c == '_') {
            return false;
        }
        i += 1;
    }
    true
}

/// Keeps synthesized audio in memory for playback, without a file.
pub fn prepare_tts_audio(
    tts_id: &str,
    translation_item_id: &str,
    format: &str,
    sample_rate: u32,
    voice: &str,
    model: &str,
    created_at: u128,
    audio: TtsAudioBytes,
) -> (r: Result<SavedTtsAudio, String>)
    ensures
        !safe_tts_id(tts_id@) ==> r is Err && r->Err_0@ == "TTS id 鏃犳晥銆?"@,
        safe_tts_id(tts_id@) ==> r is Ok && r->Ok_0@ == (SavedAudioView {
            tts_id: tts_id@,
            translation_item_id: translation_item_id@,
            bytes: audio.bytes@,
            audio_path: None,
            audio_url: opt_view(audio.audio_url),
            file_size: audio.bytes@.len() as u64,
            format: normalized_format(format@),
            sample_rate,
            voice: voice@,
            model: model@,
            created_at,
            completed_at: None,
        }),
{
    if !is_safe_tts_id(tts_id) {
        return Err(owned("TTS id 鏃犳晥銆?"));
    }
    let file_size = audio.bytes.len() as u64;
    Ok(
        SavedTtsAudio {
            tts_id: owned(tts_id),
            translation_item_id: owned(translation_item_id),
            bytes: audio.bytes,
            audio_path: None,
            audio_url: audio.audio_url,
            file_size,
            format: normalize_audio_format(format),
            sample_rate,
            voice: owned(voice),
            model: owned(model),
            created_at,
            completed_at: None,
        },
    )
}

/// The characters of an id that are allowed in a file name.
pub open spec fn safe_chars(id: Seq<char>) -> Seq<char> {
    id.filter(|c: char| is_ascii_alnum(c) || c == '-' || c == '_')
}

fn filter_safe(id: &str) -> (r: String)
    ensures
        r@ == safe_chars(id@),
{
    let v = chars_of(id);
    let mut r = String::new();
    let mut i: usize = 0;
    while i < v.len()
        invariant
            i <= v.len(),
            v@ == id@,
            r@ == safe_chars(v@.subrange(0, i as int)),
        decreases v.len() - i,
    {
        let c = v[i];
        proof {
            let pre = v@.subrange(0, i as int);
            assert(v@.subrange(0, i + 1) =~= pre.push(c));
            reveal_with_fuel(Seq::filter, 1);
            assert(pre.push(c).drop_last() =~= pre);
        }
        if is_alnum(c) || c == '-' || c == '_' {
            r.push(c);
        }
        i += 1;
    }
    assert(v@.subrange(0, v@.len() as int) =~= v@);
    r
}

/// The file name that synthesized audio would be saved under at time `t`.
pub open spec fn tts_audio_path(tts_id: Seq<char>, format: Seq<char>, t: nat) -> Seq<char> {
    "tts_"@ + decimal_seq(t) + "_"@ + safe_chars(tts_id) + "."@ + normalized_format(format)
}

/// The file name for audio at time `now_ms`, or an error where the id holds
/// no usable character.
pub fn make_tts_audio_path_at(tts_id: &str, format: &str, now_ms: u128) -> (r: Result<String, String>)
    ensures
        safe_chars(tts_id@).len() == 0 ==> r is Err && r->Err_0@ == "TTS id 无效。"@,
        safe_chars(tts_id@).len() > 0 ==> r is Ok && r->Ok_0@ == tts_audio_path(
            tts_id@,
            format@,
            now_ms as nat,
        ),
{
    let safe_id = filter_safe(tts_id);
    if safe_id.as_str().is_empty() {
        return Err(owned("TTS id 无效。"));
    }
    let extension = normalize_audio_format(format);
    let mut r = owned("tts_");
    let stamp = decimal_string(now_ms);
    push_str(&mut r, stamp.as_str());
    push_str(&mut r, "_");
    push_str(&mut r, safe_id.as_str());
    push_str(&mut r, ".");
    push_str(&mut r, extension.as_str());
    Ok(r)
}

/// The file name for audio saved now, stamped with the clock.
pub fn make_tts_audio_path(tts_id: &str, format: &str) -> (r: Result<String, String>)
    ensures
        safe_chars(tts_id@).len() == 0 ==> r is Err && r->Err_0@ == "TTS id 无效。"@,
        safe_chars(tts_id@).len() > 0 ==> r is Ok && exists|t: nat|
            r->Ok_0@ == #[trigger] tts_audio_path(tts_id@, format@, t),
{
    let now = crate::caption::now_ms();
    make_tts_audio_path_at(tts_id, format, now)
}

/// Where synthesized speech is played.
#[derive(Debug)]
pub enum TtsPlaybackRoute {
    PreviewOnly,
    VirtualMicOnly { device_name: String },
    PreviewAndVirtualMic { device_name: String },
}

impl PartialEq for TtsPlaybackRoute {
    fn eq(&self, other: &Self) -> (r: bool) {
        match (self, other) {
            (TtsPlaybackRoute::PreviewOnly, TtsPlaybackRoute::PreviewOnly) => true,
            (
                TtsPlaybackRoute::VirtualMicOnly { device_name: a },
                TtsPlaybackRoute::VirtualMicOnly { device_name: b },
            ) => str_eq(a.as_str(), b.as_str()),
            (
                TtsPlaybackRoute::PreviewAndVirtualMic { device_name: a },
                TtsPlaybackRoute::PreviewAndVirtualMic { device_name: b },
            ) => str_eq(a.as_str(), b.as_str()),
            _ => false,
        }
    }
}

impl vstd::std_specs::cmp::PartialEqSpecImpl for TtsPlaybackRoute {
    open spec fn obeys_eq_spec() -> bool {
        true
    }

    open spec fn eq_spec(&self, other: &Self) -> bool {
        match (self, other) {
            (TtsPlaybackRoute::PreviewOnly, TtsPlaybackRoute::PreviewOnly) => true,
            (
                TtsPlaybackRoute::VirtualMicOnly { device_name: a },
                TtsPlaybackRoute::VirtualMicOnly { device_name: b },
            ) => a@ == b@,
            (
                TtsPlaybackRoute::PreviewAndVirtualMic { device_name: a },
                TtsPlaybackRoute::PreviewAndVirtualMic { device_name: b },
            ) => a@ == b@,
            _ => false,
        }
    }
}

impl TtsPlaybackRoute {
    /// The route an output mode selects; any unknown mode plays on the
    /// virtual microphone only.
    pub fn from_settings(output_mode: &str, virtual_mic_device_name: &str) -> (r: TtsPlaybackRoute)
        ensures
            trim_seq(output_mode@) == "preview_only"@ ==> r is PreviewOnly,
            trim_seq(output_mode@) == "preview_and_virtual_mic"@ ==> r is PreviewAndVirtualMic
                && r->PreviewAndVirtualMic_device_name@ == trim_seq(virtual_mic_device_name@),
            trim_seq(output_mode@) != "preview_only"@ && trim_seq(output_mode@)
                != "preview_and_virtual_mic"@ ==> r is VirtualMicOnly
                && r->VirtualMicOnly_device_name@ == trim_seq(virtual_mic_device_name@),
    {
        let device_name = trim(virtual_mic_device_name);
        let mode = trim(output_mode);
        proof {
            reveal_strlit("preview_only");
            reveal_strlit("preview_and_virtual_mic");
            assert("preview_only"@.len() != "preview_and_virtual_mic"@.len());
        }
        if str_eq(mode.as_str(), "preview_only") {
            TtsPlaybackRoute::PreviewOnly
        } else if str_eq(mode.as_str(), "preview_and_virtual_mic") {
            TtsPlaybackRoute::PreviewAndVirtualMic { device_name }
        } else {
            TtsPlaybackRoute::VirtualMicOnly { device_name }
        }
    }
}

/// The event that reports a playback status.
pub open spec fn tts_event_name(status: Seq<char>) -> Seq<char> {
    if status == "playing"@ {
        "mic_tts_playing"@
    } else if status == "completed"@ {
        "mic_tts_completed"@
    } else if status == "failed"@ {
        "mic_tts_error"@
    } else {
        "mic_tts_status"@
    }
}

pub fn event_name_for_tts_status(status: &str) -> (r: &'static str)
    ensures
        r@ == tts_event_name(status@),
{
    if str_eq(status, "playing") {
        "mic_tts_playing"
    } else if str_eq(status, "completed") {
        "mic_tts_completed"
    } else if str_eq(status, "failed") {
        "mic_tts_error"
    } else {
        "mic_tts_status"
    }
}

/// The `language_type` sent with a TTS request for a target language.
pub open spec fn tts_language_type(target_lang: Seq<char>) -> Seq<char> {
    if target_lang == "zh"@ || target_lang == "zh-CN"@ {
        "Chinese"@
    } else if target_lang == "en"@ || target_lang == "en-US"@ {
        "English"@
    } else {
        "Auto"@
    }
}

pub fn language_type(target_lang: &str) -> (r: &'static str)
    ensures
        r@ == tts_language_type(target_lang@),
{
    if str_eq(target_lang, "zh") || str_eq(target_lang, "zh-CN") {
        "Chinese"
    } else if str_eq(target_lang, "en") || str_eq(target_lang, "en-US") {
        "English"
    } else {
        "Auto"
    }
}

/// What to do with a TTS request.
#[derive(Debug)]
pub enum TtsPlan {
    /// Refused: TTS belongs to microphone interpretation only.
    WrongSession { message: String },
    /// Reported as a failed synthesis.
    Failed { message: String },
    /// Sent to `endpoint` with this key and language type.
    Send { endpoint: String, api_key: String, language_type: String },
}

/// Why a TTS request is not sent, in the order the checks run: the wrong
/// session, no endpoint, no model, no key.
pub open spec fn tts_problem(
    request: &TtsInvokeRequest,
    settings: &QwenTtsSettings,
    api_key: Option<String>,
) -> Option<(bool, Seq<char>)> {
    if request.session_kind != SessionKind::MicInterpretation {
        Some((true, "TTS 只能用于麦克风同声传译模块。"@))
    } else if is_blank_seq(settings.endpoint@) {
        Some((false, "TTS API 地址未填写。"@))
    } else if is_blank_seq(settings.model@) {
        Some((false, "TTS 模型名称未填写。"@))
    } else if api_key is None {
        Some((false, "TTS 密钥未配置。"@))
    } else {
        None
    }
}

/// Refuses a TTS request that does not come from microphone
/// interpretation, before anything else is read.
pub fn check_tts_session(request: &TtsInvokeRequest) -> (r: Result<(), String>)
    ensures
        request.session_kind == SessionKind::MicInterpretation ==> r is Ok,
        request.session_kind != SessionKind::MicInterpretation ==> r is Err && r->Err_0@
            == "TTS 只能用于麦克风同声传译模块。"@,
{
    if request.session_kind != SessionKind::MicInterpretation {
        Err(owned("TTS 只能用于麦克风同声传译模块。"))
    } else {
        Ok(())
    }
}

/// Checks a TTS request against the settings and the available key.
pub fn plan_tts_request(
    request: &TtsInvokeRequest,
    settings: &QwenTtsSettings,
    api_key: Option<String>,
) -> (r: TtsPlan)
    ensures
        match tts_problem(request, settings, api_key) {
            Some((true, m)) => r is WrongSession && r->WrongSession_message@ == m,
            Some((false, m)) => r is Failed && r->Failed_message@ == m,
            None => r is Send && r->Send_endpoint@ == trim_seq(settings.endpoint@)
                && r->Send_api_key@ == api_key->0@ && r->Send_language_type@
                == tts_language_type(request.target_lang@),
        },
{
    if let Err(message) = check_tts_session(request) {
        return TtsPlan::WrongSession { message };
    }
    if is_blank(settings.endpoint.as_str()) {
        return TtsPlan::Failed { message: owned("TTS API 地址未填写。") };
    }
    if is_blank(settings.model.as_str()) {
        return TtsPlan::Failed { message: owned("TTS 模型名称未填写。") };
    }
    match api_key {
        Some(key) => TtsPlan::Send {
            endpoint: trim(settings.endpoint.as_str()),
            api_key: key,
            language_type: owned(language_type(request.target_lang.as_str())),
        },
        None => TtsPlan::Failed { message: owned("TTS 密钥未配置。") },
    }
}

/// Speech is synthesized for microphone interpretation only: a request of
/// the other session is refused before anything else is checked, whatever
/// the settings and the key.
pub proof fn lemma_tts_only_for_mic(
    request: &TtsInvokeRequest,
    settings: &QwenTtsSettings,
    api_key: Option<String>,
)
    ensures
        request.session_kind != SessionKind::MicInterpretation ==> tts_problem(
            request,
            settings,
            api_key,
        ) == Some((true, "TTS 只能用于麦克风同声传译模块。"@)),
        tts_problem(request, settings, api_key) is None ==> request.session_kind
            == SessionKind::MicInterpretation,
{
}

/// The failure reported for an unsuccessful TTS HTTP status.
pub fn tts_http_failure_message(status: &str, body: &str) -> (r: String)
    ensures
        r@ == (if trim_seq(body@).len() == 0 {
            "Qwen TTS 调用失败：HTTP "@ + status@
        } else {
            "Qwen TTS 调用失败：HTTP "@ + status@ + ": "@ + trim_seq(body@)
        }),
{
    let b = trim(body);
    if b.as_str().is_empty() {
        concat("Qwen TTS 调用失败：HTTP ", status)
    } else {
        let mut m = concat3("Qwen TTS 调用失败：HTTP ", status, ": ");
        push_str(&mut m, b.as_str());
        m
    }
}

/// Whether a TTS reply body is JSON rather than audio: its content type says
/// so or it starts with `{`.
pub fn is_json_reply(content_type: &str, bytes: &Vec<u8>) -> (b: bool)
    ensures
        b == (contains_seq(content_type@, "application/json"@) || (bytes@.len() > 0 && bytes@[0]
            == 123)),
{
    contains(content_type, "application/json") || (bytes.len() > 0 && bytes[0] == 123u8)
}

/// The next step for a JSON TTS reply.
#[derive(Debug)]
pub enum TtsAudioStep {
    /// Download the audio from this URL.
    Download { url: String },
    /// The audio is at hand.
    Ready { audio: TtsAudioBytes },
    /// No audio can be had.
    Failed { message: String },
}

/// Finds the audio of a JSON TTS reply: a URL to download, base64 audio to
/// decode, or a failure where neither is given or the base64 is invalid.
pub fn tts_audio_from_reply(reply: &JsonValue) -> (r: TtsAudioStep)
    ensures
        match audio_reference(*reply) {
            Some((true, u)) => r is Download && r->Download_url@ == u,
            Some((false, d)) => match standard_base64_decode(d) {
                Ok(b) => r is Ready && r->Ready_audio.bytes@ == b && r->Ready_audio.audio_url is None,
                Err(e) => r is Failed && r->Failed_message@ == "Qwen TTS base64 音频解码失败："@ + e,
            },
            None => r is Failed && r->Failed_message@ == "TTS 返回音频为空。"@,
        },
{
    match extract_audio_reference(reply) {
        Some(TtsAudioReference::Url(url)) => TtsAudioStep::Download { url },
        Some(TtsAudioReference::Base64(data)) => match decode_base64_standard(data.as_str()) {
            Ok(bytes) => TtsAudioStep::Ready { audio: TtsAudioBytes { bytes, audio_url: None } },
            Err(error) => TtsAudioStep::Failed {
                message: concat("Qwen TTS base64 音频解码失败：", error.as_str()),
            },
        },
        None => TtsAudioStep::Failed { message: owned("TTS 返回音频为空。") },
    }
}

/// The failure reported for a JSON TTS reply that does not parse.
pub fn tts_invalid_reply_message(error: &str) -> (r: String)
    ensures
        r@ == "Qwen TTS 返回格式无效："@ + error@,
{
    concat("Qwen TTS 返回格式无效：", error)
}

/// The failure reported for an unsuccessful download of TTS audio.
pub fn tts_download_failure_message(status: &str) -> (r: String)
    ensures
        r@ == "Qwen TTS 音频下载失败：HTTP "@ + status@,
{
    concat("Qwen TTS 音频下载失败：HTTP ", status)
}

/// The audio of a reply that is not JSON: its bytes as they came.
pub fn raw_tts_audio(bytes: Vec<u8>) -> (r: TtsAudioBytes)
    ensures
        r.bytes@ == bytes@,
        r.audio_url is None,
{
    TtsAudioBytes { bytes, audio_url: None }
}

/// The audio downloaded from the URL a reply gave.
pub fn downloaded_tts_audio(bytes: Vec<u8>, url: String) -> (r: TtsAudioBytes)
    ensures
        r.bytes@ == bytes@,
        opt_view(r.audio_url) == Some(url@),
{
    TtsAudioBytes { bytes, audio_url: Some(url) }
}

impl SavedTtsAudio {
    /// The same audio, marked as played to the end at time `t`.
    pub fn completed_at_time(&self, t: u128) -> (r: SavedTtsAudio)
        ensures
            r@ == (SavedAudioView { completed_at: Some(t), ..self@ }),
    {
        let mut r = self.duplicate();
        r.completed_at = Some(t);
        r
    }
}

/// Saved audio keyed by TTS id: the last saved audio of each id.
pub open spec fn audio_map(s: Seq<SavedAudioView>) -> Map<Seq<char>, SavedAudioView>
    decreases s.len(),
{
    if s.len() == 0 {
        Map::empty()
    } else {
        audio_map(s.drop_last()).insert(s.last().tts_id, s.last())
    }
}

/// No two entries share a TTS id.
pub open spec fn distinct_ids(s: Seq<SavedAudioView>) -> bool {
    forall|i: int, j: int|
        0 <= i < s.len() && 0 <= j < s.len() && i != j ==> #[trigger] s[i].tts_id != #[trigger] s[j].tts_id
}

proof fn lemma_audio_map_absent(s: Seq<SavedAudioView>, id: Seq<char>)
    requires
        forall|i: int| 0 <= i < s.len() ==> #[trigger] s[i].tts_id != id,
    ensures
        !audio_map(s).contains_key(id),
    decreases s.len(),
{
    if s.len() > 0 {
        let d = s.drop_last();
        assert forall|i: int| 0 <= i < d.len() implies #[trigger] d[i].tts_id != id by {
            assert(d[i] == s[i]);
        }
        lemma_audio_map_absent(d, id);
        assert(s.last() == s[s.len() - 1]);
    }
}

proof fn lemma_audio_map_present(s: Seq<SavedAudioView>, i: int)
    requires
        distinct_ids(s),
        0 <= i < s.len(),
    ensures
        audio_map(s).contains_key(s[i].tts_id),
        audio_map(s)[s[i].tts_id] == s[i],
    decreases s.len(),
{
    let d = s.drop_last();
    if i < s.len() - 1 {
        assert(d[i] == s[i]);
        assert(distinct_ids(d)) by {
            assert forall|a: int, b: int|
                0 <= a < d.len() && 0 <= b < d.len() && a != b implies #[trigger] d[a].tts_id
                != #[trigger] d[b].tts_id by {
                assert(d[a] == s[a] && d[b] == s[b]);
            }
        }
        lemma_audio_map_present(d, i);
        assert(s[s.len() - 1].tts_id != s[i].tts_id);
    }
}

proof fn lemma_audio_map_push(s: Seq<SavedAudioView>, v: SavedAudioView)
    ensures
        audio_map(s.push(v)) == audio_map(s).insert(v.tts_id, v),
{
    assert(s.push(v).drop_last() =~= s);
}

proof fn lemma_audio_map_update(s: Seq<SavedAudioView>, i: int, v: SavedAudioView)
    requires
        distinct_ids(s),
        0 <= i < s.len(),
        s[i].tts_id == v.tts_id,
    ensures
        audio_map(s.update(i, v)) == audio_map(s).insert(v.tts_id, v),
    decreases s.len(),
{
    let u = s.update(i, v);
    let d = s.drop_last();
    if i == s.len() - 1 {
        assert(u.drop_last() =~= d);
        assert(audio_map(u) =~= audio_map(s).insert(v.tts_id, v));
    } else {
        assert(u.drop_last() =~= d.update(i, v));
        assert(distinct_ids(d)) by {
            assert forall|a: int, b: int|
                0 <= a < d.len() && 0 <= b < d.len() && a != b implies #[trigger] d[a].tts_id
                != #[trigger] d[b].tts_id by {
                assert(d[a] == s[a] && d[b] == s[b]);
            }
        }
        assert(d[i] == s[i]);
        lemma_audio_map_update(d, i, v);
        assert(s[s.len() - 1].tts_id != s[i].tts_id);
        assert(u.last() == s.last());
        assert(audio_map(u) =~= audio_map(s).insert(v.tts_id, v));
    }
}

/// Synthesized audio kept for replay, at most one per TTS id.
pub struct TtsAudioRegistry {
    entries: Vec<SavedTtsAudio>,
}

impl TtsAudioRegistry {
    /// The entries, in the order they were first saved.
    pub closed spec fn entry_views(&self) -> Seq<SavedAudioView> {
        self.entries@.map_values(|a: SavedTtsAudio| a@)
    }

    pub closed spec fn well_formed(&self) -> bool {
        distinct_ids(self.entry_views())
    }
}

impl View for TtsAudioRegistry {
    type V = Map<Seq<char>, SavedAudioView>;

    closed spec fn view(&self) -> Map<Seq<char>, SavedAudioView> {
        audio_map(self.entry_views())
    }
}

impl TtsAudioRegistry {
    /// An empty registry.
    pub fn new() -> (r: TtsAudioRegistry)
        ensures
            r.well_formed(),
            r@ == Map::<Seq<char>, SavedAudioView>::empty(),
    {
        let r = TtsAudioRegistry { entries: Vec::new() };
        assert(r.entry_views() =~= Seq::<SavedAudioView>::empty());
        r
    }

    /// The position of the entry with this id.
    fn position(&self, tts_id: &str) -> (r: Option<usize>)
        requires
            self.well_formed(),
        ensures
            match r {
                Some(i) => i < self.entries@.len() && self.entry_views()[i as int].tts_id == tts_id@,
                None => forall|i: int|
                    0 <= i < self.entry_views().len() ==> #[trigger] self.entry_views()[i].tts_id
                        != tts_id@,
            },
    {
        let mut i: usize = 0;
        while i < self.entries.len()
            invariant
                i <= self.entries@.len(),
                forall|j: int| 0 <= j < i ==> #[trigger] self.entry_views()[j].tts_id != tts_id@,
            decreases self.entries.len() - i,
        {
            if str_eq(self.entries[i].tts_id.as_str(), tts_id) {
                return Some(i);
            }
            i += 1;
        }
        None
    }

    /// Saves audio, replacing what was saved under the same id.
    pub fn register(&mut self, saved: SavedTtsAudio)
        requires
            old(self).well_formed(),
        ensures
            final(self).well_formed(),
            final(self)@ == old(self)@.insert(saved@.tts_id, saved@),
    {
        let ghost before = self.entry_views();
        let ghost v = saved@;
        match self.position(saved.tts_id.as_str()) {
            Some(i) => {
                self.entries.set(i, saved);
                proof {
                    assert(self.entry_views() =~= before.update(i as int, v));
                    lemma_audio_map_update(before, i as int, v);
                }
            },
            None => {
                self.entries.push(saved);
                proof {
                    assert(self.entry_views() =~= before.push(v));
                    lemma_audio_map_push(before, v);
                }
            },
        }
    }

    /// A copy of the audio saved under this id.
    pub fn find(&self, tts_id: &str) -> (r: Option<SavedTtsAudio>)
        requires
            self.well_formed(),
        ensures
            match r {
                Some(a) => self@.contains_key(tts_id@) && a@ == self@[tts_id@],
                None => !self@.contains_key(tts_id@),
            },
    {
        match self.position(tts_id) {
            Some(i) => {
                proof {
                    lemma_audio_map_present(self.entry_views(), i as int);
                }
                Some(self.entries[i].duplicate())
            },
            None => {
                proof {
                    lemma_audio_map_absent(self.entry_views(), tts_id@);
                }
                None
            },
        }
    }

    /// The audio to replay for this id, or the error reported when none was
    /// saved.
    pub fn find_for_replay(&self, tts_id: &str) -> (r: Result<SavedTtsAudio, String>)
        requires
            self.well_formed(),
        ensures
            match r {
                Ok(a) => self@.contains_key(tts_id@) && a@ == self@[tts_id@],
                Err(e) => !self@.contains_key(tts_id@) && e@ == "当前没有可重播的 TTS 音频："@
                    + tts_id@,
            },
    {
        match self.find(tts_id) {
            Some(a) => Ok(a),
            None => Err(concat("当前没有可重播的 TTS 音频：", tts_id)),
        }
    }
}

/// After audio is saved, finding its id gives that audio, and every other
/// id gives what it gave before.
pub proof fn lemma_find_after_register(
    before: Map<Seq<char>, SavedAudioView>,
    saved: SavedAudioView,
    other: Seq<char>,
)
    ensures
        before.insert(saved.tts_id, saved).contains_key(saved.tts_id),
        before.insert(saved.tts_id, saved)[saved.tts_id] == saved,
        other != saved.tts_id ==> before.insert(saved.tts_id, saved).contains_key(other)
            == before.contains_key(other) && before.insert(saved.tts_id, saved)[other]
            == before[other],
{
}

/// Saving the same audio twice leaves the registry as saving it once.
pub proof fn lemma_register_idempotent(before: Map<Seq<char>, SavedAudioView>, saved: SavedAudioView)
    ensures
        before.insert(saved.tts_id, saved).insert(saved.tts_id, saved) == before.insert(
            saved.tts_id,
            saved,
        ),
{
    assert(before.insert(saved.tts_id, saved).insert(saved.tts_id, saved) =~= before.insert(
        saved.tts_id,
        saved,
    ));
}

/// The status event payload of synthesized speech.
#[derive(Debug)]
pub struct TtsStatusPayload {
    pub tts_id: String,
    pub translation_item_id: String,
    pub status: String,
    pub model: String,
    pub voice: String,
    pub format: String,
    pub sample_rate: u32,
    pub audio_path: Option<String>,
    pub audio_url: Option<String>,
    pub file_size: Option<u64>,
    pub created_at: u128,
    pub completed_at: Option<u128>,
    pub error: Option<String>,
}

pub open spec fn opt_str_view(o: Option<&str>) -> Option<Seq<char>> {
    match o {
        Some(s) => Some(s@),
        None => None,
    }
}

fn opt_owned(o: Option<&str>) -> (r: Option<String>)
    ensures
        opt_view(r) == opt_str_view(o),
{
    match o {
        Some(s) => Some(owned(s)),
        None => None,
    }
}

impl TtsStatusPayload {
    /// The status of saved audio.
    pub fn from_saved(saved: &SavedTtsAudio, status: &str, error: Option<&str>) -> (r: TtsStatusPayload)
        ensures
            r.tts_id@ == saved.tts_id@,
            r.translation_item_id@ == saved.translation_item_id@,
            r.status@ == status@,
            r.model@ == saved.model@,
            r.voice@ == saved.voice@,
            r.format@ == saved.format@,
            r.sample_rate == saved.sample_rate,
            opt_view(r.audio_path) == opt_view(saved.audio_path),
            opt_view(r.audio_url) == opt_view(saved.audio_url),
            r.file_size == Some(saved.file_size),
            r.created_at == saved.created_at,
            r.completed_at == saved.completed_at,
            opt_view(r.error) == opt_str_view(error),
    {
        TtsStatusPayload {
            tts_id: saved.tts_id.clone(),
            translation_item_id: saved.translation_item_id.clone(),
            status: owned(status),
            model: saved.model.clone(),
            voice: saved.voice.clone(),
            format: saved.format.clone(),
            sample_rate: saved.sample_rate,
            audio_path: opt_clone(&saved.audio_path),
            audio_url: opt_clone(&saved.audio_url),
            file_size: Some(saved.file_size),
            created_at: saved.created_at,
            completed_at: saved.completed_at,
            error: opt_owned(error),
        }
    }

    /// The status of a request before any audio exists: while synthesizing,
    /// or when it failed.
    pub fn for_request(
        request: &TtsInvokeRequest,
        status: &str,
        model: &str,
        voice: &str,
        format: &str,
        sample_rate: u32,
        created_at: u128,
        completed_at: Option<u128>,
        error: Option<&str>,
    ) -> (r: TtsStatusPayload)
        ensures
            r.tts_id@ == request.tts_id@,
            r.translation_item_id@ == request.translation_item_id@,
            r.status@ == status@,
            r.model@ == model@,
            r.voice@ == voice@,
            r.format@ == format@,
            r.sample_rate == sample_rate,
            r.audio_path is None,
            r.audio_url is None,
            r.file_size is None,
            r.created_at == created_at,
            r.completed_at == completed_at,
            opt_view(r.error) == opt_str_view(error),
    {
        TtsStatusPayload {
            tts_id: request.tts_id.clone(),
            translation_item_id: request.translation_item_id.clone(),
            status: owned(status),
            model: owned(model),
            voice: owned(voice),
            format: owned(format),
            sample_rate,
            audio_path: None,
            audio_url: None,
            file_size: None,
            created_at,
            completed_at,
            error: opt_owned(error),
        }
    }
}

/// What stopping playback reports.
#[derive(Debug)]
pub struct StopOutcome {
    /// The id the stop refers to: the requested one, or `current`.
    pub tts_id: String,
    /// `stopped` when something was playing, else `idle`.
    pub playback_state: &'static str,
    /// The status then reported for the saved audio of that id.
    pub saved_status: &'static str,
}

/// The outcome of a stop request, given whether playback was stopped.
pub fn stop_outcome(request: StopTtsPlaybackRequest, stopped: bool) -> (r: StopOutcome)
    ensures
        r.tts_id@ == match request.tts_id {
            Some(id) => id@,
            None => "current"@,
        },
        r.playback_state@ == (if stopped { "stopped"@ } else { "idle"@ }),
        r.saved_status@ == (if stopped { "failed"@ } else { "completed"@ }),
{
    let tts_id = match request.tts_id {
        Some(id) => id,
        None => owned("current"),
    };
    if stopped {
        StopOutcome { tts_id, playback_state: "stopped", saved_status: "failed" }
    } else {
        StopOutcome { tts_id, playback_state: "idle", saved_status: "completed" }
    }
}

/// Which device plays the audio: the default one (`None`), or the named
/// one; a blank name is refused.
pub fn playback_device(output_device_name: Option<&str>) -> (r: Result<Option<String>, String>)
    ensures
        match output_device_name {
            None => r is Ok && r->Ok_0 is None,
            Some(n) => if is_blank_seq(n@) {
                r is Err && r->Err_0@ == "TTS 虚拟麦输出设备未配置。"@
            } else {
                r is Ok && opt_view(r->Ok_0) == Some(n@)
            },
        },
{
    match output_device_name {
        None => Ok(None),
        Some(n) => if is_blank(n) {
            Err(owned("TTS 虚拟麦输出设备未配置。"))
        } else {
            Ok(Some(owned(n)))
        },
    }
}

/// The error reported when no output device has the configured name.
pub fn output_device_missing_message(name: &str) -> (r: String)
    ensures
        r@ == "TTS 虚拟麦输出设备未找到："@ + name@,
{
    concat("TTS 虚拟麦输出设备未找到：", name)
}

/// Whether a device name answers to a configured one: equal, or holding it.
pub open spec fn device_matches(name: Seq<char>, configured: Seq<char>) -> bool {
    name == configured || contains_seq(name, configured)
}

/// The first device whose name answers to the configured name, trimmed;
/// none for a blank configured name.
pub fn find_output_device(names: &Vec<String>, configured_name: &str) -> (r: Option<usize>)
    ensures
        is_blank_seq(configured_name@) ==> r is None,
        !is_blank_seq(configured_name@) ==> match r {
            Some(i) => i < names@.len() && device_matches(names@[i as int]@, trim_seq(configured_name@))
                && forall|j: int|
                0 <= j < i ==> !device_matches(#[trigger] names@[j]@, trim_seq(configured_name@)),
            None => forall|j: int|
                0 <= j < names@.len() ==> !device_matches(
                    #[trigger] names@[j]@,
                    trim_seq(configured_name@),
                ),
        },
{
    let configured = trim(configured_name);
    if configured.as_str().is_empty() {
        return None;
    }
    let mut i: usize = 0;
    while i < names.len()
        invariant
            i <= names@.len(),
            configured@ == trim_seq(configured_name@),
            !is_blank_seq(configured_name@),
            forall|j: int| 0 <= j < i ==> !device_matches(#[trigger] names@[j]@, configured@),
        decreases names.len() - i,
    {
        let name = names[i].as_str();
        if str_eq(name, configured.as_str()) || contains(name, configured.as_str()) {
            return Some(i);
        }
        i += 1;
    }
    None
}

/// The language announced to Qwen TTS: `Chinese` for the targets `zh` and
/// `zh-CN`, `English` for `en` and `en-US`, `Auto` for any other.
pub proof fn lemma_tts_language_names(target_lang: Seq<char>)
    ensures
        (target_lang == "zh"@ || target_lang == "zh-CN"@) ==> tts_language_type(target_lang)
            == "Chinese"@,
        (target_lang == "en"@ || target_lang == "en-US"@) ==> tts_language_type(target_lang)
            == "English"@,
        !(target_lang == "zh"@ || target_lang == "zh-CN"@ || target_lang == "en"@ || target_lang
            == "en-US"@) ==> tts_language_type(target_lang) == "Auto"@,
{
    reveal_strlit("zh");
    reveal_strlit("zh-CN");
    reveal_strlit("en");
    reveal_strlit("en-US");
    assert("zh"@[0] != "en"@[0]);
    assert("zh"@ != "en"@);
    assert("zh"@.len() != "en-US"@.len());
    assert("zh"@ != "en-US"@);
    assert("zh-CN"@.len() != "en"@.len());
    assert("zh-CN"@ != "en"@);
    assert("zh-CN"@[0] != "en-US"@[0]);
    assert("zh-CN"@ != "en-US"@);
}

} // verus!
