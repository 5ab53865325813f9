//! Redaction of secrets from diagnostics: whole texts that mention an
//! authorization header, a bearer token or an API key variable, and JSON
//! members whose names suggest a secret.
use vstd::prelude::*;
use crate::json::{JsonData, JsonValue};
use crate::text::{contains, contains_seq, owned, str_eq};

verus! {

/// What `str::to_lowercase` returns for a string: its Unicode lowercase
/// mapping, which depends on the characters alone.
pub uninterp spec fn unicode_lowercase(s: Seq<char>) -> Seq<char>;

/// Calls `str::to_lowercase`. Its result is named, not described: the
/// Unicode lowercase mapping is not restated here.
#[verifier::external_body]
pub(crate) fn to_lowercase(s: &str) -> (r: String)
    ensures
        r@ == unicode_lowercase(s@),
{
    s.to_lowercase()
}

pub open spec fn redacted_marker() -> Seq<char> {
    "[REDACTED]"@
}

/// Whether a lowercased text mentions one of the secret markers.
pub open spec fn mentions_secret(lowered: Seq<char>) -> bool {
    ||| contains_seq(lowered, "authorization"@)
    ||| contains_seq(lowered, "bearer"@)
    ||| contains_seq(lowered, "dashscope_api_key"@)
    ||| contains_seq(lowered, "game_tts_api_key"@)
}

/// A text with its lowercase form `lowered`, after redaction.
pub open spec fn redacted_text_with(text: Seq<char>, lowered: Seq<char>) -> Seq<char> {
    if mentions_secret(lowered) {
        redacted_marker()
    } else {
        text
    }
}

/// A text after redaction.
pub open spec fn redacted_text(text: Seq<char>) -> Seq<char> {
    redacted_text_with(text, unicode_lowercase(text))
}

/// Whether a lowercased member name suggests that the member holds a secret.
pub open spec fn sensitive_key(lowered: Seq<char>) -> bool {
    ||| contains_seq(lowered, "key"@)
    ||| contains_seq(lowered, "token"@)
    ||| contains_seq(lowered, "secret"@)
    ||| contains_seq(lowered, "password"@)
    ||| lowered == "authorization"@
}

/// A JSON value after redaction: members with a sensitive name are replaced
/// by the marker, strings are redacted as texts, and everything else keeps
/// its shape.
pub open spec fn redacted(d: JsonData) -> JsonData
    decreases d,
{
    match d {
        JsonData::Object(entries) => JsonData::Object(
            Seq::new(
                entries.len(),
                |i: int|
                    if 0 <= i < entries.len() {
                        (
                            entries[i].0,
                            if sensitive_key(unicode_lowercase(entries[i].0)) {
                                JsonData::Text(redacted_marker())
                            } else {
                                redacted(entries[i].1)
                            },
                        )
                    } else {
                        (Seq::empty(), JsonData::Null)
                    },
            ),
        ),
        JsonData::Array(items) => JsonData::Array(
            Seq::new(
                items.len(),
                |i: int|
                    if 0 <= i < items.len() {
                        redacted(items[i])
                    } else {
                        JsonData::Null
                    },
            ),
        ),
        JsonData::Text(t) => JsonData::Text(redacted_text(t)),
        other => other,
    }
}

fn marker() -> (r: String)
    ensures
        r@ == redacted_marker(),
{
    owned("[REDACTED]")
}

/// Redaction of a text whose lowercase form is `lowered`.
pub fn redact_text_with(input: &str, lowered: &str) -> (r: String)
    ensures
        r@ == redacted_text_with(input@, lowered@),
{
    if contains(lowered, "authorization") || contains(lowered, "bearer") || contains(
        lowered,
        "dashscope_api_key",
    ) || contains(lowered, "game_tts_api_key") {
        marker()
    } else {
        owned(input)
    }
}

/// Replaces a text that mentions an authorization header, a bearer token or
/// an API key variable, in any letter case, by `[REDACTED]`.
pub fn redact_text(input: &str) -> (r: String)
    ensures
        r@ == redacted_text(input@),
{
    let lowered = to_lowercase(input);
    redact_text_with(input, lowered.as_str())
}

/// Whether a member name, lowercased as `lowered`, suggests a secret.
pub fn is_sensitive_key(lowered: &str) -> (b: bool)
    ensures
        b == sensitive_key(lowered@),
{
    contains(lowered, "key") || contains(lowered, "token") || contains(lowered, "secret")
        || contains(lowered, "password") || str_eq(lowered, "authorization")
}

/// Redacts secrets anywhere inside a JSON value.
pub fn redact_json(value: JsonValue) -> (r: JsonValue)
    ensures
        r.data() == redacted(value.data()),
{
    redact_json_ref(&value)
}

#[verifier::loop_isolation(false)]
fn redact_json_ref(value: &JsonValue) -> (r: JsonValue)
    ensures
        r.data() == redacted(value.data()),
    decreases value,
{
    match value {
        JsonValue::Object(entries) => {
            let mut out: Vec<(String, JsonValue)> = Vec::new();
            let mut i: usize = 0;
            while i < entries.len()
                invariant
                    i <= entries.len(),
                    out@.len() == i,
                    forall|j: int|
                        0 <= j < i ==> (#[trigger] out@[j]).0@ == entries@[j].0@ && out@[j].1.data()
                            == (if sensitive_key(unicode_lowercase(entries@[j].0@)) {
                            JsonData::Text(redacted_marker())
                        } else {
                            redacted(entries@[j].1.data())
                        }),
                decreases entries.len() - i,
            {
                let lowered = to_lowercase(entries[i].0.as_str());
                let item = if is_sensitive_key(lowered.as_str()) {
                    JsonValue::String(marker())
                } else {
                    redact_json_ref(&entries[i].1)
                };
                out.push((entries[i].0.clone(), item));
                i += 1;
            }
            let ghost mine = Seq::new(
                out@.len(),
                |j: int|
                    if 0 <= j < out@.len() {
                        (out@[j].0@, out@[j].1.data())
                    } else {
                        (Seq::empty(), JsonData::Null)
                    },
            );
            let ghost es = value.data()->Object_0;
            let ghost theirs = Seq::new(
                es.len(),
                |j: int|
                    if 0 <= j < es.len() {
                        (
                            es[j].0,
                            if sensitive_key(unicode_lowercase(es[j].0)) {
                                JsonData::Text(redacted_marker())
                            } else {
                                redacted(es[j].1)
                            },
                        )
                    } else {
                        (Seq::empty(), JsonData::Null)
                    },
            );
            assert(mine =~= theirs);
            let r = JsonValue::Object(out);
            assert(r.data()->Object_0 =~= mine);
            assert(redacted(value.data())->Object_0 =~= theirs);
            r
        },
        JsonValue::Array(items) => {
            let mut out: Vec<JsonValue> = Vec::new();
            let mut i: usize = 0;
            while i < items.len()
                invariant
                    i <= items.len(),
                    out@.len() == i,
                    forall|j: int|
                        0 <= j < i ==> (#[trigger] out@[j]).data() == redacted(items@[j].data()),
                decreases items.len() - i,
            {
                let item = redact_json_ref(&items[i]);
                out.push(item);
                i += 1;
            }
            let ghost mine = Seq::new(
                out@.len(),
                |j: int|
                    if 0 <= j < out@.len() {
                        out@[j].data()
                    } else {
                        JsonData::Null
                    },
            );
            let ghost xs = value.data()->Array_0;
            let ghost theirs = Seq::new(
                xs.len(),
                |j: int|
                    if 0 <= j < xs.len() {
                        redacted(xs[j])
                    } else {
                        JsonData::Null
                    },
            );
            assert(mine =~= theirs);
            let r = JsonValue::Array(out);
            assert(r.data()->Array_0 =~= mine);
            assert(redacted(value.data())->Array_0 =~= theirs);
            r
        },
        JsonValue::String(text) => JsonValue::String(redact_text(text.as_str())),
        JsonValue::Null => JsonValue::Null,
        JsonValue::Bool(b) => JsonValue::Bool(*b),
        JsonValue::Number(n) => JsonValue::Number(n.clone()),
    }
}

/// After redaction, a text either is the marker or, lowercased, mentions no
/// secret marker: no text that mentions one survives.
pub proof fn lemma_redacted_text_is_safe(text: Seq<char>)
    ensures
        redacted_text(text) == redacted_marker() || (redacted_text(text) == text
            && !mentions_secret(unicode_lowercase(text))),
{
}

/// Every member whose name suggests a secret holds the marker after
/// redaction, at any depth reached through objects and arrays, and the
/// members keep their names and order.
pub proof fn lemma_sensitive_members_redacted(entries: Seq<(Seq<char>, JsonData)>, i: int)
    requires
        0 <= i < entries.len(),
    ensures
        redacted(JsonData::Object(entries))->Object_0.len() == entries.len(),
        redacted(JsonData::Object(entries))->Object_0[i].0 == entries[i].0,
        sensitive_key(unicode_lowercase(entries[i].0)) ==> redacted(
            JsonData::Object(entries),
        )->Object_0[i].1 == JsonData::Text(redacted_marker()),
        !sensitive_key(unicode_lowercase(entries[i].0)) ==> redacted(
            JsonData::Object(entries),
        )->Object_0[i].1 == redacted(entries[i].1),
{
}

/// Redaction keeps the shape of arrays and leaves values that hold no text
/// unchanged.
pub proof fn lemma_redaction_keeps_shape(items: Seq<JsonData>, i: int, b: bool, n: Seq<char>)
    requires
        0 <= i < items.len(),
    ensures
        redacted(JsonData::Array(items))->Array_0.len() == items.len(),
        redacted(JsonData::Array(items))->Array_0[i] == redacted(items[i]),
        redacted(JsonData::Null) == JsonData::Null,
        redacted(JsonData::Bool(b)) == JsonData::Bool(b),
        redacted(JsonData::Number(n)) == JsonData::Number(n),
{
}

/// A member name counts as secret exactly when, lowercased, it holds
/// `key`, `token`, `secret` or `password`, or is `authorization`.
pub proof fn lemma_sensitive_words(lowered: Seq<char>)
    ensures
        sensitive_key(lowered) <==> (contains_seq(lowered, "key"@) || contains_seq(lowered, "token"@)
            || contains_seq(lowered, "secret"@) || contains_seq(lowered, "password"@) || lowered
            == "authorization"@),
{
}

/// After redaction, every member whose lowercased name holds `key`,
/// `token`, `secret` or `password`, or is `authorization`, keeps its name
/// and holds the text `[REDACTED]`.
pub proof fn lemma_secret_members_hold_marker(entries: Seq<(Seq<char>, JsonData)>, i: int)
    requires
        0 <= i < entries.len(),
        ({
            let l = unicode_lowercase(entries[i].0);
            contains_seq(l, "key"@) || contains_seq(l, "token"@) || contains_seq(l, "secret"@)
                || contains_seq(l, "password"@) || l == "authorization"@
        }),
    ensures
        redacted(JsonData::Object(entries))->Object_0.len() == entries.len(),
        redacted(JsonData::Object(entries))->Object_0[i].0 == entries[i].0,
        redacted(JsonData::Object(entries))->Object_0[i].1 == JsonData::Text("[REDACTED]"@),
{
}

} // verus!
