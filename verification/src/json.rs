//! JSON values as the library reads them: provider replies, ASR messages and
//! event payloads. Numbers are kept in their textual form, since nothing here
//! computes with them.
use vstd::prelude::*;
use crate::text::{all_digits, chars_of, digits_value, is_ascii_digit, is_digit, str_eq};

verus! {

#[derive(Debug)]
pub enum JsonValue {
    Null,
    Bool(bool),
    Number(String),
    String(String),
    Array(Vec<JsonValue>),
    Object(Vec<(String, JsonValue)>),
}

/// The content of a JSON value, with strings as character sequences.
pub enum JsonData {
    Null,
    Bool(bool),
    Number(Seq<char>),
    Text(Seq<char>),
    Array(Seq<JsonData>),
    Object(Seq<(Seq<char>, JsonData)>),
}

impl JsonValue {
    pub open spec fn data(&self) -> JsonData
        decreases self,
    {
        match self {
            JsonValue::Null => JsonData::Null,
            JsonValue::Bool(b) => JsonData::Bool(*b),
            JsonValue::Number(n) => JsonData::Number(n@),
            JsonValue::String(s) => JsonData::Text(s@),
            JsonValue::Array(items) => JsonData::Array(
                Seq::new(
                    items@.len(),
                    |i: int|
                        if 0 <= i < items@.len() {
                            items@[i].data()
                        } else {
                            JsonData::Null
                        },
                ),
            ),
            JsonValue::Object(entries) => JsonData::Object(
                Seq::new(
                    entries@.len(),
                    |i: int|
                        if 0 <= i < entries@.len() {
                            (entries@[i].0@, entries@[i].1.data())
                        } else {
                            (Seq::empty(), JsonData::Null)
                        },
                ),
            ),
        }
    }
}

/// The value of the first member named `key`.
pub open spec fn member(entries: Seq<(String, JsonValue)>, key: Seq<char>) -> Option<JsonValue>
    decreases entries.len(),
{
    if entries.len() == 0 {
        None
    } else if entries[0].0@ == key {
        Some(entries[0].1)
    } else {
        member(entries.drop_first(), key)
    }
}

/// An array index as a JSON pointer token: ASCII digits without a leading
/// zero (a lone `0` excepted) and without a sign.
pub open spec fn pointer_index(token: Seq<char>) -> Option<nat> {
    if token.len() > 0 && all_digits(token) && (token[0] != '0' || token.len() == 1) {
        Some(digits_value(token))
    } else {
        None
    }
}

/// One step of a JSON pointer: a member of an object or an element of an
/// array; nothing inside any other value.
pub open spec fn pointer_step(v: JsonValue, token: Seq<char>) -> Option<JsonValue> {
    match v {
        JsonValue::Object(entries) => member(entries@, token),
        JsonValue::Array(items) => match pointer_index(token) {
            Some(i) => if i < items@.len() {
                Some(items@[i as int])
            } else {
                None
            },
            None => None,
        },
        _ => None,
    }
}

/// The value that the JSON pointer made of `tokens` designates.
pub open spec fn pointer_path(v: JsonValue, tokens: Seq<Seq<char>>) -> Option<JsonValue>
    decreases tokens.len(),
{
    if tokens.len() == 0 {
        Some(v)
    } else {
        match pointer_step(v, tokens[0]) {
            Some(c) => pointer_path(c, tokens.drop_first()),
            None => None,
        }
    }
}

pub open spec fn str_views(tokens: Seq<&str>) -> Seq<Seq<char>> {
    tokens.map_values(|t: &str| t@)
}

/// The value that an optional reference designates.
pub open spec fn deref_opt(r: Option<&JsonValue>) -> Option<JsonValue> {
    match r {
        Some(v) => Some(*v),
        None => None,
    }
}

/// The text of a string value.
pub open spec fn text_of(v: Option<JsonValue>) -> Option<Seq<char>> {
    match v {
        Some(JsonValue::String(s)) => Some(s@),
        _ => None,
    }
}

/// The truth value of a boolean value.
pub open spec fn bool_of(v: Option<JsonValue>) -> Option<bool> {
    match v {
        Some(JsonValue::Bool(b)) => Some(b),
        _ => None,
    }
}

impl JsonValue {
    /// `Value::get` with a key: the member of an object.
    #[verifier::loop_isolation(false)]
    pub fn get(&self, key: &str) -> (r: Option<&JsonValue>)
        ensures
            deref_opt(r) == (match *self {
                JsonValue::Object(entries) => member(entries@, key@),
                _ => None,
            }),
    {
        match self {
            JsonValue::Object(entries) => {
                let mut i: usize = 0;
                assert(entries@.skip(0) =~= entries@);
                while i < entries.len()
                    invariant
                        i <= entries.len(),
                        member(entries@, key@) == member(entries@.skip(i as int), key@),
                    decreases entries.len() - i,
                {
                    if str_eq(entries[i].0.as_str(), key) {
                        proof {
                            assert(entries@.skip(i as int)[0] == entries@[i as int]);
                            assert(member(entries@.skip(i as int), key@) == Some(entries@[i as int].1));
                        }
                        return Some(&entries[i].1);
                    }
                    proof {
                        assert(entries@.skip(i as int).drop_first() =~= entries@.skip(i + 1));
                    }
                    i += 1;
                }
                None
            },
            _ => None,
        }
    }

    /// One JSON pointer step.
    pub fn step(&self, token: &str) -> (r: Option<&JsonValue>)
        ensures
            deref_opt(r) == pointer_step(*self, token@),
    {
        match self {
            JsonValue::Object(entries) => {
                let r = self.get(token);
                assert(pointer_step(*self, token@) == member(entries@, token@));
                r
            },
            JsonValue::Array(items) => match parse_pointer_index(token) {
                Some(i) => {
                    if i < items.len() {
                        assert(pointer_step(*self, token@) == Some(items@[i as int]));
                        Some(&items[i])
                    } else {
                        assert(pointer_step(*self, token@) is None);
                        None
                    }
                },
                None => {
                    assert(items@.len() == items.len());
                    assert(pointer_step(*self, token@) is None);
                    None
                },
            },
            _ => {
                assert(pointer_step(*self, token@) is None);
                None
            },
        }
    }

    /// `Value::pointer` for the pointer `/t0/t1/...` made of `tokens`, none
    /// of which holds `/` or `~`.
    pub fn pointer(&self, tokens: &Vec<&str>) -> (r: Option<&JsonValue>)
        ensures
            deref_opt(r) == pointer_path(*self, str_views(tokens@)),
    {
        let mut cur: &JsonValue = self;
        let mut i: usize = 0;
        assert(str_views(tokens@).skip(0) =~= str_views(tokens@));
        while i < tokens.len()
            invariant
                i <= tokens.len(),
                pointer_path(*self, str_views(tokens@)) == pointer_path(
                    *cur,
                    str_views(tokens@).skip(i as int),
                ),
            decreases tokens.len() - i,
        {
            let ghost rest = str_views(tokens@).skip(i as int);
            proof {
                assert(rest[0] == tokens@[i as int]@);
                assert(rest.drop_first() =~= str_views(tokens@).skip(i + 1));
            }
            match cur.step(tokens[i]) {
                Some(next) => {
                    cur = next;
                },
                None => {
                    return None;
                },
            }
            i += 1;
        }
        proof {
            assert(str_views(tokens@).skip(i as int).len() == 0);
        }
        Some(cur)
    }

    pub fn as_str(&self) -> (r: Option<&str>)
        ensures
            match *self {
                JsonValue::String(s) => r is Some && r->0@ == s@,
                _ => r is None,
            },
    {
        match self {
            JsonValue::String(s) => Some(s.as_str()),
            _ => None,
        }
    }

    pub fn as_bool(&self) -> (r: Option<bool>)
        ensures
            r == bool_of(Some(*self)),
    {
        match self {
            JsonValue::Bool(b) => Some(*b),
            _ => None,
        }
    }

    /// A copy of the whole value.
    #[verifier::loop_isolation(false)]
    pub fn deep_clone(&self) -> (r: JsonValue)
        ensures
            r.data() == self.data(),
        decreases self,
    {
        match self {
            JsonValue::Null => JsonValue::Null,
            JsonValue::Bool(b) => JsonValue::Bool(*b),
            JsonValue::Number(n) => JsonValue::Number(n.clone()),
            JsonValue::String(s) => JsonValue::String(s.clone()),
            JsonValue::Array(items) => {
                let mut out: Vec<JsonValue> = Vec::new();
                let mut i: usize = 0;
                while i < items.len()
                    invariant
                        i <= items.len(),
                        out@.len() == i,
                        forall|j: int| 0 <= j < i ==> (#[trigger] out@[j]).data() == items@[j].data(),
                    decreases items.len() - i,
                {
                    let c = items[i].deep_clone();
                    out.push(c);
                    i += 1;
                }
                let ghost mine = Seq::new(
                    out@.len(),
                    |j: int|
                        if 0 <= j < out@.len() {
                            out@[j].data()
                        } else {
                            JsonData::Null
                        },
                );
                let ghost theirs = Seq::new(
                    items@.len(),
                    |j: int|
                        if 0 <= j < items@.len() {
                            items@[j].data()
                        } else {
                            JsonData::Null
                        },
                );
                assert(mine =~= theirs);
                let r = JsonValue::Array(out);
                assert(r.data()->Array_0 =~= mine);
                assert(self.data()->Array_0 =~= theirs);
                r
            },
            JsonValue::Object(entries) => {
                let mut out: Vec<(String, JsonValue)> = Vec::new();
                let mut i: usize = 0;
                while i < entries.len()
                    invariant
                        i <= entries.len(),
                        out@.len() == i,
                        forall|j: int|
                            0 <= j < i ==> (#[trigger] out@[j]).0@ == entries@[j].0@ && out@[j].1.data()
                                == entries@[j].1.data(),
                    decreases entries.len() - i,
                {
                    let c = entries[i].1.deep_clone();
                    out.push((entries[i].0.clone(), c));
                    i += 1;
                }
                let ghost mine = Seq::new(
                    out@.len(),
                    |j: int|
                        if 0 <= j < out@.len() {
                            (out@[j].0@, out@[j].1.data())
                        } else {
                            (Seq::empty(), JsonData::Null)
                        },
                );
                let ghost theirs = Seq::new(
                    entries@.len(),
                    |j: int|
                        if 0 <= j < entries@.len() {
                            (entries@[j].0@, entries@[j].1.data())
                        } else {
                            (Seq::empty(), JsonData::Null)
                        },
                );
                assert(mine =~= theirs);
                let r = JsonValue::Object(out);
                assert(r.data()->Object_0 =~= mine);
                assert(self.data()->Object_0 =~= theirs);
                r
            },
        }
    }
}

/// Parses a JSON pointer token as an array index.
pub fn parse_pointer_index(token: &str) -> (r: Option<usize>)
    ensures
        match pointer_index(token@) {
            Some(i) => if i <= usize::MAX {
                r == Some(i as usize)
            } else {
                r is None
            },
            None => r is None,
        },
{
    let v = chars_of(token);
    if v.len() == 0 || (v[0] == '0' && v.len() != 1) {
        return None;
    }
    let mut acc: usize = 0;
    let mut i: usize = 0;
    let mut overflow = false;
    while i < v.len()
        invariant
            i <= v.len(),
            v@ == token@,
            all_digits(v@.subrange(0, i as int)),
            !overflow ==> acc as nat == digits_value(v@.subrange(0, i as int)),
            overflow ==> digits_value(v@.subrange(0, i as int)) > usize::MAX,
        decreases v.len() - i,
    {
        let c = v[i];
        if !is_digit(c) {
            proof {
                assert(!all_digits(v@));
            }
            return None;
        }
        let ghost pre = v@.subrange(0, i as int);
        let ghost next = v@.subrange(0, i + 1);
        proof {
            assert(next.drop_last() =~= pre);
            assert forall|j: int| 0 <= j < next.len() implies is_ascii_digit(#[trigger] next[j]) by {
                if j < pre.len() {
                    assert(next[j] == pre[j]);
                }
            }
        }
        let d = (c as u32 - 48) as usize;
        if !overflow {
            if acc > (usize::MAX - d) / 10 {
                proof {
                    assert(acc * 10 + d > usize::MAX) by (nonlinear_arith)
                        requires
                            acc > (usize::MAX - d) / 10,
                            d <= 9,
                    ;
                }
                overflow = true;
            } else {
                proof {
                    assert(acc * 10 + d <= usize::MAX) by (nonlinear_arith)
                        requires
                            acc <= (usize::MAX - d) / 10,
                            d <= 9,
                    ;
                }
                acc = acc * 10 + d;
            }
        } else {
            proof {
                assert(digits_value(next) >= digits_value(pre)) by (nonlinear_arith)
                    requires
                        digits_value(next) == digits_value(pre) * 10 + d,
                ;
            }
        }
        i += 1;
    }
    proof {
        assert(v@.subrange(0, v@.len() as int) =~= v@);
    }
    if overflow {
        None
    } else {
        Some(acc)
    }
}

} // verus!
