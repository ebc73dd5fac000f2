use vstd::prelude::*;
use crate::text::str_eq;

verus! {

/// A JSON number as the JSON layer hands it over: a non-negative integer, a
/// negative integer, or any other number kept in its textual form.
#[derive(Debug, Clone, PartialEq, Eq)]
pub enum JsonNumber {
    PosInt(u64),
    NegInt(i64),
    Other(String),
}

/// A JSON document: the values that the server reads from requests and
/// writes into responses.
#[derive(Debug)]
pub enum JsonValue {
    Null,
    Bool(bool),
    Number(JsonNumber),
    String(String),
    Array(Vec<JsonValue>),
    Object(Vec<(String, JsonValue)>),
}

/// The mathematical model of a JSON number.
pub enum NumberModel {
    PosInt(u64),
    NegInt(i64),
    Other(Seq<char>),
}

/// The mathematical model of a JSON document. Objects keep their members in
/// order; a lookup finds the first member with the key.
pub enum JsonModel {
    Null,
    Bool(bool),
    Number(NumberModel),
    Str(Seq<char>),
    Array(Seq<JsonModel>),
    Object(Seq<(Seq<char>, JsonModel)>),
}

pub open spec fn number_model(n: JsonNumber) -> NumberModel {
    match n {
        JsonNumber::PosInt(u) => NumberModel::PosInt(u),
        JsonNumber::NegInt(i) => NumberModel::NegInt(i),
        JsonNumber::Other(s) => NumberModel::Other(s@),
    }
}

pub open spec fn json_model(v: JsonValue) -> JsonModel
    decreases v, 0nat,
{
    match v {
        JsonValue::Null => JsonModel::Null,
        JsonValue::Bool(b) => JsonModel::Bool(b),
        JsonValue::Number(n) => JsonModel::Number(number_model(n)),
        JsonValue::String(s) => JsonModel::Str(s@),
        JsonValue::Array(a) => JsonModel::Array(seq_model(a@)),
        JsonValue::Object(m) => JsonModel::Object(members_model(m@)),
    }
}

pub open spec fn seq_model(s: Seq<JsonValue>) -> Seq<JsonModel>
    decreases s, s.len(),
{
    if s.len() == 0 {
        Seq::empty()
    } else {
        seq_model(s.drop_last()).push(json_model(s.last()))
    }
}

pub open spec fn members_model(s: Seq<(String, JsonValue)>) -> Seq<(Seq<char>, JsonModel)>
    decreases s, s.len(),
{
    if s.len() == 0 {
        Seq::empty()
    } else {
        members_model(s.drop_last()).push((s.last().0@, json_model(s.last().1)))
    }
}

impl View for JsonValue {
    type V = JsonModel;

    open spec fn view(&self) -> JsonModel {
        json_model(*self)
    }
}


/// The member of an object model under `key`: the first one, if any.
pub open spec fn members_get(m: Seq<(Seq<char>, JsonModel)>, key: Seq<char>) -> Option<JsonModel>
    decreases m.len(),
{
    if m.len() == 0 {
        None
    } else if m[0].0 == key {
        Some(m[0].1)
    } else {
        members_get(m.drop_first(), key)
    }
}

/// `value.get(key)`: the member under `key` of an object, `None` for any
/// other value.
pub open spec fn model_get(v: JsonModel, key: Seq<char>) -> Option<JsonModel> {
    match v {
        JsonModel::Object(m) => members_get(m, key),
        _ => None,
    }
}

/// `value.as_str()`.
pub open spec fn model_as_str(v: JsonModel) -> Option<Seq<char>> {
    match v {
        JsonModel::Str(s) => Some(s),
        _ => None,
    }
}

/// `value.as_u64()`: only a non-negative integer has one.
pub open spec fn model_as_u64(v: JsonModel) -> Option<u64> {
    match v {
        JsonModel::Number(NumberModel::PosInt(n)) => Some(n),
        _ => None,
    }
}

/// `value.as_bool()`.
pub open spec fn model_as_bool(v: JsonModel) -> Option<bool> {
    match v {
        JsonModel::Bool(b) => Some(b),
        _ => None,
    }
}

/// `args.and_then(|a| a.get(key)?.as_str())`.
pub open spec fn arg_str(args: Option<JsonModel>, key: Seq<char>) -> Option<Seq<char>> {
    match args {
        Some(a) => match model_get(a, key) {
            Some(v) => model_as_str(v),
            None => None,
        },
        None => None,
    }
}

/// `args.and_then(|a| a.get(key)?.as_u64())`.
pub open spec fn arg_u64(args: Option<JsonModel>, key: Seq<char>) -> Option<u64> {
    match args {
        Some(a) => match model_get(a, key) {
            Some(v) => model_as_u64(v),
            None => None,
        },
        None => None,
    }
}

pub open spec fn opt_model(v: Option<&JsonValue>) -> Option<JsonModel> {
    match v {
        Some(x) => Some(x@),
        None => None,
    }
}

/// Appending a member appends its model.
pub proof fn lemma_members_push(s: Seq<(String, JsonValue)>, k: String, v: JsonValue)
    ensures
        members_model(s.push((k, v))) == members_model(s).push((k@, v@)),
{
    assert(s.push((k, v)).drop_last() =~= s);
}

/// Appending an item appends its model.
pub proof fn lemma_seq_push(s: Seq<JsonValue>, v: JsonValue)
    ensures
        seq_model(s.push(v)) == seq_model(s).push(v@),
{
    assert(s.push(v).drop_last() =~= s);
}

/// The model of the members has one entry per member, in order.
pub proof fn lemma_members_len(s: Seq<(String, JsonValue)>)
    ensures
        members_model(s).len() == s.len(),
        forall|i: int| 0 <= i < s.len() ==> #[trigger] members_model(s)[i] == (s[i].0@, s[i].1@),
    decreases s.len(),
{
    if s.len() > 0 {
        lemma_members_len(s.drop_last());
    }
}

/// The lowercase hexadecimal digit of `d` (`0` to `15`).
pub open spec fn hex_digit(d: int) -> char {
    if d < 10 {
        ('0' as int + d) as char
    } else {
        ('a' as int + (d - 10)) as char
    }
}

/// How a JSON string writes the character `c`: a quote or a backslash gets a
/// backslash in front; backspace, tab, line feed, form feed and carriage
/// return are written `\b`, `\t`, `\n`, `\f`, `\r`; any other character
/// below U+0020 as `\u00` and two lowercase hexadecimal digits; every other
/// character as it is.
pub open spec fn json_escape_char(c: char) -> Seq<char> {
    if c == '"' {
        seq!['\\', '"']
    } else if c == '\\' {
        seq!['\\', '\\']
    } else if c == '\x08' {
        seq!['\\', 'b']
    } else if c == '\t' {
        seq!['\\', 't']
    } else if c == '\n' {
        seq!['\\', 'n']
    } else if c == '\x0c' {
        seq!['\\', 'f']
    } else if c == '\r' {
        seq!['\\', 'r']
    } else if (c as u32) < 0x20 {
        seq![
            '\\',
            'u',
            '0',
            '0',
            hex_digit((c as u32) as int / 16),
            hex_digit((c as u32) as int % 16),
        ]
    } else {
        seq![c]
    }
}

/// The characters of `s` as a JSON string writes them between its quotes.
pub open spec fn json_escape(s: Seq<char>) -> Seq<char>
    decreases s.len(),
{
    if s.len() == 0 {
        Seq::empty()
    } else {
        json_escape_char(s[0]) + json_escape(s.skip(1))
    }
}

/// The JSON text of the string `s`: its characters, escaped as JSON
/// escapes them, between double quotes.
pub open spec fn json_string_literal(s: Seq<char>) -> Seq<char> {
    seq!['"'] + json_escape(s) + seq!['"']
}

/// `serde_json::to_string(s)` for a string slice. serde_json serialises into
/// a vector of bytes, whose writer cannot fail, so the call always returns
/// `Ok`. The text is the string between double quotes with the escapes of
/// serde_json's compact formatter (its `ESCAPE` table and
/// `write_char_escape`): `json_string_literal(s@)`.
#[verifier::external_body]
pub(crate) fn json_quote(s: &str) -> (r: Result<String, String>)
    ensures
        r is Ok,
        r matches Ok(t) ==> t@ == json_string_literal(s@),
{
    serde_json::to_string(s).map_err(|e| e.to_string())
}

/// A string value.
pub fn json_string(s: String) -> (r: JsonValue)
    ensures
        r@ == JsonModel::Str(s@),
{
    JsonValue::String(s)
}

/// A string value from a literal or a borrowed string.
pub fn json_str(s: &str) -> (r: JsonValue)
    ensures
        r@ == JsonModel::Str(s@),
{
    JsonValue::String(s.to_owned())
}

/// An object with no members yet.
pub fn members_new() -> (m: Vec<(String, JsonValue)>)
    ensures
        members_model(m@) == Seq::<(Seq<char>, JsonModel)>::empty(),
        m@.len() == 0,
{
    Vec::new()
}

/// Appends the member `key: value` to the members of an object.
pub fn push_member(m: &mut Vec<(String, JsonValue)>, key: &str, value: JsonValue)
    ensures
        members_model(final(m)@) == members_model(old(m)@).push((key@, value@)),
        final(m)@.len() == old(m)@.len() + 1,
{
    let k = key.to_owned();
    let ghost old_m = m@;
    m.push((k, value));
    proof {
        lemma_members_push(old_m, k, value);
    }
}

/// An array from its items.
pub fn json_array(items: Vec<JsonValue>) -> (r: JsonValue)
    ensures
        r@ == JsonModel::Array(seq_model(items@)),
{
    JsonValue::Array(items)
}

/// An object from its members.
pub fn json_object(m: Vec<(String, JsonValue)>) -> (r: JsonValue)
    ensures
        r@ == JsonModel::Object(members_model(m@)),
{
    JsonValue::Object(m)
}

/// An object of one member.
pub fn object1(k1: &str, v1: JsonValue) -> (r: JsonValue)
    ensures
        r@ == JsonModel::Object(seq![(k1@, v1@)]),
{
    let mut m = members_new();
    push_member(&mut m, k1, v1);
    assert(members_model(m@) =~= seq![(k1@, v1@)]);
    json_object(m)
}

/// An object of two members, in this order.
pub fn object2(k1: &str, v1: JsonValue, k2: &str, v2: JsonValue) -> (r: JsonValue)
    ensures
        r@ == JsonModel::Object(seq![(k1@, v1@), (k2@, v2@)]),
{
    let mut m = members_new();
    push_member(&mut m, k1, v1);
    push_member(&mut m, k2, v2);
    assert(members_model(m@) =~= seq![(k1@, v1@), (k2@, v2@)]);
    json_object(m)
}

/// An object of three members, in this order.
pub fn object3(k1: &str, v1: JsonValue, k2: &str, v2: JsonValue, k3: &str, v3: JsonValue) -> (r: JsonValue)
    ensures
        r@ == JsonModel::Object(seq![(k1@, v1@), (k2@, v2@), (k3@, v3@)]),
{
    let mut m = members_new();
    push_member(&mut m, k1, v1);
    push_member(&mut m, k2, v2);
    push_member(&mut m, k3, v3);
    assert(members_model(m@) =~= seq![(k1@, v1@), (k2@, v2@), (k3@, v3@)]);
    json_object(m)
}

/// An object of four members, in this order.
pub fn object4(
    k1: &str,
    v1: JsonValue,
    k2: &str,
    v2: JsonValue,
    k3: &str,
    v3: JsonValue,
    k4: &str,
    v4: JsonValue,
) -> (r: JsonValue)
    ensures
        r@ == JsonModel::Object(seq![(k1@, v1@), (k2@, v2@), (k3@, v3@), (k4@, v4@)]),
{
    let mut m = members_new();
    push_member(&mut m, k1, v1);
    push_member(&mut m, k2, v2);
    push_member(&mut m, k3, v3);
    push_member(&mut m, k4, v4);
    assert(members_model(m@) =~= seq![(k1@, v1@), (k2@, v2@), (k3@, v3@), (k4@, v4@)]);
    json_object(m)
}

pub fn clone_number(n: &JsonNumber) -> (r: JsonNumber)
    ensures
        number_model(r) == number_model(*n),
{
    match n {
        JsonNumber::PosInt(u) => JsonNumber::PosInt(*u),
        JsonNumber::NegInt(i) => JsonNumber::NegInt(*i),
        JsonNumber::Other(s) => JsonNumber::Other(s.clone()),
    }
}

/// A copy of `v` with the same model.
pub fn clone_json(v: &JsonValue) -> (r: JsonValue)
    ensures
        r@ == v@,
    decreases v,
{
    match v {
        JsonValue::Null => JsonValue::Null,
        JsonValue::Bool(b) => JsonValue::Bool(*b),
        JsonValue::Number(n) => JsonValue::Number(clone_number(n)),
        JsonValue::String(s) => JsonValue::String(s.clone()),
        JsonValue::Array(a) => {
            let mut out: Vec<JsonValue> = Vec::new();
            let n = a.len();
            let mut i: usize = 0;
            while i < n
                invariant
                    n == a@.len(),
                    0 <= i <= n,
                    *v == JsonValue::Array(*a),
                    seq_model(out@) == seq_model(a@.take(i as int)),
                decreases n - i,
            {
                proof {
                    assert(decreases_to!(*v => (*v)->Array_0));
                    assert(decreases_to!(a => a@[i as int]));
                }
                let c = clone_json(&a[i]);
                let ghost before = out@;
                out.push(c);
                proof {
                    lemma_seq_push(before, c);
                    lemma_seq_push(a@.take(i as int), a@[i as int]);
                    assert(a@.take(i as int).push(a@[i as int]) =~= a@.take(i + 1));
                }
                i = i + 1;
            }
            assert(a@.take(n as int) =~= a@);
            JsonValue::Array(out)
        },
        JsonValue::Object(m) => {
            let mut out: Vec<(String, JsonValue)> = Vec::new();
            let n = m.len();
            let mut i: usize = 0;
            while i < n
                invariant
                    n == m@.len(),
                    0 <= i <= n,
                    *v == JsonValue::Object(*m),
                    members_model(out@) == members_model(m@.take(i as int)),
                decreases n - i,
            {
                proof {
                    assert(decreases_to!(*v => (*v)->Object_0));
                    assert(decreases_to!(m => m@[i as int]));
                    assert(decreases_to!(m@[i as int] => m@[i as int].1));
                }
                let k = m[i].0.clone();
                let c = clone_json(&m[i].1);
                let ghost before = out@;
                out.push((k, c));
                proof {
                    lemma_members_push(before, k, c);
                    lemma_members_push(m@.take(i as int), m@[i as int].0, m@[i as int].1);
                    assert(m@.take(i as int).push((m@[i as int].0, m@[i as int].1)) =~= m@.take(
                        i + 1,
                    ));
                }
                i = i + 1;
            }
            assert(m@.take(n as int) =~= m@);
            JsonValue::Object(out)
        },
    }
}

impl JsonValue {
    /// The member under `key` when `self` is an object; `None` otherwise.
    pub fn get(&self, key: &str) -> (r: Option<&JsonValue>)
        ensures
            opt_model(r) == model_get(self@, key@),
    {
        match self {
            JsonValue::Object(m) => {
                proof {
                    lemma_members_len(m@);
                }
                let n = m.len();
                let mut i: usize = 0;
                assert(members_model(m@).skip(0) =~= members_model(m@));
                while i < n
                    invariant
                        n == m@.len(),
                        0 <= i <= n,
                        self@ == JsonModel::Object(members_model(m@)),
                        members_get(members_model(m@), key@) == members_get(
                            members_model(m@).skip(i as int),
                            key@,
                        ),
                        members_model(m@).len() == m@.len(),
                        forall|j: int|
                            0 <= j < m@.len() ==> #[trigger] members_model(m@)[j] == (
                                m@[j].0@,
                                m@[j].1@,
                            ),
                    decreases n - i,
                {
                    let ghost rest = members_model(m@).skip(i as int);
                    assert(rest[0] == members_model(m@)[i as int]);
                    if str_eq(m[i].0.as_str(), key) {
                        assert(members_get(rest, key@) == Some(m@[i as int].1@));
                        return Some(&m[i].1);
                    }
                    assert(rest.drop_first() =~= members_model(m@).skip(i + 1));
                    i = i + 1;
                }
                None
            },
            _ => None,
        }
    }

    pub fn as_str(&self) -> (r: Option<&str>)
        ensures
            match r {
                Some(s) => model_as_str(self@) == Some(s@),
                None => model_as_str(self@) is None,
            },
    {
        match self {
            JsonValue::String(s) => Some(s.as_str()),
            _ => None,
        }
    }

    pub fn as_u64(&self) -> (r: Option<u64>)
        ensures
            r == model_as_u64(self@),
    {
        match self {
            JsonValue::Number(JsonNumber::PosInt(n)) => Some(*n),
            _ => None,
        }
    }

    pub fn as_bool(&self) -> (r: Option<bool>)
        ensures
            r == model_as_bool(self@),
    {
        match self {
            JsonValue::Bool(b) => Some(*b),
            _ => None,
        }
    }

    pub fn is_object(&self) -> (r: bool)
        ensures
            r == (self@ is Object),
    {
        match self {
            JsonValue::Object(_) => true,
            _ => false,
        }
    }
}

} // verus!

verus! {

/// The value of a hexadecimal digit, `-1` for any other character.
pub open spec fn hex_value(c: char) -> int {
    if '0' <= c <= '9' {
        c as int - '0' as int
    } else if 'a' <= c <= 'f' {
        c as int - 'a' as int + 10
    } else if 'A' <= c <= 'F' {
        c as int - 'A' as int + 10
    } else {
        -1
    }
}

/// The character that a one-letter escape `\e` stands for in a JavaScript
/// string literal: `b`, `t`, `n`, `f` and `r` stand for control characters,
/// any other character (such as `"` or `\`) for itself.
pub open spec fn js_escaped(e: char) -> char {
    if e == 'b' {
        '\x08'
    } else if e == 't' {
        '\t'
    } else if e == 'n' {
        '\n'
    } else if e == 'f' {
        '\x0c'
    } else if e == 'r' {
        '\r'
    } else {
        e
    }
}

/// How JavaScript reads a double-quoted string literal from just after its
/// opening quote, with the escapes that JSON writes (one-letter escapes, and
/// `\u` with four hexadecimal digits): the string's value and the text after
/// its closing quote, or `None` where the literal does not close.
pub open spec fn js_read_string_body(s: Seq<char>) -> Option<(Seq<char>, Seq<char>)>
    decreases s.len(),
{
    if s.len() == 0 {
        None
    } else if s[0] == '"' {
        Some((Seq::empty(), s.skip(1)))
    } else if s[0] == '\\' {
        if s.len() < 2 {
            None
        } else if s[1] == 'u' {
            if s.len() >= 6 && hex_value(s[2]) >= 0 && hex_value(s[3]) >= 0 && hex_value(s[4]) >= 0
                && hex_value(s[5]) >= 0 {
                let code = hex_value(s[2]) * 4096 + hex_value(s[3]) * 256 + hex_value(s[4]) * 16
                    + hex_value(s[5]);
                match js_read_string_body(s.skip(6)) {
                    Some(p) => Some((seq![code as char] + p.0, p.1)),
                    None => None,
                }
            } else {
                None
            }
        } else {
            match js_read_string_body(s.skip(2)) {
                Some(p) => Some((seq![js_escaped(s[1])] + p.0, p.1)),
                None => None,
            }
        }
    } else {
        match js_read_string_body(s.skip(1)) {
            Some(p) => Some((seq![s[0]] + p.0, p.1)),
            None => None,
        }
    }
}

proof fn lemma_hex_digit_value(d: int)
    requires
        0 <= d < 16,
    ensures
        hex_value(hex_digit(d)) == d,
{
}

/// One escaped character read back: JavaScript reads the escape of `c`
/// followed by `rest` as `c` and goes on with `rest`.
proof fn lemma_escape_char_read_back(c: char, rest: Seq<char>)
    ensures
        ({
            let s = json_escape_char(c) + rest;
            let n = json_escape_char(c).len() as int;
            &&& s.len() > 0
            &&& s[0] != '"'
            &&& s.skip(n) == rest
            &&& if s[0] == '\\' {
                &&& s.len() >= 2
                &&& if s[1] == 'u' {
                    &&& n == 6
                    &&& s.len() >= 6
                    &&& hex_value(s[2]) >= 0 && hex_value(s[3]) >= 0 && hex_value(s[4]) >= 0
                        && hex_value(s[5]) >= 0
                    &&& ((hex_value(s[2]) * 4096 + hex_value(s[3]) * 256 + hex_value(s[4]) * 16
                        + hex_value(s[5])) as char) == c
                } else {
                    n == 2 && js_escaped(s[1]) == c
                }
            } else {
                n == 1 && s[0] == c
            }
        }),
{
    let e = json_escape_char(c);
    let s = e + rest;
    assert(s.skip(e.len() as int) =~= rest);
    if c != '"' && c != '\\' && c != '\x08' && c != '\t' && c != '\n' && c != '\x0c' && c != '\r'
        && (c as u32) < 0x20 {
        let hi = (c as u32) as int / 16;
        let lo = (c as u32) as int % 16;
        lemma_hex_digit_value(hi);
        lemma_hex_digit_value(lo);
        assert(s[4] == hex_digit(hi));
        assert(s[5] == hex_digit(lo));
        assert(hi * 16 + lo == (c as u32) as int);
    }
}

/// The JSON text of a string reads back, in JavaScript, as exactly that
/// string: a reader that starts after the opening quote gets `s` as the
/// value and stops at the closing quote, before whatever follows it.
pub proof fn lemma_json_literal_read_back(s: Seq<char>, rest: Seq<char>)
    ensures
        js_read_string_body(json_string_literal(s).drop_first() + rest) == Some((s, rest)),
    decreases s.len(),
{
    assert(json_string_literal(s).drop_first() + rest =~= json_escape(s) + (seq!['"'] + rest));
    if s.len() == 0 {
        assert(json_escape(s) =~= Seq::<char>::empty());
        assert((seq!['"'] + rest).skip(1) =~= rest);
        assert(json_escape(s) + (seq!['"'] + rest) =~= seq!['"'] + rest);
    } else {
        let tail = s.skip(1);
        let after = json_escape(tail) + (seq!['"'] + rest);
        lemma_json_literal_read_back(tail, rest);
        assert(json_string_literal(tail).drop_first() + rest =~= after);
        let t = json_escape_char(s[0]) + after;
        assert(json_escape(s) + (seq!['"'] + rest) =~= t);
        lemma_escape_char_read_back(s[0], after);
        assert(seq![s[0]] + tail =~= s);
    }
}

} // verus!
