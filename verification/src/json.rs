//! The crate's own model of JSON data.
//!
//! A [`JsonValue`] holds what the client's logic reads of a JSON document as
//! plain values: booleans, 64-bit integers, strings, arrays and objects. A
//! number that is not a 64-bit integer is kept as its literal text, so that
//! nothing of the wire value is lost while the crate stays free of floating
//! point. [`JsonModel`] is the mathematical view of the same data, used by
//! every contract.

use vstd::prelude::*;
use vstd::string::*;
use serde_json::Value as SerdeValue;

verus! {

broadcast use vstd::std_specs::vec::axiom_vec_index_decreases, vstd::seq::axiom_seq_index_decreases;

/// The mathematical model of a JSON value: what every contract speaks of.
#[verifier::ext_equal]
pub enum JsonModel {
    Null,
    Bool(bool),
    UInt(u64),
    NegInt(i64),
    NumText(Seq<char>),
    Str(Seq<char>),
    Arr(Seq<JsonModel>),
    Obj(Seq<(Seq<char>, JsonModel)>),
}

/// An untyped JSON value as the client holds it.
pub enum JsonValue {
    /// The JSON constant `null`.
    Null,
    /// A JSON boolean.
    Bool(bool),
    /// A JSON number that is a non-negative 64-bit integer.
    UInt(u64),
    /// A JSON number that is a negative 64-bit integer.
    NegInt(i64),
    /// Any other JSON number, kept as its literal text.
    NumText(String),
    /// A JSON string.
    Str(String),
    /// A JSON array.
    Arr(Vec<JsonValue>),
    /// A JSON object as an ordered list of key/value pairs.
    Obj(Vec<(String, JsonValue)>),
}

/// The model of one JSON value.
pub open spec fn value_model(v: JsonValue) -> JsonModel
    decreases v, 0int,
{
    match v {
        JsonValue::Null => JsonModel::Null,
        JsonValue::Bool(b) => JsonModel::Bool(b),
        JsonValue::UInt(u) => JsonModel::UInt(u),
        JsonValue::NegInt(i) => JsonModel::NegInt(i),
        JsonValue::NumText(s) => JsonModel::NumText(s@),
        JsonValue::Str(s) => JsonModel::Str(s@),
        JsonValue::Arr(a) => JsonModel::Arr(arr_model(a, a.len() as int)),
        JsonValue::Obj(o) => JsonModel::Obj(obj_model(o, o.len() as int)),
    }
}

/// The models of the first `n` elements of `a`.
pub open spec fn arr_model(a: Vec<JsonValue>, n: int) -> Seq<JsonModel>
    decreases a, n,
{
    if n <= 0 || n > a.len() {
        Seq::empty()
    } else {
        arr_model(a, n - 1).push(value_model(a[n - 1]))
    }
}

/// The models of the first `n` key/value pairs of `o`.
pub open spec fn obj_model(o: Vec<(String, JsonValue)>, n: int) -> Seq<(Seq<char>, JsonModel)>
    decreases o, n,
{
    if n <= 0 || n > o.len() {
        Seq::empty()
    } else {
        obj_model(o, n - 1).push((o[n - 1].0@, value_model(o[n - 1].1)))
    }
}

impl View for JsonValue {
    type V = JsonModel;

    open spec fn view(&self) -> JsonModel {
        value_model(*self)
    }
}

/// The models of the first `n` elements of `a` are exactly the models of its
/// elements, in order.
pub proof fn lemma_arr_model(a: Vec<JsonValue>, n: int)
    requires
        0 <= n <= a.len(),
    ensures
        arr_model(a, n).len() == n,
        forall|i: int| 0 <= i < n ==> arr_model(a, n)[i] == value_model(a[i]),
    decreases n,
{
    if n > 0 {
        lemma_arr_model(a, n - 1);
    }
}

/// The models of the first `n` pairs of `o` are exactly the key views and
/// value models of its pairs, in order.
pub proof fn lemma_obj_model(o: Vec<(String, JsonValue)>, n: int)
    requires
        0 <= n <= o.len(),
    ensures
        obj_model(o, n).len() == n,
        forall|i: int| 0 <= i < n ==> obj_model(o, n)[i] == (o[i].0@, value_model(o[i].1)),
    decreases n,
{
    if n > 0 {
        lemma_obj_model(o, n - 1);
    }
}

/// Relies on `String::push`: appends exactly one character.
pub assume_specification[ String::push ](s: &mut String, ch: char)
    ensures
        final(s)@ == old(s)@.push(ch),
;

/// The decimal digit character for `d`.
pub open spec fn dec_digit(d: int) -> char {
    if d == 0 { '0' }
    else if d == 1 { '1' }
    else if d == 2 { '2' }
    else if d == 3 { '3' }
    else if d == 4 { '4' }
    else if d == 5 { '5' }
    else if d == 6 { '6' }
    else if d == 7 { '7' }
    else if d == 8 { '8' }
    else { '9' }
}

/// The decimal rendering of `n`, without sign and without leading zeros.
pub open spec fn dec_str(n: nat) -> Seq<char>
    decreases n,
{
    if n < 10 {
        seq![dec_digit(n as int)]
    } else {
        dec_str(n / 10) + seq![dec_digit((n % 10) as int)]
    }
}

/// The lower-case hexadecimal digit character for `d`.
pub open spec fn hex_digit(d: int) -> char {
    if d < 10 { dec_digit(d) }
    else if d == 10 { 'a' }
    else if d == 11 { 'b' }
    else if d == 12 { 'c' }
    else if d == 13 { 'd' }
    else if d == 14 { 'e' }
    else { 'f' }
}

/// How one character is written inside a JSON string literal: quotes and
/// backslashes are escaped, control characters take the `\u00XX` form, and
/// everything else stands as itself.
pub open spec fn esc_char(c: char) -> Seq<char> {
    if c == '"' {
        seq!['\\', '"']
    } else if c == '\\' {
        seq!['\\', '\\']
    } else if (c as u32) < 32 {
        seq!['\\', 'u', '0', '0', hex_digit(c as u32 as int / 16), hex_digit(c as u32 as int % 16)]
    } else {
        seq![c]
    }
}

/// The body of a JSON string literal for the text `s`.
pub open spec fn esc_str(s: Seq<char>) -> Seq<char>
    decreases s.len(),
{
    if s.len() == 0 {
        Seq::empty()
    } else {
        esc_str(s.drop_last()) + esc_char(s.last())
    }
}

/// The JSON text of the value `v`: the exact character sequence the crate's
/// renderer produces.
pub open spec fn json_text(v: JsonModel) -> Seq<char>
    decreases v, 0int,
{
    match v {
        JsonModel::Null => "null"@,
        JsonModel::Bool(b) => if b { "true"@ } else { "false"@ },
        JsonModel::UInt(u) => dec_str(u as nat),
        JsonModel::NegInt(i) => if i >= 0 { dec_str(i as nat) } else {
            seq!['-'] + dec_str((-(i as int)) as nat)
        },
        JsonModel::NumText(s) => s,
        JsonModel::Str(s) => seq!['"'] + esc_str(s) + seq!['"'],
        JsonModel::Arr(a) => seq!['['] + arr_text(a, a.len() as int) + seq![']'],
        JsonModel::Obj(o) => seq!['{'] + obj_text(o, o.len() as int) + seq!['}'],
    }
}

/// The JSON text of the first `n` elements of an array, comma-separated.
pub open spec fn arr_text(a: Seq<JsonModel>, n: int) -> Seq<char>
    decreases a, n,
{
    if n <= 0 || n > a.len() {
        Seq::empty()
    } else if n == 1 {
        json_text(a[0])
    } else {
        arr_text(a, n - 1) + seq![','] + json_text(a[n - 1])
    }
}

/// The JSON text of the first `n` members of an object, comma-separated.
pub open spec fn obj_text(o: Seq<(Seq<char>, JsonModel)>, n: int) -> Seq<char>
    decreases o, n,
{
    if n <= 0 || n > o.len() {
        Seq::empty()
    } else if n == 1 {
        member_text(o[0].0, o[0].1)
    } else {
        obj_text(o, n - 1) + seq![','] + member_text(o[n - 1].0, o[n - 1].1)
    }
}

/// The JSON text of one object member.
pub open spec fn member_text(key: Seq<char>, v: JsonModel) -> Seq<char>
    decreases v,
{
    seq!['"'] + esc_str(key) + seq!['"', ':'] + json_text(v)
}

/// The lower-case hexadecimal digit character for `d`.
fn hex_digit_char(d: u8) -> (c: char)
    requires
        d < 16,
    ensures
        c == hex_digit(d as int),
{
    match d {
        0 => '0',
        1 => '1',
        2 => '2',
        3 => '3',
        4 => '4',
        5 => '5',
        6 => '6',
        7 => '7',
        8 => '8',
        9 => '9',
        10 => 'a',
        11 => 'b',
        12 => 'c',
        13 => 'd',
        14 => 'e',
        _ => 'f',
    }
}

/// Appends the decimal rendering of `n` to `out`.
fn push_u64(n: u64, out: &mut String)
    ensures
        final(out)@ == old(out)@ + dec_str(n as nat),
    decreases n,
{
    if n >= 10 {
        push_u64(n / 10, out);
    }
    out.push(hex_digit_char((n % 10) as u8));
    proof {
        assert(out@ =~= old(out)@ + dec_str(n as nat));
    }
}

/// Appends the body of a JSON string literal for `s` to `out`.
fn push_escaped(s: &str, out: &mut String)
    ensures
        final(out)@ == old(out)@ + esc_str(s@),
{
    let n = s.unicode_len();
    let mut i: usize = 0;
    proof {
        assert(out@ =~= old(out)@ + esc_str(s@.take(0)));
    }
    while i < n
        invariant
            n == s@.len(),
            i <= n,
            out@ == old(out)@ + esc_str(s@.take(i as int)),
        decreases n - i,
    {
        let c = s.get_char(i);
        if c == '"' {
            out.append("\\\"");
            proof {
                reveal_strlit("\\\"");
            }
        } else if c == '\\' {
            out.append("\\\\");
            proof {
                reveal_strlit("\\\\");
            }
        } else if (c as u32) < 32 {
            let code = c as u32;
            out.append("\\u00");
            out.push(hex_digit_char((code / 16) as u8));
            out.push(hex_digit_char((code % 16) as u8));
            proof {
                reveal_strlit("\\u00");
            }
        } else {
            out.push(c);
        }
        proof {
            assert(s@.take(i as int + 1).drop_last() =~= s@.take(i as int));
            assert(s@.take(i as int + 1).last() == s@[i as int]);
            assert(out@ =~= old(out)@ + esc_str(s@.take(i as int + 1)));
        }
        i += 1;
    }
    proof {
        assert(s@.take(n as int) =~= s@);
    }
}

/// Appends the JSON text of `v` to `out`.
pub fn render_into(v: &JsonValue, out: &mut String)
    ensures
        final(out)@ == old(out)@ + json_text(v@),
    decreases v, 0int,
{
    match v {
        JsonValue::Null => {
            out.append("null");
        },
        JsonValue::Bool(b) => {
            if *b {
                out.append("true");
            } else {
                out.append("false");
            }
        },
        JsonValue::UInt(u) => {
            push_u64(*u, out);
        },
        JsonValue::NegInt(i) => {
            if *i >= 0 {
                push_u64(*i as u64, out);
            } else {
                out.push('-');
                let m = *i as i128;
                push_u64((-m) as u64, out);
                proof {
                    assert(out@ =~= old(out)@ + json_text(v@));
                }
            }
        },
        JsonValue::NumText(s) => {
            out.append(s.as_str());
        },
        JsonValue::Str(s) => {
            out.push('"');
            push_escaped(s.as_str(), out);
            out.push('"');
            proof {
                assert(out@ =~= old(out)@ + json_text(v@));
            }
        },
        JsonValue::Arr(a) => {
            out.push('[');
            render_arr(a, out);
            out.push(']');
            proof {
                lemma_arr_model(*a, a.len() as int);
                assert(out@ =~= old(out)@ + json_text(v@));
            }
        },
        JsonValue::Obj(o) => {
            out.push('{');
            render_obj(o, out);
            out.push('}');
            proof {
                lemma_obj_model(*o, o.len() as int);
                assert(out@ =~= old(out)@ + json_text(v@));
            }
        },
    }
}

/// Appends the comma-separated JSON text of the elements of `a` to `out`.
fn render_arr(a: &Vec<JsonValue>, out: &mut String)
    ensures
        final(out)@ == old(out)@ + arr_text(arr_model(*a, a.len() as int), a.len() as int),
    decreases a, 0int,
{
    let ghost m = arr_model(*a, a.len() as int);
    proof {
        lemma_arr_model(*a, a.len() as int);
    }
    let n = a.len();
    let mut i: usize = 0;
    proof {
        assert(out@ =~= old(out)@ + arr_text(m, 0));
    }
    while i < n
        invariant
            n == a.len(),
            i <= n,
            m == arr_model(*a, a.len() as int),
            m.len() == n,
            forall|k: int| 0 <= k < n ==> m[k] == value_model(a[k]),
            out@ == old(out)@ + arr_text(m, i as int),
        decreases n - i,
    {
        if i > 0 {
            out.push(',');
        }
        render_into(&a[i], out);
        proof {
            assert(out@ =~= old(out)@ + arr_text(m, i as int + 1));
        }
        i += 1;
    }
}

/// Appends the comma-separated JSON text of the members of `o` to `out`.
fn render_obj(o: &Vec<(String, JsonValue)>, out: &mut String)
    ensures
        final(out)@ == old(out)@ + obj_text(obj_model(*o, o.len() as int), o.len() as int),
    decreases o, 0int,
{
    let ghost m = obj_model(*o, o.len() as int);
    proof {
        lemma_obj_model(*o, o.len() as int);
    }
    let n = o.len();
    let mut i: usize = 0;
    proof {
        assert(out@ =~= old(out)@ + obj_text(m, 0));
    }
    while i < n
        invariant
            n == o.len(),
            i <= n,
            m == obj_model(*o, o.len() as int),
            m.len() == n,
            forall|k: int| 0 <= k < n ==> m[k] == (o[k].0@, value_model(o[k].1)),
            out@ == old(out)@ + obj_text(m, i as int),
        decreases n - i,
    {
        if i > 0 {
            out.push(',');
        }
        out.push('"');
        push_escaped(o[i].0.as_str(), out);
        out.push('"');
        out.push(':');
        render_into(&o[i].1, out);
        proof {
            assert(m[i as int] == (o[i as int].0@, value_model(o[i as int].1)));
            assert(member_text(m[i as int].0, m[i as int].1) =~= seq!['"'] + esc_str(
                o[i as int].0@) + seq!['"', ':'] + json_text(value_model(o[i as int].1)));
            if i > 0 {
                assert(obj_text(m, i as int + 1) =~= obj_text(m, i as int) + seq![',']
                    + member_text(m[i as int].0, m[i as int].1));
            } else {
                assert(obj_text(m, 1) =~= member_text(m[0].0, m[0].1));
            }
            assert(out@ =~= old(out)@ + obj_text(m, i as int + 1));
        }
        i += 1;
    }
}

/// The first value under `key` in the members of an object, searching from
/// position `i`.
pub open spec fn lookup_from(
    f: Seq<(Seq<char>, JsonModel)>,
    key: Seq<char>,
    i: int,
) -> Option<JsonModel>
    decreases f.len() - i,
{
    if i < 0 || i >= f.len() {
        None
    } else if f[i].0 == key {
        Some(f[i].1)
    } else {
        lookup_from(f, key, i + 1)
    }
}

/// The first value under `key` in the members of an object.
pub open spec fn lookup(f: Seq<(Seq<char>, JsonModel)>, key: Seq<char>) -> Option<JsonModel> {
    lookup_from(f, key, 0)
}

/// Finds the first member of an object under `key`.
pub fn obj_get<'a>(fields: &'a Vec<(String, JsonValue)>, key: &String) -> (r: Option<
    &'a JsonValue,
>)
    ensures
        (match r {
            Some(v) => lookup(obj_model(*fields, fields.len() as int), key@) == Some(v@),
            None => lookup(obj_model(*fields, fields.len() as int), key@) is None,
        }),
{
    let ghost m = obj_model(*fields, fields.len() as int);
    proof {
        lemma_obj_model(*fields, fields.len() as int);
    }
    let n = fields.len();
    let mut i: usize = 0;
    while i < n
        invariant
            n == fields.len(),
            i <= n,
            m == obj_model(*fields, fields.len() as int),
            m.len() == n,
            forall|k: int| 0 <= k < n ==> m[k] == (fields[k].0@, value_model(fields[k].1)),
            lookup_from(m, key@, 0) == lookup_from(m, key@, i as int),
        decreases n - i,
    {
        if fields[i].0 == *key {
            return Some(&fields[i].1);
        }
        i += 1;
    }
    None
}

impl JsonValue {
    /// A structural copy of this value.
    pub fn clone_value(&self) -> (r: JsonValue)
        ensures
            r@ == self@,
        decreases self, 0int,
    {
        match self {
            JsonValue::Null => JsonValue::Null,
            JsonValue::Bool(b) => JsonValue::Bool(*b),
            JsonValue::UInt(u) => JsonValue::UInt(*u),
            JsonValue::NegInt(i) => JsonValue::NegInt(*i),
            JsonValue::NumText(s) => JsonValue::NumText(s.clone()),
            JsonValue::Str(s) => JsonValue::Str(s.clone()),
            JsonValue::Arr(a) => {
                let r = JsonValue::Arr(clone_arr(a));
                proof {
                    lemma_arr_model(*a, a.len() as int);
                    assert(r@ =~~= self@);
                }
                r
            },
            JsonValue::Obj(o) => {
                let r = JsonValue::Obj(clone_obj(o));
                proof {
                    lemma_obj_model(*o, o.len() as int);
                    assert(r@ =~~= self@);
                }
                r
            },
        }
    }
}

/// A structural copy of the elements of `a`.
pub fn clone_arr(a: &Vec<JsonValue>) -> (r: Vec<JsonValue>)
    ensures
        arr_model(r, r.len() as int) == arr_model(*a, a.len() as int),
        r.len() == a.len(),
    decreases a, 0int,
{
    let ghost m = arr_model(*a, a.len() as int);
    proof {
        lemma_arr_model(*a, a.len() as int);
    }
    let n = a.len();
    let mut r: Vec<JsonValue> = Vec::new();
    let mut i: usize = 0;
    while i < n
        invariant
            n == a.len(),
            i <= n,
            r.len() == i,
            m == arr_model(*a, a.len() as int),
            m.len() == n,
            forall|k: int| 0 <= k < n ==> m[k] == value_model(a[k]),
            forall|k: int| 0 <= k < i ==> value_model(r[k]) == m[k],
        decreases n - i,
    {
        let c = a[i].clone_value();
        r.push(c);
        i += 1;
    }
    proof {
        lemma_arr_model(r, r.len() as int);
        assert(arr_model(r, r.len() as int) =~~= arr_model(*a, a.len() as int));
    }
    r
}

/// A structural copy of the members of `o`.
pub fn clone_obj(o: &Vec<(String, JsonValue)>) -> (r: Vec<(String, JsonValue)>)
    ensures
        obj_model(r, r.len() as int) == obj_model(*o, o.len() as int),
        r.len() == o.len(),
    decreases o, 0int,
{
    let ghost m = obj_model(*o, o.len() as int);
    proof {
        lemma_obj_model(*o, o.len() as int);
    }
    let n = o.len();
    let mut r: Vec<(String, JsonValue)> = Vec::new();
    let mut i: usize = 0;
    while i < n
        invariant
            n == o.len(),
            i <= n,
            r.len() == i,
            m == obj_model(*o, o.len() as int),
            m.len() == n,
            forall|k: int| 0 <= k < n ==> m[k] == (o[k].0@, value_model(o[k].1)),
            forall|k: int| 0 <= k < i ==> (r[k].0@, value_model(r[k].1)) == m[k],
        decreases n - i,
    {
        let key = o[i].0.clone();
        let val = o[i].1.clone_value();
        r.push((key, val));
        i += 1;
    }
    proof {
        lemma_obj_model(r, r.len() as int);
        assert(obj_model(r, r.len() as int) =~~= obj_model(*o, o.len() as int));
    }
    r
}

/// The JSON text of `v`, as produced by the crate's own renderer.
pub fn render_json(v: &JsonValue) -> (r: String)
    ensures
        r@ == json_text(v@),
{
    let mut out = String::new();
    render_into(v, &mut out);
    out
}

/// `serde_json`'s parsed JSON tree, carried opaquely between the two calls
/// the crate makes into `serde_json`.
#[verifier::external_type_specification]
#[verifier::external_body]
pub struct ExSerdeValue(serde_json::Value);

/// The model of a `serde_json` tree: a tree determines its model alone.
pub uninterp spec fn serde_value_model(v: serde_json::Value) -> JsonModel;

/// What parsing a text as JSON yields, if anything: the text alone
/// determines it.
pub uninterp spec fn json_parse_of(s: Seq<char>) -> Option<JsonModel>;

/// Relies on `serde_json::from_str::<Value>`: parses a text as one JSON
/// document, or fails on a text that is not valid JSON.
#[verifier::external_body]
fn serde_parse(raw: &str) -> (r: Option<serde_json::Value>)
    ensures
        (match r {
            Some(v) => json_parse_of(raw@) == Some(serde_value_model(v)),
            None => json_parse_of(raw@) is None,
        }),
{
    serde_json::from_str(raw).ok()
}

/// Relies on the public variants of `serde_json::Value` and on
/// `Number::as_u64`, `Number::as_i64` and `Number::to_string`: carries each
/// variant of the tree over to the crate's own value type, one arm each.
#[verifier::external_body]
fn from_serde(v: &serde_json::Value) -> (r: JsonValue)
    ensures
        r@ == serde_value_model(*v),
{
    match v {
        SerdeValue::Null => JsonValue::Null,
        SerdeValue::Bool(b) => JsonValue::Bool(*b),
        SerdeValue::Number(n) => match (n.as_u64(), n.as_i64()) {
            (Some(u), _) => JsonValue::UInt(u),
            (None, Some(i)) => JsonValue::NegInt(i),
            (None, None) => JsonValue::NumText(n.to_string()),
        },
        SerdeValue::String(s) => JsonValue::Str(s.clone()),
        SerdeValue::Array(a) => JsonValue::Arr(a.iter().map(from_serde).collect()),
        SerdeValue::Object(o) => JsonValue::Obj(o.iter().map(|(k, x)| (k.clone(), from_serde(x))).collect()),
    }
}

/// The models of an optional value.
pub open spec fn opt_model(r: Option<JsonValue>) -> Option<JsonModel> {
    match r {
        Some(v) => Some(v@),
        None => None,
    }
}

/// Parses a text as one JSON document into the crate's own value type,
/// through `serde_json`.
pub fn parse_json_text(raw: &str) -> (r: Option<JsonValue>)
    ensures
        opt_model(r) == json_parse_of(raw@),
{
    match serde_parse(raw) {
        Some(v) => Some(from_serde(&v)),
        None => None,
    }
}

} // verus!
