//! A small JSON document model.
//!
//! `Json` is the executable tree; `Jv` is its mathematical shape, used by
//! every contract in this crate. Objects keep their fields as a sequence of
//! key/value pairs so that field order is observable: encoders emit a fixed
//! order, decoders accept any order (first occurrence of a key wins).

use vstd::prelude::*;

verus! {

broadcast use vstd::std_specs::vec::group_vec_axioms, vstd::seq::group_seq_axioms, vstd::string::group_string_axioms;

/// The mathematical shape of a JSON document.
pub enum Jv {
    Null,
    Bool(bool),
    Int(int),
    Str(Seq<char>),
    Arr(Seq<Jv>),
    Obj(Seq<(Seq<char>, Jv)>),
}

/// A JSON document. Numbers are restricted to 64-bit integers: every
/// fractional quantity in the provider's schemas (money above all) travels
/// as a decimal string, never as a JSON number.
#[derive(Debug, PartialEq, Eq)]
pub enum Json {
    Null,
    Bool(bool),
    Int(i64),
    Str(String),
    Arr(Vec<Json>),
    Obj(Vec<(String, Json)>),
}

/// The shape of an object's field list.
pub open spec fn obj_view(fs: Seq<(String, Json)>) -> Seq<(Seq<char>, Jv)> {
    Seq::new(fs.len(), |i: int| (fs[i].0@, fs[i].1@))
}

impl View for Json {
    type V = Jv;

    open spec fn view(&self) -> Jv
        decreases self,
    {
        match self {
            Json::Null => Jv::Null,
            Json::Bool(b) => Jv::Bool(*b),
            Json::Int(n) => Jv::Int(*n as int),
            Json::Str(s) => Jv::Str(s@),
            Json::Arr(v) => Jv::Arr(
                Seq::new(
                    v.len() as nat,
                    |i: int| if 0 <= i < v.len() { v[i]@ } else { Jv::Null },
                ),
            ),
            Json::Obj(fs) => Jv::Obj(
                Seq::new(
                    fs.len() as nat,
                    |i: int| (fs[i].0@, if 0 <= i < fs.len() { fs[i].1@ } else { Jv::Null }),
                ),
            ),
        }
    }
}

impl DeepView for Json {
    type V = Jv;

    open spec fn deep_view(&self) -> Jv {
        self.view()
    }
}

/// First value bound to `key` in `fs` at or after position `i`.
pub open spec fn jv_get_from(fs: Seq<(Seq<char>, Jv)>, key: Seq<char>, i: int) -> Option<Jv>
    decreases fs.len() - i,
{
    if i < 0 || i >= fs.len() {
        None
    } else if fs[i].0 == key {
        Some(fs[i].1)
    } else {
        jv_get_from(fs, key, i + 1)
    }
}

/// First value bound to `key` in `fs`.
pub open spec fn jv_get(fs: Seq<(Seq<char>, Jv)>, key: Seq<char>) -> Option<Jv> {
    jv_get_from(fs, key, 0)
}

proof fn lemma_jv_get_from_found(fs: Seq<(Seq<char>, Jv)>, key: Seq<char>, lo: int, i: int)
    requires
        0 <= lo <= i < fs.len(),
        fs[i].0 == key,
        forall|j: int| lo <= j < i ==> fs[j].0 != key,
    ensures
        jv_get_from(fs, key, lo) == Some(fs[i].1),
    decreases i - lo,
{
    if lo < i {
        lemma_jv_get_from_found(fs, key, lo + 1, i);
    }
}

/// Lookup finds the first field whose key matches.
pub proof fn lemma_jv_get_found(fs: Seq<(Seq<char>, Jv)>, key: Seq<char>, i: int)
    requires
        0 <= i < fs.len(),
        fs[i].0 == key,
        forall|j: int| 0 <= j < i ==> fs[j].0 != key,
    ensures
        jv_get(fs, key) == Some(fs[i].1),
{
    lemma_jv_get_from_found(fs, key, 0, i);
}

proof fn lemma_jv_get_from_absent(fs: Seq<(Seq<char>, Jv)>, key: Seq<char>, lo: int)
    requires
        0 <= lo,
        forall|j: int| 0 <= j < fs.len() ==> fs[j].0 != key,
    ensures
        jv_get_from(fs, key, lo) is None,
    decreases fs.len() - lo,
{
    if lo < fs.len() {
        lemma_jv_get_from_absent(fs, key, lo + 1);
    }
}

/// An object node's shape carries exactly the shape of its field list.
pub proof fn lemma_obj_view(fs: Vec<(String, Json)>)
    ensures
        Json::Obj(fs)@ == Jv::Obj(obj_view(fs@)),
{
    assert(Json::Obj(fs)@->Obj_0 =~= obj_view(fs@));
}

/// Lookup fails on an object that holds no field of that key.
pub proof fn lemma_jv_get_absent(fs: Seq<(Seq<char>, Jv)>, key: Seq<char>)
    requires
        forall|j: int| 0 <= j < fs.len() ==> fs[j].0 != key,
    ensures
        jv_get(fs, key) is None,
{
    lemma_jv_get_from_absent(fs, key, 0);
}

/// Lookup passes over a prefix that holds no field of that key.
pub proof fn lemma_jv_get_skip(a: Seq<(Seq<char>, Jv)>, b: Seq<(Seq<char>, Jv)>, key: Seq<char>)
    requires
        forall|i: int| 0 <= i < a.len() ==> a[i].0 != key,
    ensures
        jv_get(a + b, key) == jv_get(b, key),
{
    lemma_jv_get_skip_from(a, b, key, 0);
}

proof fn lemma_jv_get_skip_from(
    a: Seq<(Seq<char>, Jv)>,
    b: Seq<(Seq<char>, Jv)>,
    key: Seq<char>,
    lo: int,
)
    requires
        0 <= lo <= a.len(),
        forall|i: int| 0 <= i < a.len() ==> a[i].0 != key,
    ensures
        jv_get_from(a + b, key, lo) == jv_get(b, key),
    decreases a.len() - lo,
{
    if lo < a.len() {
        lemma_jv_get_skip_from(a, b, key, lo + 1);
    } else {
        lemma_jv_get_shift(a, b, key, 0);
    }
}

proof fn lemma_jv_get_shift(a: Seq<(Seq<char>, Jv)>, b: Seq<(Seq<char>, Jv)>, key: Seq<char>, i: int)
    requires
        0 <= i,
    ensures
        jv_get_from(a + b, key, a.len() + i) == jv_get_from(b, key, i),
    decreases b.len() - i,
{
    if i < b.len() {
        lemma_jv_get_shift(a, b, key, i + 1);
    }
}

/// Lookup finds the first field where it stands at the front.
pub proof fn lemma_jv_get_head(fs: Seq<(Seq<char>, Jv)>, key: Seq<char>)
    requires
        fs.len() >= 1,
        fs[0].0 == key,
    ensures
        jv_get(fs, key) == Some(fs[0].1),
{
}

/// Relies on `<str as PartialEq>::eq`: string slices compare by contents.
#[verifier::external_body]
pub(crate) fn str_eq(a: &str, b: &str) -> (r: bool)
    ensures
        r == (a@ == b@),
{
    a == b
}

/// Borrow the first field named `key`, if the object has one.
pub fn get_field<'a>(fs: &'a Vec<(String, Json)>, key: &str) -> (r: Option<&'a Json>)
    ensures
        match r {
            Some(j) => jv_get(obj_view(fs@), key@) == Some(j@),
            None => jv_get(obj_view(fs@), key@) is None,
        },
{
    let mut i: usize = 0;
    while i < fs.len()
        invariant
            0 <= i <= fs.len(),
            forall|j: int| 0 <= j < i ==> obj_view(fs@)[j].0 != key@,
        decreases fs.len() - i,
    {
        if str_eq(fs[i].0.as_str(), key) {
            proof {
                lemma_jv_get_found(obj_view(fs@), key@, i as int);
            }
            return Some(&fs[i].1);
        }
        i += 1;
    }
    proof {
        lemma_jv_get_absent(obj_view(fs@), key@);
    }
    None
}

/// The shape of an array's item list.
pub open spec fn arr_view(v: Seq<Json>) -> Seq<Jv> {
    Seq::new(v.len(), |i: int| v[i]@)
}

/// An array node's shape carries exactly the shape of its item list.
pub proof fn lemma_arr_view(v: Vec<Json>)
    ensures
        Json::Arr(v)@ == Jv::Arr(arr_view(v@)),
{
    assert(Json::Arr(v)@->Arr_0 =~= arr_view(v@));
}

/// The hexadecimal digit for a value below sixteen.
pub open spec fn hex_char(n: int) -> char {
    if n == 0 { '0' } else if n == 1 { '1' } else if n == 2 { '2' } else if n == 3 { '3' }
    else if n == 4 { '4' } else if n == 5 { '5' } else if n == 6 { '6' } else if n == 7 { '7' }
    else if n == 8 { '8' } else if n == 9 { '9' } else if n == 10 { 'a' } else if n == 11 { 'b' }
    else if n == 12 { 'c' } else if n == 13 { 'd' } else if n == 14 { 'e' } else { 'f' }
}

/// How one character appears inside a JSON string literal: quotes and
/// backslashes are escaped, control characters take the `\u00XX` form,
/// everything else stands as itself.
pub open spec fn esc_char(c: char) -> Seq<char> {
    if c == '"' {
        seq!['\\', '"']
    } else if c == '\\' {
        seq!['\\', '\\']
    } else if (c as u32) < 32 {
        seq!['\\', 'u', '0', '0', hex_char(c as int / 16), hex_char(c as int % 16)]
    } else {
        seq![c]
    }
}

/// The escaped form of the characters of `s` from position `i` on.
pub open spec fn esc_from(s: Seq<char>, i: int) -> Seq<char>
    decreases s.len() - i,
{
    if i < 0 || i >= s.len() {
        Seq::empty()
    } else {
        esc_char(s[i]) + esc_from(s, i + 1)
    }
}

/// A JSON string literal: the escaped contents between double quotes.
pub open spec fn str_text(s: Seq<char>) -> Seq<char> {
    seq!['"'] + esc_from(s, 0) + seq!['"']
}

/// The decimal digits of a natural number.
pub open spec fn nat_text(n: nat) -> Seq<char>
    decreases n,
{
    if n < 10 {
        seq![hex_char(n as int)]
    } else {
        nat_text(n / 10) + seq![hex_char((n % 10) as int)]
    }
}

/// The decimal form of an integer, with a leading minus sign if negative.
pub open spec fn int_text(n: int) -> Seq<char> {
    if n < 0 {
        seq!['-'] + nat_text((-n) as nat)
    } else {
        nat_text(n as nat)
    }
}

/// The text of a JSON document: compact form, no whitespace, fields in
/// the order the object holds them.
pub open spec fn jv_text(j: Jv) -> Seq<char>
    decreases j, 0int,
{
    match j {
        Jv::Null => "null"@,
        Jv::Bool(b) => if b { "true"@ } else { "false"@ },
        Jv::Int(n) => int_text(n),
        Jv::Str(s) => str_text(s),
        Jv::Arr(items) => seq!['['] + arr_text(items, 0) + seq![']'],
        Jv::Obj(fields) => seq!['{'] + obj_text(fields, 0) + seq!['}'],
    }
}

/// The comma-separated text of an array's items from position `i` on.
pub open spec fn arr_text(items: Seq<Jv>, i: int) -> Seq<char>
    decreases items, items.len() - i,
{
    if i < 0 || i >= items.len() {
        Seq::empty()
    } else {
        let sep: Seq<char> = if i + 1 < items.len() { seq![','] } else { Seq::empty() };
        jv_text(items[i]) + sep + arr_text(items, i + 1)
    }
}

/// The comma-separated text of an object's fields from position `i` on.
pub open spec fn obj_text(fields: Seq<(Seq<char>, Jv)>, i: int) -> Seq<char>
    decreases fields, fields.len() - i,
{
    if i < 0 || i >= fields.len() {
        Seq::empty()
    } else {
        let sep: Seq<char> = if i + 1 < fields.len() { seq![','] } else { Seq::empty() };
        str_text(fields[i].0) + seq![':'] + jv_text(fields[i].1) + sep + obj_text(fields, i + 1)
    }
}

/// Relies on `String::push`: appends one character.
#[verifier::external_body]
fn push_char(out: &mut String, c: char)
    ensures
        final(out)@ == old(out)@.push(c),
{
    out.push(c);
}

fn push_hex_char(out: &mut String, n: u32)
    requires
        n < 16,
    ensures
        final(out)@ == old(out)@.push(hex_char(n as int)),
{
    let c: char = if n == 0 { '0' } else if n == 1 { '1' } else if n == 2 { '2' }
        else if n == 3 { '3' } else if n == 4 { '4' } else if n == 5 { '5' }
        else if n == 6 { '6' } else if n == 7 { '7' } else if n == 8 { '8' }
        else if n == 9 { '9' } else if n == 10 { 'a' } else if n == 11 { 'b' }
        else if n == 12 { 'c' } else if n == 13 { 'd' } else if n == 14 { 'e' } else { 'f' };
    push_char(out, c);
}

fn push_escaped_char(out: &mut String, c: char)
    ensures
        final(out)@ == old(out)@ + esc_char(c),
{
    if c == '"' {
        push_char(out, '\\');
        push_char(out, '"');
        assert(out@ =~= old(out)@ + esc_char(c));
    } else if c == '\\' {
        push_char(out, '\\');
        push_char(out, '\\');
        assert(out@ =~= old(out)@ + esc_char(c));
    } else if (c as u32) < 32 {
        push_char(out, '\\');
        push_char(out, 'u');
        push_char(out, '0');
        push_char(out, '0');
        push_hex_char(out, (c as u32) / 16);
        push_hex_char(out, (c as u32) % 16);
        assert(out@ =~= old(out)@ + esc_char(c));
    } else {
        push_char(out, c);
        assert(out@ =~= old(out)@ + esc_char(c));
    }
}

fn push_escaped_from(out: &mut String, s: &str, i: usize, n: usize)
    requires
        i <= n,
        n as nat == s@.len(),
    ensures
        final(out)@ == old(out)@ + esc_from(s@, i as int),
    decreases n - i,
{
    if i < n {
        let c = s.get_char(i);
        push_escaped_char(out, c);
        push_escaped_from(out, s, i + 1, n);
        assert(out@ =~= old(out)@ + esc_from(s@, i as int));
    } else {
        assert(out@ =~= old(out)@ + esc_from(s@, i as int));
    }
}

fn push_quoted(out: &mut String, s: &str)
    ensures
        final(out)@ == old(out)@ + str_text(s@),
{
    push_char(out, '"');
    let n = s.unicode_len();
    push_escaped_from(out, s, 0, n);
    push_char(out, '"');
    assert(out@ =~= old(out)@ + str_text(s@));
}

fn push_nat_digits(out: &mut String, n: u64)
    ensures
        final(out)@ == old(out)@ + nat_text(n as nat),
    decreases n,
{
    if n < 10 {
        push_hex_char(out, n as u32);
        assert(out@ =~= old(out)@ + nat_text(n as nat));
    } else {
        push_nat_digits(out, n / 10);
        push_hex_char(out, (n % 10) as u32);
        assert(out@ =~= old(out)@ + nat_text(n as nat));
    }
}

fn push_int(out: &mut String, n: i64)
    ensures
        final(out)@ == old(out)@ + int_text(n as int),
{
    if n < 0 {
        push_char(out, '-');
        let m: u64 = (-(n as i128)) as u64;
        assert(m as nat == (-(n as int)) as nat);
        push_nat_digits(out, m);
        assert(out@ =~= old(out)@ + int_text(n as int));
    } else {
        let m: u64 = n as u64;
        push_nat_digits(out, m);
        assert(out@ =~= old(out)@ + int_text(n as int));
    }
}

fn push_json(out: &mut String, j: &Json)
    ensures
        final(out)@ == old(out)@ + jv_text(j@),
    decreases j, 0int,
{
    match j {
        Json::Null => {
            out.append("null");
        },
        Json::Bool(b) => {
            if *b {
                out.append("true");
            } else {
                out.append("false");
            }
        },
        Json::Int(n) => {
            push_int(out, *n);
        },
        Json::Str(s) => {
            push_quoted(out, s.as_str());
        },
        Json::Arr(v) => {
            push_char(out, '[');
            push_arr_items(out, v, 0);
            push_char(out, ']');
            proof {
                lemma_arr_view(*v);
                assert(out@ =~= old(out)@ + jv_text(j@));
            }
        },
        Json::Obj(fs) => {
            push_char(out, '{');
            push_obj_items(out, fs, 0);
            push_char(out, '}');
            proof {
                lemma_obj_view(*fs);
                assert(out@ =~= old(out)@ + jv_text(j@));
            }
        },
    }
}

fn push_arr_items(out: &mut String, v: &Vec<Json>, i: usize)
    requires
        i <= v.len(),
    ensures
        final(out)@ == old(out)@ + arr_text(arr_view(v@), i as int),
    decreases v, v@.len() - i,
{
    if i < v.len() {
        push_json(out, &v[i]);
        if i + 1 < v.len() {
            push_char(out, ',');
        }
        push_arr_items(out, v, i + 1);
        assert(out@ =~= old(out)@ + arr_text(arr_view(v@), i as int));
    } else {
        assert(out@ =~= old(out)@ + arr_text(arr_view(v@), i as int));
    }
}

fn push_obj_items(out: &mut String, fs: &Vec<(String, Json)>, i: usize)
    requires
        i <= fs.len(),
    ensures
        final(out)@ == old(out)@ + obj_text(obj_view(fs@), i as int),
    decreases fs, fs@.len() - i,
{
    if i < fs.len() {
        push_quoted(out, fs[i].0.as_str());
        push_char(out, ':');
        push_json(out, &fs[i].1);
        if i + 1 < fs.len() {
            push_char(out, ',');
        }
        push_obj_items(out, fs, i + 1);
        assert(out@ =~= old(out)@ + obj_text(obj_view(fs@), i as int));
    } else {
        assert(out@ =~= old(out)@ + obj_text(obj_view(fs@), i as int));
    }
}

/// Render a document as compact JSON text.
pub fn json_to_string(j: &Json) -> (r: String)
    ensures
        r@ == jv_text(j@),
{
    let mut out = String::new();
    push_json(&mut out, j);
    proof {
        assert(out@ =~= jv_text(j@));
    }
    out
}

/// A structurally equal copy of a document.
#[verifier::loop_isolation(false)]
pub fn clone_json(j: &Json) -> (r: Json)
    ensures
        r@ == j@,
    decreases j,
{
    match j {
        Json::Null => Json::Null,
        Json::Bool(b) => Json::Bool(*b),
        Json::Int(n) => Json::Int(*n),
        Json::Str(s) => Json::Str(s.clone()),
        Json::Arr(v) => {
            let mut items: Vec<Json> = Vec::new();
            let mut i: usize = 0;
            while i < v.len()
                invariant
                    i <= v.len(),
                    items@.len() == i as nat,
                    forall|k: int| 0 <= k < i ==> items@[k]@ == v@[k]@,
                decreases v.len() - i,
            {
                items.push(clone_json(&v[i]));
                i += 1;
            }
            let r = Json::Arr(items);
            proof {
                assert(r@->Arr_0 =~= j@->Arr_0);
            }
            r
        },
        Json::Obj(fs) => {
            let mut fields: Vec<(String, Json)> = Vec::new();
            let mut i: usize = 0;
            while i < fs.len()
                invariant
                    i <= fs.len(),
                    fields@.len() == i as nat,
                    forall|k: int| 0 <= k < i ==> fields@[k].0@ == fs@[k].0@
                        && fields@[k].1@ == fs@[k].1@,
                decreases fs.len() - i,
            {
                fields.push((fs[i].0.clone(), clone_json(&fs[i].1)));
                i += 1;
            }
            let r = Json::Obj(fields);
            proof {
                assert(r@->Obj_0 =~= j@->Obj_0);
            }
            r
        },
    }
}

#[verifier::external_type_specification]
#[verifier::external_body]
pub struct ExSerdeValue(serde_json::Value);

/// What parsing JSON text into this crate's document model yields: a
/// document for well-formed text whose numbers fit in 64-bit integers,
/// nothing otherwise. The parse is a fixed function of the text alone.
pub uninterp spec fn parsed_json(s: Seq<char>) -> Option<Jv>;

/// Relies on `serde_json::Value`: each variant of the parsed tree is moved,
/// node by node, into the corresponding variant of this crate's tree.
/// Numbers that are not 64-bit integers are rejected.
#[verifier::external_body]
fn value_to_json(v: serde_json::Value) -> (r: Option<Json>)
{
    match v {
        serde_json::Value::Null => Some(Json::Null),
        serde_json::Value::Bool(b) => Some(Json::Bool(b)),
        serde_json::Value::Number(n) => n.as_i64().map(Json::Int),
        serde_json::Value::String(s) => Some(Json::Str(s)),
        serde_json::Value::Array(a) => {
            a.into_iter().map(value_to_json).collect::<Option<Vec<Json>>>().map(Json::Arr)
        },
        serde_json::Value::Object(m) => {
            m.into_iter().map(|(k, x)| value_to_json(x).map(|j| (k, j)))
                .collect::<Option<Vec<(String, Json)>>>().map(Json::Obj)
        },
    }
}

/// Relies on `serde_json::from_str::<serde_json::Value>`: parses JSON text,
/// deterministically in the text alone; the parsed tree is then moved into
/// this crate's model by `value_to_json`.
#[verifier::external_body]
pub fn parse_json(s: &str) -> (r: Option<Json>)
    ensures
        r matches Some(j) ==> parsed_json(s@) == Some(j@),
        r is None ==> parsed_json(s@) is None,
{
    match serde_json::from_str::<serde_json::Value>(s) {
        Ok(v) => value_to_json(v),
        Err(_) => None,
    }
}

} // verus!
