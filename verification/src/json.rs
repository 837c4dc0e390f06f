//! A JSON value model for CDP payloads.
//!
//! Every CDP message body is a JSON document. The library reads and builds
//! them as [`Json`] values; the transport layer converts between this model
//! and wire text. Its mathematical model is [`JsonV`], where strings are
//! sequences of characters.
use vstd::prelude::*;

use crate::text::str_eq;

verus! {

/// A JSON number, in the three shapes a JSON number takes after parsing.
///
/// `NegInt` holds a negative integer, `PosInt` a non-negative one, and
/// `Float` the IEEE-754 bit pattern of any other number.
#[derive(Clone, Copy, Debug, PartialEq)]
pub enum JsonNumber {
    PosInt(u64),
    NegInt(i64),
    Float(u64),
}

/// A JSON value. Object members keep the order in which they were given.
#[derive(Debug, PartialEq)]
pub enum Json {
    Null,
    Bool(bool),
    Number(JsonNumber),
    Str(String),
    Array(Vec<Json>),
    Object(Vec<(String, Json)>),
}

/// The model of a [`Json`] value.
pub enum JsonV {
    Null,
    Bool(bool),
    Number(JsonNumber),
    Str(Seq<char>),
    Array(Seq<JsonV>),
    Object(Seq<(Seq<char>, JsonV)>),
}

/// The value of the first member named `key`, if any.
pub open spec fn member(fields: Seq<(Seq<char>, JsonV)>, key: Seq<char>) -> Option<JsonV>
    decreases fields.len(),
{
    if fields.len() == 0 {
        None
    } else if fields[0].0 == key {
        Some(fields[0].1)
    } else {
        member(fields.drop_first(), key)
    }
}

impl JsonV {
    /// `Some(v)` where `self` is an object with a member `key` of value `v`.
    pub open spec fn get(self, key: Seq<char>) -> Option<JsonV> {
        match self {
            JsonV::Object(fields) => member(fields, key),
            _ => None,
        }
    }

    /// Indexing by key: the member's value, or `Null` where there is none.
    pub open spec fn at(self, key: Seq<char>) -> JsonV {
        match self.get(key) {
            Some(v) => v,
            None => JsonV::Null,
        }
    }

    /// The text of a string value.
    pub open spec fn as_str(self) -> Option<Seq<char>> {
        match self {
            JsonV::Str(s) => Some(s),
            _ => None,
        }
    }

    /// The truth value of a boolean value.
    pub open spec fn as_bool(self) -> Option<bool> {
        match self {
            JsonV::Bool(b) => Some(b),
            _ => None,
        }
    }

    /// The items of an array value.
    pub open spec fn as_array(self) -> Option<Seq<JsonV>> {
        match self {
            JsonV::Array(a) => Some(a),
            _ => None,
        }
    }

    /// Whether the value is `null`.
    pub open spec fn is_null(self) -> bool {
        self is Null
    }

    /// The number as a `u64`, where it is a non-negative integer.
    pub open spec fn as_u64(self) -> Option<u64> {
        match self {
            JsonV::Number(JsonNumber::PosInt(n)) => Some(n),
            _ => None,
        }
    }

    /// The number as an `i64`, where it is an integer in range.
    pub open spec fn as_i64(self) -> Option<i64> {
        match self {
            JsonV::Number(JsonNumber::PosInt(n)) => if n <= i64::MAX {
                Some(n as i64)
            } else {
                None
            },
            JsonV::Number(JsonNumber::NegInt(n)) => Some(n),
            _ => None,
        }
    }
}

impl Json {
    /// The mathematical model of the value.
    pub open spec fn model(self) -> JsonV
        decreases self,
    {
        match self {
            Json::Null => JsonV::Null,
            Json::Bool(b) => JsonV::Bool(b),
            Json::Number(n) => JsonV::Number(n),
            Json::Str(s) => JsonV::Str(s@),
            Json::Array(items) => JsonV::Array(
                Seq::new(
                    items@.len(),
                    |i: int|
                        if 0 <= i < items@.len() {
                            items@[i].model()
                        } else {
                            JsonV::Null
                        },
                ),
            ),
            Json::Object(fields) => JsonV::Object(
                Seq::new(
                    fields@.len(),
                    |i: int|
                        if 0 <= i < fields@.len() {
                            (fields@[i].0@, fields@[i].1.model())
                        } else {
                            (Seq::empty(), JsonV::Null)
                        },
                ),
            ),
        }
    }
}

impl View for Json {
    type V = JsonV;

    open spec fn view(&self) -> JsonV {
        self.model()
    }
}

impl Clone for Json {
    fn clone(&self) -> (r: Json)
        ensures
            r@ == self@,
    {
        self.duplicate()
    }
}

/// One member `key: value` where there is a value, none otherwise.
pub open spec fn opt_member(key: Seq<char>, value: Option<JsonV>) -> Seq<(Seq<char>, JsonV)> {
    match value {
        Some(v) => seq![(key, v)],
        None => seq![],
    }
}

/// A hexadecimal digit, lower case.
pub open spec fn hex_digit(n: int) -> char {
    if n < 10 {
        (48 + n) as char
    } else {
        (97 + n - 10) as char
    }
}

/// How a character appears inside a JSON string literal: quote and
/// backslash escaped, the control characters with short escapes where JSON
/// has them and as `\u00XX` otherwise, every other character as itself.
pub open spec fn json_escape(c: char) -> Seq<char> {
    let u = c as u32;
    if c == '"' {
        seq!['\\', '"']
    } else if c == '\\' {
        seq!['\\', '\\']
    } else if u == 0x08 {
        seq!['\\', 'b']
    } else if u == 0x09 {
        seq!['\\', 't']
    } else if u == 0x0a {
        seq!['\\', 'n']
    } else if u == 0x0c {
        seq!['\\', 'f']
    } else if u == 0x0d {
        seq!['\\', 'r']
    } else if u < 0x20 {
        seq!['\\', 'u', '0', '0', hex_digit(u as int / 16), hex_digit(u as int % 16)]
    } else {
        seq![c]
    }
}

/// The escaped characters of a string.
pub open spec fn json_escaped(s: Seq<char>) -> Seq<char>
    decreases s.len(),
{
    if s.len() == 0 {
        seq![]
    } else {
        json_escaped(s.drop_last()) + json_escape(s.last())
    }
}

/// The JSON string literal of a string.
pub open spec fn json_string_literal(s: Seq<char>) -> Seq<char> {
    seq!['"'] + json_escaped(s) + seq!['"']
}

/// `serde_json::to_string` of a string: its JSON string literal. Writing a
/// string into memory cannot fail, so a literal always comes back.
#[verifier::external_body]
fn serde_quote(s: &str) -> (r: Option<String>)
    ensures
        r is Some,
        r->Some_0@ == json_string_literal(s@),
{
    serde_json::to_string(s).ok()
}

/// The JSON string literal of `s`, as JavaScript source reads it.
pub fn quoted(s: &str) -> (r: String)
    ensures
        r@ == json_string_literal(s@),
{
    serde_quote(s).unwrap()
}

/// The model of a list of JSON values.
pub open spec fn values_model(items: Seq<Json>) -> Seq<JsonV> {
    Seq::new(items.len(), |i: int| items[i]@)
}

/// The model of a list of object members.
pub open spec fn members_model(fields: Seq<(String, Json)>) -> Seq<(Seq<char>, JsonV)> {
    Seq::new(fields.len(), |i: int| (fields[i].0@, fields[i].1@))
}

/// An array value's model is the array of its items' models.
pub proof fn lemma_array_model(items: Vec<Json>)
    ensures
        Json::Array(items)@ == JsonV::Array(values_model(items@)),
{
    assert(Json::Array(items)@->Array_0 =~= values_model(items@));
}

/// An object value's model is the object of its members' models.
pub proof fn lemma_object_model(fields: Vec<(String, Json)>)
    ensures
        Json::Object(fields)@ == JsonV::Object(members_model(fields@)),
{
    assert(Json::Object(fields)@->Object_0 =~= members_model(fields@));
}

impl Json {
    /// A JSON string.
    pub fn string(s: &str) -> (r: Json)
        ensures
            r@ == JsonV::Str(s@),
    {
        Json::Str(s.to_string())
    }

    /// A non-negative JSON integer.
    pub fn uint(n: u64) -> (r: Json)
        ensures
            r@ == JsonV::Number(JsonNumber::PosInt(n)),
    {
        Json::Number(JsonNumber::PosInt(n))
    }

    /// A JSON integer, in the shape that its sign calls for.
    pub fn signed(n: i64) -> (r: Json)
        ensures
            r@ == JsonV::Number(
                if n < 0 {
                    JsonNumber::NegInt(n)
                } else {
                    JsonNumber::PosInt(n as u64)
                },
            ),
    {
        if n < 0 {
            Json::Number(JsonNumber::NegInt(n))
        } else {
            Json::Number(JsonNumber::PosInt(n as u64))
        }
    }

    /// An object member.
    pub fn member(key: &str, value: Json) -> (r: (String, Json))
        ensures
            r.0@ == key@,
            r.1@ == value@,
    {
        (key.to_string(), value)
    }

    /// A JSON object with the given members, in order.
    pub fn object(fields: Vec<(String, Json)>) -> (r: Json)
        ensures
            r@ == JsonV::Object(members_model(fields@)),
    {
        proof {
            lemma_object_model(fields);
        }
        Json::Object(fields)
    }

    /// A JSON array with the given items, in order.
    pub fn array(items: Vec<Json>) -> (r: Json)
        ensures
            r@ == JsonV::Array(values_model(items@)),
    {
        proof {
            lemma_array_model(items);
        }
        Json::Array(items)
    }

    /// Appends a member to a member list.
    pub fn push_member(fields: &mut Vec<(String, Json)>, key: &str, value: Json)
        ensures
            members_model(final(fields)@) == members_model(old(fields)@).push((key@, value@)),
    {
        fields.push((key.to_string(), value));
        assert(members_model(fields@) =~= members_model(old(fields)@).push((key@, value@)));
    }

    /// A copy of this value.
    pub fn duplicate(&self) -> (r: Json)
        ensures
            r@ == self@,
        decreases self,
    {
        match self {
            Json::Null => Json::Null,
            Json::Bool(b) => Json::Bool(*b),
            Json::Number(n) => Json::Number(*n),
            Json::Str(s) => Json::Str(s.clone()),
            Json::Array(items) => {
                let mut out: Vec<Json> = Vec::new();
                let mut i: usize = 0;
                while i < items.len()
                    invariant
                        0 <= i <= items@.len(),
                        out@.len() == i,
                        *self is Array && (*self)->Array_0 == *items,
                        forall|k: int| 0 <= k < i ==> #[trigger] out@[k]@ == items@[k]@,
                    decreases items@.len() - i,
                {
                    proof {
                        vstd::std_specs::vec::axiom_vec_index_decreases(*items, i as int);
                        assert(decreases_to!(*self => (*self)->Array_0));
                        assert(decreases_to!(*self => items@[i as int]));
                    }
                    let c = items[i].duplicate();
                    out.push(c);
                    i = i + 1;
                }
                proof {
                    lemma_array_model(out);
                    assert(values_model(out@) =~= self@->Array_0);
                }
                Json::Array(out)
            },
            Json::Object(fields) => {
                let mut out: Vec<(String, Json)> = Vec::new();
                let mut i: usize = 0;
                while i < fields.len()
                    invariant
                        0 <= i <= fields@.len(),
                        out@.len() == i,
                        *self is Object && (*self)->Object_0 == *fields,
                        forall|k: int|
                            0 <= k < i ==> #[trigger] out@[k].0@ == fields@[k].0@ && out@[k].1@
                                == fields@[k].1@,
                    decreases fields@.len() - i,
                {
                    proof {
                        vstd::std_specs::vec::axiom_vec_index_decreases(*fields, i as int);
                        assert(decreases_to!(*self => (*self)->Object_0));
                        assert(decreases_to!(*self => fields@[i as int]));
                        assert(decreases_to!(*self => fields@[i as int].1));
                    }
                    let v = fields[i].1.duplicate();
                    let k = fields[i].0.clone();
                    out.push((k, v));
                    i = i + 1;
                }
                proof {
                    lemma_object_model(out);
                    assert(members_model(out@) =~= self@->Object_0);
                }
                Json::Object(out)
            },
        }
    }

    /// The value of the member `key`, where `self` is an object that has one.
    pub fn get(&self, key: &str) -> (r: Option<&Json>)
        ensures
            match r {
                Some(v) => self@.get(key@) == Some(v@),
                None => self@.get(key@) is None,
            },
    {
        match self {
            Json::Object(fields) => {
                let ghost fs = self@->Object_0;
                proof {
                    lemma_object_model(*fields);
                    assert(fs.subrange(0, fs.len() as int) =~= fs);
                }
                let mut i: usize = 0;
                while i < fields.len()
                    invariant
                        0 <= i <= fields@.len(),
                        fs.len() == fields@.len(),
                        self@ == JsonV::Object(fs),
                        forall|k: int|
                            0 <= k < fields@.len() ==> #[trigger] fs[k] == (
                                fields@[k].0@,
                                fields@[k].1@,
                            ),
                        member(fs, key@) == member(fs.subrange(i as int, fs.len() as int), key@),
                    decreases fields@.len() - i,
                {
                    let ghost rest = fs.subrange(i as int, fs.len() as int);
                    assert(rest.drop_first() =~= fs.subrange(i + 1, fs.len() as int));
                    assert(rest[0] == fs[i as int]);
                    if str_eq(fields[i].0.as_str(), key) {
                        return Some(&fields[i].1);
                    }
                    i = i + 1;
                }
                assert(fs.subrange(i as int, fs.len() as int).len() == 0);
                None
            },
            _ => None,
        }
    }

    /// The value of the member `key` as a string, where it is one.
    pub fn str_at(&self, key: &str) -> (r: Option<&str>)
        ensures
            match r {
                Some(s) => self@.at(key@).as_str() == Some(s@),
                None => self@.at(key@).as_str() is None,
            },
    {
        match self.get(key) {
            Some(v) => v.as_str(),
            None => None,
        }
    }

    /// The text of a string value (`serde_json::Value::as_str`).
    pub fn as_str(&self) -> (r: Option<&str>)
        ensures
            match r {
                Some(s) => self@.as_str() == Some(s@),
                None => self@.as_str() is None,
            },
    {
        match self {
            Json::Str(s) => Some(s.as_str()),
            _ => None,
        }
    }

    /// The truth value of a boolean value (`serde_json::Value::as_bool`).
    pub fn as_bool(&self) -> (r: Option<bool>)
        ensures
            r == self@.as_bool(),
    {
        match self {
            Json::Bool(b) => Some(*b),
            _ => None,
        }
    }

    /// A number that is a non-negative integer (`serde_json::Value::as_u64`).
    pub fn as_u64(&self) -> (r: Option<u64>)
        ensures
            r == self@.as_u64(),
    {
        match self {
            Json::Number(JsonNumber::PosInt(n)) => Some(*n),
            _ => None,
        }
    }

    /// A number that is an integer in `i64` range (`serde_json::Value::as_i64`).
    pub fn as_i64(&self) -> (r: Option<i64>)
        ensures
            r == self@.as_i64(),
    {
        match self {
            Json::Number(JsonNumber::PosInt(n)) => {
                if *n <= 9223372036854775807u64 {
                    Some(*n as i64)
                } else {
                    None
                }
            },
            Json::Number(JsonNumber::NegInt(n)) => Some(*n),
            _ => None,
        }
    }

    /// The items of an array value (`serde_json::Value::as_array`).
    pub fn as_array(&self) -> (r: Option<&Vec<Json>>)
        ensures
            match r {
                Some(items) => self@.as_array() == Some(values_model(items@)),
                None => self@.as_array() is None,
            },
    {
        match self {
            Json::Array(items) => {
                proof {
                    assert(values_model(items@) =~= self@->Array_0);
                }
                Some(items)
            },
            _ => None,
        }
    }

    /// Whether the value is `null` (`serde_json::Value::is_null`).
    pub fn is_null(&self) -> (r: bool)
        ensures
            r == self@.is_null(),
    {
        match self {
            Json::Null => true,
            _ => false,
        }
    }

    /// The items of the array in the member `key`, or none where that member
    /// is no array.
    pub fn items_at(&self, key: &str) -> (r: Vec<Json>)
        ensures
            values_model(r@) == match self@.at(key@).as_array() {
                Some(a) => a,
                None => Seq::empty(),
            },
    {
        let mut out: Vec<Json> = Vec::new();
        match self.get(key) {
            Some(v) => match v.as_array() {
                Some(items) => {
                    let mut i: usize = 0;
                    while i < items.len()
                        invariant
                            0 <= i <= items@.len(),
                            out@.len() == i,
                            forall|k: int| 0 <= k < i ==> (#[trigger] out@[k])@ == items@[k]@,
                        decreases items@.len() - i,
                    {
                        out.push(items[i].duplicate());
                        i = i + 1;
                    }
                    assert(values_model(out@) =~= values_model(items@));
                },
                None => {
                    assert(values_model(out@) =~= Seq::<JsonV>::empty());
                },
            },
            None => {
                assert(values_model(out@) =~= Seq::<JsonV>::empty());
            },
        }
        out
    }

    /// The value of the member `key`, or `Null` where there is none
    /// (indexing by key).
    pub fn at(&self, key: &str) -> (r: Json)
        ensures
            r@ == self@.at(key@),
    {
        match self.get(key) {
            Some(v) => v.duplicate(),
            None => Json::Null,
        }
    }
}

} // verus!

verus! {

proof fn lemma_escape_nonempty(c: char)
    ensures
        json_escape(c).len() > 0,
        json_escape(c)[0] == '\\' <==> (c == '"' || c == '\\' || (c as u32) < 0x20),
{
}

proof fn lemma_escaped_len(s: Seq<char>)
    ensures
        json_escaped(s).len() >= s.len(),
    decreases s.len(),
{
    if s.len() > 0 {
        lemma_escaped_len(s.drop_last());
        lemma_escape_nonempty(s.last());
    }
}

proof fn lemma_escaped_front(s: Seq<char>)
    requires
        s.len() > 0,
    ensures
        json_escaped(s) == json_escape(s[0]) + json_escaped(s.drop_first()),
    decreases s.len(),
{
    if s.len() == 1 {
        assert(s.drop_last() =~= Seq::<char>::empty());
        assert(s.drop_first() =~= Seq::<char>::empty());
        assert(json_escaped(s) =~= json_escape(s[0]) + json_escaped(s.drop_first()));
    } else {
        lemma_escaped_front(s.drop_last());
        assert(s.drop_last().drop_first() =~= s.drop_first().drop_last());
        assert(s.drop_first().last() == s.last());
        assert(s.drop_last()[0] == s[0]);
        assert(json_escaped(s) =~= json_escape(s[0]) + json_escaped(s.drop_first()));
    }
}

proof fn lemma_hex_digit_injective(a: int, b: int)
    requires
        0 <= a < 16,
        0 <= b < 16,
        hex_digit(a) == hex_digit(b),
    ensures
        a == b,
{
}

/// No escape is the start of another: the first escape of an escaped text
/// tells its character.
proof fn lemma_escape_prefix_free(c: char, d: char, x: Seq<char>, y: Seq<char>)
    requires
        json_escape(c) + x == json_escape(d) + y,
    ensures
        c == d,
{
    let e = json_escape(c);
    let f = json_escape(d);
    let t = e + x;
    lemma_escape_nonempty(c);
    lemma_escape_nonempty(d);
    assert(t[0] == e[0]);
    assert(t[0] == f[0]);
    if e[0] != '\\' {
        assert(e =~= seq![c]);
        assert(f =~= seq![d]);
    } else {
        assert(t[1] == e[1]);
        assert(t[1] == f[1]);
        let u = c as u32;
        let v = d as u32;
        if e[1] == 'u' {
            assert(u < 0x20 && u != 0x08 && u != 0x09 && u != 0x0a && u != 0x0c && u != 0x0d);
            assert(v < 0x20 && v != 0x08 && v != 0x09 && v != 0x0a && v != 0x0c && v != 0x0d);
            assert(t[4] == e[4] && t[4] == f[4]);
            assert(t[5] == e[5] && t[5] == f[5]);
            lemma_hex_digit_injective(u as int / 16, v as int / 16);
            lemma_hex_digit_injective(u as int % 16, v as int % 16);
            assert(u == v);
        }
    }
}

proof fn lemma_escaped_injective(a: Seq<char>, b: Seq<char>)
    requires
        json_escaped(a) == json_escaped(b),
    ensures
        a == b,
    decreases a.len(),
{
    lemma_escaped_len(a);
    lemma_escaped_len(b);
    if a.len() == 0 {
        if b.len() > 0 {
            lemma_escaped_front(b);
            lemma_escape_nonempty(b[0]);
        }
        assert(b =~= a);
    } else if b.len() == 0 {
        lemma_escaped_front(a);
        lemma_escape_nonempty(a[0]);
    } else {
        lemma_escaped_front(a);
        lemma_escaped_front(b);
        lemma_escape_prefix_free(a[0], b[0], json_escaped(a.drop_first()), json_escaped(b.drop_first()));
        let e = json_escape(a[0]);
        let whole = json_escaped(a);
        assert(json_escaped(a.drop_first()) =~= whole.subrange(e.len() as int, whole.len() as int));
        assert(json_escaped(b.drop_first()) =~= whole.subrange(e.len() as int, whole.len() as int));
        lemma_escaped_injective(a.drop_first(), b.drop_first());
        assert(a =~= seq![a[0]] + a.drop_first());
        assert(b =~= seq![b[0]] + b.drop_first());
    }
}

/// A string is embedded unambiguously: two strings with the same JSON
/// string literal are the same string, so a selector or a name quoted into
/// a script reaches the page as it was given.
pub proof fn law_string_literal_injective(a: Seq<char>, b: Seq<char>)
    requires
        json_string_literal(a) == json_string_literal(b),
    ensures
        a == b,
{
    let la = json_string_literal(a);
    assert(json_escaped(a) =~= la.subrange(1, la.len() - 1));
    assert(json_escaped(b) =~= la.subrange(1, la.len() - 1));
    lemma_escaped_injective(a, b);
}

/// Members before the first one named `key` do not change what `key`
/// finds: looking it up in `a + b`, where no member of `a` is named `key`,
/// finds what it finds in `b`.
pub proof fn lemma_member_skips(a: Seq<(Seq<char>, JsonV)>, b: Seq<(Seq<char>, JsonV)>, key: Seq<char>)
    requires
        forall|i: int| 0 <= i < a.len() ==> a[i].0 != key,
    ensures
        member(a + b, key) == member(b, key),
    decreases a.len(),
{
    if a.len() > 0 {
        lemma_member_skips(a.drop_first(), b, key);
        assert((a + b).drop_first() =~= a.drop_first() + b);
        assert((a + b)[0] == a[0]);
    } else {
        assert(a + b =~= b);
    }
}

/// The first member named `key` is found before anything that follows.
pub proof fn lemma_member_first(a: Seq<(Seq<char>, JsonV)>, b: Seq<(Seq<char>, JsonV)>, key: Seq<char>)
    requires
        member(a, key) is Some,
    ensures
        member(a + b, key) == member(a, key),
    decreases a.len(),
{
    if a.len() > 0 && a[0].0 != key {
        lemma_member_first(a.drop_first(), b, key);
        assert((a + b).drop_first() =~= a.drop_first() + b);
    }
}

/// No member of `f` is named `key`.
pub open spec fn lacks_key(f: Seq<(Seq<char>, JsonV)>, key: Seq<char>) -> bool {
    forall|i: int| 0 <= i < f.len() ==> f[i].0 != key
}

/// Two member lists that lack a key lack it together.
pub proof fn lemma_lacks_key_concat(a: Seq<(Seq<char>, JsonV)>, b: Seq<(Seq<char>, JsonV)>, key: Seq<char>)
    requires
        lacks_key(a, key),
        lacks_key(b, key),
    ensures
        lacks_key(a + b, key),
{
    assert forall|i: int| 0 <= i < (a + b).len() implies (a + b)[i].0 != key by {
        if i < a.len() {
            assert((a + b)[i] == a[i]);
        } else {
            assert((a + b)[i] == b[i - a.len()]);
        }
    }
}

/// An optional member lacks every other key.
pub proof fn lemma_opt_member_lacks(k: Seq<char>, v: Option<JsonV>, key: Seq<char>)
    requires
        k != key,
    ensures
        lacks_key(opt_member(k, v), key),
{
}

/// An optional member between members of other names is what its key finds.
pub proof fn lemma_opt_member_lookup(
    a: Seq<(Seq<char>, JsonV)>,
    k: Seq<char>,
    v: Option<JsonV>,
    b: Seq<(Seq<char>, JsonV)>,
)
    requires
        lacks_key(a, k),
        lacks_key(b, k),
    ensures
        member(a + opt_member(k, v) + b, k) == v,
{
    let o = opt_member(k, v);
    assert(a + o + b =~= a + (o + b));
    lemma_member_skips(a, o + b, k);
    lemma_member_skips(b, Seq::empty(), k);
    assert(b + Seq::<(Seq<char>, JsonV)>::empty() =~= b);
    if v is None {
        assert(o + b =~= b);
    } else {
        assert((o + b)[0] == (k, v->Some_0));
    }
}

} // verus!
