use vstd::prelude::*;
use vstd::string::StrSliceExecFns;
use vstd::string::StringExecFns;

use crate::strutil::{i64_to_string, spec_i64_string, str_eq};
use crate::trusted::push_char;

verus! {

/// A JSON value as the library models it. Backend payloads are converted
/// into this shape at the process edge; every normalization rule is stated
/// and verified over it.
#[derive(Debug)]
pub enum Json {
    Null,
    Bool(bool),
    /// A JSON number that fits a signed 64-bit integer.
    Int(i64),
    /// Any other JSON number, carried as its decimal text.
    Num(String),
    Str(String),
    Arr(Vec<Json>),
    /// An object as an ordered list of key/value pairs; lookups take the
    /// first pair with a matching key.
    Obj(Vec<(String, Json)>),
}

/// The first value bound to `key` in a field list.
pub open spec fn spec_obj_get(fields: Seq<(String, Json)>, key: Seq<char>) -> Option<Json>
    decreases fields.len(),
{
    if fields.len() == 0 {
        None
    } else if fields[0].0@ == key {
        Some(fields[0].1)
    } else {
        spec_obj_get(fields.subrange(1, fields.len() as int), key)
    }
}

/// Object field lookup; None on anything that is not an object.
pub open spec fn spec_get(j: Json, key: Seq<char>) -> Option<Json> {
    match j {
        Json::Obj(fields) => spec_obj_get(fields@, key),
        _ => None,
    }
}

/// The string content of `j`, when it is a string.
pub open spec fn spec_as_str(j: Json) -> Option<Seq<char>> {
    match j {
        Json::Str(s) => Some(s@),
        _ => None,
    }
}

/// The integer content of `j`, when it is an integer-valued number.
pub open spec fn spec_as_i64(j: Json) -> Option<i64> {
    match j {
        Json::Int(n) => Some(n),
        _ => None,
    }
}

/// The string bound to `key`, when `j` is an object and the value a string.
pub open spec fn spec_get_str(j: Json, key: Seq<char>) -> Option<Seq<char>> {
    match spec_get(j, key) {
        Some(v) => spec_as_str(v),
        None => None,
    }
}

/// The integer bound to `key`, when `j` is an object and the value an
/// integer-valued number.
pub open spec fn spec_get_i64(j: Json, key: Seq<char>) -> Option<i64> {
    match spec_get(j, key) {
        Some(v) => spec_as_i64(v),
        None => None,
    }
}

/// The boolean bound to `key`, when `j` is an object and the value a boolean.
pub open spec fn spec_get_bool(j: Json, key: Seq<char>) -> Option<bool> {
    match spec_get(j, key) {
        Some(v) => match v {
            Json::Bool(b) => Some(b),
            _ => None,
        },
        None => None,
    }
}

/// The elements bound to `key`, when `j` is an object and the value an array.
pub open spec fn spec_get_arr(j: Json, key: Seq<char>) -> Option<Seq<Json>> {
    match spec_get(j, key) {
        Some(v) => match v {
            Json::Arr(items) => Some(items@),
            _ => None,
        },
        None => None,
    }
}

fn obj_get_from<'a>(fields: &'a Vec<(String, Json)>, key: &str, i: usize) -> (r: Option<&'a Json>)
    requires
        i <= fields@.len(),
    ensures
        match r {
            Some(v) => spec_obj_get(fields@.subrange(i as int, fields@.len() as int), key@)
                == Some(*v),
            None => spec_obj_get(fields@.subrange(i as int, fields@.len() as int), key@) is None,
        },
    decreases fields@.len() - i,
{
    if i == fields.len() {
        return None;
    }
    if str_eq(fields[i].0.as_str(), key) {
        assert(fields@.subrange(i as int, fields@.len() as int)[0] == fields@[i as int]);
        Some(&fields[i].1)
    } else {
        let r = obj_get_from(fields, key, i + 1);
        proof {
            let whole = fields@.subrange(i as int, fields@.len() as int);
            assert(whole.subrange(1, whole.len() as int) =~= fields@.subrange(
                i + 1,
                fields@.len() as int,
            ));
            assert(whole[0] == fields@[i as int]);
        }
        r
    }
}

impl Json {
    /// The first value bound to `key`, when this is an object.
    pub fn get<'a>(&'a self, key: &str) -> (r: Option<&'a Json>)
        ensures
            match r {
                Some(v) => spec_get(*self, key@) == Some(*v),
                None => spec_get(*self, key@) is None,
            },
    {
        match self {
            Json::Obj(fields) => {
                let r = obj_get_from(fields, key, 0);
                proof {
                    assert(fields@.subrange(0, fields@.len() as int) =~= fields@);
                }
                r
            },
            _ => None,
        }
    }

    /// The string content, when this is a string.
    pub fn as_str<'a>(&'a self) -> (r: Option<&'a String>)
        ensures
            match r {
                Some(s) => spec_as_str(*self) == Some(s@),
                None => spec_as_str(*self) is None,
            },
    {
        match self {
            Json::Str(s) => Some(s),
            _ => None,
        }
    }

    /// The integer content, when this is an integer-valued number.
    pub fn as_i64(&self) -> (r: Option<i64>)
        ensures
            r == spec_as_i64(*self),
    {
        match self {
            Json::Int(n) => Some(*n),
            _ => None,
        }
    }

    /// The boolean content, when this is a boolean.
    pub fn as_bool(&self) -> (r: Option<bool>)
        ensures
            match r {
                Some(b) => *self == Json::Bool(b),
                None => !(*self matches Json::Bool(_)),
            },
    {
        match self {
            Json::Bool(b) => Some(*b),
            _ => None,
        }
    }

    /// The elements, when this is an array.
    pub fn as_array<'a>(&'a self) -> (r: Option<&'a Vec<Json>>)
        ensures
            match r {
                Some(items) => *self == Json::Arr(*items),
                None => !(*self matches Json::Arr(_)),
            },
    {
        match self {
            Json::Arr(items) => Some(items),
            _ => None,
        }
    }

    /// The string bound to `key`, when present.
    pub fn get_str<'a>(&'a self, key: &str) -> (r: Option<&'a String>)
        ensures
            match r {
                Some(s) => spec_get_str(*self, key@) == Some(s@),
                None => spec_get_str(*self, key@) is None,
            },
    {
        match self.get(key) {
            Some(v) => v.as_str(),
            None => None,
        }
    }

    /// The integer bound to `key`, when present.
    pub fn get_i64(&self, key: &str) -> (r: Option<i64>)
        ensures
            r == spec_get_i64(*self, key@),
    {
        match self.get(key) {
            Some(v) => v.as_i64(),
            None => None,
        }
    }

    /// The boolean bound to `key`, when present.
    pub fn get_bool(&self, key: &str) -> (r: Option<bool>)
        ensures
            r == spec_get_bool(*self, key@),
    {
        match self.get(key) {
            Some(v) => v.as_bool(),
            None => None,
        }
    }

    /// The elements bound to `key`, when the value is an array.
    pub fn get_arr<'a>(&'a self, key: &str) -> (r: Option<&'a Vec<Json>>)
        ensures
            match r {
                Some(items) => spec_get_arr(*self, key@) == Some(items@),
                None => spec_get_arr(*self, key@) is None,
            },
    {
        match self.get(key) {
            Some(v) => v.as_array(),
            None => None,
        }
    }

    /// The string reached through two nested object keys, when present.
    pub fn get2_str<'a>(&'a self, key1: &str, key2: &str) -> (r: Option<&'a String>)
        ensures
            match r {
                Some(s) => spec_get2_str(*self, key1@, key2@) == Some(s@),
                None => spec_get2_str(*self, key1@, key2@) is None,
            },
    {
        match self.get(key1) {
            Some(v) => v.get_str(key2),
            None => None,
        }
    }
}

impl Json {
    /// The string reached through three nested object keys, when present.
    pub fn get3_str<'a>(&'a self, key1: &str, key2: &str, key3: &str) -> (r: Option<&'a String>)
        ensures
            match r {
                Some(s) => spec_get3_str(*self, key1@, key2@, key3@) == Some(s@),
                None => spec_get3_str(*self, key1@, key2@, key3@) is None,
            },
    {
        match self.get(key1) {
            Some(v) => v.get2_str(key2, key3),
            None => None,
        }
    }
}

/// The string reached through three nested object keys.
pub open spec fn spec_get3_str(
    j: Json,
    key1: Seq<char>,
    key2: Seq<char>,
    key3: Seq<char>,
) -> Option<Seq<char>> {
    match spec_get(j, key1) {
        Some(v) => spec_get2_str(v, key2, key3),
        None => None,
    }
}

/// The string reached through two nested object keys.
pub open spec fn spec_get2_str(j: Json, key1: Seq<char>, key2: Seq<char>) -> Option<Seq<char>> {
    match spec_get(j, key1) {
        Some(v) => spec_get_str(v, key2),
        None => None,
    }
}

/// The hexadecimal digit character for `d`.
pub open spec fn spec_hex_char(d: int) -> char {
    if d < 10 {
        crate::strutil::spec_digit_char(d)
    } else if d == 10 {
        'a'
    } else if d == 11 {
        'b'
    } else if d == 12 {
        'c'
    } else if d == 13 {
        'd'
    } else if d == 14 {
        'e'
    } else {
        'f'
    }
}

/// How one character appears inside a JSON string literal.
pub open spec fn spec_escape_char(c: char) -> Seq<char> {
    if c == '"' {
        seq!['\\', '"']
    } else if c == '\\' {
        seq!['\\', '\\']
    } else if c == '\n' {
        seq!['\\', 'n']
    } else if c == '\r' {
        seq!['\\', 'r']
    } else if c == '\t' {
        seq!['\\', 't']
    } else if c == '\u{8}' {
        seq!['\\', 'b']
    } else if c == '\u{c}' {
        seq!['\\', 'f']
    } else if (c as u32) < 32 {
        seq!['\\', 'u', '0', '0', spec_hex_char((c as u32) as int / 16), spec_hex_char(
            (c as u32) as int % 16,
        )]
    } else {
        seq![c]
    }
}

/// A character sequence with every character escaped for a JSON string
/// literal.
pub open spec fn spec_escaped(s: Seq<char>) -> Seq<char>
    decreases s.len(),
{
    if s.len() == 0 {
        Seq::empty()
    } else {
        spec_escaped(s.subrange(0, s.len() - 1)) + spec_escape_char(s[s.len() - 1])
    }
}

/// The compact JSON text of a value.
pub open spec fn spec_render(j: Json) -> Seq<char>
    decreases j,
{
    match j {
        Json::Null => "null"@,
        Json::Bool(b) => if b {
            "true"@
        } else {
            "false"@
        },
        Json::Int(n) => spec_i64_string(n as int),
        Json::Num(s) => s@,
        Json::Str(s) => seq!['"'] + spec_escaped(s@) + seq!['"'],
        Json::Arr(items) => seq!['['] + spec_render_items(items@) + seq![']'],
        Json::Obj(fields) => seq!['{'] + spec_render_fields(fields@) + seq!['}'],
    }
}

/// The comma-separated JSON texts of array elements.
pub open spec fn spec_render_items(items: Seq<Json>) -> Seq<char>
    decreases items,
{
    if items.len() == 0 {
        Seq::empty()
    } else if items.len() == 1 {
        spec_render(items[0])
    } else {
        spec_render_items(items.subrange(0, items.len() - 1)) + seq![','] + spec_render(
            items[items.len() - 1],
        )
    }
}

/// The JSON text of one object field.
pub open spec fn spec_render_field(f: (String, Json)) -> Seq<char>
    decreases f,
{
    seq!['"'] + spec_escaped(f.0@) + seq!['"', ':'] + spec_render(f.1)
}

/// The comma-separated JSON texts of object fields.
pub open spec fn spec_render_fields(fields: Seq<(String, Json)>) -> Seq<char>
    decreases fields,
{
    if fields.len() == 0 {
        Seq::empty()
    } else if fields.len() == 1 {
        spec_render_field(fields[0])
    } else {
        spec_render_fields(fields.subrange(0, fields.len() - 1)) + seq![','] + spec_render_field(
            fields[fields.len() - 1],
        )
    }
}

fn hex_char(d: u32) -> (c: char)
    requires
        d < 16,
    ensures
        c == spec_hex_char(d as int),
{
    match d {
        0 => '0',
        1 => '1',
        2 => '2',
        3 => '3',
        4 => '4',
        5 => '5',
        6 => '6',
        7 => '7',
        8 => '8',
        9 => '9',
        10 => 'a',
        11 => 'b',
        12 => 'c',
        13 => 'd',
        14 => 'e',
        _ => 'f',
    }
}

fn escape_char_into(acc: &mut String, c: char)
    ensures
        final(acc)@ == old(acc)@ + spec_escape_char(c),
{
    if c == '"' {
        push_char(acc, '\\');
        push_char(acc, '"');
    } else if c == '\\' {
        push_char(acc, '\\');
        push_char(acc, '\\');
    } else if c == '\n' {
        push_char(acc, '\\');
        push_char(acc, 'n');
    } else if c == '\r' {
        push_char(acc, '\\');
        push_char(acc, 'r');
    } else if c == '\t' {
        push_char(acc, '\\');
        push_char(acc, 't');
    } else if c == '\u{8}' {
        push_char(acc, '\\');
        push_char(acc, 'b');
    } else if c == '\u{c}' {
        push_char(acc, '\\');
        push_char(acc, 'f');
    } else if (c as u32) < 32 {
        let d = c as u32;
        push_char(acc, '\\');
        push_char(acc, 'u');
        push_char(acc, '0');
        push_char(acc, '0');
        push_char(acc, hex_char(d / 16));
        push_char(acc, hex_char(d % 16));
        assert(old(acc)@ + spec_escape_char(c) =~= final(acc)@);
    } else {
        push_char(acc, c);
    }
}

/// Append the escaped form of `s` to `acc`.
fn escape_into(acc: &mut String, s: &str)
    ensures
        final(acc)@ == old(acc)@ + spec_escaped(s@),
{
    let n = s.unicode_len();
    let mut i: usize = 0;
    while i < n
        invariant
            0 <= i <= n,
            n == s@.len(),
            acc@ == old(acc)@ + spec_escaped(s@.subrange(0, i as int)),
        decreases n - i,
    {
        let c = s.get_char(i);
        escape_char_into(acc, c);
        proof {
            let pre = s@.subrange(0, i as int);
            let now = s@.subrange(0, i + 1);
            assert(now.subrange(0, now.len() - 1) =~= pre);
            assert(acc@ =~= old(acc)@ + spec_escaped(now));
        }
        i += 1;
    }
    proof {
        assert(s@.subrange(0, s@.len() as int) =~= s@);
    }
}

/// The escaped form of a string for a JSON string literal.
pub fn json_escaped(s: &str) -> (r: String)
    ensures
        r@ == spec_escaped(s@),
{
    let mut acc = String::new();
    escape_into(&mut acc, s);
    acc
}

/// Render a JSON value as compact JSON text.
pub fn render_json(j: &Json) -> (r: String)
    ensures
        r@ == spec_render(*j),
    decreases *j,
{
    match j {
        Json::Null => String::from_str("null"),
        Json::Bool(b) => {
            if *b {
                String::from_str("true")
            } else {
                String::from_str("false")
            }
        },
        Json::Int(n) => i64_to_string(*n),
        Json::Num(s) => s.clone(),
        Json::Str(s) => {
            let mut acc = String::new();
            push_char(&mut acc, '"');
            escape_into(&mut acc, s.as_str());
            push_char(&mut acc, '"');
            proof {
                assert(acc@ =~= spec_render(*j));
            }
            acc
        },
        Json::Arr(items) => {
            let mut acc = String::new();
            push_char(&mut acc, '[');
            let n = items.len();
            let mut i: usize = 0;
            while i < n
                invariant
                    0 <= i <= n,
                    n == items@.len(),
                    j == &Json::Arr(*items),
                    acc@ == seq!['['] + spec_render_items(items@.subrange(0, i as int)),
                decreases n - i,
            {
                if i > 0 {
                    push_char(&mut acc, ',');
                }
                proof {
                    assert((*j)->Arr_0 == *items);
                    assert(decreases_to!(*j => (*j)->Arr_0));
                    assert(decreases_to!(*items => items@));
                    assert(decreases_to!(items@ => items@[i as int]));
                    assert(decreases_to!(*j => items@[i as int]));
                }
                let piece = render_json(&items[i]);
                acc.append(piece.as_str());
                proof {
                    let pre = items@.subrange(0, i as int);
                    let now = items@.subrange(0, i + 1);
                    assert(now.subrange(0, now.len() - 1) =~= pre);
                    assert(now[now.len() - 1] == items@[i as int]);
                    assert(acc@ =~= seq!['['] + spec_render_items(now));
                }
                i += 1;
            }
            push_char(&mut acc, ']');
            proof {
                assert(items@.subrange(0, items@.len() as int) =~= items@);
                assert(acc@ =~= spec_render(*j));
            }
            acc
        },
        Json::Obj(fields) => {
            let mut acc = String::new();
            push_char(&mut acc, '{');
            let n = fields.len();
            let mut i: usize = 0;
            while i < n
                invariant
                    0 <= i <= n,
                    n == fields@.len(),
                    j == &Json::Obj(*fields),
                    acc@ == seq!['{'] + spec_render_fields(fields@.subrange(0, i as int)),
                decreases n - i,
            {
                if i > 0 {
                    push_char(&mut acc, ',');
                }
                push_char(&mut acc, '"');
                escape_into(&mut acc, fields[i].0.as_str());
                push_char(&mut acc, '"');
                push_char(&mut acc, ':');
                proof {
                    assert((*j)->Obj_0 == *fields);
                    assert(decreases_to!(*j => (*j)->Obj_0));
                    assert(decreases_to!(*fields => fields@));
                    assert(decreases_to!(fields@ => fields@[i as int]));
                    assert(decreases_to!(fields@[i as int] => fields@[i as int].1));
                    assert(decreases_to!(*j => fields@[i as int].1));
                }
                let piece = render_json(&fields[i].1);
                acc.append(piece.as_str());
                proof {
                    let pre = fields@.subrange(0, i as int);
                    let now = fields@.subrange(0, i + 1);
                    let k = fields@[i as int].0@;
                    assert(now.subrange(0, now.len() - 1) =~= pre);
                    assert(now[now.len() - 1] == fields@[i as int]);
                    assert(spec_render_field(fields@[i as int]) =~= seq!['"'] + spec_escaped(k)
                        + seq!['"'] + seq![':'] + spec_render(fields@[i as int].1));
                    assert(acc@ =~= seq!['{'] + spec_render_fields(now));
                }
                i += 1;
            }
            push_char(&mut acc, '}');
            proof {
                assert(fields@.subrange(0, fields@.len() as int) =~= fields@);
                assert(acc@ =~= spec_render(*j));
            }
            acc
        },
    }
}

} // verus!
