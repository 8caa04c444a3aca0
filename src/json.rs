//! Thin, exactly-stated access to serde_json: splitting JSON text into array
//! items and object members, reading scalar values, and quoting strings.
//! Everything that walks a decoded document lives in verified code on top.
use vstd::prelude::*;

verus! {

#[verifier::external_type_specification]
#[verifier::external_body]
pub struct ExJsonError(serde_json::Error);

/// The raw text of each item of the JSON array in `s`, in order; `None` when
/// `s` is not a JSON array.
pub uninterp spec fn json_items(s: Seq<char>) -> Option<Seq<Seq<char>>>;

/// The members (key, raw value text) of the JSON object in `s`, one per key,
/// in key order; `None` when `s` is not a JSON object.
pub uninterp spec fn json_members(s: Seq<char>) -> Option<Seq<(Seq<char>, Seq<char>)>>;

/// The string that the JSON text `s` denotes; `None` when it is no JSON string.
pub uninterp spec fn json_string_value(s: Seq<char>) -> Option<Seq<char>>;

/// JSON whitespace.
pub open spec fn is_json_ws(c: char) -> bool {
    c == ' ' || c == '\n' || c == '\t' || c == '\r'
}

/// `s` without its leading JSON whitespace.
pub open spec fn trim_start(s: Seq<char>) -> Seq<char>
    decreases s.len(),
{
    if s.len() > 0 && is_json_ws(s[0]) {
        trim_start(s.drop_first())
    } else {
        s
    }
}

/// `s` without its trailing JSON whitespace.
pub open spec fn trim_end(s: Seq<char>) -> Seq<char>
    decreases s.len(),
{
    if s.len() > 0 && is_json_ws(s.last()) {
        trim_end(s.drop_last())
    } else {
        s
    }
}

/// The boolean that the JSON text `s` denotes: `true` or `false`, with
/// nothing around it but whitespace; `None` for any other text.
pub open spec fn json_bool_value(s: Seq<char>) -> Option<bool> {
    let t = trim_end(trim_start(s));
    if t == "true"@ {
        Some(true)
    } else if t == "false"@ {
        Some(false)
    } else {
        None
    }
}

/// What the JSON text `s` denotes when read as an optional string: `Some(None)`
/// for `null`, `Some(Some(t))` for a string, `None` for anything else.
pub uninterp spec fn json_opt_string_value(s: Seq<char>) -> Option<Option<Seq<char>>>;

/// The lower-case hexadecimal digit of `n` (below 16).
pub open spec fn hex_digit(n: u32) -> char {
    seq!['0', '1', '2', '3', '4', '5', '6', '7', '8', '9', 'a', 'b', 'c', 'd', 'e', 'f'][n as int]
}

/// How one character is written inside a JSON string: the quote and the
/// backslash are escaped, control characters take their short escape when
/// they have one and `\u00XX` otherwise, everything else stands as it is.
pub open spec fn escaped_char(c: char) -> Seq<char> {
    if c == '"' {
        seq!['\\', '"']
    } else if c == '\\' {
        seq!['\\', '\\']
    } else if c == '\u{8}' {
        seq!['\\', 'b']
    } else if c == '\t' {
        seq!['\\', 't']
    } else if c == '\n' {
        seq!['\\', 'n']
    } else if c == '\u{c}' {
        seq!['\\', 'f']
    } else if c == '\r' {
        seq!['\\', 'r']
    } else if (c as u32) < 0x20 {
        seq!['\\', 'u', '0', '0', hex_digit((c as u32) / 16), hex_digit((c as u32) % 16)]
    } else {
        seq![c]
    }
}

/// The characters of `s`, each written as inside a JSON string.
pub open spec fn escaped(s: Seq<char>) -> Seq<char>
    decreases s.len(),
{
    if s.len() == 0 {
        Seq::empty()
    } else {
        escaped(s.drop_last()) + escaped_char(s.last())
    }
}

/// The JSON string literal that denotes `s`: its escaped characters between quotes.
pub open spec fn json_quoted(s: Seq<char>) -> Seq<char> {
    seq!['"'] + escaped(s) + seq!['"']
}

pub open spec fn raw_texts(v: Seq<String>) -> Seq<Seq<char>> {
    v.map_values(|t: String| t@)
}

pub open spec fn member_texts(v: Seq<(String, String)>) -> Seq<(Seq<char>, Seq<char>)> {
    v.map_values(|m: (String, String)| (m.0@, m.1@))
}

/// Relies on `serde_json::from_str::<Vec<Box<RawValue>>>`: parses a JSON array
/// and hands back the raw text of each item.
#[verifier::external_body]
pub(crate) fn split_array(s: &str) -> (r: Result<Vec<String>, serde_json::Error>)
    ensures
        r is Ok <==> json_items(s@) is Some,
        r is Ok ==> raw_texts(r->Ok_0@) == json_items(s@)->Some_0,
{
    serde_json::from_str::<Vec<Box<serde_json::value::RawValue>>>(s).map(
        |items| items.into_iter().map(|raw| raw.get().to_string()).collect(),
    )
}

/// Relies on `serde_json::from_str::<BTreeMap<String, Box<RawValue>>>`: parses
/// a JSON object and hands back each key with the raw text of its value.
#[verifier::external_body]
pub(crate) fn split_object(s: &str) -> (r: Result<Vec<(String, String)>, serde_json::Error>)
    ensures
        r is Ok <==> json_members(s@) is Some,
        r is Ok ==> member_texts(r->Ok_0@) == json_members(s@)->Some_0,
{
    serde_json::from_str::<
        std::collections::BTreeMap<String, Box<serde_json::value::RawValue>>,
    >(s).map(|members| members.into_iter().map(|(k, raw)| (k, raw.get().to_string())).collect())
}

/// Relies on `serde_json::from_str::<String>`: reads a JSON string.
#[verifier::external_body]
pub(crate) fn read_string(s: &str) -> (r: Result<String, serde_json::Error>)
    ensures
        r is Ok <==> json_string_value(s@) is Some,
        r is Ok ==> r->Ok_0@ == json_string_value(s@)->Some_0,
{
    serde_json::from_str::<String>(s)
}

/// Relies on `serde_json::from_str::<bool>`: skips whitespace, reads `true`
/// or `false`, and accepts nothing after it but whitespace.
#[verifier::external_body]
pub(crate) fn read_bool(s: &str) -> (r: Result<bool, serde_json::Error>)
    ensures
        r is Ok <==> json_bool_value(s@) is Some,
        r is Ok ==> r->Ok_0 == json_bool_value(s@)->Some_0,
{
    serde_json::from_str::<bool>(s)
}

/// Relies on `serde_json::from_str::<Option<String>>`: reads `null` or a JSON string.
#[verifier::external_body]
pub(crate) fn read_opt_string(s: &str) -> (r: Result<Option<String>, serde_json::Error>)
    ensures
        r is Ok <==> json_opt_string_value(s@) is Some,
        r is Ok ==> (match r->Ok_0 {
            None => json_opt_string_value(s@)->Some_0 is None,
            Some(t) => json_opt_string_value(s@)->Some_0 == Some(t@),
        }),
{
    serde_json::from_str::<Option<String>>(s)
}

/// Relies on `serde_json::to_string` applied to a `str`: the quoted string,
/// escaped by serde_json's escape table (quote, backslash, control
/// characters). Serializing a `str` into memory cannot fail, so the error arm
/// is unreachable.
#[verifier::external_body]
pub(crate) fn quote(s: &str) -> (r: String)
    ensures
        r@ == json_quoted(s@),
{
    serde_json::to_string(s).unwrap_or_default()
}

/// Relies on `std::str::from_utf8`: the text that `b` encodes, when it is valid UTF-8.
#[verifier::external_body]
pub(crate) fn utf8_text(b: &[u8]) -> (r: Option<String>)
    ensures
        r is Some <==> vstd::utf8::valid_utf8(b@),
        r is Some ==> r->Some_0@ == vstd::utf8::decode_utf8(b@),
{
    std::str::from_utf8(b).ok().map(|t| t.to_string())
}

/// The value of the first member of `members` whose key is `key`.
pub open spec fn member_spec(members: Seq<(Seq<char>, Seq<char>)>, key: Seq<char>) -> Option<Seq<char>>
    decreases members.len(),
{
    if members.len() == 0 {
        None
    } else {
        match member_spec(members.drop_last(), key) {
            Some(v) => Some(v),
            None => if members.last().0 == key {
                Some(members.last().1)
            } else {
                None
            },
        }
    }
}

/// Looks up the raw value text of `key` among the members of a JSON object.
pub fn member<'a>(members: &'a Vec<(String, String)>, key: &str) -> (r: Option<&'a String>)
    ensures
        match r {
            None => member_spec(member_texts(members@), key@) is None,
            Some(t) => member_spec(member_texts(members@), key@) == Some(t@),
        },
{
    let wanted = String::from_str(key);
    let mut i: usize = 0;
    assert(member_texts(members@).take(0) =~= Seq::empty());
    while i < members.len()
        invariant
            i <= members.len(),
            wanted@ == key@,
            member_spec(member_texts(members@).take(i as int), key@) is None,
        decreases members.len() - i,
    {
        let ghost prefix = member_texts(members@).take(i + 1);
        assert(prefix.drop_last() =~= member_texts(members@).take(i as int));
        assert(prefix.last() == (members@[i as int].0@, members@[i as int].1@));
        if members[i].0 == wanted {
            proof {
                lemma_member_extends(member_texts(members@), key@, i + 1);
            }
            return Some(&members[i].1);
        }
        i = i + 1;
    }
    assert(member_texts(members@).take(i as int) =~= member_texts(members@));
    None
}

/// A member found in a prefix is the member found in the whole.
pub proof fn lemma_member_extends(ms: Seq<(Seq<char>, Seq<char>)>, key: Seq<char>, k: int)
    requires
        0 <= k <= ms.len(),
        member_spec(ms.take(k), key) is Some,
    ensures
        member_spec(ms, key) == member_spec(ms.take(k), key),
    decreases ms.len() - k,
{
    if k < ms.len() {
        assert(ms.take(k + 1).drop_last() =~= ms.take(k));
        lemma_member_extends(ms, key, k + 1);
    } else {
        assert(ms.take(k) =~= ms);
    }
}

/// The parts joined, with `sep` between each two of them.
pub open spec fn joined(parts: Seq<Seq<char>>, sep: Seq<char>) -> Seq<char>
    decreases parts.len(),
{
    if parts.len() == 0 {
        Seq::empty()
    } else if parts.len() == 1 {
        parts[0]
    } else {
        joined(parts.drop_last(), sep) + sep + parts.last()
    }
}

/// One member of a JSON object: the quoted key, a colon, the value's text.
pub open spec fn member_text(m: (Seq<char>, Seq<char>)) -> Seq<char> {
    json_quoted(m.0) + ":"@ + m.1
}

/// The JSON text of an object with the given members (key, value text), in order.
pub open spec fn object_text(ms: Seq<(Seq<char>, Seq<char>)>) -> Seq<char> {
    "{"@ + joined(ms.map_values(|m: (Seq<char>, Seq<char>)| member_text(m)), ","@) + "}"@
}

/// The JSON text of an array with the given item texts, in order.
pub open spec fn array_text(items: Seq<Seq<char>>) -> Seq<char> {
    "["@ + joined(items, ","@) + "]"@
}

/// Joins the parts with `sep` between each two of them.
pub fn join(parts: &Vec<String>, sep: &str) -> (r: String)
    ensures
        r@ == joined(raw_texts(parts@), sep@),
{
    let mut text = String::new();
    let mut i: usize = 0;
    while i < parts.len()
        invariant
            i <= parts.len(),
            text@ == joined(raw_texts(parts@).take(i as int), sep@),
        decreases parts.len() - i,
    {
        let ghost before = raw_texts(parts@).take(i as int);
        let ghost after = raw_texts(parts@).take(i + 1);
        assert(after.drop_last() =~= before);
        if i > 0 {
            text.append(sep);
        }
        text.append(parts[i].as_str());
        i = i + 1;
    }
    assert(raw_texts(parts@).take(i as int) =~= raw_texts(parts@));
    text
}

/// Writes a JSON object whose members are the given keys with the given
/// value texts, in order.
pub fn write_object(members: &Vec<(String, String)>) -> (r: String)
    ensures
        r@ == object_text(member_texts(members@)),
{
    let mut parts: Vec<String> = Vec::new();
    let mut i: usize = 0;
    while i < members.len()
        invariant
            i <= members.len(),
            parts@.len() == i,
            forall|j: int|
                0 <= j < i ==> #[trigger] parts@[j]@ == member_text(member_texts(members@)[j]),
        decreases members.len() - i,
    {
        let mut part = quote(members[i].0.as_str());
        part.append(":");
        part.append(members[i].1.as_str());
        parts.push(part);
        i = i + 1;
    }
    let body = join(&parts, ",");
    assert(raw_texts(parts@) =~= member_texts(members@).map_values(
        |m: (Seq<char>, Seq<char>)| member_text(m),
    ));
    let mut text = String::from_str("{");
    text.append(body.as_str());
    text.append("}");
    text
}

/// Writes a JSON array of the given item texts, in order.
pub fn write_array(items: &Vec<String>) -> (r: String)
    ensures
        r@ == array_text(raw_texts(items@)),
{
    let body = join(items, ",");
    let mut text = String::from_str("[");
    text.append(body.as_str());
    text.append("]");
    text
}

} // verus!
