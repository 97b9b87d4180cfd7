//! JSON text building and the percent-style field encoding used by the
//! plan and operation record files.

use vstd::prelude::*;
use crate::text::{chars_of, push_str};
use vstd::utf8::encode_utf8;

verus! {

broadcast use vstd::seq_lib::group_seq_properties;

// ---------------------------------------------------------------------
// JSON strings
// ---------------------------------------------------------------------

/// The escape sequence that stands for `c` inside a JSON string.
pub open spec fn escape_char(c: char) -> Seq<char> {
    if c == '"' {
        seq!['\\', '"']
    } else if c == '\\' {
        seq!['\\', '\\']
    } else if c == '\n' {
        seq!['\\', 'n']
    } else if c == '\r' {
        seq!['\\', 'r']
    } else if c == '\t' {
        seq!['\\', 't']
    } else {
        seq![c]
    }
}

/// `s` with every quote, backslash, newline, carriage return and tab escaped.
pub open spec fn escape_spec(s: Seq<char>) -> Seq<char>
    decreases s.len(),
{
    if s.len() == 0 {
        seq![]
    } else {
        escape_spec(s.drop_last()) + escape_char(s.last())
    }
}

/// `s` as a quoted JSON string.
pub open spec fn string_spec(s: Seq<char>) -> Seq<char> {
    seq!['"'] + escape_spec(s) + seq!['"']
}

/// The JSON literal for a boolean.
pub open spec fn bool_spec(b: bool) -> Seq<char> {
    if b {
        "true"@
    } else {
        "false"@
    }
}

/// `items` joined with `sep` between consecutive items.
pub open spec fn join_spec(items: Seq<Seq<char>>, sep: Seq<char>) -> Seq<char>
    decreases items.len(),
{
    if items.len() == 0 {
        seq![]
    } else if items.len() == 1 {
        items[0]
    } else {
        join_spec(items.drop_last(), sep) + sep + items.last()
    }
}

/// A JSON array whose elements are the already-rendered `items`.
pub open spec fn array_spec(items: Seq<Seq<char>>) -> Seq<char> {
    seq!['['] + join_spec(items, seq![',']) + seq![']']
}

/// One `"key":value` member of a JSON object.
pub open spec fn member_spec(key: Seq<char>, value: Seq<char>) -> Seq<char> {
    string_spec(key) + seq![':'] + value
}

/// A JSON object with the given keys and already-rendered values, in order.
pub open spec fn object_spec(fields: Seq<(Seq<char>, Seq<char>)>) -> Seq<char> {
    seq!['{'] + join_spec(fields.map_values(|f: (Seq<char>, Seq<char>)| member_spec(f.0, f.1)), seq![','])
        + seq!['}']
}

/// The characters of each string in `v`.
pub open spec fn views(v: Seq<String>) -> Seq<Seq<char>> {
    v.map_values(|s: String| s@)
}

/// One more item extends a join by the separator and that item.
pub proof fn lemma_join_push(items: Seq<Seq<char>>, sep: Seq<char>, i: int)
    requires
        0 <= i < items.len(),
    ensures
        join_spec(items.take(i + 1), sep) == if i == 0 {
            items[0]
        } else {
            join_spec(items.take(i), sep) + sep + items[i]
        },
{
    assert(items.take(i + 1).drop_last() =~= items.take(i));
}

pub fn escape(value: &str) -> (escaped: String)
    ensures
        escaped@ == escape_spec(value@),
{
    let chars = chars_of(value);
    let mut escaped = String::new();
    let mut i: usize = 0;
    while i < chars.len()
        invariant
            chars@ == value@,
            i <= chars@.len(),
            escaped@ == escape_spec(chars@.take(i as int)),
        decreases chars@.len() - i,
    {
        let ch = chars[i];
        proof {
            assert(chars@.take(i + 1).drop_last() =~= chars@.take(i as int));
        }
        if ch == '"' {
            escaped.push('\\');
            escaped.push('"');
        } else if ch == '\\' {
            escaped.push('\\');
            escaped.push('\\');
        } else if ch == '\n' {
            escaped.push('\\');
            escaped.push('n');
        } else if ch == '\r' {
            escaped.push('\\');
            escaped.push('r');
        } else if ch == '\t' {
            escaped.push('\\');
            escaped.push('t');
        } else {
            escaped.push(ch);
        }
        i += 1;
    }
    assert(chars@.take(chars@.len() as int) =~= chars@);
    escaped
}

pub fn string(value: &str) -> (s: String)
    ensures
        s@ == string_spec(value@),
{
    let mut s = String::new();
    s.push('"');
    let escaped = escape(value);
    push_str(&mut s, escaped.as_str());
    s.push('"');
    s
}

pub fn bool_value(value: bool) -> (s: &'static str)
    ensures
        s@ == bool_spec(value),
{
    if value {
        "true"
    } else {
        "false"
    }
}

/// Appends `items` joined by `sep` to `out`.
pub fn push_joined(out: &mut String, items: &[String], sep: char)
    ensures
        final(out)@ == old(out)@ + join_spec(views(items@), seq![sep]),
{
    let ghost start = out@;
    let ghost vs = views(items@);
    let mut i: usize = 0;
    while i < items.len()
        invariant
            i <= items@.len(),
            vs == views(items@),
            out@ == start + join_spec(vs.take(i as int), seq![sep]),
        decreases items@.len() - i,
    {
        proof {
            lemma_join_push(vs, seq![sep], i as int);
        }
        if i > 0 {
            out.push(sep);
        }
        push_str(out, items[i].as_str());
        i += 1;
    }
    assert(vs.take(items@.len() as int) =~= vs);
}

/// `items` joined with the separator `sep` between consecutive items.
pub fn join_strings(items: &[String], sep: &str) -> (s: String)
    ensures
        s@ == join_spec(views(items@), sep@),
{
    let ghost vs = views(items@);
    let mut out = String::new();
    let mut i: usize = 0;
    while i < items.len()
        invariant
            i <= items@.len(),
            vs == views(items@),
            out@ == join_spec(vs.take(i as int), sep@),
        decreases items@.len() - i,
    {
        proof {
            lemma_join_push(vs, sep@, i as int);
        }
        if i > 0 {
            push_str(&mut out, sep);
        }
        push_str(&mut out, items[i].as_str());
        proof {
            if i == 0 {
                assert(out@ =~= vs[0]);
            }
        }
        i += 1;
    }
    assert(vs.take(items@.len() as int) =~= vs);
    out
}

pub fn array(items: &[String]) -> (s: String)
    ensures
        s@ == array_spec(views(items@)),
{
    let mut s = String::new();
    s.push('[');
    push_joined(&mut s, items, ',');
    s.push(']');
    s
}

/// The keys and value characters of object fields.
pub open spec fn field_views(fields: Seq<(&str, String)>) -> Seq<(Seq<char>, Seq<char>)> {
    fields.map_values(|f: (&str, String)| (f.0@, f.1@))
}

pub fn object(fields: &[(&str, String)]) -> (s: String)
    ensures
        s@ == object_spec(field_views(fields@)),
{
    let ghost members = field_views(fields@).map_values(
        |f: (Seq<char>, Seq<char>)| member_spec(f.0, f.1),
    );
    let mut s = String::new();
    s.push('{');
    let mut i: usize = 0;
    while i < fields.len()
        invariant
            i <= fields@.len(),
            members == field_views(fields@).map_values(
                |f: (Seq<char>, Seq<char>)| member_spec(f.0, f.1),
            ),
            s@ == seq!['{'] + join_spec(members.take(i as int), seq![',']),
        decreases fields@.len() - i,
    {
        proof {
            lemma_join_push(members, seq![','], i as int);
        }
        if i > 0 {
            s.push(',');
        }
        let (key, value) = &fields[i];
        let key_json = string(key);
        push_str(&mut s, key_json.as_str());
        s.push(':');
        push_str(&mut s, value.as_str());
        i += 1;
    }
    assert(members.take(fields@.len() as int) =~= members);
    s.push('}');
    s
}


// ---------------------------------------------------------------------
// Field encoding for the line-oriented record files
// ---------------------------------------------------------------------

/// Bytes that the field encoding writes as `%XX`: `%`, newline, carriage
/// return, tab and `|`.
pub open spec fn is_reserved_byte(b: u8) -> bool {
    b == 0x25 || b == 0x0a || b == 0x0d || b == 0x09 || b == 0x7c
}

/// The upper-case hexadecimal digit for `n` (`0 <= n < 16`).
pub open spec fn hex_digit_upper(n: int) -> char {
    if n < 10 {
        (48 + n) as char
    } else {
        (55 + n) as char
    }
}

/// The encoding of one byte: `%` and two upper-case hex digits for a
/// reserved byte, otherwise the character with the byte's number.
pub open spec fn encode_byte(b: u8) -> Seq<char> {
    if is_reserved_byte(b) {
        seq!['%', hex_digit_upper(b as int / 16), hex_digit_upper(b as int % 16)]
    } else {
        seq![b as char]
    }
}

/// The encoding of a byte sequence, byte by byte.
pub open spec fn encode_bytes(b: Seq<u8>) -> Seq<char>
    decreases b.len(),
{
    if b.len() == 0 {
        seq![]
    } else {
        encode_bytes(b.drop_last()) + encode_byte(b.last())
    }
}

/// `encode_field` applied to a string: the encoding of its UTF-8 bytes.
pub open spec fn encode_field_spec(s: Seq<char>) -> Seq<char> {
    encode_bytes(encode_utf8(s))
}

/// The value of a hexadecimal digit byte (either case), if it is one.
pub open spec fn hex_value(b: u8) -> Option<int> {
    if 0x30 <= b <= 0x39 {
        Some(b - 0x30)
    } else if 0x61 <= b <= 0x66 {
        Some(b - 0x61 + 10)
    } else if 0x41 <= b <= 0x46 {
        Some(b - 0x41 + 10)
    } else {
        None
    }
}

/// Two bytes read as a base-16 number: an optional `+` followed by hex
/// digits, as `u8::from_str_radix(_, 16)` reads them.
pub open spec fn hex_pair(b1: u8, b2: u8) -> Option<u8> {
    if b1 == 0x2b {
        match hex_value(b2) {
            Some(l) => Some(l as u8),
            None => None,
        }
    } else {
        match (hex_value(b1), hex_value(b2)) {
            (Some(h), Some(l)) => Some((h * 16 + l) as u8),
            _ => None,
        }
    }
}

/// `Some(prefix + r)` when `rest` is `Some(r)`, otherwise `None`.
pub open spec fn prepend(prefix: Seq<char>, rest: Option<Seq<char>>) -> Option<Seq<char>> {
    match rest {
        Some(r) => Some(prefix + r),
        None => None,
    }
}

/// Decoding of an encoded byte sequence: `%` with two hex digits stands
/// for the byte they spell, any other byte for the character with its
/// number; `None` when a `%` is not followed by two more bytes that read
/// as a hex number.
pub open spec fn decode_bytes(b: Seq<u8>) -> Option<Seq<char>>
    decreases b.len(),
{
    if b.len() == 0 {
        Some(seq![])
    } else if b[0] == 0x25 {
        if b.len() < 3 {
            None
        } else {
            match hex_pair(b[1], b[2]) {
                Some(v) => prepend(seq![v as char], decode_bytes(b.skip(3))),
                None => None,
            }
        }
    } else {
        prepend(seq![b[0] as char], decode_bytes(b.skip(1)))
    }
}

/// `decode_field` applied to a string: the decoding of its UTF-8 bytes.
pub open spec fn decode_field_spec(s: Seq<char>) -> Option<Seq<char>> {
    decode_bytes(encode_utf8(s))
}

fn hex_digit(n: u8) -> (c: char)
    requires
        n < 16,
    ensures
        c == hex_digit_upper(n as int),
{
    if n < 10 {
        (48 + n) as char
    } else {
        (55 + n) as char
    }
}

pub fn encode_field(value: &str) -> (encoded: String)
    ensures
        encoded@ == encode_field_spec(value@),
{
    let bytes = value.as_bytes();
    let mut encoded = String::new();
    let mut i: usize = 0;
    while i < bytes.len()
        invariant
            bytes@ == encode_utf8(value@),
            i <= bytes@.len(),
            encoded@ == encode_bytes(bytes@.take(i as int)),
        decreases bytes@.len() - i,
    {
        let byte = bytes[i];
        proof {
            assert(bytes@.take(i + 1).drop_last() =~= bytes@.take(i as int));
        }
        if byte == 0x25 || byte == 0x0a || byte == 0x0d || byte == 0x09 || byte == 0x7c {
            encoded.push('%');
            encoded.push(hex_digit(byte / 16));
            encoded.push(hex_digit(byte % 16));
        } else {
            encoded.push(byte as char);
        }
        i += 1;
    }
    assert(bytes@.take(bytes@.len() as int) =~= bytes@);
    encoded
}

fn hex_value_exec(b: u8) -> (r: Option<u8>)
    ensures
        match hex_value(b) {
            Some(v) => r == Some(v as u8) && v < 16,
            None => r is None,
        },
{
    if 0x30 <= b && b <= 0x39 {
        Some(b - 0x30)
    } else if 0x61 <= b && b <= 0x66 {
        Some(b - 0x61 + 10)
    } else if 0x41 <= b && b <= 0x46 {
        Some(b - 0x41 + 10)
    } else {
        None
    }
}

fn hex_pair_exec(b1: u8, b2: u8) -> (r: Option<u8>)
    ensures
        r == hex_pair(b1, b2),
{
    if b1 == 0x2b {
        hex_value_exec(b2)
    } else {
        match (hex_value_exec(b1), hex_value_exec(b2)) {
            (Some(h), Some(l)) => Some(h * 16 + l),
            _ => None,
        }
    }
}

/// One decoding step at position `i` of `b`.
proof fn lemma_decode_at(b: Seq<u8>, i: int, decoded: Seq<char>)
    requires
        0 <= i < b.len(),
    ensures
        b[i] == 0x25 && b.len() - i <= 2 ==> decode_bytes(b.skip(i)) is None,
        b[i] == 0x25 && b.len() - i > 2 && hex_pair(b[i + 1], b[i + 2]) is None ==> decode_bytes(
            b.skip(i),
        ) is None,
        hex_pair(b[i + 1], b[i + 2]) matches Some(v) ==> (b[i] == 0x25 && b.len() - i > 2
            ==> prepend(decoded, decode_bytes(b.skip(i))) == prepend(
            decoded.push(v as char),
            decode_bytes(b.skip(i + 3)),
        )),
        b[i] != 0x25 ==> prepend(decoded, decode_bytes(b.skip(i))) == prepend(
            decoded.push(b[i] as char),
            decode_bytes(b.skip(i + 1)),
        ),
{
    let rest = b.skip(i);
    if b[i] == 0x25 && b.len() - i > 2 {
        assert(rest.skip(3) =~= b.skip(i + 3));
        if let Some(v) = hex_pair(b[i + 1], b[i + 2]) {
            match decode_bytes(b.skip(i + 3)) {
                Some(r) => {
                    assert(decoded + (seq![v as char] + r) =~= decoded.push(v as char) + r);
                },
                None => {},
            }
        }
    }
    if b[i] != 0x25 {
        assert(rest.skip(1) =~= b.skip(i + 1));
        match decode_bytes(b.skip(i + 1)) {
            Some(r) => {
                assert(decoded + (seq![b[i] as char] + r) =~= decoded.push(b[i] as char) + r);
            },
            None => {},
        }
    }
}

pub fn decode_field(value: &str) -> (decoded: Option<String>)
    ensures
        match decoded {
            Some(d) => decode_field_spec(value@) == Some(d@),
            None => decode_field_spec(value@) is None,
        },
{
    let bytes = value.as_bytes();
    let mut decoded = String::new();
    let mut index: usize = 0;
    while index < bytes.len()
        invariant
            bytes@ == encode_utf8(value@),
            index <= bytes@.len(),
            decode_bytes(bytes@) == prepend(decoded@, decode_bytes(bytes@.skip(index as int))),
        decreases bytes@.len() - index,
    {
        proof {
            lemma_decode_at(bytes@, index as int, decoded@);
        }
        if bytes[index] == 0x25 {
            if bytes.len() - index <= 2 {
                return None;
            }
            let parsed = hex_pair_exec(bytes[index + 1], bytes[index + 2]);
            match parsed {
                Some(v) => {
                    decoded.push(v as char);
                    index += 3;
                },
                None => {
                    return None;
                },
            }
        } else {
            let b = bytes[index];
            decoded.push(b as char);
            index += 1;
        }
    }
    assert(bytes@.skip(bytes@.len() as int) =~= Seq::<u8>::empty());
    assert(decoded@ + seq![] =~= decoded@);
    Some(decoded)
}


// ---------------------------------------------------------------------
// Round trip of the field encoding
// ---------------------------------------------------------------------

/// The bytes numbered like the characters of `c`.
pub open spec fn ascii_bytes(c: Seq<char>) -> Seq<u8> {
    Seq::new(c.len(), |i: int| c[i] as u8)
}

/// The characters numbered like the bytes of `b`.
pub open spec fn byte_chars(b: Seq<u8>) -> Seq<char> {
    Seq::new(b.len(), |i: int| b[i] as char)
}

/// Every byte is below 128.
pub open spec fn bytes_below_128(b: Seq<u8>) -> bool {
    forall|i: int| 0 <= i < b.len() ==> #[trigger] b[i] < 128
}

proof fn lemma_decode_concat(x: Seq<u8>, y: Seq<u8>)
    requires
        decode_bytes(x) is Some,
        decode_bytes(y) is Some,
    ensures
        decode_bytes(x + y) == Some(decode_bytes(x)->0 + decode_bytes(y)->0),
    decreases x.len(),
{
    if x.len() == 0 {
        assert(x + y =~= y);
        assert(decode_bytes(x)->0 + decode_bytes(y)->0 =~= decode_bytes(y)->0);
    } else if x[0] == 0x25 {
        assert((x + y).skip(3) =~= x.skip(3) + y);
        lemma_decode_concat(x.skip(3), y);
        let v = hex_pair(x[1], x[2])->0;
        assert(seq![v as char] + (decode_bytes(x.skip(3))->0 + decode_bytes(y)->0)
            =~= (seq![v as char] + decode_bytes(x.skip(3))->0) + decode_bytes(y)->0);
    } else {
        assert((x + y).skip(1) =~= x.skip(1) + y);
        lemma_decode_concat(x.skip(1), y);
        assert(seq![x[0] as char] + (decode_bytes(x.skip(1))->0 + decode_bytes(y)->0)
            =~= (seq![x[0] as char] + decode_bytes(x.skip(1))->0) + decode_bytes(y)->0);
    }
}

proof fn lemma_hex_digit_value(n: int)
    requires
        0 <= n < 16,
    ensures
        hex_value(hex_digit_upper(n) as u8) == Some(n),
        (hex_digit_upper(n) as u8) != 0x2b,
        hex_digit_upper(n) as u8 == hex_digit_upper(n) as int,
{
}

proof fn lemma_decode_encode_byte(b: u8)
    requires
        b < 128,
    ensures
        vstd::utf8::is_ascii_chars(encode_byte(b)),
        decode_bytes(ascii_bytes(encode_byte(b))) == Some(seq![b as char]),
{
    let e = encode_byte(b);
    let ab = ascii_bytes(e);
    assert(decode_bytes(Seq::<u8>::empty()) == Some(Seq::<char>::empty()));
    if is_reserved_byte(b) {
        lemma_hex_digit_value(b as int / 16);
        lemma_hex_digit_value(b as int % 16);
        assert(ab.skip(3) =~= Seq::<u8>::empty());
        assert(hex_pair(ab[1], ab[2]) == Some(b));
        assert(seq![b as char] + seq![] =~= seq![b as char]);
    } else {
        assert(ab[0] == b);
        assert(ab.len() == 1);
        assert(ab.skip(1) =~= Seq::<u8>::empty());
        assert(decode_bytes(ab) == prepend(seq![b as char], decode_bytes(ab.skip(1))));
        assert(seq![b as char] + seq![] =~= seq![b as char]);
    }
}

proof fn lemma_decode_encode_bytes(b: Seq<u8>)
    requires
        bytes_below_128(b),
    ensures
        vstd::utf8::is_ascii_chars(encode_bytes(b)),
        decode_bytes(ascii_bytes(encode_bytes(b))) == Some(byte_chars(b)),
    decreases b.len(),
{
    if b.len() == 0 {
        assert(ascii_bytes(encode_bytes(b)) =~= Seq::<u8>::empty());
        assert(byte_chars(b) =~= Seq::<char>::empty());
    } else {
        let init = b.drop_last();
        lemma_decode_encode_bytes(init);
        lemma_decode_encode_byte(b.last());
        let e1 = encode_bytes(init);
        let e2 = encode_byte(b.last());
        assert(ascii_bytes(e1 + e2) =~= ascii_bytes(e1) + ascii_bytes(e2));
        lemma_decode_concat(ascii_bytes(e1), ascii_bytes(e2));
        assert(byte_chars(init) + seq![b.last() as char] =~= byte_chars(b));
        assert forall|i: int| 0 <= i < (e1 + e2).len() implies '\0' <= #[trigger] (e1 + e2)[i]
            <= '\u{7f}' by {
            if i < e1.len() {
                assert((e1 + e2)[i] == e1[i]);
            } else {
                assert((e1 + e2)[i] == e2[i - e1.len()]);
            }
        }
    }
}

/// Decoding undoes encoding for ASCII text: a field written with
/// `encode_field` reads back unchanged with `decode_field`.
pub proof fn field_encoding_round_trip(s: Seq<char>)
    requires
        vstd::utf8::is_ascii_chars(s),
    ensures
        vstd::utf8::is_ascii_chars(encode_field_spec(s)),
        decode_field_spec(encode_field_spec(s)) == Some(s),
{
    vstd::utf8::is_ascii_chars_encode_utf8(s);
    let b = encode_utf8(s);
    assert(b =~= ascii_bytes(s));
    assert(bytes_below_128(b));
    lemma_decode_encode_bytes(b);
    let e = encode_bytes(b);
    vstd::utf8::is_ascii_chars_encode_utf8(e);
    assert(encode_utf8(e) =~= ascii_bytes(e));
    assert(byte_chars(b) =~= s);
}


/// The encoding of ASCII text is itself ASCII and holds no tab or line
/// break, so it can stand as one field of a record line.
pub proof fn lemma_encoded_field_plain(s: Seq<char>)
    requires
        vstd::utf8::is_ascii_chars(s),
    ensures
        crate::model::is_plain_token(encode_field_spec(s)),
{
    vstd::utf8::is_ascii_chars_encode_utf8(s);
    let b = encode_utf8(s);
    assert(b =~= ascii_bytes(s));
    lemma_encode_bytes_plain(b);
}

proof fn lemma_encode_bytes_plain(b: Seq<u8>)
    requires
        bytes_below_128(b),
    ensures
        crate::model::is_plain_token(encode_bytes(b)),
    decreases b.len(),
{
    if b.len() > 0 {
        lemma_encode_bytes_plain(b.drop_last());
        lemma_decode_encode_bytes(b);
        let e1 = encode_bytes(b.drop_last());
        let x = b.last();
        let e2 = encode_byte(x);
        if is_reserved_byte(x) {
            lemma_hex_digit_value(x as int / 16);
            lemma_hex_digit_value(x as int % 16);
        }
        assert forall|i: int| 0 <= i < (e1 + e2).len() implies #[trigger] (e1 + e2)[i] != '\t'
            && (e1 + e2)[i] != '\n' && (e1 + e2)[i] != '\r' by {
            if i < e1.len() {
                assert((e1 + e2)[i] == e1[i]);
            } else {
                assert((e1 + e2)[i] == e2[i - e1.len()]);
            }
        }
    }
}

}
