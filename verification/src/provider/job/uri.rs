//! Which local queue a printer URI names.
//!
//! A scheduler-local queue has a URI such as `ipp://localhost/printers/Name`,
//! with the name percent-encoded. Anything else names no queue here.

use vstd::prelude::*;
use vstd::string::*;
use vstd::utf8;

use crate::text::{self, contains_char, starting_at, strip_prefix, up_to};

verus! {

/// The path in what follows the `://` of a URI, without query or fragment.
pub open spec fn path_of(rest: Seq<char>) -> Option<Seq<char>> {
    match text::from_first(rest, '/') {
        Some(path) => Some(text::before(text::before(path, '?'), '#')),
        None => None,
    }
}

/// The path of an `ipp://` or `ipps://` URI, without query or fragment.
pub open spec fn resource_of(uri: Seq<char>) -> Option<Seq<char>> {
    match text::after_prefix(uri, "ipp://"@) {
        Some(rest) => path_of(rest),
        None => match text::after_prefix(uri, "ipps://"@) {
            Some(rest) => path_of(rest),
            None => None,
        },
    }
}

/// The part of a path after `/printers/` or `/classes/`.
pub open spec fn queue_part(path: Seq<char>) -> Option<Seq<char>> {
    match text::after_prefix(path, "/printers/"@) {
        Some(name) => Some(name),
        None => text::after_prefix(path, "/classes/"@),
    }
}

/// The value of a hexadecimal digit in ASCII.
pub open spec fn hex_value(b: u8) -> Option<u8> {
    if 0x30 <= b <= 0x39 {
        Some((b - 0x30) as u8)
    } else if 0x41 <= b <= 0x46 {
        Some((b - 0x41 + 10) as u8)
    } else if 0x61 <= b <= 0x66 {
        Some((b - 0x61 + 10) as u8)
    } else {
        None
    }
}

/// The byte that the two characters after a percent sign stand for. As with
/// any number in Rust, a plus sign may stand in front of a digit.
pub open spec fn pair_value(first: u8, second: u8) -> Option<u8> {
    match (hex_value(first), hex_value(second)) {
        (Some(high), Some(low)) => Some((high * 16 + low) as u8),
        (None, Some(low)) => if first == 0x2b {
            Some(low)
        } else {
            None
        },
        _ => None,
    }
}

/// `bytes` with every percent-encoded byte decoded; `None` if a percent sign
/// is not followed by what stands for a byte.
pub open spec fn unescaped(bytes: Seq<u8>) -> Option<Seq<u8>>
    decreases bytes.len(),
{
    if bytes.len() == 0 {
        Some(seq![])
    } else if bytes[0] != 0x25 {
        match unescaped(bytes.skip(1)) {
            Some(rest) => Some(seq![bytes[0]] + rest),
            None => None,
        }
    } else if bytes.len() < 3 {
        None
    } else {
        match (pair_value(bytes[1], bytes[2]), unescaped(bytes.skip(3))) {
            (Some(byte), Some(rest)) => Some(seq![byte] + rest),
            _ => None,
        }
    }
}

/// `input` percent-decoded; `None` if that gives no text.
pub open spec fn decoded_text(input: Seq<char>) -> Option<Seq<char>> {
    match unescaped(utf8::encode_utf8(input)) {
        Some(bytes) => if utf8::valid_utf8(bytes) {
            Some(utf8::decode_utf8(bytes))
        } else {
            None
        },
        None => None,
    }
}

/// The queue that a URI names: one path segment below `/printers/` or
/// `/classes/`, percent-decoded.
pub open spec fn queue_of(uri: Seq<char>) -> Option<Seq<char>> {
    match resource_of(uri) {
        None => None,
        Some(path) => match queue_part(path) {
            None => None,
            Some(part) => match decoded_text(part) {
                None => None,
                Some(name) => if name.len() > 0 && !name.contains('/') {
                    Some(name)
                } else {
                    None
                },
            },
        },
    }
}

fn path_in(rest: &str) -> (path: Option<&str>)
    ensures
        path is Some == path_of(rest@) is Some,
        path matches Some(found) ==> Some(found@) == path_of(rest@),
{
    match starting_at(rest, '/') {
        Some(path) => Some(up_to(up_to(path, '?'), '#')),
        None => None,
    }
}

/// The path of an `ipp://` or `ipps://` URI, without query or fragment.
pub fn resource_path(uri: &str) -> (path: Option<&str>)
    ensures
        path is Some == resource_of(uri@) is Some,
        path matches Some(found) ==> Some(found@) == resource_of(uri@),
{
    match strip_prefix(uri, "ipp://") {
        Some(rest) => path_in(rest),
        None => match strip_prefix(uri, "ipps://") {
            Some(rest) => path_in(rest),
            None => None,
        },
    }
}

/// The queue a printer or job URI names, e.g. `/printers/Canon_TS5400`.
pub fn queue_name(uri: &str) -> (queue: Option<String>)
    ensures
        queue is Some == queue_of(uri@) is Some,
        queue matches Some(name) ==> Some(name@) == queue_of(uri@),
{
    let path = match resource_path(uri) {
        Some(path) => path,
        None => return None,
    };
    let part = match strip_prefix(path, "/printers/") {
        Some(part) => part,
        None => match strip_prefix(path, "/classes/") {
            Some(part) => part,
            None => return None,
        },
    };
    match percent_decode(part) {
        Some(name) => if name.as_str().unicode_len() > 0 && !contains_char(name.as_str(), '/') {
            Some(name)
        } else {
            None
        },
        None => None,
    }
}

/// `String::from_utf8`: the text that `bytes` encode, or `None` if they encode
/// none. Claims that it succeeds exactly on valid UTF-8 and then decodes it.
#[verifier::external_body]
fn text_of(bytes: Vec<u8>) -> (text: Option<String>)
    ensures
        text is Some == utf8::valid_utf8(bytes@),
        text matches Some(found) ==> found@ == utf8::decode_utf8(bytes@),
{
    String::from_utf8(bytes).ok()
}

fn digit_value(b: u8) -> (value: Option<u8>)
    ensures
        value == hex_value(b),
{
    if 0x30 <= b && b <= 0x39 {
        Some(b - 0x30)
    } else if 0x41 <= b && b <= 0x46 {
        Some(b - 0x41 + 10)
    } else if 0x61 <= b && b <= 0x66 {
        Some(b - 0x61 + 10)
    } else {
        None
    }
}

fn escaped_byte(first: u8, second: u8) -> (byte: Option<u8>)
    ensures
        byte == pair_value(first, second),
{
    match (digit_value(first), digit_value(second)) {
        (Some(high), Some(low)) => Some(high * 16 + low),
        (None, Some(low)) => if first == 0x2b {
            Some(low)
        } else {
            None
        },
        _ => None,
    }
}

/// Decode the percent-encoded bytes of `input`.
pub fn percent_decode(input: &str) -> (output: Option<String>)
    ensures
        output is Some == decoded_text(input@) is Some,
        output matches Some(found) ==> Some(found@) == decoded_text(input@),
{
    let bytes = input.as_bytes();
    let mut out: Vec<u8> = Vec::new();
    let mut index: usize = 0;
    assert(bytes@.skip(0) == bytes@);
    assert(unescaped(bytes@) matches Some(rest) ==> out@ + rest =~= rest);
    while index < bytes.len()
        invariant
            index <= bytes@.len(),
            bytes@ == utf8::encode_utf8(input@),
            unescaped(bytes@) is Some == unescaped(bytes@.skip(index as int)) is Some,
            unescaped(bytes@.skip(index as int)) matches Some(rest) ==> unescaped(bytes@) == Some(
                out@ + rest,
            ),
        decreases bytes@.len() - index,
    {
        let ghost left = bytes@.skip(index as int);
        let ghost earlier = out@;
        if bytes[index] == 0x25 {
            if bytes.len() - index < 3 {
                return None;
            }
            let byte = match escaped_byte(bytes[index + 1], bytes[index + 2]) {
                Some(byte) => byte,
                None => return None,
            };
            out.push(byte);
            assert(left.skip(3) == bytes@.skip(index + 3));
            assert(unescaped(left.skip(3)) matches Some(rest) ==> earlier + (seq![byte] + rest)
                =~= out@ + rest);
            index += 3;
        } else {
            out.push(bytes[index]);
            assert(left.skip(1) == bytes@.skip(index + 1));
            assert(unescaped(left.skip(1)) matches Some(rest) ==> earlier + (seq![left[0]] + rest)
                =~= out@ + rest);
            index += 1;
        }
    }
    assert(bytes@.skip(index as int).len() == 0);
    assert(out@ + Seq::<u8>::empty() =~= out@);
    text_of(out)
}

/// Bytes without a percent sign are their own decoding.
proof fn lemma_plain_bytes(bytes: Seq<u8>)
    requires
        forall|i: int| 0 <= i < bytes.len() ==> #[trigger] bytes[i] != 0x25,
    ensures
        unescaped(bytes) == Some(bytes),
    decreases bytes.len(),
{
    if bytes.len() > 0 {
        let rest = bytes.skip(1);
        assert(forall|i: int| 0 <= i < rest.len() ==> #[trigger] rest[i] == bytes[i + 1]);
        lemma_plain_bytes(rest);
        assert(seq![bytes[0]] + rest =~= bytes);
    } else {
        assert(bytes =~= Seq::<u8>::empty());
    }
}

/// A queue name without a percent sign reads as itself.
pub proof fn law_plain_names_are_unchanged(name: Seq<char>)
    requires
        !name.contains('%'),
    ensures
        decoded_text(name) == Some(name),
{
    let bytes = utf8::encode_utf8(name);
    lemma_encoding_has_no_percent(name);
    lemma_plain_bytes(bytes);
    utf8::encode_utf8_valid_utf8(name);
    utf8::encode_utf8_decode_utf8(name);
}

/// A percent sign is encoded by itself only.
proof fn lemma_encoding_has_no_percent(name: Seq<char>)
    requires
        !name.contains('%'),
    ensures
        forall|i: int|
            0 <= i < utf8::encode_utf8(name).len() ==> #[trigger] utf8::encode_utf8(name)[i]
                != 0x25,
    decreases name.len(),
{
    if name.len() > 0 {
        let rest = name.skip(1);
        assert(name[0] != '%');
        assert(!rest.contains('%')) by {
            if rest.contains('%') {
                let i = choose|i: int| 0 <= i < rest.len() && rest[i] == '%';
                assert(name[i + 1] == '%');
            }
        }
        lemma_encoding_has_no_percent(rest);
        lemma_char_has_no_percent(name[0]);
        assert(name.drop_first() =~= rest);
        assert(utf8::encode_utf8(name) == utf8::encode_scalar(name[0] as u32) + utf8::encode_utf8(
            rest,
        ));
    }
}

proof fn lemma_char_has_no_percent(c: char)
    requires
        c != '%',
    ensures
        forall|i: int|
            0 <= i < utf8::encode_scalar(c as u32).len() ==> #[trigger] utf8::encode_scalar(
                c as u32,
            )[i] != 0x25,
{
    let scalar = c as u32;
    assert(scalar != 0x25);
    if scalar <= 0x7f {
        assert((scalar & 0x7f) as u8 != 0x25) by (bit_vector)
            requires
                scalar != 0x25,
                scalar <= 0x7f,
        ;
    }
    assert(forall|low: u8| #[trigger] (0x80u8 | low) != 0x25) by (bit_vector);
    assert(forall|low: u8| #[trigger] (0xc0u8 | low) != 0x25) by (bit_vector);
    assert(forall|low: u8| #[trigger] (0xe0u8 | low) != 0x25) by (bit_vector);
    assert(forall|low: u8| #[trigger] (0xf0u8 | low) != 0x25) by (bit_vector);
}

/// The path of a local URI is what follows the host, up to a query or a
/// fragment, for `ipp` and `ipps` alike. A URI without a path has none.
pub proof fn law_the_path_follows_the_host(host: Seq<char>, path: Seq<char>, tail: Seq<char>)
    requires
        !host.contains('/'),
        !path.contains('?'),
        !path.contains('#'),
    ensures
        ({
            let full = seq!['/'] + path;
            let rest = host + full;
            &&& resource_of("ipp://"@ + rest) == Some(full)
            &&& resource_of("ipps://"@ + rest) == Some(full)
            &&& resource_of("ipp://"@ + (rest + seq!['?'] + tail)) == Some(full)
            &&& resource_of("ipp://"@ + (rest + seq!['#'] + tail)) == Some(full)
            &&& resource_of("ipps://"@ + (rest + seq!['?'] + tail)) == Some(full)
            &&& resource_of("ipps://"@ + (rest + seq!['#'] + tail)) == Some(full)
            &&& resource_of("ipp://"@ + host) is None
            &&& resource_of("ipps://"@ + host) is None
        }),
{
    let full = seq!['/'] + path;
    let rest = host + full;
    lemma_path_of(host, path, tail);
    text::law_a_text_is_found_where_it_was_put(host, '/', path);
    lemma_schemes_differ(rest);
    lemma_schemes_differ(rest + seq!['?'] + tail);
    lemma_schemes_differ(rest + seq!['#'] + tail);
    lemma_schemes_differ(host);
}

/// What follows either scheme is found, and the two are not mistaken for each
/// other.
proof fn lemma_schemes_differ(rest: Seq<char>)
    ensures
        resource_of("ipp://"@ + rest) == path_of(rest),
        resource_of("ipps://"@ + rest) == path_of(rest),
{
    reveal_strlit("ipp://");
    reveal_strlit("ipps://");
    text::law_prefix_and_rest_make_the_text(rest, "ipp://"@, rest);
    text::law_prefix_and_rest_make_the_text(rest, "ipps://"@, rest);
    let secure = "ipps://"@ + rest;
    assert(secure[3] == 's');
    assert("ipp://"@[3] == ':');
    assert(secure.take(6)[3] == 's');
}

proof fn lemma_path_of(host: Seq<char>, path: Seq<char>, tail: Seq<char>)
    requires
        !host.contains('/'),
        !path.contains('?'),
        !path.contains('#'),
    ensures
        path_of(host + (seq!['/'] + path)) == Some(seq!['/'] + path),
        path_of(host + (seq!['/'] + path) + seq!['?'] + tail) == Some(seq!['/'] + path),
        path_of(host + (seq!['/'] + path) + seq!['#'] + tail) == Some(seq!['/'] + path),
{
    let full = seq!['/'] + path;
    let asked = path + seq!['?'] + tail;
    let marked = path + seq!['#'] + tail;
    text::law_a_text_is_found_where_it_was_put(host, '/', path);
    text::law_a_text_is_found_where_it_was_put(host, '/', asked);
    text::law_a_text_is_found_where_it_was_put(host, '/', marked);
    assert(host + seq!['/'] + path =~= host + full);
    assert(host + seq!['/'] + asked =~= host + full + seq!['?'] + tail);
    assert(host + seq!['/'] + marked =~= host + full + seq!['#'] + tail);
    assert(!full.contains('?')) by {
        if full.contains('?') {
            let i = choose|i: int| 0 <= i < full.len() && full[i] == '?';
            assert(path[i - 1] == '?');
        }
    }
    assert(!full.contains('#')) by {
        if full.contains('#') {
            let i = choose|i: int| 0 <= i < full.len() && full[i] == '#';
            assert(path[i - 1] == '#');
        }
    }
    text::law_a_text_is_found_where_it_was_put(full, '?', tail);
    text::law_a_text_is_found_where_it_was_put(full, '#', tail);
    assert(seq!['/'] + asked =~= full + seq!['?'] + tail);
    assert(seq!['/'] + marked =~= full + seq!['#'] + tail);
    // Up to a query there is no fragment; up to a fragment there may be one
    // query, behind the fragment sign.
    let cut = text::before(full + seq!['#'] + tail, '?');
    text::law_first_occurrence_divides_a_text(full + seq!['#'] + tail, '?');
    lemma_before_keeps_front(full + seq!['#'], tail, '?');
    assert(full + seq!['#'] + tail =~= (full + seq!['#']) + tail);
    assert(cut == (full + seq!['#']) + text::before(tail, '?'));
    assert(cut =~= full + seq!['#'] + text::before(tail, '?'));
    text::law_a_text_is_found_where_it_was_put(full, '#', text::before(tail, '?'));
}

/// What stands in front of the part with a character stays in front.
proof fn lemma_before_keeps_front(a: Seq<char>, b: Seq<char>, c: char)
    requires
        !a.contains(c),
    ensures
        text::before(a + b, c) == a + text::before(b, c),
    decreases a.len(),
{
    if a.len() == 0 {
        assert(a + b =~= b);
        assert(a + text::before(b, c) =~= text::before(b, c));
    } else {
        let rest = a.skip(1);
        assert(a.contains(a[0]));
        if rest.contains(c) {
            let i = choose|i: int| 0 <= i < rest.len() && rest[i] == c;
            assert(a[i + 1] == c);
        }
        lemma_before_keeps_front(rest, b, c);
        assert((a + b)[0] == a[0]);
        assert((a + b).skip(1) =~= rest + b);
        assert(seq![a[0]] + (rest + text::before(b, c)) =~= a + text::before(b, c));
    }
}

/// A local queue is named by the last part of its URI, whether it is a printer
/// or a class, on whatever host and over either scheme.
pub proof fn law_local_uris_name_their_queue(host: Seq<char>, name: Seq<char>)
    requires
        !host.contains('/'),
        name.len() > 0,
        !name.contains('/'),
        !name.contains('%'),
        !name.contains('?'),
        !name.contains('#'),
    ensures
        queue_of("ipp://"@ + (host + ("/printers/"@ + name))) == Some(name),
        queue_of("ipps://"@ + (host + ("/printers/"@ + name))) == Some(name),
        queue_of("ipp://"@ + (host + ("/classes/"@ + name))) == Some(name),
        queue_of("ipps://"@ + (host + ("/classes/"@ + name))) == Some(name),
{
    reveal_strlit("/printers/");
    reveal_strlit("/classes/");
    law_plain_names_are_unchanged(name);
    lemma_queue_in_path(host, name, "/printers/"@);
    lemma_queue_in_path(host, name, "/classes/"@);
    text::law_prefix_and_rest_make_the_text(name, "/printers/"@, name);
    text::law_prefix_and_rest_make_the_text(name, "/classes/"@, name);
    let class = "/classes/"@ + name;
    assert(class[1] == 'c');
    assert("/printers/"@[1] == 'p');
    assert("/printers/"@.len() == 10);
    assert(class.len() >= 10 ==> class.take(10)[1] == 'c');
}

proof fn lemma_queue_in_path(host: Seq<char>, name: Seq<char>, folder: Seq<char>)
    requires
        !host.contains('/'),
        !name.contains('?'),
        !name.contains('#'),
        folder.len() > 0,
        folder[0] == '/',
        forall|i: int| 0 <= i < folder.len() ==> folder[i] != '?' && #[trigger] folder[i] != '#',
    ensures
        resource_of("ipp://"@ + (host + (folder + name))) == Some(folder + name),
        resource_of("ipps://"@ + (host + (folder + name))) == Some(folder + name),
{
    let path = folder.skip(1) + name;
    assert(folder + name =~= seq!['/'] + path);
    assert forall|c: char| (c == '?' || c == '#') && #[trigger] path.contains(c) implies false by {
        let i = choose|i: int| 0 <= i < path.len() && path[i] == c;
        if i < folder.len() - 1 {
            assert(path[i] == folder[i + 1]);
        } else {
            assert(path[i] == name[i - (folder.len() - 1)]);
            assert(name.contains(c));
        }
    }
    law_the_path_follows_the_host(host, path, seq![]);
}

/// A URI names a queue only as the decoded last part of a path below
/// `/printers/` or `/classes/`, and a queue's name is never empty and never a
/// path.
pub proof fn law_only_queue_uris_name_a_queue(uri: Seq<char>)
    ensures
        queue_of(uri) matches Some(queue) ==> {
            &&& queue.len() > 0
            &&& !queue.contains('/')
            &&& resource_of(uri) matches Some(path)
            &&& queue_part(path) matches Some(part)
            &&& path == "/printers/"@ + part || path == "/classes/"@ + part
            &&& decoded_text(part) == Some(queue)
        },
        resource_of(uri) matches Some(path) ==> path.len() > 0 && path[0] == '/'
            && !path.contains('?') && !path.contains('#'),
{
    if let Some(path) = resource_of(uri) {
        text::law_prefix_and_rest_make_the_text(path, "/printers/"@, path);
        text::law_prefix_and_rest_make_the_text(path, "/classes/"@, path);
        let rest = match text::after_prefix(uri, "ipp://"@) {
            Some(rest) => rest,
            None => text::after_prefix(uri, "ipps://"@)->Some_0,
        };
        text::law_first_occurrence_divides_a_text(rest, '/');
        let tail = text::from_first(rest, '/')->Some_0;
        let front = text::before(tail, '?');
        text::law_first_occurrence_divides_a_text(tail, '?');
        text::law_first_occurrence_divides_a_text(front, '#');
        assert(tail[0] == '/');
        assert(front[0] == '/');
        assert(path == text::before(front, '#'));
        assert(path[0] == '/');
        if path.contains('?') {
            let i = choose|i: int| 0 <= i < path.len() && path[i] == '?';
            if text::from_first(front, '#') is Some {
                assert(front[i] == path[i]);
            }
            assert(front.contains('?'));
        }
    }
}

/// Digits have their value in upper and lower case, and nothing else is one.
pub proof fn law_hexadecimal_digits_have_their_value(b: u8)
    ensures
        48 <= b <= 57 ==> hex_value(b) == Some((b - 48) as u8),
        65 <= b <= 70 ==> hex_value(b) == Some((b - 55) as u8),
        97 <= b <= 102 ==> hex_value(b) == Some((b - 87) as u8),
        hex_value(b) is Some <==> 48 <= b <= 57 || 65 <= b <= 70 || 97 <= b <= 102,
        hex_value(b) matches Some(value) ==> value < 16,
{
}

/// The byte `value` percent-encoded.
pub open spec fn escape(value: u8) -> Seq<u8> {
    let high = value / 16;
    let low = value % 16;
    seq![
        37u8,
        (if high < 10 { high + 48 } else { high + 55 }) as u8,
        (if low < 10 { low + 48 } else { low + 55 }) as u8,
    ]
}

/// `bytes` with every one of them percent-encoded.
pub open spec fn escape_all(bytes: Seq<u8>) -> Seq<u8>
    decreases bytes.len(),
{
    if bytes.len() == 0 {
        seq![]
    } else {
        escape(bytes[0]) + escape_all(bytes.skip(1))
    }
}

/// Decoding goes from left to right: a byte other than a percent sign stands
/// for itself, and a percent sign with two digits for the byte they write. A
/// percent sign without two digits after it makes the whole undecodable.
pub proof fn law_decoding_goes_byte_by_byte(byte: u8, value: u8, rest: Seq<u8>, bad: Seq<u8>)
    ensures
        unescaped(seq![]) == Some(Seq::<u8>::empty()),
        byte != 37 ==> unescaped(seq![byte] + rest) == (match unescaped(rest) {
            Some(decoded) => Some(seq![byte] + decoded),
            None => None,
        }),
        unescaped(escape(value) + rest) == (match unescaped(rest) {
            Some(decoded) => Some(seq![value] + decoded),
            None => None,
        }),
        bad.len() > 0 && bad[0] == 37 && bad.len() < 3 ==> unescaped(bad) is None,
        bad.len() >= 3 && bad[0] == 37 && hex_value(bad[2]) is None ==> unescaped(bad) is None,
        bad.len() >= 3 && bad[0] == 37 && hex_value(bad[1]) is None && bad[1] != 43 ==> unescaped(
            bad,
        ) is None,
{
    assert((seq![byte] + rest)[0] == byte);
    assert((seq![byte] + rest).skip(1) =~= rest);
    let coded = escape(value) + rest;
    assert(coded.skip(3) =~= rest);
    assert(coded[0] == 37 && coded[1] == escape(value)[1] && coded[2] == escape(value)[2]);
    let high = value / 16;
    let low = value % 16;
    assert(hex_value(coded[1]) == Some(high));
    assert(hex_value(coded[2]) == Some(low));
    assert(high * 16 + low == value);
}

/// Decoding undoes encoding: whatever was percent-encoded comes back.
pub proof fn law_decoding_undoes_encoding(bytes: Seq<u8>)
    ensures
        unescaped(escape_all(bytes)) == Some(bytes),
    decreases bytes.len(),
{
    if bytes.len() > 0 {
        law_decoding_undoes_encoding(bytes.skip(1));
        law_decoding_goes_byte_by_byte(0, bytes[0], escape_all(bytes.skip(1)), seq![]);
        assert(seq![bytes[0]] + bytes.skip(1) =~= bytes);
    } else {
        assert(bytes =~= Seq::<u8>::empty());
    }
}

/// A text is decoded over its bytes, and is a text only if they are one.
pub proof fn law_only_text_is_decoded_to_text(input: Seq<char>)
    ensures
        decoded_text(input) is Some <==> (unescaped(utf8::encode_utf8(input)) matches Some(bytes)
            && utf8::valid_utf8(bytes)),
        decoded_text(input) matches Some(text) ==> unescaped(utf8::encode_utf8(input)) == Some(
            utf8::encode_utf8(text),
        ),
{
    if let Some(bytes) = unescaped(utf8::encode_utf8(input)) {
        if utf8::valid_utf8(bytes) {
            utf8::decode_utf8_encode_utf8(bytes);
        }
    }
}

} // verus!
