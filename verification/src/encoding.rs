//! Percent-encoding of single URL path segments (vhost names, queue names,
//! user names, ...).
use vstd::prelude::*;
use vstd::utf8::*;

use crate::text::push_char;

verus! {

/// Bytes that `application/x-www-form-urlencoded` serialization leaves
/// unchanged: `*`, `-`, `.`, `0-9`, `A-Z`, `_`, `a-z`.
pub open spec fn is_unreserved(b: u8) -> bool {
    ||| b == 42
    ||| b == 45
    ||| b == 46
    ||| (48 <= b && b <= 57)
    ||| (65 <= b && b <= 90)
    ||| b == 95
    ||| (97 <= b && b <= 122)
}

/// Upper-case hexadecimal digit for `d` (`0 <= d < 16`).
pub open spec fn hex_digit(d: nat) -> char {
    if d < 10 {
        (48 + d) as char
    } else {
        (55 + d) as char
    }
}

/// Value of an upper-case hexadecimal digit (inverse of `hex_digit`).
pub open spec fn hex_value(c: char) -> nat {
    if '0' <= c && c <= '9' {
        (c as nat - 48) as nat
    } else {
        (c as nat - 55) as nat
    }
}

/// `%XX` escape of a byte, with upper-case hex digits.
pub open spec fn percent_byte(b: u8) -> Seq<char> {
    seq!['%', hex_digit((b / 16) as nat), hex_digit((b % 16) as nat)]
}

/// Form serialization of one byte: unreserved bytes stay, a space becomes
/// `+`, every other byte is percent-escaped.
pub open spec fn form_byte(b: u8) -> Seq<char> {
    if is_unreserved(b) {
        seq![b as char]
    } else if b == 32 {
        seq!['+']
    } else {
        percent_byte(b)
    }
}

/// `application/x-www-form-urlencoded` byte serialization of `bytes`.
pub open spec fn form_urlencoded(bytes: Seq<u8>) -> Seq<char>
    decreases bytes.len(),
{
    if bytes.len() == 0 {
        seq![]
    } else {
        form_byte(bytes[0]) + form_urlencoded(bytes.drop_first())
    }
}

/// Path-segment encoding of one byte: unreserved bytes stay, every other
/// byte (the space included) is percent-escaped.
pub open spec fn segment_byte(b: u8) -> Seq<char> {
    if is_unreserved(b) {
        seq![b as char]
    } else {
        percent_byte(b)
    }
}

/// Path-segment encoding of a byte string.
pub open spec fn segment_bytes(bytes: Seq<u8>) -> Seq<char>
    decreases bytes.len(),
{
    if bytes.len() == 0 {
        seq![]
    } else {
        segment_byte(bytes[0]) + segment_bytes(bytes.drop_first())
    }
}

/// The encoded form of a path segment: its UTF-8 bytes, each unreserved
/// byte kept and every other byte written `%XX`.
pub open spec fn encoded_segment(s: Seq<char>) -> Seq<char> {
    segment_bytes(encode_utf8(s))
}

/// `s` with every `+` replaced by `%20`.
pub open spec fn plus_as_space_escape(s: Seq<char>) -> Seq<char>
    decreases s.len(),
{
    if s.len() == 0 {
        seq![]
    } else {
        (if s[0] == '+' {
            seq!['%', '2', '0']
        } else {
            seq![s[0]]
        }) + plus_as_space_escape(s.drop_first())
    }
}

/// Characters that can occur in an encoded segment: the unreserved
/// characters, `%`, and the upper-case hexadecimal digits.
pub open spec fn is_segment_char(c: char) -> bool {
    ||| c == '*'
    ||| c == '-'
    ||| c == '.'
    ||| ('0' <= c && c <= '9')
    ||| ('A' <= c && c <= 'Z')
    ||| c == '_'
    ||| ('a' <= c && c <= 'z')
    ||| c == '%'
}

/// Inverse of the segment encoding on bytes: `%XX` becomes the byte `XX`,
/// any other character stands for itself.
pub open spec fn percent_decode(s: Seq<char>) -> Seq<u8>
    decreases s.len(),
{
    if s.len() == 0 {
        seq![]
    } else if s[0] == '%' && s.len() >= 3 {
        seq![(hex_value(s[1]) * 16 + hex_value(s[2])) as u8] + percent_decode(s.skip(3))
    } else {
        seq![s[0] as u8] + percent_decode(s.drop_first())
    }
}

/// The characters a plain relative path is made of: ASCII letters and
/// digits, `-`, `.`, `_`, `*`, `%` and `/`. None of them is
/// percent-encoded in a URL path, and none starts a query, a fragment or a
/// scheme.
pub open spec fn is_plain_path_char(c: char) -> bool {
    ||| ('a' <= c && c <= 'z')
    ||| ('A' <= c && c <= 'Z')
    ||| ('0' <= c && c <= '9')
    ||| c == '-'
    ||| c == '.'
    ||| c == '_'
    ||| c == '*'
    ||| c == '%'
    ||| c == '/'
}

/// Whether a path segment of `p` starts at index `i`.
pub open spec fn starts_segment(p: Seq<char>, i: int) -> bool {
    i == 0 || p[i - 1] == '/'
}

/// Whether `p` starts, at index `i`, with `%2e` or `%2E` (an encoded `.`).
pub open spec fn encoded_dot_at(p: Seq<char>, i: int) -> bool {
    i + 2 < p.len() && p[i] == '%' && p[i + 1] == '2' && (p[i + 2] == 'e' || p[i + 2] == 'E')
}

/// A relative path that URL resolution appends as it is: it does not start
/// with `/`, it is made of plain path characters, and no segment starts
/// with `.` or an encoded `.` (so none is a `.` or `..` segment).
pub open spec fn plain_relative_path(p: Seq<char>) -> bool {
    &&& (p.len() == 0 || p[0] != '/')
    &&& forall|i: int| 0 <= i < p.len() ==> is_plain_path_char(#[trigger] p[i])
    &&& forall|i: int|
        0 <= i < p.len() && #[trigger] starts_segment(p, i) ==> p[i] != '.' && !encoded_dot_at(p, i)
}

/// `url::form_urlencoded::byte_serialize`, collected into a string. The
/// `form_urlencoded` source keeps the bytes `*`, `-`, `.`, `0-9`, `A-Z`,
/// `_`, `a-z`, turns a space into `+` and writes every other byte as `%XX`
/// with upper-case hex digits; the contract states exactly that.
#[verifier::external_body]
fn form_urlencode(input: &[u8]) -> (res: String)
    ensures
        res@ == form_urlencoded(input@),
{
    url::form_urlencoded::byte_serialize(input).collect::<String>()
}

proof fn lemma_hex(b: u8)
    ensures
        hex_value(hex_digit((b / 16) as nat)) == b / 16,
        hex_value(hex_digit((b % 16) as nat)) == b % 16,
        hex_digit((b / 16) as nat) != '+',
        hex_digit((b % 16) as nat) != '+',
        hex_digit((b / 16) as nat) != '%',
        hex_digit((b % 16) as nat) != '%',
        is_segment_char(hex_digit((b / 16) as nat)),
        is_segment_char(hex_digit((b % 16) as nat)),
        ((hex_value(hex_digit((b / 16) as nat)) * 16 + hex_value(hex_digit((b % 16) as nat)))
            as u8) == b,
{
    assert((b / 16) * 16 + b % 16 == b);
}

proof fn lemma_plus_escape_append(a: Seq<char>, b: Seq<char>)
    ensures
        plus_as_space_escape(a + b) == plus_as_space_escape(a) + plus_as_space_escape(b),
    decreases a.len(),
{
    if a.len() == 0 {
        assert(a + b =~= b);
    } else {
        lemma_plus_escape_append(a.drop_first(), b);
        assert((a + b).drop_first() =~= a.drop_first() + b);
        assert((a + b)[0] == a[0]);
    }
}

/// The form serialization only ever writes ASCII characters.
proof fn lemma_form_ascii(bytes: Seq<u8>)
    ensures
        is_ascii_chars(form_urlencoded(bytes)),
    decreases bytes.len(),
{
    if bytes.len() > 0 {
        lemma_form_ascii(bytes.drop_first());
        lemma_hex(bytes[0]);
        let p = form_byte(bytes[0]);
        let r = form_urlencoded(bytes.drop_first());
        assert forall|i: int| 0 <= i < (p + r).len() implies '\0' <= #[trigger] (p + r)[i] <= '\u{7f}' by {
            if i >= p.len() {
                assert((p + r)[i] == r[i - p.len()]);
            }
        }
    }
}

/// Escaping every `+` of the form serialization gives the segment
/// encoding: a `+` there can only have come from a space.
proof fn lemma_form_then_escape(bytes: Seq<u8>)
    ensures
        plus_as_space_escape(form_urlencoded(bytes)) == segment_bytes(bytes),
    decreases bytes.len(),
{
    if bytes.len() > 0 {
        let b = bytes[0];
        lemma_form_then_escape(bytes.drop_first());
        lemma_hex(b);
        lemma_plus_escape_append(form_byte(b), form_urlencoded(bytes.drop_first()));
        let p = form_byte(b);
        if is_unreserved(b) {
            assert(plus_as_space_escape(p.drop_first()) =~= Seq::<char>::empty());
            assert(plus_as_space_escape(p) =~= segment_byte(b));
        } else if b == 32 {
            assert(plus_as_space_escape(p.drop_first()) =~= Seq::<char>::empty());
            assert(hex_digit((b / 16) as nat) == '2');
            assert(hex_digit((b % 16) as nat) == '0');
            assert(plus_as_space_escape(p) =~= segment_byte(b));
        } else {
            let h1 = hex_digit((b / 16) as nat);
            let h2 = hex_digit((b % 16) as nat);
            let q = p.drop_first();
            let q2 = q.drop_first();
            assert(q =~= seq![h1, h2]);
            assert(q2 =~= seq![h2]);
            assert(plus_as_space_escape(q2.drop_first()) =~= Seq::<char>::empty());
            assert(plus_as_space_escape(q2) =~= seq![h2]);
            assert(plus_as_space_escape(q) =~= seq![h1, h2]);
            assert(plus_as_space_escape(p) =~= seq!['%', h1, h2]);
            assert(plus_as_space_escape(p) =~= segment_byte(b));
        }
    }
}

/// Decoding of an encoded segment: `%XX` escapes back to bytes, the bytes
/// read as UTF-8.
pub open spec fn decoded_segment(s: Seq<char>) -> Seq<char> {
    decode_utf8(percent_decode(s))
}

proof fn lemma_percent_decode_bytes(bytes: Seq<u8>)
    ensures
        percent_decode(segment_bytes(bytes)) == bytes,
    decreases bytes.len(),
{
    if bytes.len() > 0 {
        let b = bytes[0];
        let rest = bytes.drop_first();
        lemma_percent_decode_bytes(rest);
        lemma_hex(b);
        let p = segment_byte(b);
        let r = segment_bytes(rest);
        let e = p + r;
        assert(segment_bytes(bytes) == e);
        if is_unreserved(b) {
            assert(e[0] == b as char);
            assert(e.drop_first() =~= r);
            assert(((b as char) as u8) == b);
        } else {
            assert(e[0] == '%');
            assert(e[1] == hex_digit((b / 16) as nat));
            assert(e[2] == hex_digit((b % 16) as nat));
            assert(e.skip(3) =~= r);
        }
        assert(percent_decode(e) =~= seq![b] + rest);
        assert(seq![b] + rest =~= bytes);
    }
}

proof fn lemma_segment_bytes_charset(bytes: Seq<u8>)
    ensures
        forall|i: int|
            0 <= i < segment_bytes(bytes).len() ==> is_segment_char(
                #[trigger] segment_bytes(bytes)[i],
            ),
    decreases bytes.len(),
{
    if bytes.len() > 0 {
        let b = bytes[0];
        lemma_segment_bytes_charset(bytes.drop_first());
        lemma_hex(b);
        let p = segment_byte(b);
        let r = segment_bytes(bytes.drop_first());
        assert forall|i: int| 0 <= i < (p + r).len() implies is_segment_char(#[trigger] (p + r)[i]) by {
            if i >= p.len() {
                assert((p + r)[i] == r[i - p.len()]);
            }
        }
    }
}

/// An encoded segment consists only of unreserved characters, `%` and
/// upper-case hex digits; in particular it never holds a `/`, so a resource
/// name can never add or split a path segment, nor a space, `+`, `?` or `#`.
pub proof fn lemma_encoded_segment_charset(s: Seq<char>)
    ensures
        forall|i: int|
            0 <= i < encoded_segment(s).len() ==> is_segment_char(
                #[trigger] encoded_segment(s)[i],
            ),
        !encoded_segment(s).contains('/'),
        !encoded_segment(s).contains('+'),
        !encoded_segment(s).contains(' '),
        !encoded_segment(s).contains('?'),
        !encoded_segment(s).contains('#'),
{
    lemma_segment_bytes_charset(encode_utf8(s));
}

/// A name's encoded segment is made of plain path characters, holds no
/// `/`, starts with `.` only when the name does, and never starts with an
/// encoded `.`: joined onto a path, it is never a `.` or `..` segment unless
/// the name starts with `.`.
pub proof fn lemma_encoded_segment_is_plain(s: Seq<char>)
    ensures
        forall|i: int|
            0 <= i < encoded_segment(s).len() ==> is_plain_path_char(#[trigger] encoded_segment(s)[i])
                && encoded_segment(s)[i] != '/',
        encoded_segment(s).len() > 0 && encoded_segment(s)[0] == '.' ==> s.len() > 0 && s[0] == '.',
        !encoded_dot_at(encoded_segment(s), 0),
{
    let bytes = encode_utf8(s);
    let enc = encoded_segment(s);
    lemma_segment_bytes_charset(bytes);
    assert forall|i: int| 0 <= i < enc.len() implies is_plain_path_char(#[trigger] enc[i]) && enc[i]
        != '/' by {
        assert(is_segment_char(enc[i]));
    }
    if bytes.len() > 0 {
        let b = bytes[0];
        lemma_hex(b);
        let p = segment_byte(b);
        assert(enc == p + segment_bytes(bytes.drop_first()));
        assert(enc[0] == p[0]);
        if is_unreserved(b) {
            assert(enc[0] == b as char);
            if b as char == '.' {
                assert(b == 46);
                assert(s.len() > 0);
                encode_utf8_first_scalar(s);
                assert((46u8 & 0x7Fu8) == 46u8) by (bit_vector);
                assert(decode_first_scalar(bytes) == 46);
                assert(s[0] as u32 == 46);
                char_u32_cast(s[0], 46);
                char_u32_cast('.', 46);
            }
        } else {
            assert(enc[1] == hex_digit((b / 16) as nat));
            assert(enc[2] == hex_digit((b % 16) as nat));
            if enc[1] == '2' && enc[2] == 'E' {
                assert(b / 16 == 2);
                assert(b % 16 == 14);
                assert(b == 46);
            }
        }
    } else {
        assert(enc.len() == 0);
    }
}

/// Decoding an encoded segment gives the original name back.
pub proof fn lemma_encoded_segment_roundtrip(s: Seq<char>)
    ensures
        decoded_segment(encoded_segment(s)) == s,
{
    lemma_percent_decode_bytes(encode_utf8(s));
    encode_utf8_decode_utf8(s);
}

/// Different names always encode to different segments.
pub proof fn lemma_encoded_segment_injective(a: Seq<char>, b: Seq<char>)
    ensures
        encoded_segment(a) == encoded_segment(b) ==> a == b,
{
    lemma_encoded_segment_roundtrip(a);
    lemma_encoded_segment_roundtrip(b);
}

/// A copy of `form` with each `+` written as `%20`.
fn escape_plus(form: &String) -> (res: String)
    requires
        is_ascii_chars(form@),
    ensures
        res@ == plus_as_space_escape(form@),
{
    let bytes = form.as_str().as_bytes();
    proof {
        is_ascii_chars_encode_utf8(form@);
    }
    let n = bytes.len();
    let mut out = String::new();
    let mut i: usize = 0;
    while i < n
        invariant
            n == bytes@.len(),
            n == form@.len(),
            i <= n,
            forall|j: int| 0 <= j < n ==> #[trigger] bytes@[j] == form@[j] as u8,
            is_ascii_chars(form@),
            out@ == plus_as_space_escape(form@.take(i as int)),
        decreases n - i,
    {
        let b = bytes[i];
        let ghost c = form@[i as int];
        let ghost before = out@;
        proof {
            assert(c == ((c as u8) as char));
            assert(b as char == c);
        }
        if b == 43u8 {
            push_char(&mut out, '%');
            push_char(&mut out, '2');
            push_char(&mut out, '0');
        } else {
            push_char(&mut out, b as char);
        }
        proof {
            let piece = seq![c];
            assert(form@.take(i + 1) =~= form@.take(i as int) + piece);
            lemma_plus_escape_append(form@.take(i as int), piece);
            assert(piece.drop_first() =~= Seq::<char>::empty());
            assert(piece[0] == c);
            assert(plus_as_space_escape(piece.drop_first()) =~= Seq::<char>::empty());
            if b == 43u8 {
                assert(c == '+');
                assert(plus_as_space_escape(piece) =~= seq!['%', '2', '0']);
            } else {
                assert(c != '+');
                assert(plus_as_space_escape(piece) =~= seq![c]);
            }
            assert(out@ =~= before + plus_as_space_escape(piece));
        }
        i = i + 1;
    }
    proof {
        assert(form@.take(n as int) =~= form@);
    }
    out
}

/// Percent-encode a single URL path segment.
///
/// RabbitMQ resource names (vhosts, queue names, user names, ...) may
/// contain `/`, spaces, and other characters that are not valid in a URL
/// path segment, most notably the default vhost, which is literally `"/"`.
/// The UTF-8 bytes are form-serialized and every `+` (the form encoding of
/// a space) is then written `%20`, the right encoding inside a path.
pub fn encode_segment(s: &str) -> (res: String)
    ensures
        res@ == encoded_segment(s@),
{
    let bytes = s.as_bytes();
    let form = form_urlencode(bytes);
    proof {
        lemma_form_ascii(bytes@);
        lemma_form_then_escape(bytes@);
    }
    escape_plus(&form)
}

} // verus!
