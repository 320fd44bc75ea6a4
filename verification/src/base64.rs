//! Standard base64 (RFC 4648 alphabet, with `=` padding), used for the HTTP
//! Basic `Authorization` header.
use vstd::prelude::*;

use crate::text::push_char;

verus! {

/// The base64 digit for a 6-bit value `v` (`0 <= v < 64`):
/// `A-Z`, `a-z`, `0-9`, `+`, `/`.
pub open spec fn b64_digit(v: nat) -> char {
    if v < 26 {
        (65 + v) as char
    } else if v < 52 {
        (97 + (v - 26)) as char
    } else if v < 62 {
        (48 + (v - 52)) as char
    } else if v == 62 {
        '+'
    } else {
        '/'
    }
}

/// The four output characters for one group of up to three input bytes
/// (`n` is the number of real bytes, 1 to 3; missing bytes are zero and the
/// characters they alone determine are replaced by `=`).
pub open spec fn b64_group(b0: u8, b1: u8, b2: u8, n: nat) -> Seq<char> {
    let c0 = b64_digit((b0 / 4) as nat);
    let c1 = b64_digit(((b0 % 4) * 16 + b1 / 16) as nat);
    let c2 = if n > 1 { b64_digit(((b1 % 16) * 4 + b2 / 64) as nat) } else { '=' };
    let c3 = if n > 2 { b64_digit((b2 % 64) as nat) } else { '=' };
    seq![c0, c1, c2, c3]
}

/// Base64 encoding of `data`: each group of three bytes becomes four
/// characters, the last partial group is padded with `=`.
pub open spec fn base64(data: Seq<u8>) -> Seq<char>
    decreases data.len(),
{
    if data.len() == 0 {
        seq![]
    } else if data.len() == 1 {
        b64_group(data[0], 0, 0, 1)
    } else if data.len() == 2 {
        b64_group(data[0], data[1], 0, 2)
    } else {
        b64_group(data[0], data[1], data[2], 3) + base64(data.skip(3))
    }
}

/// Whether `c` can occur in base64 output: a digit of the alphabet or `=`.
pub open spec fn is_base64_char(c: char) -> bool {
    ||| ('A' <= c && c <= 'Z')
    ||| ('a' <= c && c <= 'z')
    ||| ('0' <= c && c <= '9')
    ||| c == '+'
    ||| c == '/'
    ||| c == '='
}

/// The 6-bit value of a base64 digit (inverse of `b64_digit`).
pub open spec fn b64_value(c: char) -> nat {
    if 'A' <= c && c <= 'Z' {
        (c as nat - 65) as nat
    } else if 'a' <= c && c <= 'z' {
        (c as nat - 71) as nat
    } else if '0' <= c && c <= '9' {
        (c as nat + 4) as nat
    } else if c == '+' {
        62
    } else {
        63
    }
}

/// The bytes one group of four base64 characters stands for.
pub open spec fn b64_ungroup(g: Seq<char>) -> Seq<u8> {
    let v0 = b64_value(g[0]);
    let v1 = b64_value(g[1]);
    let v2 = b64_value(g[2]);
    let v3 = b64_value(g[3]);
    let b0 = (v0 * 4 + v1 / 16) as u8;
    let b1 = ((v1 % 16) * 16 + v2 / 4) as u8;
    let b2 = ((v2 % 4) * 64 + v3) as u8;
    if g[2] == '=' {
        seq![b0]
    } else if g[3] == '=' {
        seq![b0, b1]
    } else {
        seq![b0, b1, b2]
    }
}

/// Base64 decoding, group by group (the inverse of `base64`).
pub open spec fn base64_decode(s: Seq<char>) -> Seq<u8>
    decreases s.len(),
{
    if s.len() < 4 {
        seq![]
    } else {
        b64_ungroup(s.take(4)) + base64_decode(s.skip(4))
    }
}

/// Encoding can be done piecewise at group boundaries: when the first part
/// has a multiple of three bytes, the encoding of the whole is the
/// encoding of the first part followed by that of the second.
pub proof fn lemma_base64_concat(a: Seq<u8>, b: Seq<u8>)
    requires
        a.len() % 3 == 0,
    ensures
        base64(a + b) == base64(a) + base64(b),
    decreases a.len(),
{
    if a.len() == 0 {
        assert(a + b =~= b);
        assert(base64(a) + base64(b) =~= base64(b));
    } else {
        let ab = a + b;
        assert(ab[0] == a[0] && ab[1] == a[1] && ab[2] == a[2]);
        assert(ab.skip(3) =~= a.skip(3) + b);
        lemma_base64_concat(a.skip(3), b);
        let g = b64_group(a[0], a[1], a[2], 3);
        assert(base64(ab) == g + base64(a.skip(3) + b));
        assert(base64(a) == g + base64(a.skip(3)));
        assert(g + (base64(a.skip(3)) + base64(b)) =~= (g + base64(a.skip(3))) + base64(b));
    }
}

proof fn lemma_digit_value(v: nat)
    requires
        v < 64,
    ensures
        b64_value(b64_digit(v)) == v,
        b64_digit(v) != '=',
        is_base64_char(b64_digit(v)),
{
}

proof fn lemma_group_arith(b0: u8, b1: u8, b2: u8)
    by (nonlinear_arith)
    ensures
        (b0 / 4) * 4 + ((b0 % 4) * 16 + b1 / 16) / 16 == b0,
        (((b0 % 4) * 16 + b1 / 16) % 16) * 16 + ((b1 % 16) * 4 + b2 / 64) / 4 == b1,
        (((b1 % 16) * 4 + b2 / 64) % 4) * 64 + b2 % 64 == b2,
        b0 / 4 < 64,
        (b0 % 4) * 16 + b1 / 16 < 64,
        (b1 % 16) * 4 + b2 / 64 < 64,
        b2 % 64 < 64,
{
}

proof fn lemma_group_roundtrip(b0: u8, b1: u8, b2: u8, n: nat)
    requires
        1 <= n <= 3,
    ensures
        b64_ungroup(b64_group(b0, b1, b2, n)) == (if n == 1 {
            seq![b0]
        } else if n == 2 {
            seq![b0, b1]
        } else {
            seq![b0, b1, b2]
        }),
        b64_group(b0, b1, b2, n).len() == 4,
        forall|i: int| 0 <= i < 4 ==> is_base64_char(#[trigger] b64_group(b0, b1, b2, n)[i]),
{
    lemma_group_arith(b0, b1, b2);
    let v0 = (b0 / 4) as nat;
    let v1 = ((b0 % 4) * 16 + b1 / 16) as nat;
    let v2 = ((b1 % 16) * 4 + b2 / 64) as nat;
    let v3 = (b2 % 64) as nat;
    lemma_digit_value(v0);
    lemma_digit_value(v1);
    lemma_digit_value(v2);
    lemma_digit_value(v3);
    let g = b64_group(b0, b1, b2, n);
    assert(g[0] == b64_digit(v0));
    assert(g[1] == b64_digit(v1));
    assert(b64_ungroup(g) =~= (if n == 1 {
        seq![b0]
    } else if n == 2 {
        seq![b0, b1]
    } else {
        seq![b0, b1, b2]
    }));
}

/// Decoding the encoding of any byte string gives that byte string back:
/// the encoding loses nothing (in particular, different credentials never
/// produce the same `Authorization` header).
pub proof fn lemma_base64_roundtrip(data: Seq<u8>)
    ensures
        base64_decode(base64(data)) == data,
    decreases data.len(),
{
    let e = base64(data);
    if data.len() == 0 {
    } else if data.len() < 3 {
        let n = data.len();
        let b1: u8 = if n > 1 { data[1] } else { 0 };
        lemma_group_roundtrip(data[0], b1, 0, n);
        assert(e == b64_group(data[0], b1, 0, n));
        assert(e.skip(4) =~= Seq::<char>::empty());
        assert(base64_decode(e.skip(4)) =~= Seq::<u8>::empty());
        assert(e.take(4) =~= e);
        if n == 1 {
            assert(data =~= seq![data[0]]);
        } else {
            assert(data =~= seq![data[0], data[1]]);
        }
        assert(base64_decode(e) =~= data);
    } else {
        lemma_group_roundtrip(data[0], data[1], data[2], 3);
        lemma_base64_roundtrip(data.skip(3));
        let g = b64_group(data[0], data[1], data[2], 3);
        assert(e.take(4) =~= g);
        assert(e.skip(4) =~= base64(data.skip(3)));
        assert(data =~= seq![data[0], data[1], data[2]] + data.skip(3));
    }
}

/// The encoding has four characters for every started group of three bytes.
pub proof fn lemma_base64_len(data: Seq<u8>)
    ensures
        base64(data).len() == 4 * ((data.len() + 2) / 3),
    decreases data.len(),
{
    if data.len() >= 3 {
        lemma_base64_len(data.skip(3));
    }
}

/// Every character of the encoding is a base64 digit or the padding `=`.
pub proof fn lemma_base64_charset(data: Seq<u8>)
    ensures
        forall|i: int| 0 <= i < base64(data).len() ==> is_base64_char(#[trigger] base64(data)[i]),
    decreases data.len(),
{
    if data.len() == 0 {
    } else if data.len() < 3 {
        let b1: u8 = if data.len() > 1 { data[1] } else { 0 };
        lemma_group_roundtrip(data[0], b1, 0, data.len());
    } else {
        lemma_group_roundtrip(data[0], data[1], data[2], 3);
        lemma_base64_charset(data.skip(3));
        let g = b64_group(data[0], data[1], data[2], 3);
        let r = base64(data.skip(3));
        assert forall|i: int| 0 <= i < base64(data).len() implies is_base64_char(
            #[trigger] base64(data)[i],
        ) by {
            if i < 4 {
                assert(base64(data)[i] == g[i]);
            } else {
                assert(base64(data)[i] == r[i - 4]);
            }
        }
    }
}

/// The base64 digit for `v`, computed.
fn digit(v: u8) -> (c: char)
    requires
        v < 64,
    ensures
        c == b64_digit(v as nat),
{
    if v < 26 {
        (65u8 + v) as char
    } else if v < 52 {
        (97u8 + (v - 26)) as char
    } else if v < 62 {
        (48u8 + (v - 52)) as char
    } else if v == 62 {
        '+'
    } else {
        '/'
    }
}

/// Minimal base64 (standard alphabet, with padding) encoder for the
/// `Authorization` header.
pub fn base64_encode(data: &[u8]) -> (out: String)
    ensures
        out@ == base64(data@),
{
    let mut out = String::new();
    let len = data.len();
    let mut i: usize = 0;
    proof {
        assert(data@.skip(0) =~= data@);
        assert(out@ + base64(data@) =~= base64(data@));
    }
    while i < len
        invariant
            len == data@.len(),
            i <= len,
            base64(data@) == out@ + base64(data@.skip(i as int)),
        decreases len - i,
    {
        let rest = len - i;
        let b0: u8 = data[i];
        let b1: u8 = if rest > 1 { data[i + 1] } else { 0 };
        let b2: u8 = if rest > 2 { data[i + 2] } else { 0 };
        let ghost before = out@;
        let ghost tail = data@.skip(i as int);
        push_char(&mut out, digit(b0 / 4));
        push_char(&mut out, digit((b0 % 4) * 16 + b1 / 16));
        if rest > 1 {
            push_char(&mut out, digit((b1 % 16) * 4 + b2 / 64));
        } else {
            push_char(&mut out, '=');
        }
        if rest > 2 {
            push_char(&mut out, digit(b2 % 64));
        } else {
            push_char(&mut out, '=');
        }
        let n: usize = if rest > 3 { 3 } else { rest };
        proof {
            let g = b64_group(b0, b1, b2, n as nat);
            assert(out@ =~= before + g);
            if rest > 2 {
                assert(tail.skip(3) =~= data@.skip(i + 3));
                assert(base64(tail) == g + base64(tail.skip(3)));
            } else {
                assert(data@.skip(len as int) =~= Seq::<u8>::empty());
            }
            assert(base64(data@) =~= out@ + base64(data@.skip((i + n) as int)));
        }
        i = i + n;
    }
    proof {
        assert(data@.skip(len as int) =~= Seq::<u8>::empty());
        assert(out@ =~= base64(data@));
    }
    out
}

} // verus!
