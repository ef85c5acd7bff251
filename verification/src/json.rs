//! Byte-level building blocks for the JSON response bodies: lowercase hex
//! rendering of ids in the hyphenated 8-4-4-4-12 form, and JSON string
//! escaping.  Every function is verified against a spec-level description
//! of the exact bytes it appends.

use vstd::prelude::*;
use vstd::string::StringSliceAdditionalSpecFns;

verus! {

/// 16 to the 24th: skips the last 24 hex digits of a 32-digit id.
pub const POW16_24: u128 = 0x1000000000000000000000000;

/// 16 to the 20th.
pub const POW16_20: u128 = 0x100000000000000000000;

/// 16 to the 16th.
pub const POW16_16: u128 = 0x10000000000000000;

/// 16 to the 12th.
pub const POW16_12: u128 = 0x1000000000000;

/// The double-quote byte.
pub const QUOTE: u8 = 0x22;

/// The backslash byte.
pub const BACKSLASH: u8 = 0x5c;

/// The hyphen byte.
pub const HYPHEN: u8 = 0x2d;

/// The lowercase hex digit for a value below 16.
pub open spec fn hex_digit(v: u8) -> u8 {
    if v < 10 {
        (0x30 + v) as u8
    } else {
        (0x57 + v) as u8
    }
}

/// The last `n` hex digits of `v`, most significant first, with leading
/// zeros kept.
pub open spec fn hex_nibbles(v: nat, n: nat) -> Seq<u8>
    decreases n,
{
    if n == 0 {
        Seq::empty()
    } else {
        hex_nibbles(v / 16, (n - 1) as nat) + seq![hex_digit((v % 16) as u8)]
    }
}

/// Rendering `n` hex digits yields exactly `n` bytes.
pub proof fn lemma_hex_nibbles_len(v: nat, n: nat)
    ensures
        hex_nibbles(v, n).len() == n,
    decreases n,
{
    if n > 0 {
        lemma_hex_nibbles_len(v / 16, (n - 1) as nat);
    }
}

/// The 36-byte lowercase hyphenated rendering of a 128-bit id, as the
/// hex digit groups 8-4-4-4-12.
pub open spec fn uuid_hyphenated(id: u128) -> Seq<u8> {
    hex_nibbles((id / POW16_24) as nat, 8) + seq![HYPHEN] + hex_nibbles((id / POW16_20) as nat, 4)
        + seq![HYPHEN] + hex_nibbles((id / POW16_16) as nat, 4) + seq![HYPHEN] + hex_nibbles(
        (id / POW16_12) as nat,
        4,
    ) + seq![HYPHEN] + hex_nibbles(id as nat, 12)
}

/// Every id renders as exactly 36 bytes, so the id carried by a response
/// body is never empty.
pub proof fn lemma_uuid_hyphenated_len(id: u128)
    ensures
        uuid_hyphenated(id).len() == 36,
{
    lemma_hex_nibbles_len((id / POW16_24) as nat, 8);
    lemma_hex_nibbles_len((id / POW16_20) as nat, 4);
    lemma_hex_nibbles_len((id / POW16_16) as nat, 4);
    lemma_hex_nibbles_len((id / POW16_12) as nat, 4);
    lemma_hex_nibbles_len(id as nat, 12);
}

/// The lowercase hex digit for a value below 16, as a byte.
pub fn hex_digit_of(v: u8) -> (d: u8)
    requires
        v < 16,
    ensures
        d == hex_digit(v),
{
    if v < 10 {
        0x30 + v
    } else {
        0x57 + v
    }
}

/// Appends the last `n` hex digits of `v`, most significant first.
pub fn push_hex(out: &mut Vec<u8>, v: u128, n: usize)
    ensures
        final(out)@ == old(out)@ + hex_nibbles(v as nat, n as nat),
    decreases n,
{
    if n == 0 {
        assert(out@ =~= old(out)@ + hex_nibbles(v as nat, 0));
    } else {
        push_hex(out, v / 16, n - 1);
        let d = hex_digit_of((v % 16) as u8);
        out.push(d);
        assert(out@ =~= old(out)@ + hex_nibbles(v as nat, n as nat));
    }
}

/// Appends the 36-byte hyphenated rendering of `id`.
pub fn push_uuid(out: &mut Vec<u8>, id: u128)
    ensures
        final(out)@ == old(out)@ + uuid_hyphenated(id),
{
    push_hex(out, id / POW16_24, 8);
    out.push(HYPHEN);
    push_hex(out, id / POW16_20, 4);
    out.push(HYPHEN);
    push_hex(out, id / POW16_16, 4);
    out.push(HYPHEN);
    push_hex(out, id / POW16_12, 4);
    out.push(HYPHEN);
    push_hex(out, id, 12);
    assert(out@ =~= old(out)@ + uuid_hyphenated(id));
}

/// How one byte of a string is written inside a JSON string literal:
/// quote and backslash get a backslash, the named control characters get
/// their short escapes, the remaining control bytes get `\u00XX`, and
/// every other byte stands for itself.
pub open spec fn escape_byte(b: u8) -> Seq<u8> {
    if b == QUOTE {
        seq![BACKSLASH, QUOTE]
    } else if b == BACKSLASH {
        seq![BACKSLASH, BACKSLASH]
    } else if b == 0x08 {
        seq![BACKSLASH, 0x62]
    } else if b == 0x09 {
        seq![BACKSLASH, 0x74]
    } else if b == 0x0a {
        seq![BACKSLASH, 0x6e]
    } else if b == 0x0c {
        seq![BACKSLASH, 0x66]
    } else if b == 0x0d {
        seq![BACKSLASH, 0x72]
    } else if b < 0x20 {
        seq![BACKSLASH, 0x75, 0x30, 0x30, hex_digit(b / 16), hex_digit(b % 16)]
    } else {
        seq![b]
    }
}

/// A byte string with every byte escaped for a JSON string literal.
pub open spec fn escaped(s: Seq<u8>) -> Seq<u8>
    decreases s.len(),
{
    if s.len() == 0 {
        Seq::empty()
    } else {
        escaped(s.drop_last()) + escape_byte(s.last())
    }
}

/// Appends the bytes of `s` unchanged.
pub fn push_str_bytes(out: &mut Vec<u8>, s: &str)
    ensures
        final(out)@ == old(out)@ + s.spec_bytes(),
{
    let bytes = s.as_bytes();
    let mut i: usize = 0;
    while i < bytes.len()
        invariant
            i <= bytes.len(),
            bytes@ == s.spec_bytes(),
            out@ == old(out)@ + bytes@.take(i as int),
        decreases bytes.len() - i,
    {
        out.push(bytes[i]);
        assert(out@ =~= old(out)@ + bytes@.take(i + 1));
        i = i + 1;
    }
    assert(out@ =~= old(out)@ + s.spec_bytes());
}

/// The JSON text of one string value: quoted, with its bytes escaped.
pub open spec fn json_string(s: Seq<char>) -> Seq<u8> {
    seq![QUOTE] + escaped(vstd::utf8::encode_utf8(s)) + seq![QUOTE]
}

/// Appends the bytes of `s` escaped for a JSON string literal.
pub fn push_escaped(out: &mut Vec<u8>, s: &str)
    ensures
        final(out)@ == old(out)@ + escaped(s.spec_bytes()),
{
    let bytes = s.as_bytes();
    let mut i: usize = 0;
    while i < bytes.len()
        invariant
            i <= bytes.len(),
            bytes@ == s.spec_bytes(),
            out@ == old(out)@ + escaped(bytes@.take(i as int)),
        decreases bytes.len() - i,
    {
        let b = bytes[i];
        if b == QUOTE {
            out.push(BACKSLASH);
            out.push(QUOTE);
        } else if b == BACKSLASH {
            out.push(BACKSLASH);
            out.push(BACKSLASH);
        } else if b == 0x08 {
            out.push(BACKSLASH);
            out.push(0x62);
        } else if b == 0x09 {
            out.push(BACKSLASH);
            out.push(0x74);
        } else if b == 0x0a {
            out.push(BACKSLASH);
            out.push(0x6e);
        } else if b == 0x0c {
            out.push(BACKSLASH);
            out.push(0x66);
        } else if b == 0x0d {
            out.push(BACKSLASH);
            out.push(0x72);
        } else if b < 0x20 {
            out.push(BACKSLASH);
            out.push(0x75);
            out.push(0x30);
            out.push(0x30);
            out.push(hex_digit_of(b / 16));
            out.push(hex_digit_of(b % 16));
        } else {
            out.push(b);
        }
        proof {
            assert(bytes@.take(i + 1).drop_last() =~= bytes@.take(i as int));
            assert(bytes@.take(i + 1).last() == b);
            assert(out@ =~= old(out)@ + escaped(bytes@.take(i + 1)));
        }
        i = i + 1;
    }
    proof {
        assert(bytes@.take(bytes@.len() as int) =~= s.spec_bytes());
    }
}

/// Appends one JSON string value: quote, escaped bytes, quote.
pub fn push_json_string(out: &mut Vec<u8>, s: &str)
    ensures
        final(out)@ == old(out)@ + json_string(s@),
{
    out.push(QUOTE);
    push_escaped(out, s);
    out.push(QUOTE);
    assert(out@ =~= old(out)@ + json_string(s@));
}

} // verus!
