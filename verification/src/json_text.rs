//! A small verified JSON text writer: the outbound control frames are built
//! as bytes directly, so each encoder's output is pinned, byte for byte, by
//! the spec functions here.  String content is escaped at the byte level —
//! quote, backslash and control bytes — which leaves UTF-8 continuation
//! bytes untouched, as JSON requires.

use vstd::prelude::*;

use crate::ascii::{dec_rep, push_decimal_u64};
use vstd::string::StringSliceAdditionalSpecFns;
use vstd::utf8::encode_utf8;

verus! {

/// The lower-case hex digit for a value below 16.
pub open spec fn hex_digit(n: u8) -> u8 {
    if n < 10 {
        (48 + n) as u8
    } else {
        (87 + n) as u8
    }
}

/// The JSON escape of one byte of string content.
pub open spec fn esc_byte(b: u8) -> Seq<u8> {
    if b == 34 {
        seq![92u8, 34u8]
    } else if b == 92 {
        seq![92u8, 92u8]
    } else if b < 32 {
        seq![92u8, 117u8, 48u8, 48u8, hex_digit(b / 16), hex_digit(b % 16)]
    } else {
        seq![b]
    }
}

/// The JSON escape of string content, byte by byte.
pub open spec fn esc_bytes(bs: Seq<u8>) -> Seq<u8>
    decreases bs.len(),
{
    if bs.len() == 0 {
        Seq::empty()
    } else {
        esc_bytes(bs.drop_last()) + esc_byte(bs.last())
    }
}

/// A JSON string: the UTF-8 bytes of `s`, escaped, in double quotes.
pub open spec fn json_string(s: Seq<char>) -> Seq<u8> {
    seq![34u8] + esc_bytes(encode_utf8(s)) + seq![34u8]
}

/// `true` or `false`.
pub open spec fn bool_bytes(b: bool) -> Seq<u8> {
    if b {
        "true".spec_bytes()
    } else {
        "false".spec_bytes()
    }
}

/// A number or `null`.
pub open spec fn opt_u64_json(o: Option<u64>) -> Seq<u8> {
    match o {
        Some(n) => dec_rep(n as nat),
        None => "null".spec_bytes(),
    }
}

/// A boolean or `null`.
pub open spec fn opt_bool_json(o: Option<bool>) -> Seq<u8> {
    match o {
        Some(b) => bool_bytes(b),
        None => "null".spec_bytes(),
    }
}

/// A string or `null`.
pub open spec fn opt_string_json(o: Option<String>) -> Seq<u8> {
    match o {
        Some(s) => json_string(s@),
        None => "null".spec_bytes(),
    }
}

fn hex_digit_exec(n: u8) -> (r: u8)
    requires
        n < 16,
    ensures
        r == hex_digit(n),
{
    if n < 10 {
        48 + n
    } else {
        87 + n
    }
}

/// Appends the bytes of `s` verbatim (for the fixed punctuation and key
/// fragments of a frame).
pub fn push_lit(out: &mut Vec<u8>, s: &str)
    ensures
        final(out)@ == old(out)@ + s.spec_bytes(),
{
    let bs = s.as_bytes();
    let n = bs.len();
    let mut i: usize = 0;
    while i < n
        invariant
            n == bs@.len(),
            i <= n,
            bs@ == s.spec_bytes(),
            out@ == old(out)@ + bs@.take(i as int),
        decreases n - i,
    {
        out.push(bs[i]);
        proof {
            assert(bs@.take(i as int + 1).drop_last() =~= bs@.take(i as int));
            assert(out@ =~= old(out)@ + bs@.take(i as int + 1));
        }
        i += 1;
    }
    proof {
        assert(bs@.take(n as int) =~= bs@);
    }
}

/// Appends `s` as a JSON string, escaped and quoted.
pub fn push_json_string(out: &mut Vec<u8>, s: &str)
    ensures
        final(out)@ == old(out)@ + json_string(s@),
{
    out.push(34);
    let bs = s.as_bytes();
    let n = bs.len();
    let mut i: usize = 0;
    while i < n
        invariant
            n == bs@.len(),
            i <= n,
            bs@ == encode_utf8(s@),
            out@ == old(out)@ + seq![34u8] + esc_bytes(bs@.take(i as int)),
        decreases n - i,
    {
        let b = bs[i];
        if b == 34 {
            out.push(92);
            out.push(34);
        } else if b == 92 {
            out.push(92);
            out.push(92);
        } else if b < 32 {
            out.push(92);
            out.push(117);
            out.push(48);
            out.push(48);
            out.push(hex_digit_exec(b / 16));
            out.push(hex_digit_exec(b % 16));
        } else {
            out.push(b);
        }
        proof {
            assert(bs@.take(i as int + 1).drop_last() =~= bs@.take(i as int));
            assert(bs@.take(i as int + 1).last() == bs@[i as int]);
            assert(out@ =~= old(out)@ + seq![34u8] + esc_bytes(bs@.take(i as int + 1)));
        }
        i += 1;
    }
    proof {
        assert(bs@.take(n as int) =~= bs@);
    }
    out.push(34);
    proof {
        assert(out@ =~= old(out)@ + json_string(s@));
    }
}

/// Appends `true` or `false`.
pub fn push_bool(out: &mut Vec<u8>, b: bool)
    ensures
        final(out)@ == old(out)@ + bool_bytes(b),
{
    if b {
        push_lit(out, "true");
    } else {
        push_lit(out, "false");
    }
}

/// Appends a number or `null`.
pub fn push_opt_u64(out: &mut Vec<u8>, o: &Option<u64>)
    ensures
        final(out)@ == old(out)@ + opt_u64_json(*o),
{
    match o {
        Some(n) => push_decimal_u64(out, *n),
        None => push_lit(out, "null"),
    }
}

/// Appends a boolean or `null`.
pub fn push_opt_bool(out: &mut Vec<u8>, o: &Option<bool>)
    ensures
        final(out)@ == old(out)@ + opt_bool_json(*o),
{
    match o {
        Some(b) => push_bool(out, *b),
        None => push_lit(out, "null"),
    }
}

/// Appends a string or `null`.
pub fn push_opt_string(out: &mut Vec<u8>, o: &Option<String>)
    ensures
        final(out)@ == old(out)@ + opt_string_json(*o),
{
    match o {
        Some(s) => push_json_string(out, s.as_str()),
        None => push_lit(out, "null"),
    }
}

} // verus!
