//! Small text helpers the codec is built on: case-insensitive comparison of
//! event names (ASCII letters only, as the protocol's names are ASCII) and
//! the decimal rendering of unsigned integers used by the frame encoder.

use vstd::prelude::*;
use vstd::string::StrSliceExecFns;

verus! {

/// Code point of `c`, with ASCII lower-case letters folded to upper case.
pub open spec fn folded_code(c: char) -> int {
    if 97 <= c as int && c as int <= 122 {
        c as int - 32
    } else {
        c as int
    }
}

/// Two character sequences are equal up to ASCII case.
pub open spec fn seq_icase_eq(a: Seq<char>, b: Seq<char>) -> bool {
    a.len() == b.len() && forall|i: int|
        0 <= i < a.len() ==> folded_code(a[i]) == folded_code(b[i])
}

fn folded_code_exec(c: char) -> (r: u32)
    ensures
        r == folded_code(c),
{
    let u = c as u32;
    if 97 <= u && u <= 122 {
        u - 32
    } else {
        u
    }
}

/// Whether `a` and `b` are the same string up to ASCII case.
pub fn str_icase_eq(a: &str, b: &str) -> (r: bool)
    ensures
        r == seq_icase_eq(a@, b@),
{
    let alen = a.unicode_len();
    let blen = b.unicode_len();
    if alen != blen {
        return false;
    }
    let mut i: usize = 0;
    while i < alen
        invariant
            alen == a@.len(),
            blen == b@.len(),
            alen == blen,
            i <= alen,
            forall|j: int| 0 <= j < i ==> folded_code(a@[j]) == folded_code(b@[j]),
        decreases alen - i,
    {
        let ca = a.get_char(i);
        let cb = b.get_char(i);
        if folded_code_exec(ca) != folded_code_exec(cb) {
            return false;
        }
        i += 1;
    }
    true
}

/// The decimal digits (as ASCII bytes) of `n`, most significant first.
pub open spec fn dec_rep(n: nat) -> Seq<u8>
    decreases n,
{
    if n < 10 {
        seq![(48 + n) as u8]
    } else {
        dec_rep(n / 10).push((48 + n % 10) as u8)
    }
}

/// Appends the decimal rendering of `n` to `out`.
pub fn push_decimal_u128(out: &mut Vec<u8>, n: u128)
    ensures
        final(out)@ == old(out)@ + dec_rep(n as nat),
    decreases n,
{
    if n < 10 {
        out.push(48 + n as u8);
        assert(out@ =~= old(out)@ + dec_rep(n as nat));
    } else {
        push_decimal_u128(out, n / 10);
        out.push(48 + (n % 10) as u8);
        assert(out@ =~= old(out)@ + dec_rep(n as nat));
    }
}

/// Appends the decimal rendering of `n` to `out`.
pub fn push_decimal_u64(out: &mut Vec<u8>, n: u64)
    ensures
        final(out)@ == old(out)@ + dec_rep(n as nat),
{
    push_decimal_u128(out, n as u128);
}

} // verus!
