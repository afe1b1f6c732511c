//! The repeat line and the byte stream it produces.
//!
//! The repeat line is the immutable byte sequence written on every loop
//! iteration: the optional argument with one newline appended, or `"y\n"`
//! when no argument is given. The output stream is the endless repetition of
//! that line; [`spec_stream_prefix`] gives its first `n` bytes, and
//! [`stream_prefix`] computes them.

use vstd::prelude::*;

verus! {

/// The newline byte appended to the repeated text.
pub const NEWLINE: u8 = 10;

/// The byte of the default text `"y"`.
pub const DEFAULT_BYTE: u8 = 121;

/// The default text repeated when no argument is given, without its newline.
pub open spec fn default_text() -> Seq<u8> {
    seq![DEFAULT_BYTE]
}

/// The line written on every iteration: the given text, or the default,
/// with exactly one newline appended.
pub open spec fn spec_repeat_line(arg: Option<Seq<u8>>) -> Seq<u8> {
    match arg {
        Some(text) => text.push(NEWLINE),
        None => default_text().push(NEWLINE),
    }
}

/// Build the repeat line from the optional first argument.
///
/// Any byte sequence is accepted verbatim; nothing is validated or limited.
pub fn repeat_line(arg: Option<Vec<u8>>) -> (ln: Vec<u8>)
    ensures
        arg is Some ==> ln@ == spec_repeat_line(Some(arg->0@)),
        arg is None ==> ln@ == spec_repeat_line(None),
        ln@.len() >= 1,
        ln@.last() == NEWLINE,
{
    match arg {
        Some(mut text) => {
            text.push(NEWLINE);
            text
        }
        None => {
            let mut ln: Vec<u8> = Vec::new();
            ln.push(DEFAULT_BYTE);
            ln.push(NEWLINE);
            proof {
                assert(ln@ =~= spec_repeat_line(None));
            }
            ln
        }
    }
}

/// The first `n` bytes of the endless repetition of `ln`: byte `i` of the
/// stream is byte `i % ln.len()` of the line.
pub open spec fn spec_stream_prefix(ln: Seq<u8>, n: nat) -> Seq<u8>
    recommends
        ln.len() > 0,
{
    Seq::new(n, |i: int| ln[i % ln.len() as int])
}

/// Compute the first `n` bytes of the endless repetition of `ln`.
pub fn stream_prefix(ln: &Vec<u8>, n: usize) -> (out: Vec<u8>)
    requires
        ln@.len() >= 1,
    ensures
        out@ == spec_stream_prefix(ln@, n as nat),
{
    let mut out: Vec<u8> = Vec::new();
    let mut j: usize = 0;
    while out.len() < n
        invariant
            ln@.len() >= 1,
            j < ln@.len(),
            out@.len() <= n,
            j == out@.len() as int % ln@.len() as int,
            forall|k: int| 0 <= k < out@.len() ==> out@[k] == ln@[k % ln@.len() as int],
        decreases n - out.len(),
    {
        out.push(ln[j]);
        proof {
            lemma_mod_step(out@.len() as int - 1, ln@.len() as int);
        }
        let len = ln.len();
        if j + 1 == len {
            j = 0;
        } else {
            j = j + 1;
        }
    }
    proof {
        assert(out@ =~= spec_stream_prefix(ln@, n as nat));
    }
    out
}

/// After one more element, the remainder advances by one, wrapping at `len`.
proof fn lemma_mod_step(i: int, len: int)
    requires
        0 <= i,
        0 < len,
    ensures
        i % len + 1 < len ==> (i + 1) % len == i % len + 1,
        i % len + 1 == len ==> (i + 1) % len == 0,
{
    let q = i / len;
    let r = i % len;
    vstd::arithmetic::div_mod::lemma_fundamental_div_mod(i, len);
    if r + 1 < len {
        vstd::arithmetic::div_mod::lemma_fundamental_div_mod_converse(i + 1, len, q, r + 1);
    } else {
        assert(i + 1 == (q + 1) * len + 0) by (nonlinear_arith)
            requires
                i == q * len + r,
                r + 1 == len,
        ;
        vstd::arithmetic::div_mod::lemma_fundamental_div_mod_converse(i + 1, len, q + 1, 0);
    }
}

/// The stream repeats the line and nothing else: within the first `n` bytes,
/// byte `i` is byte `i % ln.len()` of the repeat line, so no byte outside the
/// line is ever interspersed.
pub proof fn lemma_stream_is_cyclic(ln: Seq<u8>, n: nat, i: int)
    requires
        ln.len() > 0,
        0 <= i < n,
    ensures
        spec_stream_prefix(ln, n)[i] == ln[i % ln.len() as int],
{
}

/// Running with an argument `text` produces, byte for byte, the endless
/// repetition of `text` followed by one newline, and nothing else: byte `i`
/// of the output is byte `i % (text.len() + 1)` of that line.
pub proof fn lemma_output_repeats_argument(text: Seq<u8>, n: nat, i: int)
    requires
        0 <= i < n,
    ensures
        spec_repeat_line(Some(text)).len() == text.len() + 1,
        spec_stream_prefix(spec_repeat_line(Some(text)), n)[i]
            == spec_repeat_line(Some(text))[i % (text.len() + 1) as int],
{
    lemma_stream_is_cyclic(spec_repeat_line(Some(text)), n, i);
}

/// Determinism of the stream: what the first `m` bytes are does not depend on
/// how many bytes `n` are produced in all. A reader that consumes exactly `m`
/// bytes therefore always sees the same prefix.
pub proof fn lemma_stream_prefix_extends(ln: Seq<u8>, m: nat, n: nat)
    requires
        ln.len() > 0,
        m <= n,
    ensures
        spec_stream_prefix(ln, m) == spec_stream_prefix(ln, n).take(m as int),
{
    assert(spec_stream_prefix(ln, m) =~= spec_stream_prefix(ln, n).take(m as int));
}

} // verus!
