//! The byte formats on the daemon's sockets: fixed-width integers,
//! length-prefixed strings and the status datagrams sent to the watchdog.
//!
//! Every ABI the daemon is built for (armeabi-v7a, arm64-v8a, x86, x86_64)
//! is little-endian, so little-endian is the native order both ends use.

use vstd::prelude::*;
use crate::text::extend;

verus! {

/// The first `n` little-endian bytes of `v`.
pub open spec fn le_bytes(v: nat, n: nat) -> Seq<u8>
    decreases n,
{
    if n == 0 {
        Seq::empty()
    } else {
        seq![(v % 256) as u8] + le_bytes(v / 256, (n - 1) as nat)
    }
}

/// The number that little-endian bytes write.
pub open spec fn le_value(b: Seq<u8>) -> nat
    decreases b.len(),
{
    if b.len() == 0 {
        0
    } else {
        b[0] as nat + 256 * le_value(b.drop_first())
    }
}

/// Appends the `n` low little-endian bytes of `v`.
pub fn push_le(out: &mut Vec<u8>, v: u64, n: usize)
    ensures
        final(out)@ == old(out)@ + le_bytes(v as nat, n as nat),
{
    let mut x: u64 = v;
    let mut k: usize = 0;
    assert(old(out)@ + le_bytes(v as nat, n as nat) =~= old(out)@ + le_bytes(v as nat, n as nat));
    while k < n
        invariant
            k <= n,
            out@ + le_bytes(x as nat, (n - k) as nat) == old(out)@ + le_bytes(v as nat, n as nat),
        decreases n - k,
    {
        let ghost before = out@;
        assert(le_bytes(x as nat, (n - k) as nat) == seq![(x % 256) as u8] + le_bytes(
            (x / 256) as nat,
            (n - k - 1) as nat,
        ));
        out.push((x % 256) as u8);
        assert(out@ + le_bytes((x / 256) as nat, (n - k - 1) as nat) =~= before + le_bytes(
            x as nat,
            (n - k) as nat,
        ));
        x = x / 256;
        k = k + 1;
    }
    assert(le_bytes(x as nat, 0) =~= Seq::<u8>::empty());
    assert(out@ =~= out@ + le_bytes(x as nat, 0));
}

/// A `u32` as four bytes.
pub fn encode_u32(v: u32) -> (r: Vec<u8>)
    ensures
        r@ == le_bytes(v as nat, 4),
{
    let mut r: Vec<u8> = Vec::new();
    push_le(&mut r, v as u64, 4);
    assert(r@ =~= le_bytes(v as nat, 4));
    r
}

/// A `usize` as `size_of::<usize>()` bytes.
pub fn encode_usize(v: usize) -> (r: Vec<u8>)
    ensures
        r@ == le_bytes(v as nat, vstd::layout::size_of::<usize>()),
{
    let n = core::mem::size_of::<usize>();
    let mut r: Vec<u8> = Vec::new();
    push_le(&mut r, v as u64, n);
    assert(r@ =~= le_bytes(v as nat, n as nat));
    r
}

/// `256^n`, the first number that `n` bytes cannot write.
pub open spec fn le_cap(n: nat) -> nat
    decreases n,
{
    if n == 0 {
        1
    } else {
        256 * le_cap((n - 1) as nat)
    }
}

proof fn lemma_le_value_bound(b: Seq<u8>)
    ensures
        le_value(b) < le_cap(b.len()),
    decreases b.len(),
{
    if b.len() > 0 {
        lemma_le_value_bound(b.drop_first());
    }
}

proof fn lemma_le_cap_grows(m: nat, n: nat)
    requires
        m <= n,
    ensures
        le_cap(m) <= le_cap(n),
    decreases n,
{
    if m < n {
        lemma_le_cap_grows(m, (n - 1) as nat);
    }
}

/// The number that up to eight little-endian bytes write.
fn decode_le(b: &[u8]) -> (r: u64)
    requires
        b@.len() <= 8,
    ensures
        r as nat == le_value(b@),
{
    let mut acc: u64 = 0;
    let mut k: usize = b.len();
    assert(b@.subrange(b@.len() as int, b@.len() as int) =~= Seq::<u8>::empty());
    while k > 0
        invariant
            k <= b@.len() <= 8,
            acc as nat == le_value(b@.subrange(k as int, b@.len() as int)),
        decreases k,
    {
        let ghost tail = b@.subrange(k as int, b@.len() as int);
        let ghost next = b@.subrange(k - 1, b@.len() as int);
        assert(next.drop_first() =~= tail);
        proof {
            lemma_le_value_bound(tail);
            lemma_le_cap_grows(tail.len(), 7);
            reveal_with_fuel(le_cap, 8);
        }
        acc = b[k - 1] as u64 + 256 * acc;
        k = k - 1;
    }
    assert(b@.subrange(0, b@.len() as int) =~= b@);
    acc
}

/// A `u32` from its four bytes.
pub fn decode_u32(b: &[u8]) -> (r: u32)
    requires
        b@.len() == 4,
    ensures
        r as nat == le_value(b@),
{
    proof {
        lemma_le_value_bound(b@);
        reveal_with_fuel(le_cap, 5);
    }
    decode_le(b) as u32
}

/// A `usize` from its `size_of::<usize>()` bytes.
pub fn decode_usize(b: &[u8]) -> (r: usize)
    requires
        b@.len() == vstd::layout::size_of::<usize>(),
    ensures
        r as nat == le_value(b@),
{
    proof {
        broadcast use vstd::layout::layout_of_primitives;

        lemma_le_value_bound(b@);
        reveal_with_fuel(le_cap, 9);
    }
    decode_le(b) as usize
}

/// A string as the sockets carry it: its byte length, then its bytes.
pub open spec fn string_frame(s: Seq<u8>) -> Seq<u8> {
    le_bytes(s.len(), vstd::layout::size_of::<usize>()) + s
}

pub fn encode_string(s: &[u8]) -> (r: Vec<u8>)
    ensures
        r@ == string_frame(s@),
{
    let mut r = encode_usize(s.len());
    extend(&mut r, s);
    r
}

/// A status datagram for the watchdog: the tag, the length of the text
/// with its terminating NUL, the text, then the NUL.
pub open spec fn info_frame(tag: u32, text: Seq<u8>) -> Seq<u8> {
    le_bytes(tag as nat, 4) + le_bytes((text.len() + 1) as nat, 4) + text + seq![0u8]
}

pub fn encode_info(tag: u32, text: &[u8]) -> (r: Vec<u8>)
    requires
        text@.len() < u32::MAX,
    ensures
        r@ == info_frame(tag, text@),
{
    let mut r = encode_u32(tag);
    let len = encode_u32(text.len() as u32 + 1);
    extend(&mut r, len.as_slice());
    extend(&mut r, text);
    r.push(0);
    r
}

} // verus!
