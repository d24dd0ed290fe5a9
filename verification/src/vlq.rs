//! Variable-length quantities: MIDI's base-128 big-endian integers.
//!
//! Each byte contributes its low seven bits, most significant byte first;
//! a set high bit means more bytes follow, and the first byte with a clear
//! high bit ends the number.  An encoding spans at most four bytes, so the
//! representable range is `0..=0x0FFF_FFFF`.

use vstd::prelude::*;

verus! {

/// The largest value a variable-length quantity can carry: four bytes of
/// seven payload bits each.
pub const VLQ_MAX: u32 = 0x0FFF_FFFF;

/// The outcome of reading one variable-length quantity from the front of
/// a byte sequence.
#[derive(Clone, Copy, Debug, PartialEq, Eq, Structural)]
pub enum VlqOutcome {
    /// A terminated quantity: its value, and how many bytes it spanned.
    Value(u32, usize),
    /// The sequence ended before a terminating byte appeared.
    Short,
    /// Four bytes passed without a terminating byte.
    Overlong,
}

/// Reading a quantity whose first `idx` bytes, already worth `acc`, have
/// been consumed.
pub open spec fn spec_vlq_from(s: Seq<u8>, idx: int, acc: u32) -> VlqOutcome
    decreases 4 - idx,
{
    if idx >= 4 {
        VlqOutcome::Overlong
    } else if idx >= s.len() {
        VlqOutcome::Short
    } else {
        let b = s[idx];
        let acc2 = (acc * 0x80 + (b % 0x80)) as u32;
        if b < 0x80 {
            VlqOutcome::Value(acc2, (idx + 1) as usize)
        } else {
            spec_vlq_from(s, idx + 1, acc2)
        }
    }
}

/// What reading one variable-length quantity from the front of `s` yields.
pub open spec fn spec_vlq(s: Seq<u8>) -> VlqOutcome {
    spec_vlq_from(s, 0, 0)
}

/// The continuation bytes that encode `v`, each with its high bit set.
pub open spec fn vlq_encode_cont(v: int) -> Seq<u8>
    decreases v,
{
    if v <= 0 {
        Seq::empty()
    } else {
        vlq_encode_cont(v / 0x80).push((v % 0x80 + 0x80) as u8)
    }
}

/// The encoding of `v`: continuation bytes for everything above the low
/// seven bits, then one terminating byte.
pub open spec fn vlq_encode(v: u32) -> Seq<u8> {
    vlq_encode_cont(v as int / 0x80).push((v % 0x80) as u8)
}

/// An encoding never exceeds four bytes for values the format can carry.
proof fn lemma_vlq_encode_cont_len(v: int)
    requires
        0 <= v < 0x200000,
    ensures
        vlq_encode_cont(v).len() <= 3,
        v < 0x4000 ==> vlq_encode_cont(v).len() <= 2,
        v < 0x80 ==> vlq_encode_cont(v).len() <= 1,
        v == 0 ==> vlq_encode_cont(v).len() == 0,
    decreases v,
{
    if v > 0 {
        lemma_vlq_encode_cont_len(v / 0x80);
    }
}

/// Reading continues correctly through the continuation bytes of `v`.
proof fn lemma_vlq_decode_cont(s: Seq<u8>, v: int, rest: Seq<u8>, acc: u32)
    requires
        0 <= v,
        rest.len() >= 1,
        acc * pow128(vlq_encode_cont(v).len() as nat) + v < 0x100000000,
        vlq_encode_cont(v).len() + rest.len() <= 4,
        s == vlq_encode_cont(v) + rest,
    ensures
        spec_vlq_from(s, 0, acc) == spec_vlq_from(
            s,
            vlq_encode_cont(v).len() as int,
            (acc * pow128(vlq_encode_cont(v).len() as nat) + v) as u32,
        ),
    decreases v,
{
    if v <= 0 {
        assert(vlq_encode_cont(v) =~= Seq::<u8>::empty());
        assert(pow128(0) == 1);
    } else {
        let hi = v / 0x80;
        let lo = v % 0x80;
        let chi = vlq_encode_cont(hi);
        let c = vlq_encode_cont(v);
        assert(c == chi.push((lo + 0x80) as u8));
        let n = chi.len() as int;
        assert(c + rest =~= chi + (seq![(lo + 0x80) as u8] + rest));
        assert(pow128((n + 1) as nat) == pow128(n as nat) * 0x80);
        assert(pow128(n as nat) >= 1) by {
            lemma_pow128_pos(n as nat);
        }
        assert(acc * pow128(n as nat) + hi <= acc * pow128((n + 1) as nat) + v)
            by (nonlinear_arith)
            requires
                0 <= acc,
                0 <= hi,
                v == hi * 0x80 + lo,
                0 <= lo < 0x80,
                pow128((n + 1) as nat) == pow128(n as nat) * 0x80,
                pow128(n as nat) >= 1,
        ;
        lemma_vlq_decode_cont(s, hi, seq![(lo + 0x80) as u8] + rest, acc);
        let acc1 = (acc * pow128(n as nat) + hi) as u32;
        assert(spec_vlq_from(s, 0, acc) == spec_vlq_from(s, n, acc1));
        // one more step: the byte at n is (lo + 0x80), a continuation byte
        assert(s[n] == (lo + 0x80) as u8);
        assert(n < 4 && n < s.len());
        assert(spec_vlq_from(s, n, acc1) == spec_vlq_from(
            s,
            n + 1,
            (acc1 * 0x80 + lo % 0x80) as u32,
        ));
        assert(lo % 0x80 == lo);
        assert(acc1 * 0x80 + lo == acc * pow128((n + 1) as nat) + v) by (nonlinear_arith)
            requires
                acc1 == acc * pow128(n as nat) + hi,
                pow128((n + 1) as nat) == pow128(n as nat) * 0x80,
                v == hi * 0x80 + lo,
                0 <= lo < 0x80,
        ;
    }
}

/// A power of 128 is positive.
proof fn lemma_pow128_pos(n: nat)
    ensures
        pow128(n) >= 1,
    decreases n,
{
    if n > 0 {
        lemma_pow128_pos((n - 1) as nat);
    }
}

/// 128 raised to a small power.
pub open spec fn pow128(n: nat) -> int
    decreases n,
{
    if n == 0 {
        1
    } else {
        pow128((n - 1) as nat) * 0x80
    }
}

/// Round trip: reading back the encoding of any value in the representable
/// range yields that value, consuming the whole encoding — at most four
/// bytes.
pub proof fn lemma_vlq_round_trip(v: u32)
    requires
        v <= VLQ_MAX,
    ensures
        vlq_encode(v).len() <= 4,
        spec_vlq(vlq_encode(v)) == VlqOutcome::Value(v, vlq_encode(v).len() as usize),
{
    let hi = v / 0x80;
    let lo = v % 0x80;
    let c = vlq_encode_cont(hi as int);
    let s = vlq_encode(v);
    lemma_vlq_encode_cont_len(hi as int);
    assert(s == c.push((lo) as u8));
    assert(s =~= c + seq![lo as u8]);
    lemma_vlq_decode_cont(s, hi as int, seq![lo as u8], 0);
    let n = c.len() as int;
    assert(spec_vlq_from(s, 0, 0) == spec_vlq_from(s, n, (0 * pow128(n as nat) + hi) as u32));
    assert((0 * pow128(n as nat) + hi) as u32 == hi);
    assert(s[n] == lo as u8);
    assert(spec_vlq_from(s, n, hi) == VlqOutcome::Value((hi * 0x80 + lo) as u32, (n + 1) as usize));
    assert(hi * 0x80 + lo == v);
}

/// Decode one variable-length quantity from `bytes`, starting at `pos`.
///
/// On success the value and the position just past its final byte are
/// returned; `None` means the buffer ended, or four bytes passed, before
/// a terminating byte, exactly as [`spec_vlq`] says of the bytes from
/// `pos` on.
pub fn decode_vlq(bytes: &[u8], pos: usize) -> (r: Option<(u32, usize)>)
    requires
        pos <= bytes@.len(),
    ensures
        match r {
            Some((value, end)) => {
                &&& spec_vlq(bytes@.skip(pos as int)) == VlqOutcome::Value(
                    value,
                    (end - pos) as usize,
                )
                &&& pos < end <= bytes@.len()
                &&& end - pos <= 4
            },
            None => !(spec_vlq(bytes@.skip(pos as int)) is Value),
        },
    {
    let ghost s = bytes@.skip(pos as int);
    let mut acc: u32 = 0;
    let mut idx: usize = 0;
    let mut i: usize = pos;
    loop
        invariant
            idx <= 3,
            i == pos + idx,
            i <= bytes@.len(),
            s == bytes@.skip(pos as int),
            spec_vlq_from(s, 0, 0) == spec_vlq_from(s, idx as int, acc),
            idx == 0 ==> acc == 0,
            idx == 1 ==> acc < 0x80,
            idx == 2 ==> acc < 0x4000,
            idx == 3 ==> acc < 0x200000,
        decreases 4 - idx,
    {
        if i >= bytes.len() {
            assert(idx >= s.len());
            assert(spec_vlq_from(s, idx as int, acc) == VlqOutcome::Short);
            return None;
        }
        let b = bytes[i];
        assert(s[idx as int] == b);
        let acc2 = acc * 0x80 + (b % 0x80) as u32;
        if b < 0x80 {
            assert(spec_vlq_from(s, idx as int, acc) == VlqOutcome::Value(
                acc2,
                (idx + 1) as usize,
            ));
            return Some((acc2, i + 1));
        }
        if idx == 3 {
            assert(spec_vlq_from(s, idx as int, acc) == spec_vlq_from(s, 4, acc2));
            assert(spec_vlq_from(s, 4, acc2) == VlqOutcome::Overlong);
            return None;
        }
        acc = acc2;
        idx += 1;
        i += 1;
    }
}

/// Encode a value as a variable-length quantity.
///
/// The bytes appended to `out` are exactly [`vlq_encode`] of the value.
pub fn encode_vlq(v: u32, out: &mut Vec<u8>) -> (n: usize)
    requires
        v <= VLQ_MAX,
    ensures
        final(out)@ == old(out)@ + vlq_encode(v),
        n == vlq_encode(v).len(),
        1 <= n <= 4,
    {
    proof {
        lemma_vlq_round_trip(v);
    }
    let b3 = (v % 0x80) as u8;
    let v1 = v / 0x80;
    let b2 = (v1 % 0x80) as u8;
    let v2 = v1 / 0x80;
    let b1 = (v2 % 0x80) as u8;
    let v3 = v2 / 0x80;
    let b0 = (v3 % 0x80) as u8;
    let mut n: usize = 0;
    if v3 > 0 {
        out.push(b0 + 0x80);
        n += 1;
    }
    if v2 > 0 {
        out.push(b1 + 0x80);
        n += 1;
    }
    if v1 > 0 {
        out.push(b2 + 0x80);
        n += 1;
    }
    out.push(b3);
    n += 1;
    proof {
        lemma_vlq_encode_unfold(v);
        assert(v as int / 0x80 / 0x80 == v as int / 0x4000) by (nonlinear_arith);
        assert(v as int / 0x4000 / 0x80 == v as int / 0x200000) by (nonlinear_arith);
    }
    assert(out@ =~= old(out)@ + vlq_encode(v));
    n
}

/// The encoding of a value spelled out byte by byte, for the encoder.
proof fn lemma_vlq_encode_unfold(v: u32)
    requires
        v <= VLQ_MAX,
    ensures
        v < 0x80 ==> vlq_encode(v) =~= seq![(v % 0x80) as u8],
        0x80 <= v < 0x4000 ==> vlq_encode(v) =~= seq![
            (v / 0x80 % 0x80 + 0x80) as u8,
            (v % 0x80) as u8,
        ],
        0x4000 <= v < 0x200000 ==> vlq_encode(v) =~= seq![
            (v / 0x4000 % 0x80 + 0x80) as u8,
            (v / 0x80 % 0x80 + 0x80) as u8,
            (v % 0x80) as u8,
        ],
        0x200000 <= v ==> vlq_encode(v) =~= seq![
            (v / 0x200000 % 0x80 + 0x80) as u8,
            (v / 0x4000 % 0x80 + 0x80) as u8,
            (v / 0x80 % 0x80 + 0x80) as u8,
            (v % 0x80) as u8,
        ],
{
    let x = v as int;
    assert(x / 0x80 / 0x80 == x / 0x4000) by (nonlinear_arith);
    assert(x / 0x4000 / 0x80 == x / 0x200000) by (nonlinear_arith);
    assert(x / 0x200000 / 0x80 == x / 0x10000000) by (nonlinear_arith);
    let h1 = x / 0x80;
    let h2 = x / 0x4000;
    let h3 = x / 0x200000;
    assert(vlq_encode_cont(0) =~= Seq::<u8>::empty());
    if v < 0x80 {
        assert(h1 == 0);
        assert(vlq_encode(v) =~= seq![(v % 0x80) as u8]);
    } else if v < 0x4000 {
        assert(h2 == 0);
        assert(vlq_encode_cont(h1) =~= seq![(h1 % 0x80 + 0x80) as u8]);
        assert(vlq_encode(v) =~= seq![(h1 % 0x80 + 0x80) as u8, (v % 0x80) as u8]);
    } else if v < 0x200000 {
        assert(h3 == 0);
        assert(vlq_encode_cont(h2) =~= seq![(h2 % 0x80 + 0x80) as u8]);
        assert(vlq_encode_cont(h1) =~= seq![
            (h2 % 0x80 + 0x80) as u8,
            (h1 % 0x80 + 0x80) as u8,
        ]);
        assert(vlq_encode(v) =~= seq![
            (h2 % 0x80 + 0x80) as u8,
            (h1 % 0x80 + 0x80) as u8,
            (v % 0x80) as u8,
        ]);
    } else {
        assert(x / 0x10000000 == 0);
        assert(h3 / 0x80 == 0);
        assert(vlq_encode_cont(h3) =~= seq![(h3 % 0x80 + 0x80) as u8]);
        assert(vlq_encode_cont(h2) =~= seq![
            (h3 % 0x80 + 0x80) as u8,
            (h2 % 0x80 + 0x80) as u8,
        ]);
        assert(vlq_encode_cont(h1) =~= seq![
            (h3 % 0x80 + 0x80) as u8,
            (h2 % 0x80 + 0x80) as u8,
            (h1 % 0x80 + 0x80) as u8,
        ]);
        assert(vlq_encode(v) =~= seq![
            (h3 % 0x80 + 0x80) as u8,
            (h2 % 0x80 + 0x80) as u8,
            (h1 % 0x80 + 0x80) as u8,
            (v % 0x80) as u8,
        ]);
    }
}

} // verus!
