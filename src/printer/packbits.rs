//! PackBits run-length coding of raster rows.
//!
//! A block opens with a header byte `h`. When `h < 128` the block is a
//! literal run: the `h + 1` bytes that follow are copied. When `h > 128` it
//! is a fill run: the single byte that follows stands `257 - h` times (the
//! header is the two's-complement negation of the count minus one). A header
//! of 128 is a no-op. Blocks cover at most 128 source bytes.

use vstd::prelude::*;

verus! {

/// Longest run that one block covers.
pub const MAX_RUN: usize = 128;

/// Position `j` starts two equal bytes.
pub open spec fn starts_pair(s: Seq<u8>, j: int) -> bool {
    0 <= j && j + 1 < s.len() && s[j] == s[j + 1]
}

/// Length of the fill run at `i`, from a run of `k` already known to repeat `s[i]`.
pub open spec fn fill_run(s: Seq<u8>, i: int, k: int) -> int
    decreases MAX_RUN - k,
{
    if k < MAX_RUN && i + k < s.len() && s[i + k] == s[i] {
        fill_run(s, i, k + 1)
    } else {
        k
    }
}

/// Length of the literal run at `i`, from `k` bytes already known to start no pair.
pub open spec fn literal_run(s: Seq<u8>, i: int, k: int) -> int
    decreases MAX_RUN - k,
{
    if k < MAX_RUN && i + k < s.len() && !starts_pair(s, i + k) {
        literal_run(s, i, k + 1)
    } else {
        k
    }
}

/// The block that covers the bytes from `i` on: its header, its payload,
/// and the number of source bytes it covers.
pub open spec fn block_len(s: Seq<u8>, i: int) -> int {
    if starts_pair(s, i) {
        fill_run(s, i, 2)
    } else {
        literal_run(s, i, 1)
    }
}

/// Encoding of `s` from position `i` on: a fill block wherever two equal
/// bytes start, a literal block up to the next such pair otherwise.
pub open spec fn packed_from(s: Seq<u8>, i: int) -> Seq<u8>
    decreases s.len() - i,
{
    if i < 0 || i >= s.len() {
        seq![]
    } else {
        let k = block_len(s, i);
        if k <= 0 || i + k > s.len() {
            seq![]
        } else if starts_pair(s, i) {
            seq![(257 - k) as u8, s[i]] + packed_from(s, i + k)
        } else {
            seq![(k - 1) as u8] + s.subrange(i, i + k) + packed_from(s, i + k)
        }
    }
}

/// The PackBits encoding of `s`.
pub open spec fn packed(s: Seq<u8>) -> Seq<u8> {
    packed_from(s, 0)
}

/// The bytes that a PackBits stream stands for.
pub open spec fn unpacked(e: Seq<u8>) -> Seq<u8>
    decreases e.len(),
{
    if e.len() == 0 {
        seq![]
    } else {
        let h = e[0];
        if h < 128 {
            let end = if 2 + h <= e.len() { 2 + h } else { e.len() as int };
            e.subrange(1, end) + unpacked(e.subrange(end, e.len() as int))
        } else if h == 128 || e.len() < 2 {
            unpacked(e.subrange(1, e.len() as int))
        } else {
            Seq::new((257 - h) as nat, |j: int| e[1]) + unpacked(e.subrange(2, e.len() as int))
        }
    }
}

proof fn lemma_fill_run_bounds(s: Seq<u8>, i: int, k: int)
    requires
        0 <= i,
        1 <= k <= MAX_RUN,
        i + k <= s.len(),
        forall|j: int| i <= j < i + k ==> s[j] == s[i],
    ensures
        k <= fill_run(s, i, k) <= MAX_RUN,
        i + fill_run(s, i, k) <= s.len(),
        forall|j: int| i <= j < i + fill_run(s, i, k) ==> s[j] == s[i],
    decreases MAX_RUN - k,
{
    if k < MAX_RUN && i + k < s.len() && s[i + k] == s[i] {
        lemma_fill_run_bounds(s, i, k + 1);
    }
}

proof fn lemma_literal_run_bounds(s: Seq<u8>, i: int, k: int)
    requires
        0 <= i,
        1 <= k <= MAX_RUN,
        i + k <= s.len(),
    ensures
        k <= literal_run(s, i, k) <= MAX_RUN,
        i + literal_run(s, i, k) <= s.len(),
    decreases MAX_RUN - k,
{
    if k < MAX_RUN && i + k < s.len() && !starts_pair(s, i + k) {
        lemma_literal_run_bounds(s, i, k + 1);
    }
}

/// Unpacking the encoding of `s` from `i` on gives back the bytes of `s` from `i` on.
proof fn lemma_unpack_packed_from(s: Seq<u8>, i: int)
    requires
        0 <= i <= s.len(),
    ensures
        unpacked(packed_from(s, i)) == s.subrange(i, s.len() as int),
    decreases s.len() - i,
{
    if i == s.len() {
        assert(s.subrange(i, s.len() as int) =~= seq![]);
    } else {
        let k = block_len(s, i);
        let rest = packed_from(s, i + k);
        if starts_pair(s, i) {
            lemma_fill_run_bounds(s, i, 2);
            lemma_unpack_packed_from(s, i + k);
            let e = seq![(257 - k) as u8, s[i]] + rest;
            assert(e[0] == (257 - k) as u8);
            assert(e[1] == s[i]);
            assert(e.subrange(2, e.len() as int) =~= rest);
            assert(Seq::new((257 - e[0]) as nat, |j: int| e[1]) =~= s.subrange(i, i + k));
            assert(s.subrange(i, s.len() as int) =~= s.subrange(i, i + k) + s.subrange(
                i + k,
                s.len() as int,
            ));
        } else {
            lemma_literal_run_bounds(s, i, 1);
            lemma_unpack_packed_from(s, i + k);
            let e = seq![(k - 1) as u8] + s.subrange(i, i + k) + rest;
            assert(e[0] == (k - 1) as u8);
            assert(e.subrange(1, 1 + k) =~= s.subrange(i, i + k));
            assert(e.subrange(1 + k, e.len() as int) =~= rest);
            assert(s.subrange(i, s.len() as int) =~= s.subrange(i, i + k) + s.subrange(
                i + k,
                s.len() as int,
            ));
        }
    }
}

/// Unpacking a PackBits encoding gives back the original bytes, whatever their length.
pub proof fn lemma_pack_round_trip(s: Seq<u8>)
    ensures
        unpacked(packed(s)) == s,
{
    lemma_unpack_packed_from(s, 0);
    assert(s.subrange(0, s.len() as int) =~= s);
}

/// The header byte of a fill run of `value + 1` bytes: `value` negated in
/// two's complement.
pub fn complement(value: u8) -> (r: u8)
    ensures
        r as int == (256 - value) % 256,
{
    0u8.wrapping_sub(value)
}

/// Encodes a raster row with PackBits. Runs longer than one block are
/// split over several blocks, so every input is encoded in full.
pub fn pack_bits(src: Vec<u8>) -> (dst: Vec<u8>)
    ensures
        dst@ == packed(src@),
{
    let n = src.len();
    let mut dst: Vec<u8> = Vec::new();
    let mut i: usize = 0;
    while i < n
        invariant
            n == src@.len(),
            i <= n,
            packed(src@) == dst@ + packed_from(src@, i as int),
        decreases n - i,
    {
        let ghost s = src@;
        let ghost before = dst@;
        let k: usize;
        if i + 1 < n && src[i] == src[i + 1] {
            let mut f: usize = 2;
            while f < MAX_RUN && i + f < n && src[i + f] == src[i]
                invariant
                    n == s.len(),
                    s == src@,
                    i + 1 < n,
                    2 <= f <= MAX_RUN,
                    i + f <= n,
                    fill_run(s, i as int, f as int) == fill_run(s, i as int, 2),
                decreases MAX_RUN - f,
            {
                f = f + 1;
            }
            dst.push(complement((f - 1) as u8));
            dst.push(src[i]);
            proof {
                assert(dst@ =~= before + seq![(257 - f) as u8, s[i as int]]);
            }
            k = f;
        } else {
            let mut l: usize = 1;
            while l < MAX_RUN && i + l < n && !(i + l + 1 < n && src[i + l] == src[i + l + 1])
                invariant
                    n == s.len(),
                    s == src@,
                    i < n,
                    1 <= l <= MAX_RUN,
                    i + l <= n,
                    literal_run(s, i as int, l as int) == literal_run(s, i as int, 1),
                decreases MAX_RUN - l,
            {
                l = l + 1;
            }
            dst.push((l - 1) as u8);
            let mut j: usize = i;
            while j < i + l
                invariant
                    n == s.len(),
                    s == src@,
                    i <= j <= i + l,
                    i + l <= n,
                    dst@ == before + seq![(l - 1) as u8] + s.subrange(i as int, j as int),
                decreases i + l - j,
            {
                dst.push(src[j]);
                proof {
                    assert(s.subrange(i as int, j + 1) =~= s.subrange(i as int, j as int).push(
                        s[j as int],
                    ));
                }
                j = j + 1;
            }
            k = l;
        }
        proof {
            assert(packed_from(s, i as int) =~= (dst@.subrange(before.len() as int, dst@.len() as int)) + packed_from(s, i + k));
            assert(dst@ =~= before + dst@.subrange(before.len() as int, dst@.len() as int));
        }
        i = i + k;
    }
    dst
}

/// Decodes a PackBits stream. A block cut short by the end of the stream
/// yields what it holds.
pub fn unpack_bits(src: Vec<u8>) -> (dst: Vec<u8>)
    ensures
        dst@ == unpacked(src@),
{
    let n = src.len();
    let mut dst: Vec<u8> = Vec::new();
    let mut i: usize = 0;
    assert(src@.subrange(0, n as int) =~= src@);
    while i < n
        invariant
            n == src@.len(),
            i <= n,
            unpacked(src@) == dst@ + unpacked(src@.subrange(i as int, n as int)),
        decreases n - i,
    {
        let ghost s = src@;
        let ghost e = s.subrange(i as int, n as int);
        let ghost before = dst@;
        let h = src[i];
        if h < 128 {
            let end: usize = if 2 + (h as usize) <= n - i { i + 2 + (h as usize) } else { n };
            let mut j: usize = i + 1;
            while j < end
                invariant
                    n == s.len(),
                    s == src@,
                    i < j <= end <= n,
                    dst@ == before + s.subrange(i + 1, j as int),
                decreases end - j,
            {
                dst.push(src[j]);
                proof {
                    assert(s.subrange(i + 1, j + 1) =~= s.subrange(i + 1, j as int).push(s[j as int]));
                }
                j = j + 1;
            }
            proof {
                assert(e.subrange(1, end - i) =~= s.subrange(i + 1, end as int));
                assert(e.subrange(end - i, e.len() as int) =~= s.subrange(end as int, n as int));
            }
            i = end;
        } else if h == 128 || n - i < 2 {
            proof {
                assert(e.subrange(1, e.len() as int) =~= s.subrange(i + 1, n as int));
            }
            i = i + 1;
        } else {
            let count: usize = 257 - (h as usize);
            let b = src[i + 1];
            let mut c: usize = 0;
            while c < count
                invariant
                    dst@ == before + Seq::new(c as nat, |j: int| b),
                    c <= count,
                decreases count - c,
            {
                dst.push(b);
                proof {
                    assert(Seq::new((c + 1) as nat, |j: int| b) =~= Seq::new(c as nat, |j: int| b).push(b));
                }
                c = c + 1;
            }
            proof {
                assert(e[1] == b);
                assert(Seq::new((257 - e[0]) as nat, |j: int| e[1]) =~= Seq::new(count as nat, |j: int| b));
                assert(e.subrange(2, e.len() as int) =~= s.subrange(i + 2, n as int));
            }
            i = i + 2;
        }
        proof {
            assert(dst@ =~= before + dst@.subrange(before.len() as int, dst@.len() as int));
        }
    }
    proof {
        assert(src@.subrange(n as int, n as int) =~= seq![]);
    }
    dst
}

} // verus!
