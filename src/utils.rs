//! Thresholding of grayscale pixels into the printer's raster rows.

use vstd::prelude::*;

use crate::{Matrix, NORMAL_PRINTER_WIDTH, WIDE_PRINTER_WIDTH};

verus! {

/// A pixel at or below the threshold is printed.
pub open spec fn is_dark(bytes: Seq<u8>, threshold: u8, k: int) -> bool {
    bytes[k] <= threshold
}

/// The raster byte for the eight pixels from `base` on: bit `i` is set when
/// pixel `base + i` is dark (first `n` bits).
pub open spec fn raster_byte(bytes: Seq<u8>, threshold: u8, base: int, n: nat) -> u8
    decreases n,
{
    if n == 0 {
        0
    } else {
        let prev = raster_byte(bytes, threshold, base, (n - 1) as nat);
        if is_dark(bytes, threshold, base + n - 1) {
            prev | (1u8 << ((n - 1) as u8))
        } else {
            prev
        }
    }
}

proof fn lemma_set_bit(p: u8, k: u8, i: u8)
    requires
        k < 8,
        i < 8,
        p < (1u8 << k),
    ensures
        (((p | (1u8 << k)) >> i) & 1u8 == 1u8) <==> (((p >> i) & 1u8 == 1u8) || i == k),
        (p >> k) & 1u8 == 0u8,
        k < 7 ==> (p | (1u8 << k)) < (1u8 << ((k + 1) as u8)),
        k < 7 ==> p < (1u8 << ((k + 1) as u8)),
{
    assert((((p | (1u8 << k)) >> i) & 1u8 == 1u8) <==> (((p >> i) & 1u8 == 1u8) || i == k))
        by (bit_vector)
        requires
            k < 8,
            i < 8,
            p < (1u8 << k),
    ;
    assert((p >> k) & 1u8 == 0u8) by (bit_vector)
        requires
            k < 8,
            p < (1u8 << k),
    ;
    assert(k < 7 ==> (p | (1u8 << k)) < (1u8 << ((k + 1) as u8))) by (bit_vector)
        requires
            p < (1u8 << k),
    ;
    assert(k < 7 ==> p < (1u8 << ((k + 1) as u8))) by (bit_vector)
        requires
            p < (1u8 << k),
    ;
}

/// Bit `i` of a raster byte is set exactly when pixel `base + i` is dark.
pub proof fn lemma_raster_byte_bits(bytes: Seq<u8>, threshold: u8, base: int, n: nat)
    requires
        n <= 8,
    ensures
        forall|i: u8|
            i < 8 ==> (((raster_byte(bytes, threshold, base, n) >> i) & 1u8 == 1u8) <==> (i < n
                && is_dark(bytes, threshold, base + i))),
        n < 8 ==> raster_byte(bytes, threshold, base, n) < (1u8 << (n as u8)),
    decreases n,
{
    if n == 0 {
        assert(forall|i: u8| i < 8 ==> (0u8 >> i) & 1u8 == 0u8) by (bit_vector);
        assert(0u8 < (1u8 << 0u8)) by (bit_vector);
    } else {
        let k = (n - 1) as u8;
        lemma_raster_byte_bits(bytes, threshold, base, (n - 1) as nat);
        let p = raster_byte(bytes, threshold, base, (n - 1) as nat);
        let r = raster_byte(bytes, threshold, base, n);
        lemma_set_bit(p, k, 0);
        assert forall|i: u8| i < 8 implies (((r >> i) & 1u8 == 1u8) <==> (i < n && is_dark(
            bytes,
            threshold,
            base + i,
        ))) by {
            lemma_set_bit(p, k, i);
            if i == k {
                assert(i as int == n - 1);
            } else {
                assert(i < n <==> i < n - 1);
            }
        }
    }
}

/// First pixel of byte `x` of row `y`: rows run right to left, so the
/// printed label is the mirror image that the head needs.
pub open spec fn byte_base(width: u32, y: int, x: int) -> int {
    (y + 1) * width - (x + 1) * 8
}

/// Thresholds a grayscale image, one byte per pixel in rows of `width`
/// pixels, into `length` raster rows of `width / 8` bytes.
pub fn step_filter(threashold: u8, width: u32, length: u32, bytes: Vec<u8>) -> (r: Matrix)
    requires
        width * length <= u32::MAX,
        width * length <= bytes@.len(),
    ensures
        r@.len() == length,
        forall|y: int| 0 <= y < length ==> #[trigger] r@[y]@.len() == width / 8,
        forall|y: int, x: int|
            0 <= y < length && 0 <= x < width / 8 ==> #[trigger] r@[y]@[x] == raster_byte(
                bytes@,
                threashold,
                byte_base(width, y, x),
                8,
            ),
{
    let mut bw: Vec<Vec<u8>> = Vec::new();
    let row_bytes = width / 8;
    let mut y: u32 = 0;
    while y < length
        invariant
            y <= length,
            row_bytes == width / 8,
            width * length <= u32::MAX,
            width * length <= bytes@.len(),
            bw@.len() == y,
            forall|j: int| 0 <= j < y ==> #[trigger] bw@[j]@.len() == width / 8,
            forall|j: int, x: int|
                0 <= j < y && 0 <= x < width / 8 ==> #[trigger] bw@[j]@[x] == raster_byte(
                    bytes@,
                    threashold,
                    byte_base(width, j, x),
                    8,
                ),
        decreases length - y,
    {
        assert((y + 1) * width <= width * length) by (nonlinear_arith)
            requires
                y < length,
        ;
        let row_end: u32 = (1 + y) * width;
        let mut buf: Vec<u8> = Vec::new();
        let mut x: u32 = 0;
        while x < row_bytes
            invariant
                x <= row_bytes,
                row_bytes == width / 8,
                y < length,
                row_end == (y + 1) * width,
                row_end <= width * length,
                width * length <= bytes@.len(),
                buf@.len() == x,
                forall|k: int|
                    0 <= k < x ==> #[trigger] buf@[k] == raster_byte(
                        bytes@,
                        threashold,
                        byte_base(width, y as int, k),
                        8,
                    ),
            decreases row_bytes - x,
        {
            assert((x + 1) * 8 <= width) by (nonlinear_arith)
                requires
                    x < width / 8,
            ;
            assert((y + 1) * width >= width) by (nonlinear_arith);
            let index: u32 = row_end - (1 + x) * 8;
            let mut tmp: u8 = 0x00;
            let mut i: u32 = 0;
            while i < 8
                invariant
                    i <= 8,
                    index as int == byte_base(width, y as int, x as int),
                    index + 8 <= row_end,
                    row_end <= bytes@.len(),
                    tmp == raster_byte(bytes@, threashold, index as int, i as nat),
                decreases 8 - i,
            {
                let pixel = bytes[(index + i) as usize];
                if pixel <= threashold {
                    tmp = tmp | (1u8 << (i as u8));
                }
                i = i + 1;
            }
            buf.push(tmp);
            x = x + 1;
        }
        bw.push(buf);
        y = y + 1;
    }
    bw
}

/// `step_filter` for the standard print head.
pub fn step_filter_normal(threashold: u8, length: u32, bytes: Vec<u8>) -> (r: Matrix)
    requires
        NORMAL_PRINTER_WIDTH * length <= u32::MAX,
        NORMAL_PRINTER_WIDTH * length <= bytes@.len(),
    ensures
        r@.len() == length,
        forall|y: int| 0 <= y < length ==> #[trigger] r@[y]@.len() == NORMAL_PRINTER_WIDTH / 8,
        forall|y: int, x: int|
            0 <= y < length && 0 <= x < NORMAL_PRINTER_WIDTH / 8 ==> #[trigger] r@[y]@[x]
                == raster_byte(bytes@, threashold, byte_base(NORMAL_PRINTER_WIDTH, y, x), 8),
{
    step_filter(threashold, NORMAL_PRINTER_WIDTH, length, bytes)
}

/// `step_filter` for the wide print head.
pub fn step_filter_wide(threashold: u8, length: u32, bytes: Vec<u8>) -> (r: Matrix)
    requires
        WIDE_PRINTER_WIDTH * length <= u32::MAX,
        WIDE_PRINTER_WIDTH * length <= bytes@.len(),
    ensures
        r@.len() == length,
        forall|y: int| 0 <= y < length ==> #[trigger] r@[y]@.len() == WIDE_PRINTER_WIDTH / 8,
        forall|y: int, x: int|
            0 <= y < length && 0 <= x < WIDE_PRINTER_WIDTH / 8 ==> #[trigger] r@[y]@[x]
                == raster_byte(bytes@, threashold, byte_base(WIDE_PRINTER_WIDTH, y, x), 8),
{
    step_filter(threashold, WIDE_PRINTER_WIDTH, length, bytes)
}

} // verus!
