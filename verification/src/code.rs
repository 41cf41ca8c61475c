use vstd::prelude::*;

use crate::grid::{GrayImage, Grid};

verus! {

/// Whether the `k`-th inner cell reads as set. The inner cells are the 4x4 block of a grid
/// without its one-pixel border, counted row by row; a cell is set when its pixel is brighter
/// than 128.
pub open spec fn cell_set(g: Grid, k: int) -> bool {
    g.at(1 + k % 4, 1 + k / 4) > 128
}

/// The code made of the first `n` inner cells: cell `k` sets bit `15 - k`.
pub open spec fn code_prefix(g: Grid, n: nat) -> u16
    decreases n,
{
    if n == 0 {
        0
    } else {
        let prev = code_prefix(g, (n - 1) as nat);
        if cell_set(g, n - 1) {
            prev | (1u16 << ((16 - n) as u16))
        } else {
            prev
        }
    }
}

/// The 16-bit code that a 6x6 marker grid carries in its inner 4x4 cells, first cell in the
/// most significant bit.
pub open spec fn code_of(g: Grid) -> u16 {
    code_prefix(g, 16)
}

/// Adding bit `s` to a value whose bits `0..=s` are clear sets that bit and nothing else, and
/// leaves bits `0..s` clear.
proof fn lemma_add_clear_bit(data: u16, s: u16)
    requires
        s < 16,
        ((data as u32) >> ((s + 1) as u32)) << ((s + 1) as u32) == (data as u32),
    ensures
        data as int + (1u16 << s) as int <= 0xffff,
        data as int + (1u16 << s) as int == (data | (1u16 << s)) as int,
        (((data | (1u16 << s)) as u32) >> (s as u32)) << (s as u32) == ((data | (1u16 << s)) as u32),
        ((data as u32) >> (s as u32)) << (s as u32) == (data as u32),
{
    assert(data as int + (1u16 << s) as int <= 0xffff) by (bit_vector)
        requires
            s < 16,
            ((data as u32) >> ((s + 1) as u32)) << ((s + 1) as u32) == (data as u32),
    ;
    assert(data as int + (1u16 << s) as int == (data | (1u16 << s)) as int) by (bit_vector)
        requires
            s < 16,
            ((data as u32) >> ((s + 1) as u32)) << ((s + 1) as u32) == (data as u32),
    ;
    assert((((data | (1u16 << s)) as u32) >> (s as u32)) << (s as u32) == ((data | (1u16 << s)) as u32)) by (bit_vector)
        requires
            s < 16,
            ((data as u32) >> ((s + 1) as u32)) << ((s + 1) as u32) == (data as u32),
    ;
    assert(((data as u32) >> (s as u32)) << (s as u32) == (data as u32)) by (bit_vector)
        requires
            s < 16,
            ((data as u32) >> ((s + 1) as u32)) << ((s + 1) as u32) == (data as u32),
    ;
}

/// Reads the code of a marker grid: the inner 4x4 cells of the grid, row by row, each one bit
/// (set when the pixel is brighter than 128), the first cell in the most significant bit.
pub fn extract_data(bits_img: &GrayImage) -> (data: u16)
    requires
        bits_img@.width >= 5,
        bits_img@.height >= 5,
    ensures
        data == code_of(bits_img@),
        forall|b: u16|
            b < 16 ==> (#[trigger] ((data >> b) & 1) == 1) == (bits_img@.pixels[(1 + (15 - b) / 4)
                * bits_img@.width + 1 + (15 - b) % 4] > 128),
{
    let ghost g = bits_img@;
    let mut data: u16 = 0;
    let mut k: u16 = 0;
    let mut y: u32 = 1;
    assert(((0u16 as u32) >> (16u32)) << (16u32) == (0u16 as u32)) by (bit_vector);
    while y < 5
        invariant
            1 <= y <= 5,
            k == (y - 1) * 4,
            g == bits_img@,
            g.width >= 5,
            g.height >= 5,
            data == code_prefix(g, k as nat),
            ((data as u32) >> ((16 - k) as u32)) << ((16 - k) as u32) == (data as u32),
        decreases 5 - y,
    {
        let mut x: u32 = 1;
        while x < 5
            invariant
                1 <= x <= 5,
                1 <= y < 5,
                k == (y - 1) * 4 + (x - 1),
                g == bits_img@,
                g.width >= 5,
                g.height >= 5,
                data == code_prefix(g, k as nat),
                ((data as u32) >> ((16 - k) as u32)) << ((16 - k) as u32) == (data as u32),
            decreases 5 - x,
        {
            let s: u16 = 15 - k;
            proof {
                lemma_add_clear_bit(data, s);
                assert(k % 4 == x - 1 && k / 4 == y - 1);
            }
            let bit: u16 = if bits_img.pixel(x, y) > 128 {
                1u16 << s
            } else {
                0
            };
            data = data + bit;
            k = k + 1;
            x = x + 1;
        }
        y = y + 1;
    }
    proof {
        assert forall|b: u16| b < 16 implies (#[trigger] ((data >> b) & 1) == 1) == (
        g.pixels[(1 + (15 - b) / 4) * g.width + 1 + (15 - b) % 4] > 128) by {
            lemma_code_bits(g, 15 - b);
        }
    }
    data
}

/// Whether bit `b` of `v` is set.
pub open spec fn bit_set(v: u16, b: u16) -> bool {
    (v >> b) & 1 == 1
}

proof fn lemma_or_bit(v: u16, s: u16, b: u16)
    requires
        s < 16,
        b < 16,
    ensures
        bit_set(v | (1u16 << s), b) == (bit_set(v, b) || s == b),
{
    assert(((v | (1u16 << s)) >> b) & 1 == 1 <==> ((v >> b) & 1 == 1 || s == b)) by (bit_vector)
        requires
            s < 16,
            b < 16,
    ;
}

proof fn lemma_prefix_bits(g: Grid, n: nat, k: int)
    requires
        n <= 16,
        0 <= k < 16,
    ensures
        bit_set(code_prefix(g, n), (15 - k) as u16) == (k < n && cell_set(g, k)),
    decreases n,
{
    if n == 0 {
        let b: u16 = (15 - k) as u16;
        assert((0u16 >> b) & 1 != 1) by (bit_vector);
    } else {
        lemma_prefix_bits(g, (n - 1) as nat, k);
        if cell_set(g, n - 1) {
            lemma_or_bit(code_prefix(g, (n - 1) as nat), (16 - n) as u16, (15 - k) as u16);
        }
    }
}

/// Bit `15 - k` of a grid's code is set exactly when inner cell `k` is set, that is when the
/// pixel at column `1 + k % 4` of row `1 + k / 4` is brighter than 128, for each of the 16
/// inner cells.
pub proof fn lemma_code_bits(g: Grid, k: int)
    requires
        0 <= k < 16,
    ensures
        bit_set(code_of(g), (15 - k) as u16) == cell_set(g, k),
        ((code_of(g) >> ((15 - k) as u16)) & 1 == 1) == (g.pixels[(1 + k / 4) * g.width + 1 + k
            % 4] > 128),
{
    lemma_prefix_bits(g, 16, k);
}

} // verus!
