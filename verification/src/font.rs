use vstd::prelude::*;
use crate::screen::Screen;

verus! {

/// The digit font: each glyph is eight rows of eight pixels, a row being a byte whose most
/// significant bit is the leftmost pixel.
pub struct Font {}

/// The rows of the glyph for digit `num` (zero to nine).
pub open spec fn glyph(num: int) -> Seq<u8> {
    if num == 0 {
        seq![0b00011100, 0b00100010, 0b01000001, 0b01000001, 0b01000001, 0b01000001, 0b00100010, 0b00011100]
    } else if num == 1 {
        seq![0b00000110, 0b00000110, 0b00001010, 0b00110010, 0b00000010, 0b00000010, 0b00000010, 0b00111111]
    } else if num == 2 {
        seq![0b00011110, 0b01000001, 0b01000001, 0b00000010, 0b00001000, 0b00100000, 0b01000000, 0b01111111]
    } else if num == 3 {
        seq![0b00111110, 0b01000001, 0b00000010, 0b00011110, 0b00000001, 0b00000001, 0b01000010, 0b00111100]
    } else if num == 4 {
        seq![0b01000001, 0b01000001, 0b01000001, 0b01000011, 0b00111101, 0b00000001, 0b00000001, 0b00000001]
    } else if num == 5 {
        seq![0b01111111, 0b01000000, 0b01000000, 0b01111110, 0b00000001, 0b00000001, 0b00000001, 0b01111110]
    } else if num == 6 {
        seq![0b00111110, 0b01000001, 0b01000000, 0b01011100, 0b01100011, 0b01000001, 0b01000001, 0b00111110]
    } else if num == 7 {
        seq![0b01111111, 0b00000001, 0b00000001, 0b00000010, 0b00000100, 0b00001000, 0b00010000, 0b00100000]
    } else if num == 8 {
        seq![0b00111110, 0b01000001, 0b01000001, 0b00111110, 0b01000001, 0b01000001, 0b01000001, 0b00111110]
    } else {
        seq![0b00111110, 0b01000001, 0b01000001, 0b01000001, 0b00111111, 0b00000001, 0b01000001, 0b00111110]
    }
}

/// Whether pixel `col` of row `row` of digit `num`'s glyph is set.
pub open spec fn glyph_pixel(num: int, row: int, col: int) -> bool {
    glyph(num)[row] & (0x80u8 >> (col as u8)) != 0
}

/// Returns the rows of the glyph for digit `num`.
fn glyph_rows(num: usize) -> (r: [u8; 8])
    requires
        num < 10,
    ensures
        r@ == glyph(num as int),
{
    let r: [u8; 8] = match num {
        0 => [0b00011100, 0b00100010, 0b01000001, 0b01000001, 0b01000001, 0b01000001, 0b00100010, 0b00011100],
        1 => [0b00000110, 0b00000110, 0b00001010, 0b00110010, 0b00000010, 0b00000010, 0b00000010, 0b00111111],
        2 => [0b00011110, 0b01000001, 0b01000001, 0b00000010, 0b00001000, 0b00100000, 0b01000000, 0b01111111],
        3 => [0b00111110, 0b01000001, 0b00000010, 0b00011110, 0b00000001, 0b00000001, 0b01000010, 0b00111100],
        4 => [0b01000001, 0b01000001, 0b01000001, 0b01000011, 0b00111101, 0b00000001, 0b00000001, 0b00000001],
        5 => [0b01111111, 0b01000000, 0b01000000, 0b01111110, 0b00000001, 0b00000001, 0b00000001, 0b01111110],
        6 => [0b00111110, 0b01000001, 0b01000000, 0b01011100, 0b01100011, 0b01000001, 0b01000001, 0b00111110],
        7 => [0b01111111, 0b00000001, 0b00000001, 0b00000010, 0b00000100, 0b00001000, 0b00010000, 0b00100000],
        8 => [0b00111110, 0b01000001, 0b01000001, 0b00111110, 0b01000001, 0b01000001, 0b01000001, 0b00111110],
        _ => [0b00111110, 0b01000001, 0b01000001, 0b01000001, 0b00111111, 0b00000001, 0b01000001, 0b00111110],
    };
    assert(r@ =~= glyph(num as int));
    r
}

/// Whether `x / d` stays below 8 where `x` is below `8 * d`.
proof fn lemma_div_below_eight(x: int, d: int)
    requires
        0 <= x < 8 * d,
        d > 0,
    ensures
        0 <= x / d < 8,
{
    assert(0 <= x / d < 8) by (nonlinear_arith)
        requires
            0 <= x < 8 * d,
            d > 0,
    ;
}

impl Font {
    /// The grid `g` with digit `num` drawn at `scale` times its size, its top left corner at
    /// row `y` and column `x`: each glyph pixel covers a `scale` by `scale` square, and every
    /// pixel outside the digit's square stays as in `g`.
    pub open spec fn drawn(
        g: Seq<Seq<bool>>,
        y: int,
        x: int,
        num: int,
        scale: int,
    ) -> Seq<Seq<bool>> {
        Seq::new(
            32,
            |r: int|
                Seq::new(
                    128,
                    |c: int|
                        if y <= r < y + 8 * scale && x <= c < x + 8 * scale {
                            glyph_pixel(num, (r - y) / scale, (c - x) / scale)
                        } else {
                            g[r][c]
                        },
                ),
        )
    }

    /// Draws digit `num` on the screen at `scale` times its size, its top left corner at row
    /// `y` and column `x`. The digit's square must fit on the screen; at scale 0 the square is
    /// empty and nothing is drawn, wherever it lies.
    pub fn write_digit(s: &mut Screen, y: usize, x: usize, num: usize, scale: usize)
        requires
            num < 10,
            scale == 0 || (y + 8 * scale <= 32 && x + 8 * scale <= 128),
        ensures
            final(s)@ == Font::drawn(old(s)@, y as int, x as int, num as int, scale as int),
    {
        proof {
            s.lemma_bytes();
        }
        let ghost g = s@;
        let ghost target = Font::drawn(g, y as int, x as int, num as int, scale as int);
        if scale == 0 {
            assert forall|r: int| 0 <= r < 32 implies #[trigger] s@[r] =~= target[r] by {}
            assert(s@ =~= target);
            return;
        }
        let sym = glyph_rows(num);
        let n = 8 * scale;
        let mut i: usize = 0;
        while i < n
            invariant
                n == 8 * scale,
                num < 10,
                sym@ == glyph(num as int),
                y + n <= 32,
                x + n <= 128,
                i <= n,
                g.len() == 32,
                forall|r: int| 0 <= r < 32 ==> (#[trigger] g[r]).len() == 128,
                s@.len() == 32,
                forall|r: int| 0 <= r < 32 ==> (#[trigger] s@[r]).len() == 128,
                forall|r: int, c: int|
                    0 <= r < 32 && 0 <= c < 128 ==> #[trigger] s@[r][c] == (if y <= r < y + i && x
                        <= c < x + n {
                        glyph_pixel(num as int, (r - y) / scale as int, (c - x) / scale as int)
                    } else {
                        g[r][c]
                    }),
            decreases n - i,
        {
            let mut j: usize = 0;
            while j < n
                invariant
                    n == 8 * scale,
                    num < 10,
                    sym@ == glyph(num as int),
                    y + n <= 32,
                    x + n <= 128,
                    i < n,
                    j <= n,
                    g.len() == 32,
                    forall|r: int| 0 <= r < 32 ==> (#[trigger] g[r]).len() == 128,
                    s@.len() == 32,
                    forall|r: int| 0 <= r < 32 ==> (#[trigger] s@[r]).len() == 128,
                    forall|r: int, c: int|
                        0 <= r < 32 && 0 <= c < 128 ==> #[trigger] s@[r][c] == (if (y <= r < y + i
                            && x <= c < x + n) || (r == y + i && x <= c < x + j) {
                            glyph_pixel(num as int, (r - y) / scale as int, (c - x) / scale as int)
                        } else {
                            g[r][c]
                        }),
                decreases n - j,
            {
                proof {
                    lemma_div_below_eight(i as int, scale as int);
                    lemma_div_below_eight(j as int, scale as int);
                }
                let row = sym[i / scale];
                let bit = row & (0x80u8 >> ((j / scale) as u8)) != 0;
                assert(bit == glyph_pixel(num as int, ((i + y) - y) / scale as int, ((j + x) - x)
                    / scale as int));
                s.set(i + y, j + x, bit);
                j = j + 1;
            }
            i = i + 1;
        }
        assert forall|r: int| 0 <= r < 32 implies #[trigger] s@[r] =~= target[r] by {}
        assert(s@ =~= target);
    }
}

/// Drawing a digit at scale `k` with its corner at row `y`, column `x` turns each pixel of the
/// digit drawn at scale 1 in the top left corner into a `k` by `k` square moved by `y` rows and
/// `x` columns: pixel `(y + i, x + j)` of the first is pixel `(i / k, j / k)` of the second.
/// Both squares must lie on the screen.
pub proof fn lemma_digit_scales_and_moves(
    g: Seq<Seq<bool>>,
    g2: Seq<Seq<bool>>,
    y: int,
    x: int,
    num: int,
    k: int,
    i: int,
    j: int,
)
    requires
        0 <= num < 10,
        k >= 1,
        0 <= y,
        0 <= x,
        y + 8 * k <= 32,
        x + 8 * k <= 128,
        0 <= i < 8 * k,
        0 <= j < 8 * k,
    ensures
        Font::drawn(g, y, x, num, k)[y + i][x + j] == Font::drawn(g2, 0, 0, num, 1)[i / k][j / k],
        Font::drawn(g2, 0, 0, num, 1)[i / k][j / k] == glyph_pixel(num, i / k, j / k),
{
    lemma_div_below_eight(i, k);
    lemma_div_below_eight(j, k);
    assert((i / k) / 1 == i / k);
    assert((j / k) / 1 == j / k);
}

/// The font's glyphs, row by row (top row first, most significant bit leftmost), as the
/// digit pictures draw them: "0" is a ring, "1" a stroke with a flag and a foot, "2" to "9"
/// likewise.
pub proof fn lemma_font_table()
    ensures
        glyph(0) == seq![0x1cu8, 0x22u8, 0x41u8, 0x41u8, 0x41u8, 0x41u8, 0x22u8, 0x1cu8],
        glyph(1) == seq![0x06u8, 0x06u8, 0x0au8, 0x32u8, 0x02u8, 0x02u8, 0x02u8, 0x3fu8],
        glyph(2) == seq![0x1eu8, 0x41u8, 0x41u8, 0x02u8, 0x08u8, 0x20u8, 0x40u8, 0x7fu8],
        glyph(3) == seq![0x3eu8, 0x41u8, 0x02u8, 0x1eu8, 0x01u8, 0x01u8, 0x42u8, 0x3cu8],
        glyph(4) == seq![0x41u8, 0x41u8, 0x41u8, 0x43u8, 0x3du8, 0x01u8, 0x01u8, 0x01u8],
        glyph(5) == seq![0x7fu8, 0x40u8, 0x40u8, 0x7eu8, 0x01u8, 0x01u8, 0x01u8, 0x7eu8],
        glyph(6) == seq![0x3eu8, 0x41u8, 0x40u8, 0x5cu8, 0x63u8, 0x41u8, 0x41u8, 0x3eu8],
        glyph(7) == seq![0x7fu8, 0x01u8, 0x01u8, 0x02u8, 0x04u8, 0x08u8, 0x10u8, 0x20u8],
        glyph(8) == seq![0x3eu8, 0x41u8, 0x41u8, 0x3eu8, 0x41u8, 0x41u8, 0x41u8, 0x3eu8],
        glyph(9) == seq![0x3eu8, 0x41u8, 0x41u8, 0x41u8, 0x3fu8, 0x01u8, 0x41u8, 0x3eu8],
{
}

} // verus!
