//! A monochrome frame buffer for the 84 x 48 display, eight rows per byte.
use vstd::prelude::*;

verus! {

/// Display width in pixels.
pub const WIDTH: usize = 84;

/// Display height in pixels.
pub const HEIGHT: usize = 48;

/// Bytes in the frame buffer: one per column of each band of eight rows.
pub const BUF_SIZE: usize = 504;

/// The byte that holds pixel (`x`, `y`).
pub open spec fn byte_index(x: int, y: int) -> int {
    x + (y / 8) * WIDTH
}

/// Whether bit `bit` of `b` is set.
pub open spec fn bit_set(b: u8, bit: u8) -> bool {
    b & (1u8 << bit) != 0
}

/// The pixels of the display, one bit each.
pub struct ScreenBuffer {
    buf: [u8; BUF_SIZE],
}

proof fn lemma_bits(b: u8, k: u8, j: u8)
    requires
        k < 8,
        j < 8,
    ensures
        bit_set(b | (1u8 << k), k),
        !bit_set(b & !(1u8 << k), k),
        j != k ==> bit_set(b | (1u8 << k), j) == bit_set(b, j),
        j != k ==> bit_set(b & !(1u8 << k), j) == bit_set(b, j),
{
    assert((b | (1u8 << k)) & (1u8 << k) != 0) by (bit_vector)
        requires
            k < 8,
    ;
    assert((b & !(1u8 << k)) & (1u8 << k) == 0) by (bit_vector)
        requires
            k < 8,
    ;
    assert(j != k ==> (((b | (1u8 << k)) & (1u8 << j) != 0) == (b & (1u8 << j) != 0)))
        by (bit_vector)
        requires
            k < 8,
            j < 8,
    ;
    assert(j != k ==> (((b & !(1u8 << k)) & (1u8 << j) != 0) == (b & (1u8 << j) != 0)))
        by (bit_vector)
        requires
            k < 8,
            j < 8,
    ;
}

proof fn lemma_index(x: int, y: int, px: int, py: int)
    requires
        0 <= x < WIDTH,
        0 <= px < WIDTH,
        0 <= y < HEIGHT,
        0 <= py < HEIGHT,
    ensures
        0 <= byte_index(x, y) < BUF_SIZE,
        byte_index(x, y) == byte_index(px, py) <==> x == px && y / 8 == py / 8,
{
    assert(0 <= y / 8 < 6);
    assert(0 <= py / 8 < 6);
    let a = y / 8;
    let c = py / 8;
    assert(0 <= x + a * 84 < 504) by (nonlinear_arith)
        requires
            0 <= x < 84,
            0 <= a < 6,
    ;
    assert(x + a * 84 == px + c * 84 ==> x == px && a == c) by (nonlinear_arith)
        requires
            0 <= x < 84,
            0 <= px < 84,
            0 <= a < 6,
            0 <= c < 6,
    ;
}

/// A row in the error band of column `t` is on the screen.
proof fn lemma_line_row_bound(x1: int, y1: int, x2: int, y2: int, t: int, y: int)
    requires
        0 <= x1 <= x2,
        0 <= y1 <= y2 < HEIGHT,
        y1 == y2 || y2 + 1 < HEIGHT,
        y2 - y1 <= x2 - x1,
        0 <= t <= x2 - x1,
        y1 <= y <= y1 + t,
        -2 * (x2 - x1) <= 2 * (y2 - y1) * (t + 1) - (x2 - x1) - 2 * (x2 - x1) * (y - y1),
    ensures
        y < HEIGHT,
{
    let dx = x2 - x1;
    let dy = y2 - y1;
    let k = y - y1;
    if dx > 0 {
        if dy == 0 {
            assert(2 * dy * (t + 1) == 0) by (nonlinear_arith)
                requires
                    dy == 0,
            ;
            assert(k == 0) by (nonlinear_arith)
                requires
                    dx > 0,
                    0 <= k,
                    -2 * dx <= -dx - 2 * dx * k,
            ;
        } else {
            assert(k <= dy + 1) by (nonlinear_arith)
                requires
                    0 < dy <= dx,
                    0 <= t <= dx,
                    0 <= k,
                    -2 * dx <= 2 * dy * (t + 1) - dx - 2 * dx * k,
            ;
        }
    }
}

impl View for ScreenBuffer {
    type V = Seq<u8>;

    closed spec fn view(&self) -> Seq<u8> {
        self.buf@
    }
}

impl ScreenBuffer {
    /// Whether pixel (`x`, `y`) is lit.
    pub open spec fn pixel(&self, x: int, y: int) -> bool {
        bit_set(self@[byte_index(x, y)], (y % 8) as u8)
    }

    /// A buffer with every pixel dark.
    pub fn new() -> (r: Self)
        ensures
            forall|x: int, y: int| 0 <= x < WIDTH && 0 <= y < HEIGHT ==> !#[trigger] r.pixel(x, y),
    {
        let r = ScreenBuffer { buf: [0u8; BUF_SIZE] };
        assert forall|x: int, y: int| 0 <= x < WIDTH && 0 <= y < HEIGHT implies !#[trigger] r.pixel(x, y) by {
            lemma_index(x, y, x, y);
            let k = (y % 8) as u8;
            assert(0u8 & (1u8 << k) == 0) by (bit_vector);
        }
        r
    }

    /// Lights or darkens pixel (`x`, `y`), leaving every other pixel as it was.
    pub fn set_pixel(&mut self, x: usize, y: usize, value: bool)
        requires
            x < WIDTH,
            y < HEIGHT,
        ensures
            final(self).pixel(x as int, y as int) == value,
            forall|px: int, py: int|
                0 <= px < WIDTH && 0 <= py < HEIGHT && (px != x || py != y)
                    ==> #[trigger] final(self).pixel(px, py) == old(self).pixel(px, py),
    {
        proof {
            lemma_index(x as int, y as int, x as int, y as int);
        }
        let i = x + (y / 8) * WIDTH;
        let k = (y % 8) as u8;
        let old_byte = self.buf[i];
        if value {
            self.buf[i] = old_byte | (1u8 << k);
        } else {
            self.buf[i] = old_byte & !(1u8 << k);
        }
        proof {
            lemma_bits(old_byte, k, k);
            assert forall|px: int, py: int|
                0 <= px < WIDTH && 0 <= py < HEIGHT && (px != x || py != y)
                    implies #[trigger] self.pixel(px, py) == old(self).pixel(px, py) by {
                lemma_index(x as int, y as int, px, py);
                if byte_index(px, py) == i {
                    lemma_bits(old_byte, k, (py % 8) as u8);
                }
            }
        }
    }

    /// Whether pixel (`x`, `y`) is lit.
    pub fn get_pixel(&self, x: usize, y: usize) -> (r: bool)
        requires
            x < WIDTH,
            y < HEIGHT,
        ensures
            r == self.pixel(x as int, y as int),
    {
        proof {
            lemma_index(x as int, y as int, x as int, y as int);
        }
        let k = (y % 8) as u8;
        self.buf[x + (y / 8) * WIDTH] & (1u8 << k) != 0
    }

    /// The bytes in the order the display controller takes them.
    pub fn bytes(&self) -> (r: &[u8; BUF_SIZE])
        ensures
            r@ == self@,
    {
        &self.buf
    }

    /// Draws the line from (`x1`, `y1`) to (`x2`, `y2`), for slopes from 0 to 1,
    /// by stepping one column at a time and moving down a row when the
    /// accumulated error turns non-negative: one pixel in each column from
    /// `x1` to `x2`, at a row within the error band of `line_row`. The row may
    /// reach one past `y2` at the last column, so a sloped line must end above
    /// the bottom row. Every other pixel is left as it was.
    pub fn line(&mut self, x1: usize, y1: usize, x2: usize, y2: usize, value: bool)
        requires
            x1 <= x2 < WIDTH,
            y1 <= y2 < HEIGHT,
            y2 - y1 <= x2 - x1,
            y1 == y2 || y2 + 1 < HEIGHT,
        ensures
            forall|t: int|
                0 <= t <= x2 - x1 ==> #[trigger] column_drawn(
                    *old(self),
                    *final(self),
                    x1 as int,
                    y1 as int,
                    x2 as int,
                    y2 as int,
                    t,
                    value,
                ),
            forall|px: int, py: int|
                0 <= px < WIDTH && 0 <= py < HEIGHT && (px < x1 || px > x2)
                    ==> #[trigger] final(self).pixel(px, py) == old(self).pixel(px, py),
    {
        let dx: isize = x2 as isize - x1 as isize;
        let dy: isize = y2 as isize - y1 as isize;
        let m_new: isize = 2 * dy;
        let mut slope_err: isize = m_new - dx;
        let mut x: usize = x1;
        let mut y: usize = y1;
        let ghost mut rows: Seq<int> = Seq::empty();
        while x <= x2
            invariant
                x1 <= x <= x2 + 1,
                x2 < WIDTH,
                y1 <= y2 < HEIGHT,
                y1 == y2 || y2 + 1 < HEIGHT,
                dx == x2 - x1,
                dy == y2 - y1,
                0 <= dy <= dx,
                m_new == 2 * dy,
                y1 <= y <= y1 + (x - x1),
                slope_err == 2 * dy * (x - x1 + 1) - dx - 2 * dx * (y - y1),
                -2 * dx <= slope_err <= max_int(0, 2 * dy - dx),
                rows.len() == x - x1,
                forall|c: int|
                    0 <= c < rows.len() ==> line_row(
                        x1 as int,
                        y1 as int,
                        x2 as int,
                        y2 as int,
                        c,
                        #[trigger] rows[c],
                    ) && self.pixel(x1 + c, rows[c]) == value && forall|py: int|
                        0 <= py < HEIGHT && py != rows[c] ==> #[trigger] self.pixel(x1 + c, py)
                            == old(self).pixel(x1 + c, py),
                forall|px: int, py: int|
                    0 <= px < WIDTH && 0 <= py < HEIGHT && (px < x1 || px >= x)
                        ==> #[trigger] self.pixel(px, py) == old(self).pixel(px, py),
            decreases x2 + 1 - x,
        {
            proof {
                lemma_line_row_bound(x1 as int, y1 as int, x2 as int, y2 as int, x - x1, y as int);
            }
            let ghost t = x - x1;
            let ghost before = *self;
            let ghost prev_rows = rows;
            assert(line_row(x1 as int, y1 as int, x2 as int, y2 as int, t, y as int));
            self.set_pixel(x, y, value);
            proof {
                rows = rows.push(y as int);
                assert forall|c: int| 0 <= c < rows.len() implies line_row(
                    x1 as int,
                    y1 as int,
                    x2 as int,
                    y2 as int,
                    c,
                    #[trigger] rows[c],
                ) && self.pixel(x1 + c, rows[c]) == value && forall|py: int|
                    0 <= py < HEIGHT && py != rows[c] ==> #[trigger] self.pixel(x1 + c, py)
                        == old(self).pixel(x1 + c, py) by {
                    if c < t {
                        assert(rows[c] == prev_rows[c]);
                        lemma_line_row_bound(
                            x1 as int,
                            y1 as int,
                            x2 as int,
                            y2 as int,
                            c,
                            rows[c],
                        );
                        assert(before.pixel(x1 + c, rows[c]) == value);
                        assert(self.pixel(x1 + c, rows[c]) == before.pixel(x1 + c, rows[c]));
                    }
                }
                assert(2 * dy * (t + 2) == 2 * dy * (t + 1) + 2 * dy) by (nonlinear_arith);
                assert(2 * dx * ((y - y1) + 1) == 2 * dx * (y - y1) + 2 * dx) by (nonlinear_arith);
            }
            slope_err = slope_err + m_new;
            if slope_err >= 0 {
                y = y + 1;
                slope_err = slope_err - 2 * dx;
            }
            x = x + 1;
        }
        proof {
            assert forall|t: int| 0 <= t <= x2 - x1 implies #[trigger] column_drawn(
                *old(self),
                *self,
                x1 as int,
                y1 as int,
                x2 as int,
                y2 as int,
                t,
                value,
            ) by {
                assert(line_row(x1 as int, y1 as int, x2 as int, y2 as int, t, rows[t]));
            }
        }
    }

    /// Darkens every pixel.
    pub fn clear(&mut self)
        ensures
            forall|x: int, y: int| 0 <= x < WIDTH && 0 <= y < HEIGHT ==> !#[trigger] final(self).pixel(x, y),
    {
        *self = ScreenBuffer::new();
    }
}

/// The larger of `a` and `b`.
pub open spec fn max_int(a: int, b: int) -> int {
    if a >= b {
        a
    } else {
        b
    }
}

/// Whether row `y` is where the line from (`x1`, `y1`) to (`x2`, `y2`) is
/// drawn in its column `t` (counted from `x1`): `2 * dx * (y - y1)` lies
/// between `2 * dy * (t + 1) - dx - max(0, 2 * dy - dx)` and
/// `2 * dy * (t + 1) + dx`, the error band of the stepping rule.
pub open spec fn line_row(x1: int, y1: int, x2: int, y2: int, t: int, y: int) -> bool {
    let dx = x2 - x1;
    let dy = y2 - y1;
    let e = 2 * dy * (t + 1) - dx - 2 * dx * (y - y1);
    y1 <= y <= y1 + t && -2 * dx <= e <= max_int(0, 2 * dy - dx)
}

/// Column `t` of the line from (`x1`, `y1`) to (`x2`, `y2`) was drawn from
/// `before` to `after`: one pixel in the error band set to `value`, the rest
/// of the column unchanged.
pub open spec fn column_drawn(
    before: ScreenBuffer,
    after: ScreenBuffer,
    x1: int,
    y1: int,
    x2: int,
    y2: int,
    t: int,
    value: bool,
) -> bool {
    exists|y: int|
        line_row(x1, y1, x2, y2, t, y) && #[trigger] after.pixel(x1 + t, y) == value && forall|
            py: int,
        |
            0 <= py < HEIGHT && py != y ==> #[trigger] after.pixel(x1 + t, py) == before.pixel(
                x1 + t,
                py,
            )
}

impl Default for ScreenBuffer {
    /// A buffer with every pixel dark.
    fn default() -> (r: Self)
        ensures
            forall|x: int, y: int| 0 <= x < WIDTH && 0 <= y < HEIGHT ==> !#[trigger] r.pixel(x, y),
    {
        ScreenBuffer::new()
    }
}

} // verus!
