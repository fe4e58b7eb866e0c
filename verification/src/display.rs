//! The frame buffer: 64 by 32 pixels, one byte each, and the routine that
//! composes a sprite onto it by exclusive or.

use vstd::prelude::*;

verus! {

pub const WIDTH: usize = 64;

pub const HEIGHT: usize = 32;

pub const VRAM_SIZE: usize = 2048;

/// Column `col` of a sprite row, counted from the most significant bit.
pub open spec fn sprite_bit(byte: u8, col: int) -> u8 {
    (byte >> ((7 - col) as usize)) & 1
}

/// Where the pixel in column `x` of line `y` is stored, both taken round the
/// edges of the screen.
pub open spec fn pixel_addr(x: int, y: int) -> int {
    (y % 32) * 64 + x % 64
}

/// The screen after the leftmost `cols` columns of one sprite row have been
/// composed onto `fb`, the row's first column standing at `(x, y)`.
pub open spec fn draw_cols(fb: Seq<u8>, x: int, y: int, byte: u8, cols: int) -> Seq<u8> {
    Seq::new(
        fb.len(),
        |a: int|
            if a / 64 == y % 32 && (a % 64 - x) % 64 < cols {
                fb[a] ^ sprite_bit(byte, (a % 64 - x) % 64)
            } else {
                fb[a]
            },
    )
}

/// The screen after one whole sprite row has been composed onto `fb`.
pub open spec fn draw_row(fb: Seq<u8>, x: int, y: int, byte: u8) -> Seq<u8> {
    draw_cols(fb, x, y, byte, 8)
}

/// Column `col` of the row erases a pixel: the pixel was lit and the
/// exclusive or puts it out.
pub open spec fn pixel_erased(fb: Seq<u8>, x: int, y: int, byte: u8, col: int) -> bool {
    fb[pixel_addr(x + col, y)] == 1 && fb[pixel_addr(x + col, y)] ^ sprite_bit(byte, col) == 0
}

/// One of the leftmost `cols` columns of the row erases a pixel.
pub open spec fn cols_collide(fb: Seq<u8>, x: int, y: int, byte: u8, cols: int) -> bool {
    exists|col: int| 0 <= col < cols && pixel_erased(fb, x, y, byte, col)
}

/// The row erases a pixel of `fb`.
pub open spec fn row_collides(fb: Seq<u8>, x: int, y: int, byte: u8) -> bool {
    cols_collide(fb, x, y, byte, 8)
}

/// The screen after the rows of `sprite` have been composed onto `fb` from
/// the first to the last, row `r` on line `y + r`.
pub open spec fn draw_rows(fb: Seq<u8>, x: int, y: int, sprite: Seq<u8>) -> Seq<u8>
    decreases sprite.len(),
{
    if sprite.len() == 0 {
        fb
    } else {
        draw_row(draw_rows(fb, x, y, sprite.drop_last()), x, y + sprite.len() - 1, sprite.last())
    }
}

/// Some row of `sprite` erases a pixel of the screen as the rows before it
/// have left it.
pub open spec fn rows_collide(fb: Seq<u8>, x: int, y: int, sprite: Seq<u8>) -> bool
    decreases sprite.len(),
{
    if sprite.len() == 0 {
        false
    } else {
        rows_collide(fb, x, y, sprite.drop_last()) || row_collides(
            draw_rows(fb, x, y, sprite.drop_last()),
            x,
            y + sprite.len() - 1,
            sprite.last(),
        )
    }
}

/// A screen of the right size on which every pixel is 0 or 1.
pub open spec fn is_screen(fb: Seq<u8>) -> bool {
    fb.len() == VRAM_SIZE && forall|a: int| 0 <= a < fb.len() ==> fb[a] <= 1
}

/// The screen with every pixel off.
pub open spec fn blank_screen() -> Seq<u8> {
    Seq::new(VRAM_SIZE as nat, |a: int| 0u8)
}

/// A bit stays a bit under exclusive or with a bit.
pub proof fn lemma_xor_bit(p: u8, b: u8)
    by (bit_vector)
    requires
        p <= 1,
        b <= 1,
    ensures
        p ^ b <= 1,
        (p == 1 && p ^ b == 0) <==> (p == 1 && b == 1),
{
}

/// A column of a sprite row is 0 or 1.
pub proof fn lemma_sprite_bit_range(byte: u8, col: int)
    requires
        0 <= col < 8,
    ensures
        sprite_bit(byte, col) <= 1,
{
    let s: usize = (7 - col) as usize;
    assert((byte >> s) & 1 <= 1) by (bit_vector);
}

/// Composing a row keeps a screen a screen.
pub proof fn lemma_draw_cols_screen(fb: Seq<u8>, x: int, y: int, byte: u8, cols: int)
    requires
        is_screen(fb),
        0 <= cols <= 8,
    ensures
        is_screen(draw_cols(fb, x, y, byte, cols)),
{
    let out = draw_cols(fb, x, y, byte, cols);
    assert forall|a: int| 0 <= a < out.len() implies out[a] <= 1 by {
        if a / 64 == y % 32 && (a % 64 - x) % 64 < cols {
            lemma_sprite_bit_range(byte, (a % 64 - x) % 64);
            lemma_xor_bit(fb[a], sprite_bit(byte, (a % 64 - x) % 64));
        }
    }
}

/// Composing a sprite keeps a screen a screen.
pub proof fn lemma_draw_rows_screen(fb: Seq<u8>, x: int, y: int, sprite: Seq<u8>)
    requires
        is_screen(fb),
    ensures
        is_screen(draw_rows(fb, x, y, sprite)),
    decreases sprite.len(),
{
    if sprite.len() > 0 {
        lemma_draw_rows_screen(fb, x, y, sprite.drop_last());
        lemma_draw_cols_screen(
            draw_rows(fb, x, y, sprite.drop_last()),
            x,
            y + sprite.len() - 1,
            sprite.last(),
            8,
        );
    }
}

/// The pixel stored at `a` is the one that column `col` of a sprite row at
/// `(x, y)` falls on.
pub open spec fn is_pixel_of_row(a: int, x: int, y: int, col: int) -> bool {
    0 <= col < 8 && a == pixel_addr(x + col, y)
}

/// A sprite row changes the eight pixels from column `x` on in line `y`,
/// columns and lines taken round the edges of the screen, each by its own bit
/// of the row, and leaves every other pixel as it was.
pub proof fn lemma_draw_row_wraps(fb: Seq<u8>, x: int, y: int, byte: u8)
    requires
        fb.len() == VRAM_SIZE,
    ensures
        forall|a: int, col: int| #[trigger]
            is_pixel_of_row(a, x, y, col) ==> 0 <= a < VRAM_SIZE && draw_row(fb, x, y, byte)[a]
                == fb[a] ^ sprite_bit(byte, col),
        forall|a: int|
            0 <= a < VRAM_SIZE && #[trigger] draw_row(fb, x, y, byte)[a] != fb[a] ==> exists|
                col: int,
            |
                is_pixel_of_row(a, x, y, col),
{
    assert forall|a: int, col: int| #[trigger] is_pixel_of_row(a, x, y, col) implies 0 <= a
        < VRAM_SIZE && draw_row(fb, x, y, byte)[a] == fb[a] ^ sprite_bit(byte, col) by {
        assert(a / 64 == y % 32);
        assert((a % 64 - x) % 64 == col);
    }
    assert forall|a: int|
        0 <= a < VRAM_SIZE && #[trigger] draw_row(fb, x, y, byte)[a] != fb[a] implies exists|
        col: int,
    |
        is_pixel_of_row(a, x, y, col) by {
        assert(is_pixel_of_row(a, x, y, (a % 64 - x) % 64));
    }
}

/// Exclusive or with the same bit twice gives the pixel back.
pub proof fn lemma_xor_twice(p: u8, b: u8)
    by (bit_vector)
    ensures
        (p ^ b) ^ b == p,
{
}

/// A sprite of one row is drawn as that row is.
pub proof fn lemma_draw_single_row(fb: Seq<u8>, x: int, y: int, byte: u8)
    ensures
        draw_rows(fb, x, y, seq![byte]) == draw_row(fb, x, y, byte),
        rows_collide(fb, x, y, seq![byte]) == row_collides(fb, x, y, byte),
{
    let sprite = seq![byte];
    assert(sprite.len() == 1);
    assert(sprite.last() == byte);
    assert(sprite.drop_last().len() == 0);
    reveal_with_fuel(draw_rows, 2);
    reveal_with_fuel(rows_collide, 2);
}

/// Drawing a sprite of one row twice at the same place gives the screen
/// back, and the second drawing erases exactly the pixels that the first one
/// lit: it reports a collision if and only if the first one lit a pixel.
pub proof fn lemma_draw_twice_restores(fb: Seq<u8>, x: int, y: int, byte: u8)
    requires
        is_screen(fb),
    ensures
        draw_rows(draw_rows(fb, x, y, seq![byte]), x, y, seq![byte]) == fb,
        forall|col: int|
            0 <= col < 8 ==> (#[trigger] pixel_erased(
                draw_rows(fb, x, y, seq![byte]),
                x,
                y,
                byte,
                col,
            ) <==> fb[pixel_addr(x + col, y)] == 0 && draw_rows(
                fb,
                x,
                y,
                seq![byte],
            )[pixel_addr(x + col, y)] == 1),
        rows_collide(draw_rows(fb, x, y, seq![byte]), x, y, seq![byte]) <==> exists|col: int|
            0 <= col < 8 && fb[pixel_addr(x + col, y)] == 0 && #[trigger] draw_rows(
                fb,
                x,
                y,
                seq![byte],
            )[pixel_addr(x + col, y)] == 1,
{
    let sprite = seq![byte];
    let once = draw_row(fb, x, y, byte);
    lemma_draw_single_row(fb, x, y, byte);
    lemma_draw_single_row(once, x, y, byte);
    lemma_draw_sprite_twice_restores(fb, x, y, sprite);
    assert forall|col: int| 0 <= col < 8 implies (#[trigger] pixel_erased(once, x, y, byte, col)
        <==> fb[pixel_addr(x + col, y)] == 0 && once[pixel_addr(x + col, y)] == 1) by {
        let a = pixel_addr(x + col, y);
        assert(a / 64 == y % 32);
        assert((a % 64 - x) % 64 == col);
        assert(0 <= a < 2048);
        lemma_sprite_bit_range(byte, col);
        lemma_xor_bit(fb[a], sprite_bit(byte, col));
        lemma_xor_bit(once[a], sprite_bit(byte, col));
        lemma_xor_twice(fb[a], sprite_bit(byte, col));
    }
    if row_collides(once, x, y, byte) {
        let col = choose|col: int| 0 <= col < 8 && pixel_erased(once, x, y, byte, col);
        assert(fb[pixel_addr(x + col, y)] == 0 && once[pixel_addr(x + col, y)] == 1);
    }
    if exists|col: int|
        0 <= col < 8 && fb[pixel_addr(x + col, y)] == 0 && #[trigger] once[pixel_addr(x + col, y)]
            == 1 {
        let col = choose|col: int|
            0 <= col < 8 && fb[pixel_addr(x + col, y)] == 0 && #[trigger] once[pixel_addr(
                x + col,
                y,
            )] == 1;
        assert(pixel_erased(once, x, y, byte, col));
    }
}

/// Exclusive or with two bits gives the same pixel in either order.
pub proof fn lemma_xor_swap(p: u8, a: u8, b: u8)
    by (bit_vector)
    ensures
        (p ^ a) ^ b == (p ^ b) ^ a,
{
}

/// Two sprite rows, wherever each stands, can be drawn in either order.
pub proof fn lemma_draw_row_commutes(
    fb: Seq<u8>,
    x1: int,
    y1: int,
    b1: u8,
    x2: int,
    y2: int,
    b2: u8,
)
    ensures
        draw_row(draw_row(fb, x1, y1, b1), x2, y2, b2) == draw_row(
            draw_row(fb, x2, y2, b2),
            x1,
            y1,
            b1,
        ),
{
    let left = draw_row(draw_row(fb, x1, y1, b1), x2, y2, b2);
    let right = draw_row(draw_row(fb, x2, y2, b2), x1, y1, b1);
    assert forall|a: int| 0 <= a < fb.len() implies left[a] == right[a] by {
        lemma_xor_swap(
            fb[a],
            sprite_bit(b1, (a % 64 - x1) % 64),
            sprite_bit(b2, (a % 64 - x2) % 64),
        );
    }
    assert(left =~= right);
}

/// A row drawn before a sprite gives what the same row drawn after it gives.
pub proof fn lemma_draw_rows_commute(
    fb: Seq<u8>,
    x: int,
    y: int,
    sprite: Seq<u8>,
    x1: int,
    y1: int,
    b1: u8,
)
    ensures
        draw_rows(draw_row(fb, x1, y1, b1), x, y, sprite) == draw_row(
            draw_rows(fb, x, y, sprite),
            x1,
            y1,
            b1,
        ),
    decreases sprite.len(),
{
    if sprite.len() > 0 {
        lemma_draw_rows_commute(fb, x, y, sprite.drop_last(), x1, y1, b1);
        lemma_draw_row_commutes(
            draw_rows(fb, x, y, sprite.drop_last()),
            x1,
            y1,
            b1,
            x,
            y + sprite.len() - 1,
            sprite.last(),
        );
    }
}

/// Drawing any sprite twice at the same place gives the screen back, however
/// many rows it has and whether or not they come to lie on one another.
pub proof fn lemma_draw_sprite_twice_restores(fb: Seq<u8>, x: int, y: int, sprite: Seq<u8>)
    ensures
        draw_rows(draw_rows(fb, x, y, sprite), x, y, sprite) == fb,
    decreases sprite.len(),
{
    if sprite.len() > 0 {
        let head = sprite.drop_last();
        let line = y + sprite.len() - 1;
        let byte = sprite.last();
        let partial = draw_rows(fb, x, y, head);
        lemma_draw_rows_commute(partial, x, y, head, x, line, byte);
        lemma_draw_sprite_twice_restores(fb, x, y, head);
        let twice = draw_row(draw_row(fb, x, line, byte), x, line, byte);
        assert forall|a: int| 0 <= a < fb.len() implies twice[a] == fb[a] by {
            lemma_xor_twice(fb[a], sprite_bit(byte, (a % 64 - x) % 64));
        }
        assert(twice =~= fb);
    }
}

/// Where the pixel at `(x, y)` is stored; the caller keeps both inside the
/// screen.
pub fn get_addr_from_xy(x: usize, y: usize) -> (addr: usize)
    requires
        y * WIDTH + x <= usize::MAX,
    ensures
        addr == y * WIDTH + x,
{
    (y * WIDTH) + x
}

/// The frame buffer: 2048 pixels, row by row, each 0 or 1.
pub struct Display {
    vram: [u8; 2048],
}

impl Display {
    /// The pixels in row-major order: the pixel at `(x, y)` is at `y * 64 + x`.
    pub closed spec fn view(&self) -> Seq<u8> {
        self.vram@
    }

    /// Every cell of the frame buffer is 0 or 1.
    pub open spec fn wf(&self) -> bool {
        is_screen(self@)
    }

    pub fn new() -> (display: Display)
        ensures
            display.wf(),
            display@ == blank_screen(),
    {
        let display = Display { vram: [0u8; 2048] };
        assert(display.vram@ =~= blank_screen());
        display
    }

    /// Puts every pixel out.
    pub fn clrs(&mut self)
        ensures
            final(self).wf(),
            final(self)@ == blank_screen(),
    {
        self.vram = [0u8; 2048];
        assert(self.vram@ =~= blank_screen());
    }

    /// Composes `memslice` onto the screen by exclusive or, its first row at
    /// `(x, y)` and both axes taken round the edges, and says whether any
    /// lit pixel was put out.
    pub fn draw_sprite(&mut self, x: u8, y: u8, memslice: &[u8]) -> (collision: bool)
        requires
            old(self).wf(),
        ensures
            final(self).wf(),
            final(self)@ == draw_rows(old(self)@, x as int, y as int, memslice@),
            collision == rows_collide(old(self)@, x as int, y as int, memslice@),
    {
        let origin_x: usize = x as usize;
        let origin_y: usize = y as usize;
        let sprite_len: usize = memslice.len();
        let ghost fb0 = self.vram@;
        let mut collision = false;
        let mut row: usize = 0;
        assert(memslice@.take(0) =~= Seq::<u8>::empty());
        while row < sprite_len
            invariant
                row <= sprite_len,
                sprite_len == memslice@.len(),
                origin_x == x,
                origin_y == y,
                is_screen(fb0),
                self.vram@ == draw_rows(fb0, x as int, y as int, memslice@.take(row as int)),
                collision == rows_collide(fb0, x as int, y as int, memslice@.take(row as int)),
            decreases sprite_len - row,
        {
            let byte: u8 = memslice[row];
            let y_coord: usize = (row % HEIGHT + origin_y) % HEIGHT;
            let ghost line: int = y + row;
            let ghost fb_row = self.vram@;
            let ghost hit0 = collision;
            proof {
                lemma_draw_rows_screen(fb0, x as int, y as int, memslice@.take(row as int));
                assert(draw_cols(fb_row, x as int, line, byte, 0) =~= fb_row);
            }
            let mut col: usize = 0;
            while col < 8
                invariant
                    col <= 8,
                    origin_x == x,
                    y_coord == line % 32,
                    is_screen(fb_row),
                    self.vram@ == draw_cols(fb_row, x as int, line, byte, col as int),
                    collision == (hit0 || cols_collide(fb_row, x as int, line, byte, col as int)),
                decreases 8 - col,
            {
                let px: u8 = (byte >> (7 - col)) & 0b0000_0001;
                let x_coord: usize = (col + origin_x) % WIDTH;
                let vram_addr: usize = get_addr_from_xy(x_coord, y_coord);
                let prev_px: u8 = self.vram[vram_addr];
                let ghost before = self.vram@;
                proof {
                    assert(px == sprite_bit(byte, col as int));
                    assert(vram_addr == pixel_addr(x + col, line));
                    assert(vram_addr / 64 == line % 32);
                    assert((vram_addr % 64 - x) % 64 == col);
                    assert(prev_px == fb_row[vram_addr as int]);
                }
                self.vram[vram_addr] = prev_px ^ px;
                let erased: bool = prev_px == 1 && self.vram[vram_addr] == 0;
                if erased {
                    collision = true;
                }
                proof {
                    assert(erased == pixel_erased(fb_row, x as int, line, byte, col as int));
                    assert forall|a: int| 0 <= a < 2048 implies #[trigger] self.vram@[a] == draw_cols(
                        fb_row,
                        x as int,
                        line,
                        byte,
                        col + 1,
                    )[a] by {
                        if a != vram_addr {
                            assert(self.vram@[a] == before[a]);
                            if a / 64 == line % 32 {
                                assert((a % 64 - x) % 64 != col);
                            }
                        }
                    }
                    assert(self.vram@ =~= draw_cols(fb_row, x as int, line, byte, col + 1));
                    if cols_collide(fb_row, x as int, line, byte, col + 1) {
                        let c = choose|c: int|
                            0 <= c < col + 1 && pixel_erased(fb_row, x as int, line, byte, c);
                        if c < col {
                            assert(cols_collide(fb_row, x as int, line, byte, col as int));
                        }
                    }
                }
                col += 1;
            }
            proof {
                let next = memslice@.take(row + 1);
                assert(next.drop_last() =~= memslice@.take(row as int));
            }
            row += 1;
        }
        proof {
            assert(memslice@.take(sprite_len as int) =~= memslice@);
            lemma_draw_rows_screen(fb0, x as int, y as int, memslice@);
        }
        collision
    }

    /// A copy of the frame buffer.
    pub fn get_vram(&self) -> (pixels: Vec<u8>)
        ensures
            pixels@ == self@,
    {
        let mut pixels: Vec<u8> = Vec::new();
        let mut i: usize = 0;
        while i < VRAM_SIZE
            invariant
                i <= VRAM_SIZE,
                pixels@ == self.vram@.take(i as int),
            decreases VRAM_SIZE - i,
        {
            pixels.push(self.vram[i]);
            assert(self.vram@.take(i + 1) =~= self.vram@.take(i as int).push(self.vram@[i as int]));
            i += 1;
        }
        assert(self.vram@.take(VRAM_SIZE as int) =~= self.vram@);
        pixels
    }
}

} // verus!
