//! The 128x64 display: clearing, scrolling and sprite drawing.
//!
//! The display is one row-major buffer of 8192 cells. In extended mode a
//! sprite pixel is one cell; otherwise the screen is 64x32 and a sprite pixel
//! is a block of 2x2 cells.
use vstd::prelude::*;

verus! {

/// A display with every cell off.
pub open spec fn blank() -> Seq<bool> {
    Seq::new(8192, |p: int| false)
}

/// The display moved down by `n` rows. Rows that come in at the top are off,
/// rows that leave at the bottom are lost.
pub open spec fn scroll_down_spec(display: Seq<bool>, n: int) -> Seq<bool> {
    Seq::new(8192, |p: int| if p / 128 >= n { display[p - 128 * n] } else { false })
}

/// The display moved right by four cells. Columns that come in at the left
/// are off.
pub open spec fn scroll_right_spec(display: Seq<bool>) -> Seq<bool> {
    Seq::new(8192, |p: int| if p % 128 >= 4 { display[p - 4] } else { false })
}

/// The display moved left by four cells. Columns that come in at the right
/// are off.
pub open spec fn scroll_left_spec(display: Seq<bool>) -> Seq<bool> {
    Seq::new(8192, |p: int| if p % 128 < 124 { display[p + 4] } else { false })
}

/// What a draw instruction puts on the display: the bytes it reads and the
/// place it asks for.
pub struct Sprite {
    /// The memory the sprite is read from.
    pub memory: Seq<u8>,
    /// Address of the first sprite byte.
    pub base: int,
    /// Requested column, before reduction to the screen width.
    pub x: int,
    /// Requested row, before reduction to the screen height.
    pub y: int,
    /// The row count in the instruction.
    pub n: int,
    /// Whether the display is in extended mode.
    pub extended: bool,
}

impl Sprite {
    /// The 16x16 form, chosen by a row count of zero in extended mode.
    pub open spec fn wide(self) -> bool {
        self.extended && self.n == 0
    }

    /// Rows of sprite pixels.
    pub open spec fn rows(self) -> int {
        if self.wide() {
            16
        } else {
            self.n
        }
    }

    /// Columns of sprite pixels.
    pub open spec fn cols(self) -> int {
        if self.wide() {
            16
        } else {
            8
        }
    }

    /// Screen column of the sprite's left edge, in sprite pixels.
    pub open spec fn left(self) -> int {
        if self.extended {
            self.x % 128
        } else {
            self.x % 64
        }
    }

    /// Screen row of the sprite's top edge, in sprite pixels.
    pub open spec fn top(self) -> int {
        if self.extended {
            self.y % 64
        } else {
            self.y % 32
        }
    }

    /// Row of the sprite that cell `p` shows, if it shows any.
    pub open spec fn row_of(self, p: int) -> int {
        if self.extended {
            p / 128 - self.top()
        } else {
            p / 256 - self.top()
        }
    }

    /// Column of the sprite that cell `p` shows, if it shows any.
    pub open spec fn col_of(self, p: int) -> int {
        if self.extended {
            p % 128 - self.left()
        } else {
            (p % 128) / 2 - self.left()
        }
    }

    /// Whether the sprite pixel at (`row`, `col`) is set. Each byte holds
    /// eight pixels, leftmost in the top bit; sprite addresses wrap at the
    /// end of memory.
    pub open spec fn bit(self, row: int, col: int) -> bool {
        let offset = if self.wide() {
            2 * row + col / 8
        } else {
            row
        };
        self.memory[(self.base + offset) % 4096] & (0x80u8 >> ((col % 8) as u8)) != 0
    }

    /// Whether the sprite has a set pixel on cell `p`. A sprite that reaches
    /// past the right or bottom edge is cut off there: cells exist only on
    /// the screen, and nothing wraps around.
    pub open spec fn covers(self, p: int) -> bool {
        &&& 0 <= p < 8192
        &&& 0 <= self.row_of(p) < self.rows()
        &&& 0 <= self.col_of(p) < self.cols()
        &&& self.bit(self.row_of(p), self.col_of(p))
    }
}

/// Whether cell `p` belongs to a sprite pixel that comes before
/// (`row`, `col`) in row-major order.
spec fn precedes(sprite: Sprite, p: int, row: int, col: int) -> bool {
    sprite.row_of(p) < row || (sprite.row_of(p) == row && sprite.col_of(p) < col)
}

/// The display after the sprite is XORed onto it.
pub open spec fn draw_spec(display: Seq<bool>, sprite: Sprite) -> Seq<bool> {
    Seq::new(8192, |p: int| display[p] != sprite.covers(p))
}

/// Whether drawing the sprite turns off a cell that was on.
pub open spec fn collides(display: Seq<bool>, sprite: Sprite) -> bool {
    exists|p: int| #[trigger] sprite.covers(p) && display[p]
}

/// The display after the sprite pixels before (`row`, `col`) are drawn.
spec fn draw_before(display: Seq<bool>, sprite: Sprite, row: int, col: int) -> Seq<bool> {
    Seq::new(8192, |p: int| display[p] != (sprite.covers(p) && precedes(sprite, p, row, col)))
}

/// Whether the part of the sprite before (`row`, `col`) turns off a cell
/// that was on.
spec fn collides_before(display: Seq<bool>, sprite: Sprite, row: int, col: int) -> bool {
    exists|p: int| #[trigger] sprite.covers(p) && precedes(sprite, p, row, col) && display[p]
}

/// Nothing is drawn before the first pixel.
proof fn lemma_draw_start(display: Seq<bool>, sprite: Sprite)
    requires
        display.len() == 8192,
    ensures
        draw_before(display, sprite, 0, 0) == display,
        !collides_before(display, sprite, 0, 0),
{
    assert(draw_before(display, sprite, 0, 0) =~= display);
}

/// A sprite pixel that is clear changes nothing.
proof fn lemma_draw_clear_pixel(display: Seq<bool>, sprite: Sprite, row: int, col: int)
    requires
        !sprite.bit(row, col),
    ensures
        draw_before(display, sprite, row, col + 1) == draw_before(display, sprite, row, col),
        collides_before(display, sprite, row, col + 1) == collides_before(
            display,
            sprite,
            row,
            col,
        ),
{
    assert forall|p: int| #[trigger] sprite.covers(p) implies precedes(sprite, p, row, col + 1)
        == precedes(sprite, p, row, col) by {}
    assert(draw_before(display, sprite, row, col + 1) =~= draw_before(display, sprite, row, col));
}

/// In extended mode a set sprite pixel toggles exactly one cell.
proof fn lemma_draw_set_pixel_hires(display: Seq<bool>, sprite: Sprite, row: int, col: int)
    requires
        display.len() == 8192,
        sprite.extended,
        0 <= row < sprite.rows(),
        0 <= col < sprite.cols(),
        sprite.top() + row < 64,
        sprite.left() + col < 128,
        sprite.bit(row, col),
    ensures
        ({
            let at = (sprite.top() + row) * 128 + sprite.left() + col;
            let shown = draw_before(display, sprite, row, col);
            &&& shown[at] == display[at]
            &&& draw_before(display, sprite, row, col + 1) == shown.update(at, !shown[at])
            &&& collides_before(display, sprite, row, col + 1) == (collides_before(
                display,
                sprite,
                row,
                col,
            ) || display[at])
        }),
{
    let at = (sprite.top() + row) * 128 + sprite.left() + col;
    let shown = draw_before(display, sprite, row, col);
    assert forall|p: int| 0 <= p < 8192 implies ((sprite.row_of(p) == row && sprite.col_of(p)
        == col) <==> p == at) by {}
    assert(sprite.covers(at));
    assert(draw_before(display, sprite, row, col + 1) =~= shown.update(at, !shown[at]));
    if collides_before(display, sprite, row, col + 1) {
        let p = choose|p: int| #[trigger]
            sprite.covers(p) && precedes(sprite, p, row, col + 1) && display[p];
        if p != at {
            assert(precedes(sprite, p, row, col));
        }
    }
}

/// The four cells of a 2x2 block are exactly those whose halved coordinates
/// name the block.
proof fn lemma_block_cells(p: int, r: int, c: int)
    requires
        0 <= p < 8192,
        0 <= r < 32,
        0 <= c < 64,
    ensures
        (p / 256 == r && (p % 128) / 2 == c) <==> (p == r * 256 + c * 2 || p == r * 256 + c * 2
            + 1 || p == r * 256 + c * 2 + 128 || p == r * 256 + c * 2 + 129),
{
}

/// Outside extended mode the cells of the sprite pixel at (`row`, `col`)
/// are the block at twice its screen coordinates.
proof fn lemma_pixel_cells_lores(sprite: Sprite, row: int, col: int, p: int)
    requires
        !sprite.extended,
        0 <= p < 8192,
        0 <= row,
        0 <= col,
        sprite.top() + row < 32,
        sprite.left() + col < 64,
    ensures
        ({
            let at = (sprite.top() + row) * 256 + (sprite.left() + col) * 2;
            (sprite.row_of(p) == row && sprite.col_of(p) == col) <==> (p == at || p == at + 1 || p
                == at + 128 || p == at + 129)
        }),
{
    lemma_block_cells(p, sprite.top() + row, sprite.left() + col);
}

/// Outside extended mode a set sprite pixel toggles a block of four cells.
proof fn lemma_draw_set_pixel_lores(display: Seq<bool>, sprite: Sprite, row: int, col: int)
    requires
        display.len() == 8192,
        !sprite.extended,
        0 <= row < sprite.rows(),
        0 <= col < sprite.cols(),
        sprite.top() + row < 32,
        sprite.left() + col < 64,
        sprite.bit(row, col),
    ensures
        ({
            let at = (sprite.top() + row) * 256 + (sprite.left() + col) * 2;
            let shown = draw_before(display, sprite, row, col);
            &&& shown[at] == display[at]
            &&& shown[at + 1] == display[at + 1]
            &&& shown[at + 128] == display[at + 128]
            &&& shown[at + 129] == display[at + 129]
            &&& draw_before(display, sprite, row, col + 1) == shown.update(at, !shown[at]).update(
                at + 1,
                !shown[at + 1],
            ).update(at + 128, !shown[at + 128]).update(at + 129, !shown[at + 129])
            &&& collides_before(display, sprite, row, col + 1) == (collides_before(
                display,
                sprite,
                row,
                col,
            ) || display[at] || display[at + 1] || display[at + 128] || display[at + 129])
        }),
{
    let at = (sprite.top() + row) * 256 + (sprite.left() + col) * 2;
    let shown = draw_before(display, sprite, row, col);
    let next = draw_before(display, sprite, row, col + 1);
    let toggled = shown.update(at, !shown[at]).update(at + 1, !shown[at + 1]).update(
        at + 128,
        !shown[at + 128],
    ).update(at + 129, !shown[at + 129]);
    assert forall|p: int| 0 <= p < 8192 implies ((#[trigger] sprite.row_of(p) == row
        && sprite.col_of(p) == col) <==> (p == at || p == at + 1 || p == at + 128 || p == at
        + 129)) by {
        lemma_pixel_cells_lores(sprite, row, col, p);
    }
    assert(sprite.row_of(at) == row && sprite.col_of(at) == col);
    assert(sprite.row_of(at + 1) == row && sprite.col_of(at + 1) == col);
    assert(sprite.row_of(at + 128) == row && sprite.col_of(at + 128) == col);
    assert(sprite.row_of(at + 129) == row && sprite.col_of(at + 129) == col);
    assert(sprite.covers(at));
    assert(sprite.covers(at + 1));
    assert(sprite.covers(at + 128));
    assert(sprite.covers(at + 129));
    assert forall|p: int| 0 <= p < 8192 implies #[trigger] next[p] == toggled[p] by {
        if p == at || p == at + 1 || p == at + 128 || p == at + 129 {
        } else {
            assert(!(sprite.row_of(p) == row && sprite.col_of(p) == col));
            assert(precedes(sprite, p, row, col + 1) == precedes(sprite, p, row, col));
        }
    }
    assert(next =~= toggled);
    if collides_before(display, sprite, row, col + 1) {
        let p = choose|p: int| #[trigger]
            sprite.covers(p) && precedes(sprite, p, row, col + 1) && display[p];
        if p != at && p != at + 1 && p != at + 128 && p != at + 129 {
            assert(!(sprite.row_of(p) == row && sprite.col_of(p) == col));
            assert(precedes(sprite, p, row, col));
        }
    }
}

/// After the last column that fits on the screen, the row is complete.
proof fn lemma_draw_row_done(display: Seq<bool>, sprite: Sprite, row: int, width: int)
    requires
        width == sprite.cols() || width == (if sprite.extended { 128int } else { 64int })
            - sprite.left(),
        width <= sprite.cols(),
        width <= (if sprite.extended { 128int } else { 64int }) - sprite.left(),
    ensures
        draw_before(display, sprite, row, width) == draw_before(display, sprite, row + 1, 0),
        collides_before(display, sprite, row, width) == collides_before(
            display,
            sprite,
            row + 1,
            0,
        ),
{
    assert forall|p: int| #[trigger] sprite.covers(p) implies precedes(sprite, p, row, width)
        == precedes(sprite, p, row + 1, 0) by {}
    assert(draw_before(display, sprite, row, width) =~= draw_before(display, sprite, row + 1, 0));
}

/// After the last row that fits on the screen, the sprite is complete.
proof fn lemma_draw_done(display: Seq<bool>, sprite: Sprite, height: int)
    requires
        height == sprite.rows() || height == (if sprite.extended { 64int } else { 32int })
            - sprite.top(),
        height <= sprite.rows(),
        height <= (if sprite.extended { 64int } else { 32int }) - sprite.top(),
    ensures
        draw_before(display, sprite, height, 0) == draw_spec(display, sprite),
        collides_before(display, sprite, height, 0) == collides(display, sprite),
{
    assert forall|p: int| #[trigger] sprite.covers(p) implies precedes(sprite, p, height, 0) by {}
    assert(draw_before(display, sprite, height, 0) =~= draw_spec(display, sprite));
}

/// Inverts one cell and reports whether it was on.
fn toggle(display: &mut [bool; 8192], at: usize) -> (lit: bool)
    requires
        at < 8192,
    ensures
        lit == old(display)@[at as int],
        final(display)@ == old(display)@.update(at as int, !lit),
{
    let lit = display[at];
    display[at] = !lit;
    lit
}

/// Turns every cell off.
pub fn clear(display: &mut [bool; 8192])
    ensures
        final(display)@ == blank(),
{
    let mut p: usize = 0;
    while p < 8192
        invariant
            p <= 8192,
            forall|q: int| 0 <= q < p ==> display@[q] == false,
        decreases 8192 - p,
    {
        display[p] = false;
        p += 1;
    }
}

/// Scrolls the display down by `n` rows.
pub fn scroll_down(display: &mut [bool; 8192], n: u8)
    ensures
        final(display)@ == scroll_down_spec(old(display)@, n as int),
{
    let ghost before = display@;
    let mut row: usize = 64;
    while row > 0
        invariant
            row <= 64,
            before == old(display)@,
            forall|p: int| 0 <= p < row * 128 ==> display@[p] == before[p],
            forall|p: int|
                row * 128 <= p < 8192 ==> display@[p] == scroll_down_spec(before, n as int)[p],
        decreases row,
    {
        row -= 1;
        let mut col: usize = 0;
        while col < 128
            invariant
                row < 64,
                col <= 128,
                forall|p: int| 0 <= p < row * 128 ==> display@[p] == before[p],
                forall|p: int| row * 128 + col <= p < (row + 1) * 128 ==> display@[p] == before[p],
                forall|p: int|
                    row * 128 <= p < row * 128 + col ==> display@[p] == scroll_down_spec(
                        before,
                        n as int,
                    )[p],
                forall|p: int|
                    (row + 1) * 128 <= p < 8192 ==> display@[p] == scroll_down_spec(
                        before,
                        n as int,
                    )[p],
            decreases 128 - col,
        {
            let p = row * 128 + col;
            if row < n as usize {
                display[p] = false;
            } else {
                let from = p - 128 * (n as usize);
                let lit = display[from];
                display[p] = lit;
            }
            col += 1;
        }
    }
}

/// Scrolls the display right by four cells.
pub fn scroll_right(display: &mut [bool; 8192])
    ensures
        final(display)@ == scroll_right_spec(old(display)@),
{
    let ghost before = display@;
    let mut p: usize = 8192;
    while p > 0
        invariant
            p <= 8192,
            before == old(display)@,
            forall|q: int| 0 <= q < p ==> display@[q] == before[q],
            forall|q: int| p <= q < 8192 ==> display@[q] == scroll_right_spec(before)[q],
        decreases p,
    {
        p -= 1;
        if p % 128 >= 4 {
            let lit = display[p - 4];
            display[p] = lit;
        } else {
            display[p] = false;
        }
    }
}

/// Scrolls the display left by four cells.
pub fn scroll_left(display: &mut [bool; 8192])
    ensures
        final(display)@ == scroll_left_spec(old(display)@),
{
    let ghost before = display@;
    let mut p: usize = 0;
    while p < 8192
        invariant
            p <= 8192,
            before == old(display)@,
            forall|q: int| p <= q < 8192 ==> display@[q] == before[q],
            forall|q: int| 0 <= q < p ==> display@[q] == scroll_left_spec(before)[q],
        decreases 8192 - p,
    {
        if p % 128 < 124 {
            let lit = display[p + 4];
            display[p] = lit;
        } else {
            display[p] = false;
        }
        p += 1;
    }
}

/// XORs a sprite onto the display and reports whether a lit cell went dark.
///
/// The sprite is read from `memory` at `base`, one byte per row of eight
/// pixels, `n` rows; in extended mode a row count of zero selects the 16x16
/// form with two bytes per row. Its top-left corner goes to
/// (`x` mod width, `y` mod height) of the screen in its current resolution,
/// and whatever reaches past the right or bottom edge is not drawn.
pub fn draw(
    display: &mut [bool; 8192],
    memory: &[u8; 4096],
    base: u16,
    x: u8,
    y: u8,
    n: u8,
    extended: bool,
) -> (hit: bool)
    ensures
        final(display)@ == draw_spec(
            old(display)@,
            (Sprite { memory: memory@, base: base as int, x: x as int, y: y as int, n: n as int, extended }),
        ),
        hit == collides(
            old(display)@,
            (Sprite { memory: memory@, base: base as int, x: x as int, y: y as int, n: n as int, extended }),
        ),
{
    let ghost sprite = Sprite {
        memory: memory@,
        base: base as int,
        x: x as int,
        y: y as int,
        n: n as int,
        extended,
    };
    let ghost initial = display@;
    let wide = extended && n == 0;
    let screen_width: u8 = if extended { 128 } else { 64 };
    let screen_height: u8 = screen_width / 2;
    let left: u8 = x % screen_width;
    let top: u8 = y % screen_height;
    let cols: u8 = if wide { 16 } else { 8 };
    let rows: u8 = if wide { 16 } else { n };
    let w: u8 = if cols <= screen_width - left { cols } else { screen_width - left };
    let h: u8 = if rows <= screen_height - top { rows } else { screen_height - top };
    let mut hit = false;
    let mut j: u8 = 0;
    proof {
        lemma_draw_start(initial, sprite);
    }
    while j < h
        invariant
            j <= h,
            initial.len() == 8192,
            sprite.memory == memory@,
            sprite.base == base,
            sprite.extended == extended,
            wide == sprite.wide(),
            left == sprite.left(),
            top == sprite.top(),
            cols == sprite.cols(),
            rows == sprite.rows(),
            screen_width == (if extended { 128int } else { 64int }),
            screen_height == (if extended { 64int } else { 32int }),
            w == (if cols <= screen_width - left { cols } else { (screen_width - left) as u8 }),
            h == (if rows <= screen_height - top { rows } else { (screen_height - top) as u8 }),
            display@ == draw_before(initial, sprite, j as int, 0),
            hit == collides_before(initial, sprite, j as int, 0),
        decreases h - j,
    {
        let mut i: u8 = 0;
        while i < w
            invariant
                j < h,
                i <= w,
                initial.len() == 8192,
                sprite.memory == memory@,
                sprite.base == base,
                sprite.extended == extended,
                wide == sprite.wide(),
                left == sprite.left(),
                top == sprite.top(),
                cols == sprite.cols(),
                rows == sprite.rows(),
                screen_width == (if extended { 128int } else { 64int }),
                screen_height == (if extended { 64int } else { 32int }),
                w == (if cols <= screen_width - left { cols } else { (screen_width - left) as u8 }),
                h == (if rows <= screen_height - top { rows } else { (screen_height - top) as u8 }),
                display@ == draw_before(initial, sprite, j as int, i as int),
                hit == collides_before(initial, sprite, j as int, i as int),
            decreases w - i,
        {
            let offset: usize = if wide { 2 * (j as usize) + (i as usize) / 8 } else { j as usize };
            let byte = memory[(base as usize + offset) % 4096];
            if byte & (0x80u8 >> (i % 8)) != 0 {
                assert(sprite.bit(j as int, i as int));
                if extended {
                    let at: usize = (j + top) as usize * 128 + (i + left) as usize;
                    proof {
                        lemma_draw_set_pixel_hires(initial, sprite, j as int, i as int);
                    }
                    let lit = toggle(display, at);
                    hit = hit || lit;
                } else {
                    let at: usize = (j + top) as usize * 256 + (i + left) as usize * 2;
                    proof {
                        lemma_draw_set_pixel_lores(initial, sprite, j as int, i as int);
                    }
                    let lit0 = toggle(display, at);
                    let lit1 = toggle(display, at + 1);
                    let lit2 = toggle(display, at + 128);
                    let lit3 = toggle(display, at + 129);
                    hit = hit || lit0 || lit1 || lit2 || lit3;
                }
            } else {
                assert(!sprite.bit(j as int, i as int));
                proof {
                    lemma_draw_clear_pixel(initial, sprite, j as int, i as int);
                }
            }
            i += 1;
        }
        proof {
            lemma_draw_row_done(initial, sprite, j as int, w as int);
        }
        j += 1;
    }
    proof {
        lemma_draw_done(initial, sprite, h as int);
    }
    hit
}

} // verus!
