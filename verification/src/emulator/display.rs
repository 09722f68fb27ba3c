//! Drawing sprites: what a draw does to the screen, and the routine that
//! does it.
use vstd::prelude::*;
use vstd::slice::slice_index_get;

verus! {

/// Bit `col` of a sprite row, counted from the most significant bit.
pub open spec fn row_bit(row: u8, col: u8) -> bool {
    row & (0x80u8 >> col) != 0
}

/// The column of a sprite placed at horizontal position `vx` that lands on
/// pixel `p`, if the sprite were 64 columns wide. The sprite wraps at the
/// right edge of the screen.
pub open spec fn pixel_col(p: int, vx: u8) -> int {
    (p % 64 - vx) % 64
}

/// The row of a sprite placed at vertical position `vy` that lands on pixel
/// `p`, if the sprite were 32 rows high. The sprite wraps at the bottom edge
/// of the screen.
pub open spec fn pixel_row(p: int, vy: u8) -> int {
    (p / 64 - vy) % 32
}

/// Whether row number `r` of a sprite at (`vx`, `vy`), whose eight bits are
/// `byte`, has a set bit on pixel `p`.
pub open spec fn row_lands(byte: u8, vx: u8, vy: u8, r: int, p: int) -> bool {
    &&& 0 <= p < 2048
    &&& p / 64 == (vy + r) % 32
    &&& pixel_col(p, vx) < 8
    &&& row_bit(byte, pixel_col(p, vx) as u8)
}

/// Whether the first `n` rows of `sprite` at (`vx`, `vy`) flip pixel `p`:
/// whether an odd number of them has a set bit on it.
pub open spec fn flips(sprite: Seq<u8>, vx: u8, vy: u8, p: int, n: int) -> bool
    decreases n,
{
    if n <= 0 {
        false
    } else {
        flips(sprite, vx, vy, p, n - 1) != row_lands(sprite[n - 1], vx, vy, n - 1, p)
    }
}

/// The screen after the first `n` rows of `sprite` are drawn at (`vx`,
/// `vy`) on `screen`.
pub open spec fn drawn(screen: Seq<bool>, sprite: Seq<u8>, vx: u8, vy: u8, n: int) -> Seq<bool> {
    Seq::new(2048, |p: int| screen[p] != flips(sprite, vx, vy, p, n))
}

/// Whether row number `r` of `sprite`, drawn after the rows before it, turns
/// off pixel `p` with one of its columns below `cols`.
pub open spec fn row_erases(
    screen: Seq<bool>,
    sprite: Seq<u8>,
    vx: u8,
    vy: u8,
    r: int,
    cols: int,
    p: int,
) -> bool {
    &&& row_lands(sprite[r], vx, vy, r, p)
    &&& pixel_col(p, vx) < cols
    &&& drawn(screen, sprite, vx, vy, r)[p]
}

/// Whether drawing the first `n` rows of `sprite` at (`vx`, `vy`) on
/// `screen`, row after row, turns off a pixel that was lit when its row was
/// drawn.
pub open spec fn erases(screen: Seq<bool>, sprite: Seq<u8>, vx: u8, vy: u8, n: int) -> bool
    decreases n,
{
    if n <= 0 {
        false
    } else {
        erases(screen, sprite, vx, vy, n - 1) || exists|p: int| #[trigger]
            row_erases(screen, sprite, vx, vy, n - 1, 8, p)
    }
}

/// Whether `sprite` at (`vx`, `vy`) has a set bit on pixel `p`, for a sprite
/// of at most 32 rows, no two of which share a screen row.
pub open spec fn covers(sprite: Seq<u8>, vx: u8, vy: u8, p: int) -> bool {
    &&& 0 <= p < 2048
    &&& pixel_col(p, vx) < 8
    &&& pixel_row(p, vy) < sprite.len()
    &&& row_bit(sprite[pixel_row(p, vy)], pixel_col(p, vx) as u8)
}

/// Whether `sprite` at (`vx`, `vy`) has a set bit on a lit pixel of
/// `screen`.
pub open spec fn collides(screen: Seq<bool>, sprite: Seq<u8>, vx: u8, vy: u8) -> bool {
    exists|p: int| screen[p] && #[trigger] covers(sprite, vx, vy, p)
}

/// The screen after `sprite` is drawn at (`vx`, `vy`): each pixel that the
/// sprite has a set bit on is flipped.
pub open spec fn stamped(screen: Seq<bool>, sprite: Seq<u8>, vx: u8, vy: u8) -> Seq<bool> {
    Seq::new(2048, |p: int| screen[p] != covers(sprite, vx, vy, p))
}

/// For a sprite of at most 32 rows, a pixel is flipped exactly if the sprite
/// has a set bit on it.
pub proof fn lemma_flips_covers(sprite: Seq<u8>, vx: u8, vy: u8, p: int, n: int)
    requires
        0 <= n <= 32,
        0 <= p < 2048,
    ensures
        flips(sprite, vx, vy, p, n) == (pixel_col(p, vx) < 8 && pixel_row(p, vy) < n && row_bit(
            sprite[pixel_row(p, vy)],
            pixel_col(p, vx) as u8,
        )),
    decreases n,
{
    if n > 0 {
        lemma_flips_covers(sprite, vx, vy, p, n - 1);
        assert((p / 64 == (vy + (n - 1)) % 32) == (pixel_row(p, vy) == n - 1));
    }
}

/// For a sprite of at most 32 rows, drawing row after row gives the screen
/// on which each pixel under a set bit of the sprite is flipped.
pub proof fn lemma_drawn_stamped(screen: Seq<bool>, sprite: Seq<u8>, vx: u8, vy: u8)
    requires
        sprite.len() <= 32,
    ensures
        drawn(screen, sprite, vx, vy, sprite.len() as int) == stamped(screen, sprite, vx, vy),
{
    assert forall|p: int| 0 <= p < 2048 implies flips(sprite, vx, vy, p, sprite.len() as int)
        == covers(sprite, vx, vy, p) by {
        lemma_flips_covers(sprite, vx, vy, p, sprite.len() as int);
    }
    assert(drawn(screen, sprite, vx, vy, sprite.len() as int) =~= stamped(screen, sprite, vx, vy));
}

/// For at most 32 rows, a pixel is turned off while drawing exactly if the
/// sprite has a set bit on a pixel that was lit at the start.
pub proof fn lemma_erases_prefix(screen: Seq<bool>, sprite: Seq<u8>, vx: u8, vy: u8, n: int)
    requires
        0 <= n <= 32,
        screen.len() == 2048,
    ensures
        erases(screen, sprite, vx, vy, n) == exists|p: int|
            0 <= p < 2048 && screen[p] && #[trigger] flips(sprite, vx, vy, p, n),
    decreases n,
{
    if n > 0 {
        lemma_erases_prefix(screen, sprite, vx, vy, n - 1);
        let before = exists|p: int|
            0 <= p < 2048 && screen[p] && #[trigger] flips(sprite, vx, vy, p, n - 1);
        let row = exists|p: int| #[trigger] row_erases(screen, sprite, vx, vy, n - 1, 8, p);
        let after = exists|p: int|
            0 <= p < 2048 && screen[p] && #[trigger] flips(sprite, vx, vy, p, n);
        assert forall|p: int| 0 <= p < 2048 implies (#[trigger] flips(sprite, vx, vy, p, n) == (
        flips(sprite, vx, vy, p, n - 1) || row_lands(sprite[n - 1], vx, vy, n - 1, p))) && !(flips(
            sprite,
            vx,
            vy,
            p,
            n - 1,
        ) && row_lands(sprite[n - 1], vx, vy, n - 1, p)) by {
            lemma_flips_covers(sprite, vx, vy, p, n - 1);
            lemma_flips_covers(sprite, vx, vy, p, n);
            assert((p / 64 == (vy + (n - 1)) % 32) == (pixel_row(p, vy) == n - 1));
        }
        if before {
            let p = choose|p: int|
                0 <= p < 2048 && screen[p] && #[trigger] flips(sprite, vx, vy, p, n - 1);
            assert(flips(sprite, vx, vy, p, n));
        }
        if row {
            let p = choose|p: int| #[trigger] row_erases(screen, sprite, vx, vy, n - 1, 8, p);
            assert(flips(sprite, vx, vy, p, n));
            assert(!flips(sprite, vx, vy, p, n - 1));
        }
        if after {
            let p = choose|p: int|
                0 <= p < 2048 && screen[p] && #[trigger] flips(sprite, vx, vy, p, n);
            if !flips(sprite, vx, vy, p, n - 1) {
                assert(row_erases(screen, sprite, vx, vy, n - 1, 8, p));
            }
        }
        assert(after == (before || row));
    }
}

/// For a sprite of at most 32 rows, drawing turns a pixel off exactly if
/// the sprite has a set bit on a pixel that was lit at the start.
pub proof fn lemma_erases_collides(screen: Seq<bool>, sprite: Seq<u8>, vx: u8, vy: u8)
    requires
        sprite.len() <= 32,
        screen.len() == 2048,
    ensures
        erases(screen, sprite, vx, vy, sprite.len() as int) == collides(screen, sprite, vx, vy),
{
    let n = sprite.len() as int;
    lemma_erases_prefix(screen, sprite, vx, vy, n);
    assert forall|p: int| 0 <= p < 2048 implies flips(sprite, vx, vy, p, n) == covers(
        sprite,
        vx,
        vy,
        p,
    ) by {
        lemma_flips_covers(sprite, vx, vy, p, n);
    }
    if collides(screen, sprite, vx, vy) {
        let p = choose|p: int| screen[p] && #[trigger] covers(sprite, vx, vy, p);
        assert(flips(sprite, vx, vy, p, n));
    }
    if erases(screen, sprite, vx, vy, n) {
        let p = choose|p: int|
            0 <= p < 2048 && screen[p] && #[trigger] flips(sprite, vx, vy, p, n);
        assert(covers(sprite, vx, vy, p));
    }
}

/// Drawing the same sprite twice at the same place gives back the screen.
pub proof fn lemma_draw_twice(screen: Seq<bool>, sprite: Seq<u8>, vx: u8, vy: u8)
    requires
        screen.len() == 2048,
    ensures
        stamped(stamped(screen, sprite, vx, vy), sprite, vx, vy) == screen,
        drawn(
            drawn(screen, sprite, vx, vy, sprite.len() as int),
            sprite,
            vx,
            vy,
            sprite.len() as int,
        ) == screen,
{
    assert(stamped(stamped(screen, sprite, vx, vy), sprite, vx, vy) =~= screen);
    assert(drawn(
        drawn(screen, sprite, vx, vy, sprite.len() as int),
        sprite,
        vx,
        vy,
        sprite.len() as int,
    ) =~= screen);
}

/// The second of two draws of the same sprite at the same place reports a
/// collision exactly if the first draw lit a pixel: if the sprite has a set
/// bit on a pixel that was off at the start.
pub proof fn lemma_second_draw_collides(screen: Seq<bool>, sprite: Seq<u8>, vx: u8, vy: u8)
    requires
        screen.len() == 2048,
    ensures
        collides(stamped(screen, sprite, vx, vy), sprite, vx, vy) == exists|p: int|
            !screen[p] && #[trigger] covers(sprite, vx, vy, p),
{
    let first = stamped(screen, sprite, vx, vy);
    if collides(first, sprite, vx, vy) {
        let p = choose|p: int| first[p] && #[trigger] covers(sprite, vx, vy, p);
        assert(!screen[p] && covers(sprite, vx, vy, p));
    }
    if exists|p: int| !screen[p] && #[trigger] covers(sprite, vx, vy, p) {
        let p = choose|p: int| !screen[p] && #[trigger] covers(sprite, vx, vy, p);
        assert(first[p] && covers(sprite, vx, vy, p));
    }
}

/// A pixel that went off while the first rows were drawn has gone off when
/// more rows are drawn.
pub proof fn lemma_erases_monotone(
    screen: Seq<bool>,
    sprite: Seq<u8>,
    vx: u8,
    vy: u8,
    m: int,
    n: int,
)
    requires
        m <= n,
        erases(screen, sprite, vx, vy, m),
    ensures
        erases(screen, sprite, vx, vy, n),
    decreases n - m,
{
    if m < n {
        lemma_erases_monotone(screen, sprite, vx, vy, m, n - 1);
    }
}

/// If no pixel goes off while `n` rows are drawn, a pixel on which row `r`
/// has a set bit is lit from that row on.
proof fn lemma_lit_stays(
    screen: Seq<bool>,
    sprite: Seq<u8>,
    vx: u8,
    vy: u8,
    n: int,
    r: int,
    m: int,
    p: int,
)
    requires
        screen.len() == 2048,
        0 <= r < m <= n,
        row_lands(sprite[r], vx, vy, r, p),
        !erases(screen, sprite, vx, vy, n),
    ensures
        drawn(screen, sprite, vx, vy, m)[p],
    decreases m,
{
    let last = m - 1;
    assert(flips(sprite, vx, vy, p, m) == (flips(sprite, vx, vy, p, last) != row_lands(
        sprite[last],
        vx,
        vy,
        last,
        p,
    )));
    if last > r {
        lemma_lit_stays(screen, sprite, vx, vy, n, r, last, p);
    }
    if row_lands(sprite[last], vx, vy, last, p) && drawn(screen, sprite, vx, vy, last)[p] {
        assert(row_erases(screen, sprite, vx, vy, last, 8, p));
        assert(erases(screen, sprite, vx, vy, m));
        lemma_erases_monotone(screen, sprite, vx, vy, m, n);
    }
}

/// A pixel that the first `m` rows flip has a set bit of one of them on it.
proof fn lemma_flipped_was_hit(sprite: Seq<u8>, vx: u8, vy: u8, p: int, m: int) -> (r: int)
    requires
        flips(sprite, vx, vy, p, m),
    ensures
        0 <= r < m,
        row_lands(sprite[r], vx, vy, r, p),
    decreases m,
{
    if row_lands(sprite[m - 1], vx, vy, m - 1, p) {
        m - 1
    } else {
        lemma_flipped_was_hit(sprite, vx, vy, p, m - 1)
    }
}

/// If no pixel goes off while `n` rows are drawn and row `r` has a set bit
/// on pixel `p`, then a pixel goes off when the rows are drawn once more.
proof fn lemma_hit_erases_again(
    screen: Seq<bool>,
    sprite: Seq<u8>,
    vx: u8,
    vy: u8,
    n: int,
    r: int,
    p: int,
)
    requires
        screen.len() == 2048,
        0 <= r < n,
        row_lands(sprite[r], vx, vy, r, p),
        !erases(screen, sprite, vx, vy, n),
    ensures
        erases(drawn(screen, sprite, vx, vy, n), sprite, vx, vy, n),
    decreases r,
{
    let once = drawn(screen, sprite, vx, vy, n);
    lemma_lit_stays(screen, sprite, vx, vy, n, r, n, p);
    if flips(sprite, vx, vy, p, r) {
        let earlier = lemma_flipped_was_hit(sprite, vx, vy, p, r);
        lemma_hit_erases_again(screen, sprite, vx, vy, n, earlier, p);
    } else {
        assert(drawn(once, sprite, vx, vy, r)[p]);
        assert(row_erases(once, sprite, vx, vy, r, 8, p));
        assert(erases(once, sprite, vx, vy, r + 1));
        lemma_erases_monotone(once, sprite, vx, vy, r + 1, n);
    }
}

/// The second of two draws of the same sprite at the same place turns a
/// pixel off, if the sprite has a set bit (bit `col` of row `r`) and the
/// first draw turned none off. This holds of a sprite of any height.
pub proof fn lemma_second_draw_erases(
    screen: Seq<bool>,
    sprite: Seq<u8>,
    vx: u8,
    vy: u8,
    r: int,
    col: int,
)
    requires
        screen.len() == 2048,
        0 <= r < sprite.len(),
        0 <= col < 8,
        row_bit(sprite[r], col as u8),
        !erases(screen, sprite, vx, vy, sprite.len() as int),
    ensures
        erases(
            drawn(screen, sprite, vx, vy, sprite.len() as int),
            sprite,
            vx,
            vy,
            sprite.len() as int,
        ),
{
    let p = ((vy + r) % 32) * 64 + (vx + col) % 64;
    assert(pixel_col(p, vx) == col);
    assert(p / 64 == (vy + r) % 32);
    lemma_hit_erases_again(screen, sprite, vx, vy, sprite.len() as int, r, p);
}

/// Draws `sprite` on `screen` with its top left corner at (`x`, `y`): each
/// set bit flips the pixel it lands on, wrapping at the edges. Returns
/// whether a pixel was turned off.
pub fn draw_sprite(screen: &mut [bool; 2048], x: u8, y: u8, sprite: &[u8]) -> (collision: bool)
    ensures
        final(screen)@ == drawn(old(screen)@, sprite@, x, y, sprite@.len() as int),
        collision == erases(old(screen)@, sprite@, x, y, sprite@.len() as int),
{
    let mut collision = false;
    let mut row: usize = 0;
    proof {
        assert(screen@ =~= drawn(old(screen)@, sprite@, x, y, 0));
    }
    while row < sprite.len()
        invariant
            row <= sprite@.len(),
            screen@ == drawn(old(screen)@, sprite@, x, y, row as int),
            collision == erases(old(screen)@, sprite@, x, y, row as int),
        decreases sprite@.len() - row,
    {
        let byte = *slice_index_get(sprite, row);
        let target_y = (y as usize + row % 32) % 32;
        let ghost before = screen@;
        let ghost erased = erases(old(screen)@, sprite@, x, y, row as int);
        let mut col: u8 = 0;
        while col < 8
            invariant
                col <= 8,
                row < sprite@.len(),
                byte == sprite@[row as int],
                target_y == (y + row) % 32,
                before == drawn(old(screen)@, sprite@, x, y, row as int),
                erased == erases(old(screen)@, sprite@, x, y, row as int),
                screen@.len() == 2048,
                forall|p: int|
                    0 <= p < 2048 ==> screen@[p] == (before[p] != (row_lands(
                        byte,
                        x,
                        y,
                        row as int,
                        p,
                    ) && pixel_col(p, x) < col)),
                collision == (erased || exists|p: int| #[trigger]
                    row_erases(old(screen)@, sprite@, x, y, row as int, col as int, p)),
            decreases 8 - col,
        {
            let ghost hit_before = exists|p: int| #[trigger]
                row_erases(old(screen)@, sprite@, x, y, row as int, col as int, p);
            let ghost index_spec = target_y * 64 + (x + col) % 64;
            proof {
                assert(pixel_col(index_spec, x) == col);
                assert(index_spec / 64 == target_y);
                assert forall|p: int|
                    0 <= p < 2048 && p / 64 == target_y && pixel_col(p, x) == col implies p
                    == index_spec by {}
            }
            if byte & (0x80u8 >> col) != 0 {
                let target_x = (x as usize + col as usize) % 64;
                let index = target_y * 64 + target_x;
                collision = collision || screen[index];
                screen[index] = !screen[index];
                proof {
                    assert(row_lands(byte, x, y, row as int, index as int));
                    if before[index as int] {
                        assert(row_erases(
                            old(screen)@,
                            sprite@,
                            x,
                            y,
                            row as int,
                            col + 1,
                            index as int,
                        ));
                    }
                }
            }
            proof {
                let hit_after = exists|p: int| #[trigger]
                    row_erases(old(screen)@, sprite@, x, y, row as int, col + 1, p);
                if hit_before {
                    let p = choose|p: int| #[trigger]
                        row_erases(old(screen)@, sprite@, x, y, row as int, col as int, p);
                    assert(row_erases(old(screen)@, sprite@, x, y, row as int, col + 1, p));
                }
                if hit_after {
                    let p = choose|p: int| #[trigger]
                        row_erases(old(screen)@, sprite@, x, y, row as int, col + 1, p);
                    if pixel_col(p, x) < col {
                        assert(row_erases(old(screen)@, sprite@, x, y, row as int, col as int, p));
                    } else {
                        assert(p == index_spec);
                    }
                }
            }
            col += 1;
        }
        proof {
            assert forall|p: int| 0 <= p < 2048 implies screen@[p] == (old(screen)@[p] != flips(
                sprite@,
                x,
                y,
                p,
                row + 1,
            )) by {
                assert(flips(sprite@, x, y, p, row + 1) == (flips(sprite@, x, y, p, row as int)
                    != row_lands(sprite@[row as int], x, y, row as int, p)));
                assert(before[p] == (old(screen)@[p] != flips(sprite@, x, y, p, row as int)));
            }
            assert(screen@ =~= drawn(old(screen)@, sprite@, x, y, row + 1));
        }
        row += 1;
    }
    collision
}

} // verus!
