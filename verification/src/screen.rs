//! The monochrome framebuffer: geometry and sprite compositing.

use vstd::prelude::*;

verus! {

pub const GRAPHICS_WIDTH: usize = 64;

pub const GRAPHICS_HEIGHT: usize = 32;

/// A screen is `GRAPHICS_HEIGHT` rows of `GRAPHICS_WIDTH` pixels.
pub open spec fn screen_wf(g: Seq<Seq<bool>>) -> bool {
    &&& g.len() == GRAPHICS_HEIGHT
    &&& forall|row: int| 0 <= row < GRAPHICS_HEIGHT ==> (#[trigger] g[row]).len() == GRAPHICS_WIDTH
}

/// The pixels of a framebuffer, rows first.
pub open spec fn screen_view(g: [[bool; GRAPHICS_WIDTH]; GRAPHICS_HEIGHT]) -> Seq<Seq<bool>> {
    Seq::new(GRAPHICS_HEIGHT as nat, |row: int| g[row]@)
}

/// The screen with every pixel off.
pub open spec fn blank_screen() -> Seq<Seq<bool>> {
    Seq::new(GRAPHICS_HEIGHT as nat, |row: int| Seq::new(GRAPHICS_WIDTH as nat, |col: int| false))
}

/// Whether column `col` (0 is leftmost) of a sprite row is set: bit `7 - col` of the byte.
pub open spec fn sprite_bit(byte: u8, col: int) -> bool {
    (byte >> ((7 - col) as u8)) & 1u8 == 1u8
}

/// Whether the sprite placed with its top-left corner at (`ox`, `oy`) covers
/// screen pixel (`px`, `py`) with a set bit. Coordinates wrap around both edges.
pub open spec fn sprite_covers(sprite: Seq<u8>, ox: int, oy: int, px: int, py: int) -> bool {
    let col = (px - ox) % (GRAPHICS_WIDTH as int);
    let row = (py - oy) % (GRAPHICS_HEIGHT as int);
    col < 8 && row < sprite.len() && sprite_bit(sprite[row], col)
}

/// The screen after XOR-ing the sprite onto it.
pub open spec fn blit(g: Seq<Seq<bool>>, sprite: Seq<u8>, ox: int, oy: int) -> Seq<Seq<bool>> {
    Seq::new(
        GRAPHICS_HEIGHT as nat,
        |py: int|
            Seq::new(
                GRAPHICS_WIDTH as nat,
                |px: int| g[py][px] != sprite_covers(sprite, ox, oy, px, py),
            ),
    )
}

/// Whether some set bit of the sprite lands on a pixel that is already on.
pub open spec fn collides(g: Seq<Seq<bool>>, sprite: Seq<u8>, ox: int, oy: int) -> bool {
    exists|px: int, py: int|
        0 <= px < GRAPHICS_WIDTH && 0 <= py < GRAPHICS_HEIGHT && g[py][px] && #[trigger] sprite_covers(
            sprite,
            ox,
            oy,
            px,
            py,
        )
}

/// As [`sprite_covers`], counting only the sprite pixels before row `rows_done`
/// and, in that row, before column `cols_done`.
spec fn covered_so_far(
    sprite: Seq<u8>,
    ox: int,
    oy: int,
    rows_done: int,
    cols_done: int,
    px: int,
    py: int,
) -> bool {
    let col = (px - ox) % (GRAPHICS_WIDTH as int);
    let row = (py - oy) % (GRAPHICS_HEIGHT as int);
    sprite_covers(sprite, ox, oy, px, py) && (row < rows_done || (row == rows_done && col
        < cols_done))
}

/// `cur` is `g` with the sprite pixels before (`rows_done`, `cols_done`) XOR-ed in.
spec fn blit_so_far(
    g: Seq<Seq<bool>>,
    cur: Seq<Seq<bool>>,
    sprite: Seq<u8>,
    ox: int,
    oy: int,
    rows_done: int,
    cols_done: int,
) -> bool {
    &&& screen_wf(cur)
    &&& forall|px: int, py: int|
        0 <= px < GRAPHICS_WIDTH && 0 <= py < GRAPHICS_HEIGHT ==> cur[py][px] == (g[py][px]
            != covered_so_far(sprite, ox, oy, rows_done, cols_done, px, py))
}

/// Whether a sprite pixel before (`rows_done`, `cols_done`) landed on a pixel that was on.
spec fn collides_so_far(
    g: Seq<Seq<bool>>,
    sprite: Seq<u8>,
    ox: int,
    oy: int,
    rows_done: int,
    cols_done: int,
) -> bool {
    exists|px: int, py: int|
        0 <= px < GRAPHICS_WIDTH && 0 <= py < GRAPHICS_HEIGHT && g[py][px]
            && #[trigger] covered_so_far(sprite, ox, oy, rows_done, cols_done, px, py)
}

/// Sprite pixel (`row`, `col`) lands on exactly one screen pixel, which no
/// earlier sprite pixel has touched.
proof fn lemma_pixel_step(sprite: Seq<u8>, ox: int, oy: int, row: int, col: int, px: int, py: int)
    requires
        0 <= ox,
        0 <= oy,
        0 <= row < sprite.len() <= GRAPHICS_HEIGHT,
        0 <= col < 8,
        0 <= px < GRAPHICS_WIDTH,
        0 <= py < GRAPHICS_HEIGHT,
    ensures
        covered_so_far(sprite, ox, oy, row, col + 1, px, py) == (covered_so_far(
            sprite,
            ox,
            oy,
            row,
            col,
            px,
            py,
        ) || (px == (ox + col) % (GRAPHICS_WIDTH as int) && py == (oy + row) % (
        GRAPHICS_HEIGHT as int) && sprite_bit(sprite[row], col))),
        px == (ox + col) % (GRAPHICS_WIDTH as int) && py == (oy + row) % (GRAPHICS_HEIGHT as int)
            ==> !covered_so_far(sprite, ox, oy, row, col, px, py),
{
}

proof fn lemma_collides_step(g: Seq<Seq<bool>>, sprite: Seq<u8>, ox: int, oy: int, row: int, col: int)
    requires
        screen_wf(g),
        0 <= ox,
        0 <= oy,
        0 <= row < sprite.len() <= GRAPHICS_HEIGHT,
        0 <= col < 8,
    ensures
        collides_so_far(g, sprite, ox, oy, row, col + 1) == (collides_so_far(
            g,
            sprite,
            ox,
            oy,
            row,
            col,
        ) || (sprite_bit(sprite[row], col) && g[(oy + row) % (GRAPHICS_HEIGHT as int)][(ox + col) % (
        GRAPHICS_WIDTH as int)])),
{
    let tx = (ox + col) % (GRAPHICS_WIDTH as int);
    let ty = (oy + row) % (GRAPHICS_HEIGHT as int);
    if collides_so_far(g, sprite, ox, oy, row, col) {
        let (px, py) = choose|px: int, py: int|
            0 <= px < GRAPHICS_WIDTH && 0 <= py < GRAPHICS_HEIGHT && g[py][px]
                && #[trigger] covered_so_far(sprite, ox, oy, row, col, px, py);
        lemma_pixel_step(sprite, ox, oy, row, col, px, py);
        assert(covered_so_far(sprite, ox, oy, row, col + 1, px, py));
    }
    if sprite_bit(sprite[row], col) && g[ty][tx] {
        lemma_pixel_step(sprite, ox, oy, row, col, tx, ty);
        assert(covered_so_far(sprite, ox, oy, row, col + 1, tx, ty));
    }
    if collides_so_far(g, sprite, ox, oy, row, col + 1) {
        let (px, py) = choose|px: int, py: int|
            0 <= px < GRAPHICS_WIDTH && 0 <= py < GRAPHICS_HEIGHT && g[py][px]
                && #[trigger] covered_so_far(sprite, ox, oy, row, col + 1, px, py);
        lemma_pixel_step(sprite, ox, oy, row, col, px, py);
        if !(px == tx && py == ty) {
            assert(covered_so_far(sprite, ox, oy, row, col, px, py));
        }
    }
}

/// XORs the `rows` bytes of `memory` at `at` onto `graphics` as a sprite
/// with its top-left corner at (`ox`, `oy`), wrapping around both edges.
/// Returns whether a set bit landed on a pixel that was on.
pub fn blit_sprite(
    graphics: &mut [[bool; GRAPHICS_WIDTH]; GRAPHICS_HEIGHT],
    memory: &[u8; 4096],
    at: usize,
    rows: u8,
    ox: u8,
    oy: u8,
) -> (collision: bool)
    requires
        at + rows <= 4096,
        rows <= GRAPHICS_HEIGHT,
    ensures
        screen_view(*final(graphics)) == blit(
            screen_view(*old(graphics)),
            memory@.subrange(at as int, at + rows),
            ox as int,
            oy as int,
        ),
        collision == collides(
            screen_view(*old(graphics)),
            memory@.subrange(at as int, at + rows),
            ox as int,
            oy as int,
        ),
{
    let ghost g = screen_view(*graphics);
    let ghost sprite = memory@.subrange(at as int, at + rows);
    let mut collision = false;
    let mut row: u8 = 0;
    while row < rows
        invariant
            row <= rows <= GRAPHICS_HEIGHT,
            at + rows <= 4096,
            sprite == memory@.subrange(at as int, at + rows),
            screen_wf(g),
            blit_so_far(g, screen_view(*graphics), sprite, ox as int, oy as int, row as int, 0),
            collision == collides_so_far(g, sprite, ox as int, oy as int, row as int, 0),
        decreases rows - row,
    {
        let byte: u8 = memory[at + row as usize];
        let position_y: usize = (oy as usize + row as usize) % GRAPHICS_HEIGHT;
        let mut col: u8 = 0;
        while col < 8
            invariant
                col <= 8,
                row < rows <= GRAPHICS_HEIGHT,
                sprite.len() == rows,
                byte == sprite[row as int],
                position_y == (oy + row) % (GRAPHICS_HEIGHT as int),
                screen_wf(g),
                blit_so_far(
                    g,
                    screen_view(*graphics),
                    sprite,
                    ox as int,
                    oy as int,
                    row as int,
                    col as int,
                ),
                collision == collides_so_far(g, sprite, ox as int, oy as int, row as int, col as int),
            decreases 8 - col,
        {
            let bit: bool = (byte >> (7 - col)) & 0x1 == 1;
            let position_x: usize = (ox as usize + col as usize) % GRAPHICS_WIDTH;
            let pixel: bool = graphics[position_y][position_x];
            let ghost before = screen_view(*graphics);
            proof {
                lemma_pixel_step(
                    sprite,
                    ox as int,
                    oy as int,
                    row as int,
                    col as int,
                    position_x as int,
                    position_y as int,
                );
                lemma_collides_step(g, sprite, ox as int, oy as int, row as int, col as int);
            }
            if bit && pixel {
                collision = true;
            }
            graphics[position_y][position_x] = pixel != bit;
            proof {
                let after = screen_view(*graphics);
                assert(screen_wf(after));
                assert forall|px: int, py: int|
                    0 <= px < GRAPHICS_WIDTH && 0 <= py < GRAPHICS_HEIGHT implies after[py][px] == (
                    g[py][px] != covered_so_far(
                        sprite,
                        ox as int,
                        oy as int,
                        row as int,
                        col + 1,
                        px,
                        py,
                    )) by {
                    lemma_pixel_step(sprite, ox as int, oy as int, row as int, col as int, px, py);
                    assert(before[py][px] == (g[py][px] != covered_so_far(
                        sprite,
                        ox as int,
                        oy as int,
                        row as int,
                        col as int,
                        px,
                        py,
                    )));
                }
            }
            col += 1;
        }
        proof {
            let cur = screen_view(*graphics);
            assert forall|px: int, py: int|
                0 <= px < GRAPHICS_WIDTH && 0 <= py < GRAPHICS_HEIGHT implies cur[py][px] == (
                g[py][px] != covered_so_far(sprite, ox as int, oy as int, row + 1, 0, px, py)) by {
                assert(cur[py][px] == (g[py][px] != covered_so_far(
                    sprite,
                    ox as int,
                    oy as int,
                    row as int,
                    8,
                    px,
                    py,
                )));
            }
            assert(collides_so_far(g, sprite, ox as int, oy as int, row as int, 8)
                == collides_so_far(g, sprite, ox as int, oy as int, row + 1, 0)) by {
                if collides_so_far(g, sprite, ox as int, oy as int, row as int, 8) {
                    let (px, py) = choose|px: int, py: int|
                        0 <= px < GRAPHICS_WIDTH && 0 <= py < GRAPHICS_HEIGHT && g[py][px]
                            && #[trigger] covered_so_far(
                            sprite,
                            ox as int,
                            oy as int,
                            row as int,
                            8,
                            px,
                            py,
                        );
                    assert(covered_so_far(sprite, ox as int, oy as int, row + 1, 0, px, py));
                }
                if collides_so_far(g, sprite, ox as int, oy as int, row + 1, 0) {
                    let (px, py) = choose|px: int, py: int|
                        0 <= px < GRAPHICS_WIDTH && 0 <= py < GRAPHICS_HEIGHT && g[py][px]
                            && #[trigger] covered_so_far(
                            sprite,
                            ox as int,
                            oy as int,
                            row + 1,
                            0,
                            px,
                            py,
                        );
                    assert(covered_so_far(sprite, ox as int, oy as int, row as int, 8, px, py));
                }
            }
        }
        row += 1;
    }
    proof {
        let cur = screen_view(*graphics);
        assert forall|px: int, py: int|
            0 <= px < GRAPHICS_WIDTH && 0 <= py < GRAPHICS_HEIGHT implies covered_so_far(
            sprite,
            ox as int,
            oy as int,
            rows as int,
            0,
            px,
            py,
        ) == sprite_covers(sprite, ox as int, oy as int, px, py) by {}
        assert(cur =~~= blit(g, sprite, ox as int, oy as int));
        assert(collides_so_far(g, sprite, ox as int, oy as int, rows as int, 0) == collides(
            g,
            sprite,
            ox as int,
            oy as int,
        )) by {
            if collides_so_far(g, sprite, ox as int, oy as int, rows as int, 0) {
                let (px, py) = choose|px: int, py: int|
                    0 <= px < GRAPHICS_WIDTH && 0 <= py < GRAPHICS_HEIGHT && g[py][px]
                        && #[trigger] covered_so_far(
                        sprite,
                        ox as int,
                        oy as int,
                        rows as int,
                        0,
                        px,
                        py,
                    );
                assert(sprite_covers(sprite, ox as int, oy as int, px, py));
            }
            if collides(g, sprite, ox as int, oy as int) {
                let (px, py) = choose|px: int, py: int|
                    0 <= px < GRAPHICS_WIDTH && 0 <= py < GRAPHICS_HEIGHT && g[py][px]
                        && #[trigger] sprite_covers(sprite, ox as int, oy as int, px, py);
                assert(covered_so_far(sprite, ox as int, oy as int, rows as int, 0, px, py));
            }
        }
    }
    collision
}

} // verus!
