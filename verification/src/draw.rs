//! Sprite drawing: which pixels a sprite covers, what the display becomes,
//! and when a draw collides.

use vstd::prelude::*;
use crate::state::InterpreterData;
use crate::state::Machine;

verus! {

/// Whether bit `j` of a sprite row is set, counting from the least
/// significant bit. Bit `j` lands `j` columns to the right of the sprite's
/// origin.
pub open spec fn sprite_bit(row_byte: u8, j: u8) -> bool {
    row_byte & (1u8 << j) != 0
}

/// Whether the part of a sprite drawn so far covers the pixel at `col`,
/// `row`: the first `rows` rows in full and the first `bits` bits of the
/// row after them.
///
/// The sprite's rows are the bytes of `memory` from `base`; its origin is
/// column `vx`, row `vy`, and it wraps around both edges of the display.
pub open spec fn covers_upto(
    memory: Seq<u8>,
    base: int,
    rows: int,
    bits: int,
    vx: int,
    vy: int,
    col: int,
    row: int,
) -> bool {
    let j = (col - vx) % 64;
    let k = (row - vy) % 32;
    j < 8 && (k < rows || (k == rows && j < bits)) && sprite_bit(memory[base + k], j as u8)
}

/// Whether the sprite of `height` rows at `base`, drawn at column `vx`, row
/// `vy`, has a set bit on the pixel at `col`, `row`.
pub open spec fn sprite_covers(
    memory: Seq<u8>,
    base: int,
    height: int,
    vx: int,
    vy: int,
    col: int,
    row: int,
) -> bool {
    covers_upto(memory, base, height, 0, vx, vy, col, row)
}

/// The display after the sprite is drawn: every covered pixel flipped,
/// every other pixel as it was.
pub open spec fn drawn(
    display: Seq<Seq<bool>>,
    memory: Seq<u8>,
    base: int,
    height: int,
    vx: int,
    vy: int,
) -> Seq<Seq<bool>> {
    Seq::new(
        64,
        |c: int|
            Seq::new(
                32,
                |r: int| display[c][r] != sprite_covers(memory, base, height, vx, vy, c, r),
            ),
    )
}

/// Whether the part of a sprite drawn so far turns off the lit pixel at
/// `col`, `row`.
pub open spec fn erases_upto(
    display: Seq<Seq<bool>>,
    memory: Seq<u8>,
    base: int,
    rows: int,
    bits: int,
    vx: int,
    vy: int,
    col: int,
    row: int,
) -> bool {
    0 <= col < 64 && 0 <= row < 32 && display[col][row] && covers_upto(
        memory,
        base,
        rows,
        bits,
        vx,
        vy,
        col,
        row,
    )
}

/// Whether drawing the sprite turns off a pixel that was lit.
pub open spec fn collides(
    display: Seq<Seq<bool>>,
    memory: Seq<u8>,
    base: int,
    height: int,
    vx: int,
    vy: int,
) -> bool {
    exists|c: int, r: int| #[trigger]
        erases_upto(display, memory, base, height, 0, vx, vy, c, r)
}

/// Draws the sprite of `height` rows that starts at `I` at column `vx`, row
/// `vy`, and reports whether it turned a lit pixel off. Touches the screen
/// only.
pub(crate) fn draw_sprite(state: &mut InterpreterData, height: u8, vx: u8, vy: u8) -> (collision:
    bool)
    requires
        height <= 32,
        old(state).i + height <= 4096,
    ensures
        final(state)@ == (Machine {
            display: drawn(
                old(state)@.display,
                old(state)@.memory,
                old(state).i as int,
                height as int,
                vx as int,
                vy as int,
            ),
            ..old(state)@
        }),
        collision == collides(
            old(state)@.display,
            old(state)@.memory,
            old(state).i as int,
            height as int,
            vx as int,
            vy as int,
        ),
{
    let ghost before = state@;
    let ghost shown = state@.display;
    let ghost memory = state@.memory;
    let ghost base = state.i as int;
    let mut collision = false;
    let mut i: u8 = 0;
    while i < height
        invariant
            i <= height <= 32,
            base + height <= 4096,
            base == state.i,
            memory == state@.memory,
            state@ == (Machine { display: state@.display, ..before }),
            shown == before.display,
            forall|c: int, r: int|
                0 <= c < 64 && 0 <= r < 32 ==> #[trigger] state.screen[c][r] == (shown[c][r]
                    != covers_upto(memory, base, i as int, 0, vx as int, vy as int, c, r)),
            collision == (exists|c: int, r: int| #[trigger]
                erases_upto(shown, memory, base, i as int, 0, vx as int, vy as int, c, r)),
        decreases height - i,
    {
        let sb = state.mem[state.i as usize + i as usize];
        let yi = (vy as usize + i as usize) % 32;
        let mut j: u8 = 0;
        while j < 8
            invariant
                j <= 8,
                i < height <= 32,
                base + height <= 4096,
                base == state.i,
                memory == state@.memory,
                sb == memory[base + i],
                yi == (vy + i) % 32,
                state@ == (Machine { display: state@.display, ..before }),
                shown == before.display,
                forall|c: int, r: int|
                    0 <= c < 64 && 0 <= r < 32 ==> #[trigger] state.screen[c][r] == (shown[c][r]
                        != covers_upto(
                        memory,
                        base,
                        i as int,
                        j as int,
                        vx as int,
                        vy as int,
                        c,
                        r,
                    )),
                collision == (exists|c: int, r: int| #[trigger]
                    erases_upto(
                        shown,
                        memory,
                        base,
                        i as int,
                        j as int,
                        vx as int,
                        vy as int,
                        c,
                        r,
                    )),
            decreases 8 - j,
        {
            let xj = (vx as usize + j as usize) % 64;
            let ghost was = collision;
            let ghost screen_before = state.screen;
            assert(!covers_upto(
                memory,
                base,
                i as int,
                j as int,
                vx as int,
                vy as int,
                xj as int,
                yi as int,
            ));
            if sb & (1u8 << j) != 0 {
                let mut column = state.screen[xj];
                if column[yi] {
                    collision = true;
                }
                column[yi] = !column[yi];
                state.screen[xj] = column;
            }
            proof {
                let set = sprite_bit(sb, j);
                assert forall|c: int, r: int| 0 <= c < 64 && 0 <= r < 32 implies covers_upto(
                    memory,
                    base,
                    i as int,
                    j + 1,
                    vx as int,
                    vy as int,
                    c,
                    r,
                ) == (covers_upto(memory, base, i as int, j as int, vx as int, vy as int, c, r)
                    || (c == xj && r == yi && set)) by {}
                assert forall|c: int, r: int| 0 <= c < 64 && 0 <= r < 32 implies #[trigger]
                    state.screen[c][r] == (shown[c][r] != covers_upto(
                    memory,
                    base,
                    i as int,
                    j + 1,
                    vx as int,
                    vy as int,
                    c,
                    r,
                )) by {
                    assert(screen_before[c][r] == (shown[c][r] != covers_upto(
                        memory,
                        base,
                        i as int,
                        j as int,
                        vx as int,
                        vy as int,
                        c,
                        r,
                    )));
                }
                let now = exists|c: int, r: int| #[trigger]
                    erases_upto(shown, memory, base, i as int, j + 1, vx as int, vy as int, c, r);
                if was {
                    let (c, r) = choose|c: int, r: int| #[trigger]
                        erases_upto(
                            shown,
                            memory,
                            base,
                            i as int,
                            j as int,
                            vx as int,
                            vy as int,
                            c,
                            r,
                        );
                    assert(erases_upto(
                        shown,
                        memory,
                        base,
                        i as int,
                        j + 1,
                        vx as int,
                        vy as int,
                        c,
                        r,
                    ));
                } else if set && screen_before[xj as int][yi as int] {
                    assert(erases_upto(
                        shown,
                        memory,
                        base,
                        i as int,
                        j + 1,
                        vx as int,
                        vy as int,
                        xj as int,
                        yi as int,
                    ));
                } else if now {
                    let (c, r) = choose|c: int, r: int| #[trigger]
                        erases_upto(
                            shown,
                            memory,
                            base,
                            i as int,
                            j + 1,
                            vx as int,
                            vy as int,
                            c,
                            r,
                        );
                    assert(erases_upto(
                        shown,
                        memory,
                        base,
                        i as int,
                        j as int,
                        vx as int,
                        vy as int,
                        c,
                        r,
                    ));
                }
                assert(collision == now);
                assert(state@.registers =~= before.registers);
            }
            j += 1;
        }
        proof {
            assert forall|c: int, r: int| covers_upto(
                memory,
                base,
                i as int,
                8,
                vx as int,
                vy as int,
                c,
                r,
            ) == covers_upto(memory, base, i + 1, 0, vx as int, vy as int, c, r) by {}
            assert forall|c: int, r: int| erases_upto(
                shown,
                memory,
                base,
                i as int,
                8,
                vx as int,
                vy as int,
                c,
                r,
            ) == #[trigger] erases_upto(
                shown,
                memory,
                base,
                i + 1,
                0,
                vx as int,
                vy as int,
                c,
                r,
            ) by {}
            let done = exists|c: int, r: int| #[trigger]
                erases_upto(shown, memory, base, i + 1, 0, vx as int, vy as int, c, r);
            if collision {
                let (c, r) = choose|c: int, r: int| #[trigger]
                    erases_upto(shown, memory, base, i as int, 8, vx as int, vy as int, c, r);
                assert(erases_upto(shown, memory, base, i + 1, 0, vx as int, vy as int, c, r));
            } else if done {
                let (c, r) = choose|c: int, r: int| #[trigger]
                    erases_upto(shown, memory, base, i + 1, 0, vx as int, vy as int, c, r);
                assert(erases_upto(shown, memory, base, i as int, 8, vx as int, vy as int, c, r));
            }
        }
        i += 1;
    }
    proof {
        let target = drawn(shown, memory, base, height as int, vx as int, vy as int);
        assert forall|c: int| 0 <= c < 64 implies #[trigger] state@.display[c] =~= target[c] by {
            assert forall|r: int| 0 <= r < 32 implies state@.display[c][r] == target[c][r] by {
                assert(state.screen[c][r] == (shown[c][r] != covers_upto(
                    memory,
                    base,
                    height as int,
                    0,
                    vx as int,
                    vy as int,
                    c,
                    r,
                )));
            }
        }
        assert(state@.display =~= target);
    }
    collision
}

} // verus!
