use vstd::prelude::*;

use crate::machine::{sprite_bit, wrap_address, Machine};

verus! {

impl Machine {
    /// The pixel that a sprite of `n` rows, drawn with its top left corner at
    /// column `vx` and row `vy`, puts on screen position (`r`, `c`): 0 where
    /// the sprite does not reach.
    pub open spec fn sprite_pixel(self, vx: int, vy: int, n: int, r: int, c: int) -> u8 {
        let row = (r - vy) % 32;
        let bit = (c - vx) % 64;
        if row < n && bit < 8 {
            sprite_bit(self.byte_at(self.i + row), bit)
        } else {
            0
        }
    }

    /// The sprite lights a pixel at (`r`, `c`) that is already lit.
    pub open spec fn hits(self, vx: int, vy: int, n: int, r: int, c: int) -> bool {
        &&& 0 <= r < 32
        &&& 0 <= c < 64
        &&& self.sprite_pixel(vx, vy, n, r, c) == 1
        &&& self.vram[r][c] == 1
    }

    /// The sprite lights some pixel that is already lit.
    pub open spec fn collides(self, vx: int, vy: int, n: int) -> bool {
        exists|r: int, c: int| self.hits(vx, vy, n, r, c)
    }

    /// The state differs from `before` in the framebuffer and VF at most.
    pub open spec fn drawn_from(self, before: Machine) -> bool {
        self == (Machine {
            registers: before.registers.update(15, self.registers[15]),
            vram: self.vram,
            ..before
        })
    }
}

proof fn lemma_pixel_bits(flag: u8, color: u8, before: u8)
    by (bit_vector)
    requires
        flag <= 1,
        color <= 1,
        before <= 1,
    ensures
        before ^ color <= 1,
        flag | (color & before) <= 1,
        (flag | (color & before)) == 1 <==> (flag == 1 || (color == 1 && before == 1)),
        before ^ 0 == before,
        (before ^ color) ^ color == before,
        (before ^ color) == 1 <==> (before != color),
{
}

proof fn lemma_sprite_bit_range(row: u8, bit: int)
    requires
        0 <= bit < 8,
    ensures
        sprite_bit(row, bit) <= 1,
{
    let s: u8 = (7 - bit) as u8;
    assert((row >> s) & 1u8 <= 1) by (bit_vector);
}

/// One pixel of a sprite changes one cell of the framebuffer and VF, and
/// nothing else.
proof fn lemma_draw_pixel(p: Machine, x: int, dest_y: int, row: int, bit: int)
    requires
        p.wf(),
        p.registers[15] <= 1,
        0 <= x < 16,
        0 <= dest_y < 32,
        0 <= bit < 8,
    ensures
        ({
            let q = p.draw_pixel(x, dest_y, row, bit);
            let dest_x = (p.registers[x] + bit) % 64;
            let color = sprite_bit(p.byte_at(p.i + row), bit);
            &&& q.wf()
            &&& q.drawn_from(p)
            &&& q.registers[15] <= 1
            &&& q.registers[15] == 1 <==> (p.registers[15] == 1 || (color == 1
                && p.vram[dest_y][dest_x] == 1))
            &&& forall|r: int, c: int|
                0 <= r < 32 && 0 <= c < 64 ==> #[trigger] q.vram[r][c] == if r == dest_y && c
                    == dest_x {
                    p.vram[r][c] ^ color
                } else {
                    p.vram[r][c]
                }
        }),
{
    let q = p.draw_pixel(x, dest_y, row, bit);
    let dest_x = (p.registers[x] + bit) % 64;
    let color = sprite_bit(p.byte_at(p.i + row), bit);
    let before = p.vram[dest_y][dest_x];
    lemma_sprite_bit_range(p.byte_at(p.i + row), bit);
    lemma_pixel_bits(p.registers[15], color, before);
    assert forall|r: int, c: int| 0 <= r < 32 && 0 <= c < 64 implies #[trigger] q.vram[r][c]
        == if r == dest_y && c == dest_x {
        p.vram[r][c] ^ color
    } else {
        p.vram[r][c]
    } by {}
    assert forall|r: int| 0 <= r < 32 implies (#[trigger] q.vram[r]).len() == 64 by {}
    assert forall|r: int, c: int| 0 <= r < 32 && 0 <= c < 64 implies #[trigger] q.vram[r][c]
        <= 1 by {
        assert(p.vram[r][c] <= 1);
    }
    assert(q.registers =~= p.registers.update(15, q.registers[15]));
}

/// A sprite row changes the framebuffer and VF, and nothing else, whatever
/// register holds its column.
proof fn lemma_draw_row_frame(p: Machine, x: int, dest_y: int, row: int, bits: nat)
    requires
        p.wf(),
        p.registers[15] <= 1,
        0 <= x < 16,
        0 <= dest_y < 32,
        bits <= 8,
    ensures
        p.draw_row(x, dest_y, row, bits).wf(),
        p.draw_row(x, dest_y, row, bits).drawn_from(p),
        p.draw_row(x, dest_y, row, bits).registers[15] <= 1,
    decreases bits,
{
    if bits > 0 {
        let left = p.draw_row(x, dest_y, row, (bits - 1) as nat);
        lemma_draw_row_frame(p, x, dest_y, row, (bits - 1) as nat);
        lemma_draw_pixel(left, x, dest_y, row, bits - 1);
        let q = left.draw_pixel(x, dest_y, row, bits - 1);
        assert(q.registers =~= p.registers.update(15, q.registers[15]));
    } else {
        assert(p.registers =~= p.registers.update(15, p.registers[15]));
    }
}

/// A sprite changes the framebuffer and VF, and nothing else, whatever
/// registers hold its position.
proof fn lemma_draw_rows_frame(p: Machine, x: int, y: int, rows: nat)
    requires
        p.wf(),
        p.registers[15] <= 1,
        0 <= x < 16,
        0 <= y < 16,
    ensures
        p.draw_rows(x, y, rows).wf(),
        p.draw_rows(x, y, rows).drawn_from(p),
        p.draw_rows(x, y, rows).registers[15] <= 1,
    decreases rows,
{
    if rows > 0 {
        let above = p.draw_rows(x, y, (rows - 1) as nat);
        lemma_draw_rows_frame(p, x, y, (rows - 1) as nat);
        let dest_y = (above.registers[y] + rows - 1) % 32;
        lemma_draw_row_frame(above, x, dest_y, rows - 1, 8);
        let q = above.draw_row(x, dest_y, rows - 1, 8);
        assert(q.registers =~= p.registers.update(15, q.registers[15]));
    } else {
        assert(p.registers =~= p.registers.update(15, p.registers[15]));
    }
}

/// The first `bits` pixels of a sprite row hit a lit pixel of screen row
/// `dest_y`.
spec fn row_hits(p: Machine, vx: int, dest_y: int, row: int, bits: int, c: int) -> bool {
    &&& 0 <= c < 64
    &&& (c - vx) % 64 < bits
    &&& sprite_bit(p.byte_at(p.i + row), (c - vx) % 64) == 1
    &&& p.vram[dest_y][c] == 1
}

/// What a sprite row does when its column register is not VF: the pixels
/// from column `Vx` on are XORed with the row's bits, and VF becomes 1 if
/// one of them was lit under a set bit.
proof fn lemma_draw_row_effect(p: Machine, x: int, dest_y: int, row: int, bits: nat)
    requires
        p.wf(),
        p.registers[15] <= 1,
        0 <= x < 15,
        0 <= dest_y < 32,
        bits <= 8,
    ensures
        ({
            let q = p.draw_row(x, dest_y, row, bits);
            let vx = p.registers[x] as int;
            let byte = p.byte_at(p.i + row);
            &&& q.wf()
            &&& q.drawn_from(p)
            &&& q.registers[15] <= 1
            &&& q.registers[15] == 1 <==> (p.registers[15] == 1 || exists|c: int|
                row_hits(p, vx, dest_y, row, bits as int, c))
            &&& forall|r: int, c: int|
                0 <= r < 32 && 0 <= c < 64 ==> #[trigger] q.vram[r][c] == if r == dest_y && (c
                    - vx) % 64 < bits {
                    p.vram[r][c] ^ sprite_bit(byte, (c - vx) % 64)
                } else {
                    p.vram[r][c]
                }
        }),
    decreases bits,
{
    let vx = p.registers[x] as int;
    let byte = p.byte_at(p.i + row);
    if bits > 0 {
        let b = bits - 1;
        let left = p.draw_row(x, dest_y, row, b as nat);
        lemma_draw_row_effect(p, x, dest_y, row, b as nat);
        lemma_draw_pixel(left, x, dest_y, row, b);
        let q = left.draw_pixel(x, dest_y, row, b);
        let dest_x = (vx + b) % 64;
        let color = sprite_bit(byte, b);
        assert(left.registers[x] == p.registers[x]);
        assert(left.byte_at(left.i + row) == byte);
        assert((dest_x - vx) % 64 == b);
        assert(left.vram[dest_y][dest_x] == p.vram[dest_y][dest_x]);
        assert(q.registers =~= p.registers.update(15, q.registers[15]));
        assert forall|r: int, c: int| 0 <= r < 32 && 0 <= c < 64 implies #[trigger] q.vram[r][c]
            == if r == dest_y && (c - vx) % 64 < bits {
            p.vram[r][c] ^ sprite_bit(byte, (c - vx) % 64)
        } else {
            p.vram[r][c]
        } by {
            assert(left.vram[r][c] == if r == dest_y && (c - vx) % 64 < b {
                p.vram[r][c] ^ sprite_bit(byte, (c - vx) % 64)
            } else {
                p.vram[r][c]
            });
            if r == dest_y && c == dest_x {
            } else if r == dest_y {
                assert((c - vx) % 64 != b);
            }
        }
        if q.registers[15] == 1 {
            if p.registers[15] != 1 {
                if left.registers[15] == 1 {
                    let c = choose|c: int| row_hits(p, vx, dest_y, row, b, c);
                    assert(row_hits(p, vx, dest_y, row, bits as int, c));
                } else {
                    assert(row_hits(p, vx, dest_y, row, bits as int, dest_x));
                }
            }
        }
        if p.registers[15] == 1 {
            assert(q.registers[15] == 1);
        }
        if exists|c: int| row_hits(p, vx, dest_y, row, bits as int, c) {
            let c = choose|c: int| row_hits(p, vx, dest_y, row, bits as int, c);
            if (c - vx) % 64 < b {
                assert(row_hits(p, vx, dest_y, row, b, c));
            } else {
                assert((c - vx) % 64 == b);
                assert(c == dest_x);
            }
            assert(q.registers[15] == 1);
        }
    } else {
        assert(p.registers =~= p.registers.update(15, p.registers[15]));
    }
}

/// What the rows of a sprite do when neither position register is VF.
proof fn lemma_draw_rows_effect(p: Machine, x: int, y: int, rows: nat)
    requires
        p.wf(),
        p.registers[15] <= 1,
        0 <= x < 15,
        0 <= y < 15,
        rows <= 32,
    ensures
        ({
            let q = p.draw_rows(x, y, rows);
            let vx = p.registers[x] as int;
            let vy = p.registers[y] as int;
            &&& q.wf()
            &&& q.drawn_from(p)
            &&& q.registers[15] <= 1
            &&& q.registers[15] == 1 <==> (p.registers[15] == 1 || p.collides(
                vx,
                vy,
                rows as int,
            ))
            &&& forall|r: int, c: int|
                0 <= r < 32 && 0 <= c < 64 ==> #[trigger] q.vram[r][c] == p.vram[r][c]
                    ^ p.sprite_pixel(vx, vy, rows as int, r, c)
        }),
    decreases rows,
{
    let vx = p.registers[x] as int;
    let vy = p.registers[y] as int;
    if rows > 0 {
        let k = rows - 1;
        let above = p.draw_rows(x, y, k as nat);
        lemma_draw_rows_effect(p, x, y, k as nat);
        let dest_y = (vy + k) % 32;
        assert(above.registers[y] == p.registers[y]);
        assert(above.registers[x] == p.registers[x]);
        lemma_draw_row_effect(above, x, dest_y, k, 8);
        let q = above.draw_row(x, dest_y, k, 8);
        let byte = p.byte_at(p.i + k);
        assert(above.byte_at(above.i + k) == byte);
        assert(q.registers =~= p.registers.update(15, q.registers[15]));
        assert((dest_y - vy) % 32 == k);
        assert forall|r: int, c: int| 0 <= r < 32 && 0 <= c < 64 implies #[trigger] q.vram[r][c]
            == p.vram[r][c] ^ p.sprite_pixel(vx, vy, rows as int, r, c) by {
            assert(above.vram[r][c] == p.vram[r][c] ^ p.sprite_pixel(vx, vy, k, r, c));
            lemma_pixel_bits(0, 0, p.vram[r][c]);
            if r == dest_y {
                assert(p.sprite_pixel(vx, vy, k, r, c) == 0);
                assert(above.vram[r][c] == p.vram[r][c]);
            } else {
                assert((r - vy) % 32 != k);
                assert(p.sprite_pixel(vx, vy, rows as int, r, c) == p.sprite_pixel(
                    vx,
                    vy,
                    k,
                    r,
                    c,
                ));
            }
        }
        if q.registers[15] == 1 && p.registers[15] != 1 {
            if above.registers[15] == 1 {
                let (r, c) = choose|r: int, c: int| p.hits(vx, vy, k, r, c);
                assert(p.hits(vx, vy, k, r, c));
                assert(p.hits(vx, vy, rows as int, r, c));
            } else {
                let c = choose|c: int| row_hits(above, vx, dest_y, k, 8, c);
                assert(row_hits(above, vx, dest_y, k, 8, c));
                assert(above.vram[dest_y][c] == p.vram[dest_y][c] ^ p.sprite_pixel(
                    vx,
                    vy,
                    k,
                    dest_y,
                    c,
                ));
                lemma_pixel_bits(0, 0, p.vram[dest_y][c]);
                assert(p.hits(vx, vy, rows as int, dest_y, c));
            }
        }
        if p.collides(vx, vy, rows as int) {
            let (r, c) = choose|r: int, c: int| p.hits(vx, vy, rows as int, r, c);
            assert(p.hits(vx, vy, rows as int, r, c));
            if (r - vy) % 32 < k {
                assert(p.hits(vx, vy, k, r, c));
            } else {
                assert(r == dest_y);
                assert(above.vram[dest_y][c] == p.vram[dest_y][c] ^ p.sprite_pixel(
                    vx,
                    vy,
                    k,
                    dest_y,
                    c,
                ));
                lemma_pixel_bits(0, 0, p.vram[dest_y][c]);
                assert(row_hits(above, vx, dest_y, k, 8, c));
            }
            assert(q.registers[15] == 1);
        }
    } else {
        assert(p.registers =~= p.registers.update(15, p.registers[15]));
        assert forall|r: int, c: int| 0 <= r < 32 && 0 <= c < 64 implies #[trigger] p.vram[r][c]
            == p.vram[r][c] ^ p.sprite_pixel(vx, vy, 0, r, c) by {
            lemma_pixel_bits(0, 0, p.vram[r][c]);
        }
        if p.collides(vx, vy, 0) {
            let (r, c) = choose|r: int, c: int| p.hits(vx, vy, 0, r, c);
            assert(p.hits(vx, vy, 0, r, c));
        }
    }
}

/// A draw instruction changes the framebuffer, VF, the changed flag and the
/// program counter, and nothing else; it keeps the machine's invariant.
pub proof fn lemma_draw_frame(m: Machine, x: int, y: int, n: nat)
    requires
        m.wf(),
        0 <= x < 16,
        0 <= y < 16,
    ensures
        ({
            let d = m.draw(x, y, n);
            &&& d.wf()
            &&& d.registers[15] <= 1
            &&& d == (Machine {
                registers: m.registers.update(15, d.registers[15]),
                vram: d.vram,
                vram_changed: true,
                pc: wrap_address(m.pc + 2),
                ..m
            })
        }),
{
    let cleared = m.set_register(15, 0);
    lemma_draw_rows_frame(cleared, x, y, n);
    let d = m.draw(x, y, n);
    assert(d.registers =~= m.registers.update(15, d.registers[15]));
}

/// What a draw instruction does when neither position register is VF: every
/// pixel is XORed with the sprite's pixel at its place, and VF tells whether
/// the sprite lit a pixel that was already lit.
pub proof fn lemma_draw_effect(m: Machine, x: int, y: int, n: nat)
    requires
        m.wf(),
        0 <= x < 15,
        0 <= y < 15,
        n <= 32,
    ensures
        ({
            let d = m.draw(x, y, n);
            let vx = m.registers[x] as int;
            let vy = m.registers[y] as int;
            &&& d.registers[15] == if m.collides(vx, vy, n as int) {
                1u8
            } else {
                0u8
            }
            &&& forall|r: int, c: int|
                0 <= r < 32 && 0 <= c < 64 ==> #[trigger] d.vram[r][c] == m.vram[r][c]
                    ^ m.sprite_pixel(vx, vy, n as int, r, c)
        }),
{
    let cleared = m.set_register(15, 0);
    let vx = m.registers[x] as int;
    let vy = m.registers[y] as int;
    lemma_draw_rows_effect(cleared, x, y, n);
    let after = cleared.draw_rows(x, y, n);
    assert forall|r: int, c: int| cleared.hits(vx, vy, n as int, r, c) == m.hits(
        vx,
        vy,
        n as int,
        r,
        c,
    ) by {}
    if m.collides(vx, vy, n as int) {
        let (r, c) = choose|r: int, c: int| m.hits(vx, vy, n as int, r, c);
        assert(cleared.hits(vx, vy, n as int, r, c));
    }
    if cleared.collides(vx, vy, n as int) {
        let (r, c) = choose|r: int, c: int| cleared.hits(vx, vy, n as int, r, c);
        assert(m.hits(vx, vy, n as int, r, c));
    }
    let d = m.draw(x, y, n);
    assert forall|r: int, c: int| 0 <= r < 32 && 0 <= c < 64 implies #[trigger] d.vram[r][c]
        == m.vram[r][c] ^ m.sprite_pixel(vx, vy, n as int, r, c) by {
        assert(after.vram[r][c] == cleared.vram[r][c] ^ cleared.sprite_pixel(
            vx,
            vy,
            n as int,
            r,
            c,
        ));
    }
}

/// Drawing a sprite twice at the same place restores the framebuffer. If the
/// sprite has a set pixel and every pixel it lights was off before the first
/// draw, the second draw reports a collision: VF is 1 after it.
pub proof fn lemma_draw_twice(m: Machine, x: int, y: int, n: nat)
    requires
        m.wf(),
        0 <= x < 15,
        0 <= y < 15,
        n <= 32,
    ensures
        ({
            let vx = m.registers[x] as int;
            let vy = m.registers[y] as int;
            let twice = m.draw(x, y, n).draw(x, y, n);
            &&& twice.vram == m.vram
            &&& (exists|r: int, c: int|
                0 <= r < 32 && 0 <= c < 64 && m.sprite_pixel(vx, vy, n as int, r, c) == 1
                    && #[trigger] m.vram[r][c] == 0) ==> twice.registers[15] == 1
        }),
{
    let vx = m.registers[x] as int;
    let vy = m.registers[y] as int;
    let once = m.draw(x, y, n);
    let twice = once.draw(x, y, n);
    lemma_draw_frame(m, x, y, n);
    lemma_draw_effect(m, x, y, n);
    lemma_draw_frame(once, x, y, n);
    lemma_draw_effect(once, x, y, n);
    assert(once.registers[x] == m.registers[x]);
    assert(once.registers[y] == m.registers[y]);
    assert forall|r: int, c: int| 0 <= r < 32 && 0 <= c < 64 implies twice.vram[r][c]
        == m.vram[r][c] by {
        let s = m.sprite_pixel(vx, vy, n as int, r, c);
        assert(once.sprite_pixel(vx, vy, n as int, r, c) == s);
        assert(once.vram[r][c] == m.vram[r][c] ^ s);
        assert(twice.vram[r][c] == once.vram[r][c] ^ s);
        if s != 0 {
            lemma_sprite_bit_range(m.byte_at(m.i + (r - vy) % 32), (c - vx) % 64);
        }
        lemma_pixel_bits(0, s, m.vram[r][c]);
    }
    assert(twice.vram =~~= m.vram);
    if exists|r: int, c: int|
        0 <= r < 32 && 0 <= c < 64 && m.sprite_pixel(vx, vy, n as int, r, c) == 1
            && #[trigger] m.vram[r][c] == 0 {
        let (r, c) = choose|r: int, c: int|
            0 <= r < 32 && 0 <= c < 64 && m.sprite_pixel(vx, vy, n as int, r, c) == 1
                && #[trigger] m.vram[r][c] == 0;
        assert(once.sprite_pixel(vx, vy, n as int, r, c) == 1);
        assert(once.vram[r][c] == m.vram[r][c] ^ 1u8);
        lemma_pixel_bits(0, 1, m.vram[r][c]);
        assert(once.hits(vx, vy, n as int, r, c));
    }
}

proof fn lemma_set_bit(byte: u8)
    by (bit_vector)
    requires
        byte != 0,
    ensures
        (byte >> 7u8) & 1u8 == 1 || (byte >> 6u8) & 1u8 == 1 || (byte >> 5u8) & 1u8 == 1 || (byte
            >> 4u8) & 1u8 == 1 || (byte >> 3u8) & 1u8 == 1 || (byte >> 2u8) & 1u8 == 1 || (byte
            >> 1u8) & 1u8 == 1 || (byte >> 0u8) & 1u8 == 1,
{
}

/// A sprite with a byte that is not zero lights a pixel of the screen.
proof fn lemma_sprite_reaches(m: Machine, vx: int, vy: int, n: int, k: int) -> (at: (int, int))
    requires
        0 <= vx < 256,
        0 <= vy < 256,
        n <= 32,
        0 <= k < n,
        m.byte_at(m.i + k) != 0,
    ensures
        0 <= at.0 < 32,
        0 <= at.1 < 64,
        m.sprite_pixel(vx, vy, n, at.0, at.1) == 1,
{
    let byte = m.byte_at(m.i + k);
    lemma_set_bit(byte);
    let bit: int = if sprite_bit(byte, 0) == 1 {
        0
    } else if sprite_bit(byte, 1) == 1 {
        1
    } else if sprite_bit(byte, 2) == 1 {
        2
    } else if sprite_bit(byte, 3) == 1 {
        3
    } else if sprite_bit(byte, 4) == 1 {
        4
    } else if sprite_bit(byte, 5) == 1 {
        5
    } else if sprite_bit(byte, 6) == 1 {
        6
    } else {
        7
    };
    assert(sprite_bit(byte, bit) == 1);
    let r = (vy + k) % 32;
    let c = (vx + bit) % 64;
    assert((r - vy) % 32 == k);
    assert((c - vx) % 64 == bit);
    (r, c)
}

/// Drawing a sprite that is not all zero twice at the same place, onto
/// pixels that were off, turns every such pixel off again and reports a
/// collision on the second draw: VF is 1 after it.
pub proof fn lemma_draw_twice_collides(m: Machine, x: int, y: int, n: nat)
    requires
        m.wf(),
        0 <= x < 15,
        0 <= y < 15,
        n <= 32,
        exists|k: int| 0 <= k < n && #[trigger] m.byte_at(m.i + k) != 0,
        forall|r: int, c: int|
            0 <= r < 32 && 0 <= c < 64 && m.sprite_pixel(
                m.registers[x] as int,
                m.registers[y] as int,
                n as int,
                r,
                c,
            ) == 1 ==> #[trigger] m.vram[r][c] == 0,
    ensures
        m.draw(x, y, n).draw(x, y, n).vram == m.vram,
        m.draw(x, y, n).draw(x, y, n).registers[15] == 1,
        m.draw(x, y, n).registers[15] == 0,
{
    let vx = m.registers[x] as int;
    let vy = m.registers[y] as int;
    let k = choose|k: int| 0 <= k < n && #[trigger] m.byte_at(m.i + k) != 0;
    let at = lemma_sprite_reaches(m, vx, vy, n as int, k);
    assert(m.vram[at.0][at.1] == 0);
    lemma_draw_twice(m, x, y, n);
    lemma_draw_effect(m, x, y, n);
    if m.collides(vx, vy, n as int) {
        let (r, c) = choose|r: int, c: int| m.hits(vx, vy, n as int, r, c);
        assert(m.hits(vx, vy, n as int, r, c));
        assert(m.vram[r][c] == 0);
    }
}

} // verus!
