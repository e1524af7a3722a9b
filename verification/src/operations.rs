use vstd::prelude::*;

use crate::machine::{blank_screen, Machine};
use crate::processor::Processor;
use crate::random::random_byte;

verus! {

impl Processor {
    /// 00E0: clears the screen.
    pub fn op00e0(&mut self)
        requires
            old(self).wf(),
        ensures
            final(self).wf(),
            final(self)@ == old(self)@.clear_screen(),
            final(self).vram_changed,
            forall|r: int, c: int| 0 <= r < 32 && 0 <= c < 64 ==> final(self)@.vram[r][c] == 0,
    {
        self.vram = [[0;64];32];
        self.vram_changed = true;
        self.pc_next();
        proof {
            assert(self@.vram =~~= blank_screen());
        }
    }

    /// 00EE: returns from a subroutine. The stack pointer steps down by one
    /// and execution continues at the address in that slot. On an empty
    /// stack the pointer wraps to the top slot.
    pub fn op00ee(&mut self)
        requires
            old(self).wf(),
        ensures
            final(self).wf(),
            final(self)@ == old(self)@.return_from_subroutine(),
    {
        let slot: usize = if self.sp == 0 {
            47
        } else {
            self.sp - 1
        };
        self.sp = slot;
        let addr: usize = self.stack[slot];
        self.pc_jump(addr);
    }

    /// 1NNN: continues at `nnn`.
    pub fn op1nnn(&mut self, nnn: usize)
        requires
            old(self).wf(),
        ensures
            final(self).wf(),
            final(self)@ == old(self)@.jump(nnn as int),
    {
        self.pc_jump(nnn);
    }

    /// 2NNN: calls the subroutine at `nnn`. The address of the following
    /// instruction goes to the slot at the stack pointer, which steps up by
    /// one. On a full stack the pointer wraps to slot 0 first.
    pub fn op2nnn(&mut self, nnn: usize)
        requires
            old(self).wf(),
        ensures
            final(self).wf(),
            final(self)@ == old(self)@.call(nnn as int),
    {
        let slot: usize = if self.sp >= 48 {
            0
        } else {
            self.sp
        };
        self.stack[slot] = (self.pc + 2) % 4096;
        self.sp = slot + 1;
        proof {
            assert(self@.stack =~= old(self)@.call(nnn as int).stack);
            assert forall|k: int| 0 <= k < 48 implies 0 <= #[trigger] self@.stack[k] < 4096 by {
                if k != slot {
                    assert(self@.stack[k] == old(self)@.stack[k]);
                }
            }
        }
        self.pc_jump(nnn);
    }

    /// 3XKK: skips the next instruction if `Vx == kk`.
    pub fn op3xkk(&mut self, x: usize, kk: u8)
        requires
            old(self).wf(),
            x < 16,
        ensures
            final(self).wf(),
            final(self)@ == old(self)@.skip_if(old(self)@.registers[x as int] == kk),
    {
        if self.registers[x] == kk {
            self.pc_skip();
        } else {
            self.pc_next();
        }
    }

    /// 4XKK: skips the next instruction if `Vx != kk`.
    pub fn op4xkk(&mut self, x: usize, kk: u8)
        requires
            old(self).wf(),
            x < 16,
        ensures
            final(self).wf(),
            final(self)@ == old(self)@.skip_if(old(self)@.registers[x as int] != kk),
    {
        if self.registers[x] != kk {
            self.pc_skip();
        } else {
            self.pc_next();
        }
    }

    /// 5XY0: skips the next instruction if `Vx == Vy`.
    pub fn op5xy0(&mut self, x: usize, y: usize)
        requires
            old(self).wf(),
            x < 16,
            y < 16,
        ensures
            final(self).wf(),
            final(self)@ == old(self)@.skip_if(
                old(self)@.registers[x as int] == old(self)@.registers[y as int],
            ),
    {
        if self.registers[x] == self.registers[y] {
            self.pc_skip();
        } else {
            self.pc_next();
        }
    }

    /// 6XKK: `Vx := kk`.
    pub fn op6xkk(&mut self, x: usize, kk: u8)
        requires
            old(self).wf(),
            x < 16,
        ensures
            final(self).wf(),
            final(self)@ == old(self)@.set_register(x as int, kk).next(),
    {
        self.registers[x] = kk;
        self.pc_next();
    }

    /// 7XKK: `Vx := Vx + kk` modulo 256, then `VF := 1` if the sum passed
    /// 255, else 0.
    pub fn op7xkk(&mut self, x: usize, kk: u8)
        requires
            old(self).wf(),
            x < 16,
        ensures
            final(self).wf(),
            final(self)@ == old(self)@.add_with_carry(x as int, kk),
    {
        let sum: u16 = self.registers[x] as u16 + kk as u16;
        self.registers[x] = (sum % 256) as u8;
        self.registers[0x0f] = if sum > 0xff {
            1
        } else {
            0
        };
        self.pc_next();
    }

    /// 8XY0: `Vx := Vy`.
    pub fn op8xy0(&mut self, x: usize, y: usize)
        requires
            old(self).wf(),
            x < 16,
            y < 16,
        ensures
            final(self).wf(),
            final(self)@ == old(self)@.set_register(
                x as int,
                old(self)@.registers[y as int],
            ).next(),
    {
        self.registers[x] = self.registers[y];
        self.pc_next();
    }

    /// 8XY1: `Vx := Vx | Vy`.
    pub fn op8xy1(&mut self, x: usize, y: usize)
        requires
            old(self).wf(),
            x < 16,
            y < 16,
        ensures
            final(self).wf(),
            final(self)@ == old(self)@.set_register(
                x as int,
                old(self)@.registers[x as int] | old(self)@.registers[y as int],
            ).next(),
    {
        self.registers[x] = self.registers[x] | self.registers[y];
        self.pc_next();
    }

    /// 8XY2: `Vx := Vx & Vy`.
    pub fn op8xy2(&mut self, x: usize, y: usize)
        requires
            old(self).wf(),
            x < 16,
            y < 16,
        ensures
            final(self).wf(),
            final(self)@ == old(self)@.set_register(
                x as int,
                old(self)@.registers[x as int] & old(self)@.registers[y as int],
            ).next(),
    {
        self.registers[x] = self.registers[x] & self.registers[y];
        self.pc_next();
    }

    /// 8XY3: `Vx := Vx ^ Vy`.
    pub fn op8xy3(&mut self, x: usize, y: usize)
        requires
            old(self).wf(),
            x < 16,
            y < 16,
        ensures
            final(self).wf(),
            final(self)@ == old(self)@.set_register(
                x as int,
                old(self)@.registers[x as int] ^ old(self)@.registers[y as int],
            ).next(),
    {
        self.registers[x] = self.registers[x] ^ self.registers[y];
        self.pc_next();
    }

    /// 8XY4: `Vx := Vx + Vy` modulo 256, then `VF := 1` if the sum passed
    /// 255, else 0.
    pub fn op8xy4(&mut self, x: usize, y: usize)
        requires
            old(self).wf(),
            x < 16,
            y < 16,
        ensures
            final(self).wf(),
            final(self)@ == old(self)@.add_with_carry(x as int, old(self)@.registers[y as int]),
    {
        let vx: u16 = self.registers[x] as u16;
        let vy: u16 = self.registers[y] as u16;
        let result: u16 = vx + vy;
        self.registers[x] = (result % 256) as u8;
        self.registers[0x0f] = if result > 0xff {
            1
        } else {
            0
        };
        self.pc_next();
    }

    /// 8XY5: `VF := 1` if `Vx > Vy`, else 0; then `Vx := Vx - Vy` modulo
    /// 256.
    pub fn op8xy5(&mut self, x: usize, y: usize)
        requires
            old(self).wf(),
            x < 16,
            y < 16,
        ensures
            final(self).wf(),
            final(self)@ == old(self)@.subtract(x as int, y as int),
    {
        self.registers[0x0f] = if self.registers[x] > self.registers[y] {
            1
        } else {
            0
        };
        self.registers[x] = self.registers[x].wrapping_sub(self.registers[y]);
        self.pc_next();
    }

    /// 8X06: `VF :=` the lowest bit of `Vx`; then `Vx` shifts right by one.
    pub fn op8x06(&mut self, x: usize)
        requires
            old(self).wf(),
            x < 16,
        ensures
            final(self).wf(),
            final(self)@ == old(self)@.shift_right(x as int),
    {
        let before: u8 = self.registers[x];
        self.registers[0x0f] = before & 1;
        assert(before & 1 == before % 2) by (bit_vector);
        let flagged: u8 = self.registers[x];
        self.registers[x] = flagged >> 1;
        assert(flagged >> 1 == flagged / 2) by (bit_vector);
        self.pc_next();
    }

    /// 8XY7: `VF := 1` if `Vy > Vx`, else 0; then `Vx := Vy - Vx` modulo
    /// 256.
    pub fn op8xy7(&mut self, x: usize, y: usize)
        requires
            old(self).wf(),
            x < 16,
            y < 16,
        ensures
            final(self).wf(),
            final(self)@ == old(self)@.subtract_reversed(x as int, y as int),
    {
        self.registers[0x0f] = if self.registers[y] > self.registers[x] {
            1
        } else {
            0
        };
        self.registers[x] = self.registers[y].wrapping_sub(self.registers[x]);
        self.pc_next();
    }

    /// 8X0E: `VF :=` the highest bit of `Vx`; then `Vx` shifts left by one.
    pub fn op8x0e(&mut self, x: usize)
        requires
            old(self).wf(),
            x < 16,
        ensures
            final(self).wf(),
            final(self)@ == old(self)@.shift_left(x as int),
    {
        let before: u8 = self.registers[x];
        self.registers[0x0f] = (before & 0b10000000) >> 7;
        assert((before & 0b10000000) >> 7 == before / 128) by (bit_vector);
        let flagged: u8 = self.registers[x];
        self.registers[x] = flagged << 1;
        assert(flagged << 1 == (flagged * 2) % 256) by (bit_vector);
        self.pc_next();
    }

    /// 9XY0: skips the next instruction if `Vx != Vy`.
    pub fn op9xy0(&mut self, x: usize, y: usize)
        requires
            old(self).wf(),
            x < 16,
            y < 16,
        ensures
            final(self).wf(),
            final(self)@ == old(self)@.skip_if(
                old(self)@.registers[x as int] != old(self)@.registers[y as int],
            ),
    {
        if self.registers[x] != self.registers[y] {
            self.pc_skip();
        } else {
            self.pc_next();
        }
    }

    /// ANNN: `I := nnn`.
    pub fn opannn(&mut self, nnn: usize)
        requires
            old(self).wf(),
        ensures
            final(self).wf(),
            final(self)@ == (Machine { i: nnn as int, ..old(self)@ }).next(),
    {
        self.i = nnn;
        self.pc_next();
    }

    /// BNNN: continues at `V0 + nnn`, taken modulo the memory size.
    pub fn opbnnn(&mut self, nnn: usize)
        requires
            old(self).wf(),
        ensures
            final(self).wf(),
            final(self)@ == old(self)@.jump(old(self)@.registers[0] + nnn),
    {
        self.pc_jump(self.registers[0] as usize + nnn % 4096);
    }

    /// CXKK: `Vx :=` a random byte masked with `kk`.
    pub fn opcxkk(&mut self, x: usize, kk: u8)
        requires
            old(self).wf(),
            x < 16,
        ensures
            final(self).wf(),
            exists|random: u8|
                final(self)@ == #[trigger] old(self)@.set_register(x as int, random & kk).next(),
    {
        let random: u8 = random_byte();
        self.opcxkk_with(x, kk, random);
    }

    /// CXKK once the random byte is drawn: `Vx := random & kk`.
    pub fn opcxkk_with(&mut self, x: usize, kk: u8, random: u8)
        requires
            old(self).wf(),
            x < 16,
        ensures
            final(self).wf(),
            final(self)@ == old(self)@.set_register(x as int, random & kk).next(),
    {
        self.registers[x] = random & kk;
        self.pc_next();
    }

    /// EX9E: skips the next instruction if the key numbered `Vx` modulo 16
    /// is pressed.
    pub fn opex9e(&mut self, x: usize)
        requires
            old(self).wf(),
            x < 16,
        ensures
            final(self).wf(),
            final(self)@ == old(self)@.skip_if(
                old(self)@.keypad[old(self)@.registers[x as int] as int % 16],
            ),
    {
        if self.keypad[(self.registers[x] % 16) as usize] {
            self.pc_skip();
        } else {
            self.pc_next();
        }
    }

    /// EXA1: skips the next instruction if the key numbered `Vx` modulo 16
    /// is not pressed.
    pub fn opexa1(&mut self, x: usize)
        requires
            old(self).wf(),
            x < 16,
        ensures
            final(self).wf(),
            final(self)@ == old(self)@.skip_if(
                !old(self)@.keypad[old(self)@.registers[x as int] as int % 16],
            ),
    {
        if !self.keypad[(self.registers[x] % 16) as usize] {
            self.pc_skip();
        } else {
            self.pc_next();
        }
    }

    /// FX07: `Vx :=` the delay timer.
    pub fn opfx07(&mut self, x: usize)
        requires
            old(self).wf(),
            x < 16,
        ensures
            final(self).wf(),
            final(self)@ == old(self)@.set_register(x as int, old(self).delay_timer).next(),
    {
        self.registers[x] = self.delay_timer;
        self.pc_next();
    }

    /// FX0A: suspends execution until a key is pressed; the key's number
    /// will go to `Vx`.
    pub fn opfx0a(&mut self, x: usize)
        requires
            old(self).wf(),
            x < 16,
        ensures
            final(self).wf(),
            final(self)@ == (Machine { keypresswait: true, key: x as int, ..old(self)@ }).next(),
    {
        self.keypresswait = true;
        self.key = x;
        self.pc_next();
    }

    /// FX15: the delay timer `:= Vx`.
    pub fn opfx15(&mut self, x: usize)
        requires
            old(self).wf(),
            x < 16,
        ensures
            final(self).wf(),
            final(self)@ == (Machine {
                delay_timer: old(self)@.registers[x as int],
                ..old(self)@
            }).next(),
    {
        self.delay_timer = self.registers[x];
        self.pc_next();
    }

    /// FX18: the sound timer `:= Vx`.
    pub fn opfx18(&mut self, x: usize)
        requires
            old(self).wf(),
            x < 16,
        ensures
            final(self).wf(),
            final(self)@ == (Machine {
                sound_timer: old(self)@.registers[x as int],
                ..old(self)@
            }).next(),
    {
        self.sound_timer = self.registers[x];
        self.pc_next();
    }

    /// FX1E: `I := I + Vx`, then `VF := 1` if `I` exceeds 0x0F00, else 0.
    pub fn opfx1e(&mut self, x: usize)
        requires
            old(self).wf(),
            x < 16,
        ensures
            final(self).wf(),
            final(self)@ == old(self)@.add_to_index(x as int),
    {
        self.i = self.i.wrapping_add(self.registers[x] as usize);
        self.registers[0x0f] = if self.i > 0x0F00 {
            1
        } else {
            0
        };
        self.pc_next();
    }

    /// FX29: `I :=` the address of the glyph of `Vx`, which is `5 * Vx`.
    pub fn opfx29(&mut self, x: usize)
        requires
            old(self).wf(),
            x < 16,
        ensures
            final(self).wf(),
            final(self)@ == (Machine {
                i: old(self)@.registers[x as int] * 5,
                ..old(self)@
            }).next(),
    {
        self.i = (self.registers[x] as usize) * 5;
        self.pc_next();
    }

    /// FX33: stores the decimal digits of `Vx`: hundreds at `I`, tens at
    /// `I + 1`, units at `I + 2`.
    pub fn opfx33(&mut self, x: usize)
        requires
            old(self).wf(),
            x < 16,
        ensures
            final(self).wf(),
            final(self)@ == old(self)@.store_decimal(x as int),
    {
        let base: usize = self.i % 4096;
        let v: u8 = self.registers[x];
        self.memory[base] = v / 100;
        self.memory[(base + 1) % 4096] = (v % 100) / 10;
        self.memory[(base + 2) % 4096] = v % 10;
        self.pc_next();
    }

    /// FX55: stores `V0` to `Vx` at `I`, `I + 1` and so on. `I` stays.
    pub fn opfx55(&mut self, x: usize)
        requires
            old(self).wf(),
            x < 16,
        ensures
            final(self).wf(),
            final(self)@ == old(self)@.store_registers(x as int),
    {
        let base: usize = self.i % 4096;
        let mut k: usize = 0;
        while k <= x
            invariant
                k <= x + 1,
                x < 16,
                base == old(self).i % 4096,
                self.wf(),
                self@ == (Machine { memory: self@.memory, ..old(self)@ }),
                forall|a: int|
                    0 <= a < 4096 ==> self@.memory[a] == if (a - old(self).i) % 4096 < k {
                        old(self)@.registers[(a - old(self).i) % 4096]
                    } else {
                        old(self)@.memory[a]
                    },
            decreases x + 1 - k,
        {
            self.memory[(base + k) % 4096] = self.registers[k];
            k += 1;
        }
        self.pc_next();
        proof {
            assert(self@.memory =~= old(self)@.store_registers(x as int).memory);
        }
    }

    /// FX65: loads `V0` to `Vx` from `I`, `I + 1` and so on. `I` stays.
    pub fn opfx65(&mut self, x: usize)
        requires
            old(self).wf(),
            x < 16,
        ensures
            final(self).wf(),
            final(self)@ == old(self)@.load_registers(x as int),
    {
        let base: usize = self.i % 4096;
        let mut k: usize = 0;
        while k <= x
            invariant
                k <= x + 1,
                x < 16,
                base == old(self).i % 4096,
                self.wf(),
                self@ == (Machine { registers: self@.registers, ..old(self)@ }),
                forall|j: int|
                    0 <= j < 16 ==> self@.registers[j] == if j < k {
                        old(self)@.byte_at(old(self).i + j)
                    } else {
                        old(self)@.registers[j]
                    },
            decreases x + 1 - k,
        {
            self.registers[k] = self.memory[(base + k) % 4096];
            k += 1;
        }
        self.pc_next();
        proof {
            assert(self@.registers =~= old(self)@.load_registers(x as int).registers);
        }
    }

    /// One row of a sprite: the eight pixels of the byte at `I + row`, drawn
    /// on screen row `dest_y` from column `Vx` on, wrapping around the screen.
    fn draw_sprite_row(&mut self, x: usize, dest_y: usize, row: usize)
        requires
            old(self).wf(),
            x < 16,
            dest_y < 32,
            row < 16,
        ensures
            final(self).wf(),
            final(self)@ == old(self)@.draw_row(x as int, dest_y as int, row as int, 8),
            final(self)@.memory == old(self)@.memory,
            final(self)@.i == old(self)@.i,
    {
        let sprite: u8 = self.memory[(self.i % 4096 + row) % 4096];
        let mut bit: u8 = 0;
        while bit < 8
            invariant
                bit <= 8,
                x < 16,
                dest_y < 32,
                row < 16,
                self.wf(),
                self@ == old(self)@.draw_row(x as int, dest_y as int, row as int, bit as nat),
                self@.memory == old(self)@.memory,
                self@.i == old(self)@.i,
                sprite == old(self)@.byte_at(old(self)@.i + row),
            decreases 8 - bit,
        {
            let ghost left = self@;
            let dest_x: usize = (self.registers[x] as usize + bit as usize) % 64;
            let shifted: u8 = sprite >> (7 - bit);
            let color: u8 = shifted & 1;
            let before: u8 = self.vram[dest_y][dest_x];
            let flag: u8 = self.registers[0x0f];
            self.registers[0x0f] = flag | (color & before);
            self.vram[dest_y][dest_x] = before ^ color;
            proof {
                let want = left.draw_pixel(x as int, dest_y as int, row as int, bit as int);
                assert(before == left.vram[dest_y as int][dest_x as int]);
                assert(before ^ color <= 1) by (bit_vector)
                    requires
                        before <= 1,
                        color == shifted & 1,
                ;
                assert(self@.vram[dest_y as int] =~= want.vram[dest_y as int]);
                assert(self@.vram =~= want.vram);
                assert(self@ == want);
                assert forall|r: int, c: int| 0 <= r < 32 && 0 <= c < 64 implies #[trigger] self@.vram[r][c]
                    <= 1 by {
                    if r != dest_y || c != dest_x {
                        assert(self@.vram[r][c] == left.vram[r][c]);
                    }
                }
            }
            bit += 1;
        }
    }

    /// DXYN: draws the sprite of `n` rows that lies at `I`, its top left
    /// corner at column `Vx` and row `Vy`, both wrapping around the screen.
    /// Pixels are XORed onto the screen; VF is cleared first and becomes 1 as
    /// soon as a lit pixel is hit.
    pub fn opdxyn(&mut self, x: usize, y: usize, n: usize)
        requires
            old(self).wf(),
            x < 16,
            y < 16,
            n < 16,
        ensures
            final(self).wf(),
            final(self)@ == old(self)@.draw(x as int, y as int, n as nat),
            final(self).vram_changed,
    {
        self.registers[0x0f] = 0;
        let ghost cleared = self@;
        let mut byte: usize = 0;
        while byte < n
            invariant
                byte <= n,
                n < 16,
                x < 16,
                y < 16,
                self.wf(),
                self@ == cleared.draw_rows(x as int, y as int, byte as nat),
            decreases n - byte,
        {
            let dest_y: usize = (self.registers[y] as usize + byte) % 32;
            self.draw_sprite_row(x, dest_y, byte);
            byte += 1;
        }
        self.vram_changed = true;
        self.pc_next();
    }
}

} // verus!
