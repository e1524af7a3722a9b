use vstd::prelude::*;

use crate::font::FONT_SET;
use crate::instruction::Instruction;

verus! {

/// Address at which programs are loaded and execution starts.
pub const PROGRAM_START: usize = 0x200;

/// Largest program, in bytes, that fits between `PROGRAM_START` and the end
/// of memory.
pub const PROGRAM_CAPACITY: usize = 3584;

/// Columns of the framebuffer.
pub const SCREEN_WIDTH: usize = 64;

/// Rows of the framebuffer.
pub const SCREEN_HEIGHT: usize = 32;

/// The mathematical state of the virtual machine: what a `Processor` stands
/// for in contracts.
#[verifier::ext_equal]
pub struct Machine {
    pub memory: Seq<u8>,
    pub registers: Seq<u8>,
    pub stack: Seq<int>,
    pub sp: int,
    pub delay_timer: u8,
    pub sound_timer: u8,
    pub vram: Seq<Seq<u8>>,
    pub keypresswait: bool,
    pub key: int,
    pub keypad: Seq<bool>,
    pub pc: int,
    pub i: int,
    pub vram_changed: bool,
}

/// Memory is a ring of 4096 bytes: every address is taken modulo its size.
pub open spec fn wrap_address(a: int) -> int {
    a % 4096
}

/// The index register is one machine word wide; an addition that does not fit
/// wraps around.
pub open spec fn wrap_index(v: int) -> int {
    if v > usize::MAX {
        v - usize::MAX - 1
    } else {
        v
    }
}

/// A timer one time unit later: it counts down and rests at zero.
pub open spec fn count_down(t: u8) -> u8 {
    if t > 0 {
        (t - 1) as u8
    } else {
        0
    }
}

/// An all-dark framebuffer.
pub open spec fn blank_screen() -> Seq<Seq<u8>> {
    Seq::new(32, |r: int| Seq::new(64, |c: int| 0u8))
}

/// `k` is the lowest pressed key of `keypad`.
pub open spec fn is_first_pressed(keypad: Seq<bool>, k: int) -> bool {
    &&& 0 <= k < keypad.len()
    &&& keypad[k]
    &&& forall|j: int| 0 <= j < k ==> !keypad[j]
}

/// The lowest pressed key, if any key is pressed.
pub open spec fn first_pressed(keypad: Seq<bool>) -> Option<int> {
    if exists|k: int| is_first_pressed(keypad, k) {
        Some(choose|k: int| is_first_pressed(keypad, k))
    } else {
        None
    }
}

/// The pixel of a sprite row that is drawn `bit` columns right of the sprite's
/// left edge: the most significant bit comes first.
pub open spec fn sprite_bit(row: u8, bit: int) -> u8 {
    (row >> ((7 - bit) as u8)) & 1u8
}

impl Machine {
    /// The invariant of the machine state.
    pub open spec fn wf(self) -> bool {
        &&& self.memory.len() == 4096
        &&& self.registers.len() == 16
        &&& self.stack.len() == 48
        &&& self.keypad.len() == 16
        &&& self.vram.len() == 32
        &&& forall|r: int| 0 <= r < 32 ==> (#[trigger] self.vram[r]).len() == 64
        &&& forall|r: int, c: int| 0 <= r < 32 && 0 <= c < 64 ==> #[trigger] self.vram[r][c] <= 1
        &&& forall|k: int| 0 <= k < 48 ==> 0 <= #[trigger] self.stack[k] < 4096
        &&& 0 <= self.pc < 4096
        &&& 0 <= self.sp <= 48
        &&& 0 <= self.key < 16
        &&& 0 <= self.i <= usize::MAX
    }

    /// The state before the first tick: the font in low memory, everything
    /// else zero, execution about to start at `PROGRAM_START`.
    pub open spec fn initial() -> Machine {
        Machine {
            memory: Seq::new(
                4096,
                |a: int|
                    if 0 <= a < 80 {
                        FONT_SET@[a]
                    } else {
                        0u8
                    },
            ),
            registers: Seq::new(16, |k: int| 0u8),
            stack: Seq::new(48, |k: int| 0int),
            sp: 0,
            delay_timer: 0,
            sound_timer: 0,
            vram: blank_screen(),
            keypresswait: false,
            key: 0,
            keypad: Seq::new(16, |k: int| false),
            pc: 0x200,
            i: 0,
            vram_changed: false,
        }
    }

    /// Memory after a program was copied to `PROGRAM_START`.
    pub open spec fn with_program(self, bytes: Seq<u8>) -> Machine {
        Machine {
            memory: Seq::new(
                4096,
                |a: int|
                    if 0x200 <= a < 0x200 + bytes.len() {
                        bytes[a - 0x200]
                    } else {
                        self.memory[a]
                    },
            ),
            ..self
        }
    }

    /// The byte at an address, the address taken modulo the memory size.
    pub open spec fn byte_at(self, a: int) -> u8 {
        self.memory[wrap_address(a)]
    }

    /// The instruction word at the program counter: two bytes, the first one
    /// the high half.
    pub open spec fn opcode(self) -> u16 {
        (self.byte_at(self.pc) * 256 + self.byte_at(self.pc + 1)) as u16
    }

    /// The state with `v` in register `x`.
    pub open spec fn set_register(self, x: int, v: u8) -> Machine {
        Machine { registers: self.registers.update(x, v), ..self }
    }

    /// Go on with the next instruction.
    pub open spec fn next(self) -> Machine {
        Machine { pc: wrap_address(self.pc + 2), ..self }
    }

    /// Pass over the next instruction.
    pub open spec fn skip(self) -> Machine {
        Machine { pc: wrap_address(self.pc + 4), ..self }
    }

    /// Continue at `addr`.
    pub open spec fn jump(self, addr: int) -> Machine {
        Machine { pc: wrap_address(addr), ..self }
    }

    /// A conditional skip: over the next instruction if `condition` holds,
    /// on to it if not.
    pub open spec fn skip_if(self, condition: bool) -> Machine {
        if condition {
            self.skip()
        } else {
            self.next()
        }
    }

    /// 00E0: every pixel off, the screen marked as changed.
    pub open spec fn clear_screen(self) -> Machine {
        Machine { vram: blank_screen(), vram_changed: true, ..self }.next()
    }

    /// The stack slot that a return reads. An empty stack wraps to the top
    /// slot.
    pub open spec fn pop_slot(self) -> int {
        if self.sp <= 0 {
            47
        } else {
            self.sp - 1
        }
    }

    /// The stack slot that a call writes. A full stack wraps to slot 0.
    pub open spec fn push_slot(self) -> int {
        if self.sp >= 48 {
            0
        } else {
            self.sp
        }
    }

    /// 00EE: pop the return address and continue there.
    pub open spec fn return_from_subroutine(self) -> Machine {
        Machine { sp: self.pop_slot(), ..self }.jump(self.stack[self.pop_slot()])
    }

    /// 2NNN: push the address of the instruction after this one, continue at
    /// `nnn`.
    pub open spec fn call(self, nnn: int) -> Machine {
        Machine {
            stack: self.stack.update(self.push_slot(), wrap_address(self.pc + 2)),
            sp: self.push_slot() + 1,
            ..self
        }.jump(nnn)
    }

    /// 7XKK and 8XY4: `Vx` plus `addend` modulo 256, then VF set to the carry.
    pub open spec fn add_with_carry(self, x: int, addend: u8) -> Machine {
        let sum = self.registers[x] + addend;
        self.set_register(x, (sum % 256) as u8).set_register(
            15,
            if sum > 255 {
                1u8
            } else {
                0u8
            },
        ).next()
    }

    /// 8XY5: VF set to whether `Vx > Vy`, then `Vx` minus `Vy` modulo 256,
    /// both operands read after VF was written.
    pub open spec fn subtract(self, x: int, y: int) -> Machine {
        let flagged = self.set_register(
            15,
            if self.registers[x] > self.registers[y] {
                1u8
            } else {
                0u8
            },
        );
        flagged.set_register(
            x,
            ((flagged.registers[x] - flagged.registers[y]) % 256) as u8,
        ).next()
    }

    /// 8XY7: VF set to whether `Vy > Vx`, then `Vy` minus `Vx` modulo 256,
    /// both operands read after VF was written.
    pub open spec fn subtract_reversed(self, x: int, y: int) -> Machine {
        let flagged = self.set_register(
            15,
            if self.registers[y] > self.registers[x] {
                1u8
            } else {
                0u8
            },
        );
        flagged.set_register(
            x,
            ((flagged.registers[y] - flagged.registers[x]) % 256) as u8,
        ).next()
    }

    /// 8X06: VF set to the lowest bit of `Vx`, then `Vx` halved.
    pub open spec fn shift_right(self, x: int) -> Machine {
        let flagged = self.set_register(15, self.registers[x] % 2);
        flagged.set_register(x, flagged.registers[x] / 2).next()
    }

    /// 8X0E: VF set to the highest bit of `Vx`, then `Vx` doubled modulo 256.
    pub open spec fn shift_left(self, x: int) -> Machine {
        let flagged = self.set_register(15, self.registers[x] / 128);
        flagged.set_register(x, ((flagged.registers[x] * 2) % 256) as u8).next()
    }

    /// FX1E: `Vx` added to the index register, then VF set to whether the
    /// index register exceeds 0x0F00.
    pub open spec fn add_to_index(self, x: int) -> Machine {
        let sum = wrap_index(self.i + self.registers[x]);
        Machine { i: sum, ..self }.set_register(
            15,
            if sum > 0x0F00 {
                1u8
            } else {
                0u8
            },
        ).next()
    }

    /// FX33: the hundreds, tens and units of `Vx` stored at the index
    /// register and the two addresses after it.
    pub open spec fn store_decimal(self, x: int) -> Machine {
        let v = self.registers[x];
        Machine {
            memory: self.memory.update(wrap_address(self.i), v / 100).update(
                wrap_address(self.i + 1),
                (v % 100) / 10,
            ).update(wrap_address(self.i + 2), v % 10),
            ..self
        }.next()
    }

    /// FX55: `V0` to `Vx` stored at the index register and the addresses
    /// after it.
    pub open spec fn store_registers(self, x: int) -> Machine {
        Machine {
            memory: Seq::new(
                4096,
                |a: int|
                    {
                        let k = (a - self.i) % 4096;
                        if k <= x {
                            self.registers[k]
                        } else {
                            self.memory[a]
                        }
                    },
            ),
            ..self
        }.next()
    }

    /// FX65: `V0` to `Vx` loaded from the index register and the addresses
    /// after it.
    pub open spec fn load_registers(self, x: int) -> Machine {
        Machine {
            registers: Seq::new(
                16,
                |k: int|
                    if k <= x {
                        self.byte_at(self.i + k)
                    } else {
                        self.registers[k]
                    },
            ),
            ..self
        }.next()
    }

    /// One pixel of a sprite: the column is `Vx + bit` modulo 64, read now;
    /// the pixel is XORed into the framebuffer, and VF gathers whether a lit
    /// pixel was hit.
    pub open spec fn draw_pixel(self, x: int, dest_y: int, row: int, bit: int) -> Machine {
        let dest_x = (self.registers[x] + bit) % 64;
        let color = sprite_bit(self.byte_at(self.i + row), bit);
        let before = self.vram[dest_y][dest_x];
        Machine {
            registers: self.registers.update(15, self.registers[15] | (color & before)),
            vram: self.vram.update(dest_y, self.vram[dest_y].update(dest_x, before ^ color)),
            ..self
        }
    }

    /// The first `bits` pixels of sprite row `row`, drawn left to right on
    /// screen row `dest_y`.
    pub open spec fn draw_row(self, x: int, dest_y: int, row: int, bits: nat) -> Machine
        decreases bits,
    {
        if bits == 0 {
            self
        } else {
            self.draw_row(x, dest_y, row, (bits - 1) as nat).draw_pixel(x, dest_y, row, bits - 1)
        }
    }

    /// The first `rows` rows of a sprite, drawn top to bottom. The screen row
    /// of a sprite row is `Vy + row` modulo 32, read when the row begins.
    pub open spec fn draw_rows(self, x: int, y: int, rows: nat) -> Machine
        decreases rows,
    {
        if rows == 0 {
            self
        } else {
            let above = self.draw_rows(x, y, (rows - 1) as nat);
            above.draw_row(x, (above.registers[y] + rows - 1) % 32, rows - 1, 8)
        }
    }

    /// DXYN: VF cleared, the `n` sprite rows at the index register drawn at
    /// (`Vx`, `Vy`), the screen marked as changed.
    pub open spec fn draw(self, x: int, y: int, n: nat) -> Machine {
        Machine { vram_changed: true, ..self.set_register(15, 0).draw_rows(x, y, n) }.next()
    }

    /// The state after `instruction`. `random` is the byte that a random
    /// instruction draws; no other instruction reads it.
    #[verifier::opaque]
    pub open spec fn execute(self, instruction: Instruction, random: u8) -> Machine {
        let v = self.registers;
        match instruction {
            Instruction::ClearScreen => self.clear_screen(),
            Instruction::Return => self.return_from_subroutine(),
            Instruction::Jump { nnn } => self.jump(nnn as int),
            Instruction::Call { nnn } => self.call(nnn as int),
            Instruction::SkipEqualImmediate { x, kk } => self.skip_if(v[x as int] == kk),
            Instruction::SkipNotEqualImmediate { x, kk } => self.skip_if(v[x as int] != kk),
            Instruction::SkipEqual { x, y } => self.skip_if(v[x as int] == v[y as int]),
            Instruction::LoadImmediate { x, kk } => self.set_register(x as int, kk).next(),
            Instruction::AddImmediate { x, kk } => self.add_with_carry(x as int, kk),
            Instruction::Move { x, y } => self.set_register(x as int, v[y as int]).next(),
            Instruction::Or { x, y } => self.set_register(
                x as int,
                v[x as int] | v[y as int],
            ).next(),
            Instruction::And { x, y } => self.set_register(
                x as int,
                v[x as int] & v[y as int],
            ).next(),
            Instruction::Xor { x, y } => self.set_register(
                x as int,
                v[x as int] ^ v[y as int],
            ).next(),
            Instruction::Add { x, y } => self.add_with_carry(x as int, v[y as int]),
            Instruction::Subtract { x, y } => self.subtract(x as int, y as int),
            Instruction::ShiftRight { x } => self.shift_right(x as int),
            Instruction::SubtractReversed { x, y } => self.subtract_reversed(x as int, y as int),
            Instruction::ShiftLeft { x } => self.shift_left(x as int),
            Instruction::SkipNotEqual { x, y } => self.skip_if(v[x as int] != v[y as int]),
            Instruction::LoadIndex { nnn } => Machine { i: nnn as int, ..self }.next(),
            Instruction::JumpOffset { nnn } => self.jump(v[0] + nnn),
            Instruction::Random { x, kk } => self.set_register(x as int, random & kk).next(),
            Instruction::Draw { x, y, n } => self.draw(x as int, y as int, n as nat),
            Instruction::SkipIfPressed { x } => self.skip_if(self.keypad[v[x as int] as int % 16]),
            Instruction::SkipIfNotPressed { x } => self.skip_if(!self.keypad[v[x as int] as int % 16]),
            Instruction::LoadDelayTimer { x } => self.set_register(
                x as int,
                self.delay_timer,
            ).next(),
            Instruction::WaitForKey { x } => Machine {
                keypresswait: true,
                key: x as int,
                ..self
            }.next(),
            Instruction::SetDelayTimer { x } => Machine { delay_timer: v[x as int], ..self }.next(),
            Instruction::SetSoundTimer { x } => Machine { sound_timer: v[x as int], ..self }.next(),
            Instruction::AddToIndex { x } => self.add_to_index(x as int),
            Instruction::LoadGlyphAddress { x } => Machine {
                i: v[x as int] * 5,
                ..self
            }.next(),
            Instruction::StoreDecimal { x } => self.store_decimal(x as int),
            Instruction::StoreRegisters { x } => self.store_registers(x as int),
            Instruction::LoadRegisters { x } => self.load_registers(x as int),
            Instruction::Unknown => self.next(),
        }
    }

    /// A tick spent waiting for a key: the lowest pressed key, if there is
    /// one, goes to the waiting register and ends the wait. Nothing else
    /// moves: no timer counts down, no instruction runs.
    pub open spec fn poll_key(self) -> Machine {
        match first_pressed(self.keypad) {
            Some(k) => Machine { keypresswait: false, ..self }.set_register(
                self.key as int,
                k as u8,
            ),
            None => self,
        }
    }

    /// A tick spent running: both timers count down, then the instruction at
    /// the program counter is executed.
    pub open spec fn run(self, random: u8) -> Machine {
        let timed = Machine {
            delay_timer: count_down(self.delay_timer),
            sound_timer: count_down(self.sound_timer),
            ..self
        };
        timed.execute(Instruction::decode_spec(timed.opcode()), random)
    }

    /// The state one time unit later, with `keypad` as the new key states.
    pub open spec fn tick(self, keypad: Seq<bool>, random: u8) -> Machine {
        let polled = Machine { keypad: keypad, vram_changed: false, ..self };
        if self.keypresswait {
            polled.poll_key()
        } else {
            polled.run(random)
        }
    }
}

} // verus!
