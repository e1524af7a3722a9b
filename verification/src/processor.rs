use vstd::prelude::*;

use crate::font::FONT_SET;
use crate::instruction::Instruction;
use crate::machine::{first_pressed, is_first_pressed, Machine, PROGRAM_CAPACITY, PROGRAM_START};
use crate::output::ProcessorState;

verus! {

/// The virtual machine: 4 KiB of memory, sixteen 8-bit registers, a call
/// stack, two timers, a 64 by 32 monochrome framebuffer and a 16-key keypad.
pub struct Processor {
    /// Memory, byte-addressed. The font lies below 0x200, programs start
    /// there.
    pub memory: [u8; 4096],
    /// The registers V0 to VF. VF doubles as the flag register.
    pub registers: [u8; 16],
    /// Return addresses of the subroutines being executed.
    pub stack: [usize; 48],
    /// Index of the next free stack slot.
    pub sp: usize,
    /// Delay timer: counts down by one each executed tick.
    pub delay_timer: u8,
    /// Sound timer: counts down like the delay timer; the buzzer sounds while
    /// it is not zero.
    pub sound_timer: u8,
    /// The framebuffer, 32 rows of 64 pixels, each 0 (off) or 1 (on).
    pub vram: [[u8; 64]; 32],
    /// Whether execution is suspended until a key is pressed.
    pub keypresswait: bool,
    /// The register that receives the key that ends the wait.
    pub key: usize,
    /// The key states of the current tick.
    pub keypad: [bool; 16],
    /// Program counter.
    pub pc: usize,
    /// Index register.
    pub i: usize,
    /// Whether the current tick cleared the screen or drew a sprite.
    pub vram_changed: bool,
}

/// Why a program could not be loaded.
#[derive(Clone, Copy, Debug, PartialEq, Eq)]
pub enum LoadError {
    /// The program is longer than the memory above the load address.
    ProgramTooLarge,
}

impl View for Processor {
    type V = Machine;

    open spec fn view(&self) -> Machine {
        Machine {
            memory: self.memory@,
            registers: self.registers@,
            stack: Seq::new(48, |k: int| self.stack@[k] as int),
            sp: self.sp as int,
            delay_timer: self.delay_timer,
            sound_timer: self.sound_timer,
            vram: Seq::new(32, |r: int| self.vram@[r]@),
            keypresswait: self.keypresswait,
            key: self.key as int,
            keypad: self.keypad@,
            pc: self.pc as int,
            i: self.i as int,
            vram_changed: self.vram_changed,
        }
    }
}

/// The lowest pressed key of a keypad.
pub fn lowest_pressed(keypad: &[bool; 16]) -> (found: Option<u8>)
    ensures
        found matches Some(k) ==> first_pressed(keypad@) == Some(k as int) && k < 16,
        found is None ==> first_pressed(keypad@) is None,
{
    let mut k: u8 = 0;
    while k < 16
        invariant
            k <= 16,
            forall|j: int| 0 <= j < k ==> !keypad@[j],
        decreases 16 - k,
    {
        if keypad[k as usize] {
            proof {
                assert(is_first_pressed(keypad@, k as int));
                let chosen = choose|c: int| is_first_pressed(keypad@, c);
                assert(is_first_pressed(keypad@, chosen));
                assert(chosen == k);
            }
            return Some(k);
        }
        k += 1;
    }
    None
}

impl Processor {
    /// The invariant of the machine: program counter inside memory, stack
    /// pointer at most the stack's depth, stacked addresses inside memory,
    /// pixels 0 or 1, the waiting register a register.
    pub open spec fn wf(&self) -> bool {
        self@.wf()
    }

    /// Tests the invariant. A machine that came from `new` and was changed
    /// through its methods alone always passes; one whose fields were written
    /// directly may not.
    pub fn is_well_formed(&self) -> (ok: bool)
        ensures
            ok == self.wf(),
    {
        if self.pc >= 4096 || self.sp > 48 || self.key >= 16 {
            return false;
        }
        let mut k: usize = 0;
        while k < 48
            invariant
                k <= 48,
                forall|j: int| 0 <= j < k ==> self@.stack[j] < 4096,
            decreases 48 - k,
        {
            if self.stack[k] >= 4096 {
                assert(!(self@.stack[k as int] < 4096));
                return false;
            }
            k += 1;
        }
        let mut r: usize = 0;
        while r < 32
            invariant
                r <= 32,
                forall|j: int, c: int| 0 <= j < r && 0 <= c < 64 ==> #[trigger] self@.vram[j][c] <= 1,
            decreases 32 - r,
        {
            let mut c: usize = 0;
            while c < 64
                invariant
                    r < 32,
                    c <= 64,
                    forall|j: int, d: int|
                        0 <= j < r && 0 <= d < 64 ==> #[trigger] self@.vram[j][d] <= 1,
                    forall|d: int| 0 <= d < c ==> #[trigger] self@.vram[r as int][d] <= 1,
                decreases 64 - c,
            {
                if self.vram[r][c] > 1 {
                    assert(!(self@.vram[r as int][c as int] <= 1));
                    return false;
                }
                c += 1;
            }
            r += 1;
        }
        true
    }

    /// A machine before its first tick: the font loaded, everything else
    /// zero, the program counter at 0x200.
    pub fn new() -> (processor: Processor)
        ensures
            processor@ == Machine::initial(),
            processor.wf(),
    {
        let mut mem: [u8; 4096] = [0;4096];
        let mut x: usize = 0;
        while x < 80
            invariant
                x <= 80,
                forall|a: int| 0 <= a < x ==> mem@[a] == FONT_SET@[a],
                forall|a: int| x <= a < 4096 ==> mem@[a] == 0,
            decreases 80 - x,
        {
            mem[x] = FONT_SET[x];
            x += 1;
        }
        let processor = Processor {
            memory: mem,
            registers: [0;16],
            stack: [0;48],
            sp: 0,
            delay_timer: 0,
            sound_timer: 0,
            vram: [[0;64];32],
            keypresswait: false,
            key: 0,
            pc: 0x200,
            i: 0,
            vram_changed: false,
            keypad: [false;16],
        };
        proof {
            let want = Machine::initial();
            assert(processor@.memory =~= want.memory);
            assert(processor@.registers =~= want.registers);
            assert(processor@.stack =~= want.stack);
            assert(processor@.keypad =~= want.keypad);
            assert(processor@.vram =~~= want.vram);
        }
        processor
    }

    /// Copies a program into memory, its first byte to 0x200. A program
    /// longer than 3584 bytes does not fit: it is refused and nothing is
    /// written.
    pub fn load_program(&mut self, bytes: Vec<u8>) -> (result: Result<(), LoadError>)
        ensures
            bytes@.len() <= PROGRAM_CAPACITY ==> result is Ok && final(self)@ == old(
                self,
            )@.with_program(bytes@),
            bytes@.len() > PROGRAM_CAPACITY ==> result == Err::<(), LoadError>(
                LoadError::ProgramTooLarge,
            ) && *final(self) == *old(self),
            old(self).wf() ==> final(self).wf(),
    {
        let len: usize = bytes.len();
        if len > PROGRAM_CAPACITY {
            return Err(LoadError::ProgramTooLarge);
        }
        let mut k: usize = 0;
        while k < len
            invariant
                k <= len,
                len == bytes@.len(),
                len <= PROGRAM_CAPACITY,
                forall|a: int|
                    PROGRAM_START <= a < PROGRAM_START + k ==> self.memory@[a] == bytes@[a
                        - PROGRAM_START],
                forall|a: int|
                    0 <= a < 4096 && !(PROGRAM_START <= a < PROGRAM_START + k) ==> self.memory@[a]
                        == old(self).memory@[a],
                self.registers == old(self).registers,
                self.stack == old(self).stack,
                self.sp == old(self).sp,
                self.delay_timer == old(self).delay_timer,
                self.sound_timer == old(self).sound_timer,
                self.vram == old(self).vram,
                self.keypresswait == old(self).keypresswait,
                self.key == old(self).key,
                self.keypad == old(self).keypad,
                self.pc == old(self).pc,
                self.i == old(self).i,
                self.vram_changed == old(self).vram_changed,
            decreases len - k,
        {
            self.memory[PROGRAM_START + k] = bytes[k];
            k += 1;
        }
        proof {
            assert(self@.memory =~= old(self)@.with_program(bytes@).memory);
        }
        Ok(())
    }

    /// Advances the machine by one time unit and reports what the outside
    /// sees of it. `keypad` replaces the stored key states. While the machine
    /// waits for a key, the tick only looks for the lowest pressed key; else
    /// both timers count down and the instruction at the program counter is
    /// executed.
    pub fn tick(&mut self, keypad: [bool; 16]) -> (state: ProcessorState)
        requires
            old(self).wf(),
        ensures
            final(self).wf(),
            final(self).pc < 4096,
            exists|random: u8| final(self)@ == #[trigger] old(self)@.tick(keypad@, random),
            state.vram == final(self).vram,
            state.vram_changed == final(self).vram_changed,
            state.beep == (final(self).sound_timer > 0),
    {
        self.keypad = keypad;
        self.vram_changed = false;
        if self.keypresswait {
            self.poll_key();
            proof {
                assert(self@ == old(self)@.tick(keypad@, 0u8));
            }
        } else {
            let ghost polled = self@;
            self.run();
            proof {
                let random = choose|random: u8| self@ == #[trigger] polled.run(random);
                assert(self@ == old(self)@.tick(keypad@, random));
            }
        }
        ProcessorState {
            vram: self.vram,
            vram_changed: self.vram_changed,
            beep: self.sound_timer > 0,
        }
    }

    /// A tick spent waiting: the lowest pressed key, if there is one, goes to
    /// the waiting register and ends the wait.
    fn poll_key(&mut self)
        requires
            old(self).wf(),
        ensures
            final(self).wf(),
            final(self)@ == old(self)@.poll_key(),
    {
        match lowest_pressed(&self.keypad) {
            Some(k) => {
                self.keypresswait = false;
                self.registers[self.key] = k;
            },
            None => {},
        }
    }

    /// A tick spent running: the timers count down, then one instruction is
    /// fetched and executed.
    fn run(&mut self)
        requires
            old(self).wf(),
        ensures
            final(self).wf(),
            exists|random: u8| final(self)@ == #[trigger] old(self)@.run(random),
    {
        if self.delay_timer > 0 {
            self.delay_timer -= 1;
        }
        if self.sound_timer > 0 {
            self.sound_timer -= 1;
        }
        let opcode: u16 = self.get_opcode();
        let ghost timed = self@;
        self.execute_once(opcode);
        proof {
            let random = choose|random: u8|
                self@ == #[trigger] timed.execute(Instruction::decode_spec(opcode), random);
            assert(self@ == old(self)@.run(random));
        }
    }

    /// The instruction word at the program counter.
    pub fn get_opcode(&self) -> (opcode: u16)
        requires
            self.wf(),
        ensures
            opcode == self@.opcode(),
    {
        let high: u8 = self.memory[self.pc];
        let low: u8 = self.memory[(self.pc + 1) % 4096];
        let opcode: u16 = (high as u16) << 8 | (low as u16);
        assert(opcode == high * 256 + low) by (bit_vector)
            requires
                opcode == (high as u16) << 8 | (low as u16),
        ;
        opcode
    }

    /// Decodes an instruction word and executes it.
    pub fn execute_once(&mut self, opcode: u16)
        requires
            old(self).wf(),
        ensures
            final(self).wf(),
            exists|random: u8|
                final(self)@ == #[trigger] old(self)@.execute(
                    Instruction::decode_spec(opcode),
                    random,
                ),
    {
        let instruction = Instruction::decode(opcode);
        self.execute(instruction);
    }

    /// Executes one instruction. Only a random instruction leaves anything
    /// open: the byte that it draws.
    pub fn execute(&mut self, instruction: Instruction)
        requires
            old(self).wf(),
            instruction.wf(),
        ensures
            final(self).wf(),
            exists|random: u8| final(self)@ == #[trigger] old(self)@.execute(instruction, random),
    {
        match instruction {
            Instruction::ClearScreen => self.op00e0(),
            Instruction::Return => self.op00ee(),
            Instruction::Jump { nnn } => self.op1nnn(nnn as usize),
            Instruction::Call { nnn } => self.op2nnn(nnn as usize),
            Instruction::SkipEqualImmediate { x, kk } => self.op3xkk(x as usize, kk),
            Instruction::SkipNotEqualImmediate { x, kk } => self.op4xkk(x as usize, kk),
            Instruction::SkipEqual { x, y } => self.op5xy0(x as usize, y as usize),
            Instruction::LoadImmediate { x, kk } => self.op6xkk(x as usize, kk),
            Instruction::AddImmediate { x, kk } => self.op7xkk(x as usize, kk),
            Instruction::Move { x, y } => self.op8xy0(x as usize, y as usize),
            Instruction::Or { x, y } => self.op8xy1(x as usize, y as usize),
            Instruction::And { x, y } => self.op8xy2(x as usize, y as usize),
            Instruction::Xor { x, y } => self.op8xy3(x as usize, y as usize),
            Instruction::Add { x, y } => self.op8xy4(x as usize, y as usize),
            Instruction::Subtract { x, y } => self.op8xy5(x as usize, y as usize),
            Instruction::ShiftRight { x } => self.op8x06(x as usize),
            Instruction::SubtractReversed { x, y } => self.op8xy7(x as usize, y as usize),
            Instruction::ShiftLeft { x } => self.op8x0e(x as usize),
            Instruction::SkipNotEqual { x, y } => self.op9xy0(x as usize, y as usize),
            Instruction::LoadIndex { nnn } => self.opannn(nnn as usize),
            Instruction::JumpOffset { nnn } => self.opbnnn(nnn as usize),
            Instruction::Random { x, kk } => {
                self.opcxkk(x as usize, kk);
                proof {
                    reveal(Machine::execute);
                    let random = choose|random: u8|
                        self@ == #[trigger] old(self)@.set_register(x as int, random & kk).next();
                    assert(self@ == old(self)@.execute(instruction, random));
                }
            },
            Instruction::Draw { x, y, n } => self.opdxyn(x as usize, y as usize, n as usize),
            Instruction::SkipIfPressed { x } => self.opex9e(x as usize),
            Instruction::SkipIfNotPressed { x } => self.opexa1(x as usize),
            Instruction::LoadDelayTimer { x } => self.opfx07(x as usize),
            Instruction::WaitForKey { x } => self.opfx0a(x as usize),
            Instruction::SetDelayTimer { x } => self.opfx15(x as usize),
            Instruction::SetSoundTimer { x } => self.opfx18(x as usize),
            Instruction::AddToIndex { x } => self.opfx1e(x as usize),
            Instruction::LoadGlyphAddress { x } => self.opfx29(x as usize),
            Instruction::StoreDecimal { x } => self.opfx33(x as usize),
            Instruction::StoreRegisters { x } => self.opfx55(x as usize),
            Instruction::LoadRegisters { x } => self.opfx65(x as usize),
            Instruction::Unknown => self.pc_next(),
        }
        proof {
            reveal(Machine::execute);
            if !(instruction is Random) {
                assert(self@ == old(self)@.execute(instruction, 0u8));
            }
        }
    }

    /// Moves on to the next instruction.
    pub fn pc_next(&mut self)
        requires
            old(self).wf(),
        ensures
            final(self).wf(),
            final(self)@ == old(self)@.next(),
    {
        self.pc = (self.pc + 2) % 4096;
    }

    /// Continues at `addr`, taken modulo the memory size.
    pub fn pc_jump(&mut self, addr: usize)
        requires
            old(self).wf(),
        ensures
            final(self).wf(),
            final(self)@ == old(self)@.jump(addr as int),
    {
        self.pc = addr % 4096;
    }

    /// Passes over the next instruction.
    pub fn pc_skip(&mut self)
        requires
            old(self).wf(),
        ensures
            final(self).wf(),
            final(self)@ == old(self)@.skip(),
    {
        self.pc = (self.pc + 4) % 4096;
    }
}

} // verus!
