use vstd::prelude::*;

use crate::instruction::Instruction;
use crate::machine::{first_pressed, is_first_pressed, wrap_address, Machine};
use crate::sprite::lemma_draw_frame;

verus! {

/// Every word decodes to an instruction whose fields are in range.
pub proof fn lemma_decode_in_range(opcode: u16)
    ensures
        Instruction::decode_spec(opcode).wf(),
{
}

/// Executing an instruction keeps the machine's invariant.
pub proof fn lemma_execute_keeps_invariant(m: Machine, instruction: Instruction, random: u8)
    requires
        m.wf(),
        instruction.wf(),
    ensures
        m.execute(instruction, random).wf(),
{
    reveal(Machine::execute);
    match instruction {
        Instruction::Draw { x, y, n } => {
            lemma_draw_frame(m, x as int, y as int, n as nat);
        },
        Instruction::Call { nnn } => {
            let after = m.call(nnn as int);
            assert forall|k: int| 0 <= k < 48 implies 0 <= #[trigger] after.stack[k] < 4096 by {
                if k != m.push_slot() {
                    assert(after.stack[k] == m.stack[k]);
                }
            }
        },
        _ => {},
    }
}

/// A tick keeps the machine's invariant, whatever keys are pressed and
/// whatever byte a random instruction draws.
pub proof fn lemma_tick_keeps_invariant(m: Machine, keypad: Seq<bool>, random: u8)
    requires
        m.wf(),
        keypad.len() == 16,
    ensures
        m.tick(keypad, random).wf(),
{
    let polled = Machine { keypad: keypad, vram_changed: false, ..m };
    if m.keypresswait {
        if let Some(k) = first_pressed(keypad) {
            assert(is_first_pressed(keypad, k));
        }
    } else {
        let timed = Machine {
            delay_timer: crate::machine::count_down(polled.delay_timer),
            sound_timer: crate::machine::count_down(polled.sound_timer),
            ..polled
        };
        lemma_decode_in_range(timed.opcode());
        lemma_execute_keeps_invariant(timed, Instruction::decode_spec(timed.opcode()), random);
    }
}

/// Where the program counter stands after an instruction: inside memory; and
/// unless the instruction is a jump, a call or a return, two or four bytes
/// further on, wrapping at the end of memory.
pub proof fn lemma_execute_program_counter(m: Machine, instruction: Instruction, random: u8)
    requires
        m.wf(),
        instruction.wf(),
    ensures
        ({
            let after = m.execute(instruction, random);
            &&& 0 <= after.pc < 4096
            &&& !instruction.transfers_control() ==> after.pc == wrap_address(m.pc + 2) || after.pc
                == wrap_address(m.pc + 4)
            &&& instruction matches Instruction::Jump { nnn } ==> after.pc == nnn
            &&& instruction matches Instruction::Call { nnn } ==> after.pc == nnn
        }),
{
    reveal(Machine::execute);
    if let Instruction::Draw { x, y, n } = instruction {
        lemma_draw_frame(m, x as int, y as int, n as nat);
    }
}

/// After a tick the program counter lies inside memory. A tick spent waiting
/// for a key leaves it where it was. A tick that executes anything but a
/// jump, a call or a return moves it on by two or by four bytes, wrapping at
/// the end of memory: it keeps its parity.
pub proof fn lemma_tick_program_counter(m: Machine, keypad: Seq<bool>, random: u8)
    requires
        m.wf(),
        keypad.len() == 16,
    ensures
        ({
            let after = m.tick(keypad, random);
            let instruction = Instruction::decode_spec(m.opcode());
            &&& 0 <= after.pc < 4096
            &&& m.keypresswait ==> after.pc == m.pc
            &&& !m.keypresswait && !instruction.transfers_control() ==> (after.pc == wrap_address(
                m.pc + 2,
            ) || after.pc == wrap_address(m.pc + 4)) && after.pc % 2 == m.pc % 2
        }),
{
    lemma_tick_keeps_invariant(m, keypad, random);
    if !m.keypresswait {
        let polled = Machine { keypad: keypad, vram_changed: false, ..m };
        let timed = Machine {
            delay_timer: crate::machine::count_down(polled.delay_timer),
            sound_timer: crate::machine::count_down(polled.sound_timer),
            ..polled
        };
        assert(timed.opcode() == m.opcode());
        lemma_decode_in_range(timed.opcode());
        lemma_execute_program_counter(timed, Instruction::decode_spec(timed.opcode()), random);
    }
}

/// A tick of a waiting machine with a key pressed ends the wait: the lowest
/// pressed key goes to the waiting register. The timers, the program counter
/// and everything else but the keypad and the changed flag stay as they
/// were. With no key pressed the machine goes on waiting.
pub proof fn lemma_key_wait(m: Machine, keypad: Seq<bool>, random: u8)
    requires
        m.wf(),
        m.keypresswait,
        keypad.len() == 16,
    ensures
        forall|k: int|
            is_first_pressed(keypad, k) ==> m.tick(keypad, random) == (Machine {
                keypad: keypad,
                vram_changed: false,
                keypresswait: false,
                registers: m.registers.update(m.key, k as u8),
                ..m
            }),
        (forall|k: int| 0 <= k < 16 ==> !keypad[k]) ==> m.tick(keypad, random) == (Machine {
            keypad: keypad,
            vram_changed: false,
            ..m
        }),
{
    assert forall|k: int| is_first_pressed(keypad, k) implies m.tick(keypad, random) == (Machine {
        keypad: keypad,
        vram_changed: false,
        keypresswait: false,
        registers: m.registers.update(m.key, k as u8),
        ..m
    }) by {
        let chosen = choose|c: int| is_first_pressed(keypad, c);
        assert(is_first_pressed(keypad, chosen));
        assert(chosen == k);
    }
    if forall|k: int| 0 <= k < 16 ==> !keypad[k] {
        if exists|k: int| is_first_pressed(keypad, k) {
            let k = choose|k: int| is_first_pressed(keypad, k);
            assert(keypad[k]);
        }
    }
}

/// A call followed by a return comes back to the instruction after the call
/// and leaves the stack pointer where it was. The call stores that address
/// in the slot at the stack pointer. (On a full stack the call wraps to slot
/// 0, so the stack pointer is not restored there.)
pub proof fn lemma_call_return(m: Machine, nnn: int)
    requires
        m.wf(),
        m.sp < 48,
    ensures
        m.call(nnn).stack[m.sp] == wrap_address(m.pc + 2),
        m.call(nnn).sp == m.sp + 1,
        m.call(nnn).pc == wrap_address(nnn),
        m.call(nnn).return_from_subroutine().pc == wrap_address(m.pc + 2),
        m.call(nnn).return_from_subroutine().sp == m.sp,
        m.pc + 2 < 4096 ==> m.call(nnn).return_from_subroutine().pc == m.pc + 2,
        m.call(nnn).return_from_subroutine() == (Machine {
            stack: m.stack.update(m.sp, wrap_address(m.pc + 2)),
            pc: wrap_address(m.pc + 2),
            ..m
        }),
{
}

/// Registers stored with FX55 and loaded again with FX65 from the same
/// index come back as they were, whatever the registers held in between.
/// Registers above `Vx` keep what they held before the load.
pub proof fn lemma_store_load_registers(m: Machine, x: int, between: Seq<u8>)
    requires
        m.wf(),
        0 <= x < 16,
        between.len() == 16,
    ensures
        ({
            let stored = m.store_registers(x);
            let loaded = (Machine { registers: between, ..stored }).load_registers(x);
            &&& forall|k: int| 0 <= k <= x ==> loaded.registers[k] == m.registers[k]
            &&& forall|k: int| x < k < 16 ==> loaded.registers[k] == between[k]
            &&& loaded.memory == stored.memory
            &&& loaded.i == m.i
        }),
{
    let stored = m.store_registers(x);
    let loaded = (Machine { registers: between, ..stored }).load_registers(x);
    assert forall|k: int| 0 <= k <= x implies loaded.registers[k] == m.registers[k] by {
        let a = wrap_address(m.i + k);
        assert((a - m.i) % 4096 == k);
    }
}

} // verus!
