//! Laws of the machine: what holds of every state and every program.
use crate::decode::decode_spec;
use crate::decode::Instruction;
use crate::display::collides;
use crate::display::draw_spec;
use crate::display::Sprite;
use crate::machine::count_down;
use crate::machine::first_key_down;
use crate::machine::Machine;
use vstd::prelude::*;

verus! {

/// Every opcode decodes to an instruction whose operands fit their fields.
pub proof fn lemma_decode_wf(opcode: u16)
    ensures
        decode_spec(opcode).wf(),
{
}

/// The machine at power-on is well-formed, and loading a program keeps it so.
pub proof fn lemma_initial_wf(rom: Seq<u8>)
    ensures
        Machine::initial().wf(),
        Machine::initial().load_rom(rom).wf(),
{
}

/// An instruction takes a well-formed machine to a well-formed machine: the
/// program counter and the index register stay below 4096 and the stack
/// pointer stays between 0 and 15.
pub proof fn lemma_execute_wf(m: Machine, ins: Instruction, random: u8)
    requires
        m.wf(),
        ins.wf(),
    ensures
        m.execute(ins, random).wf(),
{
}

/// After every cycle the program counter is below 4096, whatever the program
/// and the random byte.
pub proof fn lemma_step_wf(m: Machine, random: u8)
    requires
        m.wf(),
    ensures
        m.step(random).wf(),
        0 <= m.step(random).pc < 4096,
{
    lemma_decode_wf(m.opcode());
    lemma_execute_wf(m, decode_spec(m.opcode()), random);
}

/// Any number of cycles keeps the machine well-formed.
pub proof fn lemma_run_wf(m: Machine, random: Seq<u8>)
    requires
        m.wf(),
    ensures
        m.run(random).wf(),
    decreases random.len(),
{
    if random.len() > 0 {
        lemma_run_wf(m, random.drop_last());
        lemma_step_wf(m.run(random.drop_last()), random.last());
    }
}

/// A display refresh keeps the machine well-formed.
pub proof fn lemma_frame_wf(m: Machine, random: Seq<u8>)
    requires
        m.wf(),
    ensures
        m.frame(random).wf(),
{
    lemma_run_wf(m, random);
}

/// Whatever program is loaded and however long it runs, the program counter
/// is below 4096.
pub proof fn lemma_reachable_pc(rom: Seq<u8>, random: Seq<u8>)
    ensures
        0 <= Machine::initial().load_rom(rom).run(random).pc < 4096,
{
    lemma_initial_wf(rom);
    lemma_run_wf(Machine::initial().load_rom(rom), random);
}

/// After any cycle every register holds a value from 0 to 255: arithmetic
/// wraps around instead of leaving the range.
pub proof fn lemma_registers_in_range(m: Machine, random: u8, k: int)
    requires
        m.wf(),
        0 <= k < 16,
    ensures
        0 <= m.step(random).v[k] <= 255,
{
}

/// Clearing the display turns off every one of its 8192 cells.
pub proof fn lemma_cls_clears(m: Machine, random: u8)
    requires
        m.wf(),
    ensures
        m.execute(Instruction::Cls, random).display.len() == 8192,
        forall|p: int| 0 <= p < 8192 ==> !#[trigger] m.execute(Instruction::Cls, random).display[p],
{
}

/// A call that finds room on the stack, followed at once by a return, lands
/// on the instruction after the call and leaves the stack pointer as it was.
pub proof fn lemma_call_then_ret(m: Machine, addr: u16, random: u8, random2: u8)
    requires
        m.wf(),
        addr < 0x1000,
        m.sp < 15,
    ensures
        m.execute(Instruction::Call { addr }, random).pc == addr,
        m.execute(Instruction::Call { addr }, random).execute(Instruction::Ret, random2).pc == (m.pc
            + 2) % 4096,
        m.execute(Instruction::Call { addr }, random).execute(Instruction::Ret, random2).sp == m.sp,
{
}

/// The same on a running program: if the word at the program counter is a
/// call and the word at its target is a return, two cycles lead to the
/// instruction after the call with the stack pointer unchanged.
pub proof fn lemma_call_then_ret_steps(m: Machine, addr: u16, random: u8, random2: u8)
    requires
        m.wf(),
        m.sp < 15,
        addr < 0x1000,
        decode_spec(m.opcode()) == (Instruction::Call { addr }),
        decode_spec(m.step(random).opcode()) == Instruction::Ret,
    ensures
        m.step(random).step(random2).pc == (m.pc + 2) % 4096,
        m.step(random).step(random2).sp == m.sp,
{
    lemma_call_then_ret(m, addr, random, random2);
}

/// A call pushes while fewer than 15 return addresses are on the stack.
pub proof fn lemma_call_pushes(m: Machine, addr: u16, random: u8)
    requires
        m.wf(),
        addr < 0x1000,
        m.sp < 15,
    ensures
        m.execute(Instruction::Call { addr }, random).sp == m.sp + 1,
        m.execute(Instruction::Call { addr }, random).stack == m.stack.update(
            m.sp,
            (m.pc + 2) as u16,
        ),
        m.execute(Instruction::Call { addr }, random).pc == addr,
{
}

/// A call on a full stack pushes nothing and does not jump: the stack and
/// the stack pointer stay as they are and execution moves on.
pub proof fn lemma_call_on_full_stack(m: Machine, addr: u16, random: u8)
    requires
        m.wf(),
        addr < 0x1000,
        m.sp == 15,
    ensures
        m.execute(Instruction::Call { addr }, random) == m.next(),
{
}

/// The machine after one call to each of `targets` in turn.
pub open spec fn call_each(m: Machine, targets: Seq<u16>) -> Machine
    decreases targets.len(),
{
    if targets.len() == 0 {
        m
    } else {
        call_each(m, targets.drop_last()).execute(Instruction::Call { addr: targets.last() }, 0)
    }
}

/// Of consecutive calls, those that find fewer than 15 return addresses on
/// the stack push one more, and all later ones leave the stack pointer at 15.
pub proof fn lemma_consecutive_calls(m: Machine, targets: Seq<u16>)
    requires
        m.wf(),
        forall|k: int| 0 <= k < targets.len() ==> targets[k] < 0x1000,
    ensures
        call_each(m, targets).wf(),
        call_each(m, targets).sp == (if m.sp + targets.len() <= 15 {
            m.sp + targets.len()
        } else {
            15
        }),
    decreases targets.len(),
{
    if targets.len() > 0 {
        lemma_consecutive_calls(m, targets.drop_last());
    }
}

/// Drawing the same sprite twice in the same place restores the display.
/// The second draw reports a collision exactly if the first one lit a cell,
/// that is, if the sprite has a set pixel on a cell that was off.
pub proof fn lemma_draw_twice(display: Seq<bool>, sprite: Sprite)
    requires
        display.len() == 8192,
    ensures
        draw_spec(draw_spec(display, sprite), sprite) == display,
        collides(draw_spec(display, sprite), sprite) <==> exists|p: int| #[trigger]
            sprite.covers(p) && !display[p],
{
    let once = draw_spec(display, sprite);
    assert(draw_spec(once, sprite) =~= display);
    if collides(once, sprite) {
        let p = choose|p: int| #[trigger] sprite.covers(p) && once[p];
        assert(sprite.covers(p) && !display[p]);
    }
    if exists|p: int| #[trigger] sprite.covers(p) && !display[p] {
        let p = choose|p: int| #[trigger] sprite.covers(p) && !display[p];
        assert(sprite.covers(p) && once[p]);
    }
}

/// A draw whose position registers are not the flag register puts up the
/// same sprite when it is repeated: it changes neither memory nor the index
/// register, the mode or its two position registers.
pub proof fn lemma_draw_keeps_sprite(m: Machine, x: usize, y: usize, n: u8, random: u8)
    requires
        m.wf(),
        x < 15,
        y < 15,
    ensures
        m.execute(Instruction::Drw { x, y, n }, random).sprite(x as int, y as int, n as int)
            == m.sprite(x as int, y as int, n as int),
{
}

/// Two draw instructions in a row that put the same sprite in the same
/// place restore the display, and the second leaves the flag at 1 exactly if
/// the first one lit a cell.
pub proof fn lemma_draw_instruction_twice(
    m: Machine,
    x: usize,
    y: usize,
    n: u8,
    random: u8,
    random2: u8,
)
    requires
        m.wf(),
        x < 16,
        y < 16,
        m.execute(Instruction::Drw { x, y, n }, random).sprite(x as int, y as int, n as int)
            == m.sprite(x as int, y as int, n as int),
    ensures
        m.execute(Instruction::Drw { x, y, n }, random).execute(
            Instruction::Drw { x, y, n },
            random2,
        ).display == m.display,
        m.execute(Instruction::Drw { x, y, n }, random).execute(
            Instruction::Drw { x, y, n },
            random2,
        ).v[15] == (if exists|p: int| #[trigger]
            m.sprite(x as int, y as int, n as int).covers(p) && !m.display[p] {
            1u8
        } else {
            0u8
        }),
{
    lemma_draw_twice(m.display, m.sprite(x as int, y as int, n as int));
}

/// The key that a key wait finds is the lowest of the keys 0 to 14 that is
/// down; it finds none exactly if none of them is down.
pub proof fn lemma_first_key_down(keys: Seq<bool>, from: int)
    requires
        0 <= from <= 15,
    ensures
        from <= first_key_down(keys, from) <= 15,
        first_key_down(keys, from) < 15 ==> keys[first_key_down(keys, from)],
        forall|k: int| from <= k < first_key_down(keys, from) ==> !keys[k],
    decreases 15 - from,
{
    if from < 15 && !keys[from] {
        lemma_first_key_down(keys, from + 1);
    }
}

/// A key wait with none of the keys 0 to 14 down changes nothing: the
/// program counter stays on the instruction, which runs again next cycle.
pub proof fn lemma_wait_key_blocks(m: Machine, x: usize, random: u8)
    requires
        m.wf(),
        x < 16,
        forall|k: int| 0 <= k < 15 ==> !m.keys[k],
    ensures
        m.execute(Instruction::LdKey { x }, random) == m,
{
    lemma_first_key_down(m.keys, 0);
}

/// A key wait with one of the keys 0 to 14 down stores the lowest such key
/// in its register and moves on to the following instruction.
pub proof fn lemma_wait_key_proceeds(m: Machine, x: usize, random: u8, key: int)
    requires
        m.wf(),
        x < 16,
        0 <= key < 15,
        m.keys[key],
        forall|k: int| 0 <= k < key ==> !m.keys[k],
    ensures
        m.execute(Instruction::LdKey { x }, random) == m.set_v(x as int, key as u8).next(),
        m.execute(Instruction::LdKey { x }, random).pc == (m.pc + 2) % 4096,
        m.execute(Instruction::LdKey { x }, random).v[x as int] == key,
{
    lemma_first_key_down(m.keys, 0);
}

/// While the machine waits for a key and none of the keys 0 to 14 is down,
/// cycles change nothing, however many there are.
pub proof fn lemma_wait_key_blocks_run(m: Machine, x: usize, random: Seq<u8>)
    requires
        m.wf(),
        decode_spec(m.opcode()) == (Instruction::LdKey { x }),
        forall|k: int| 0 <= k < 15 ==> !m.keys[k],
    ensures
        m.run(random) == m,
        m.frame(random) == m.tick(),
        m.frame(random).pc == m.pc,
    decreases random.len(),
{
    if random.len() > 0 {
        lemma_wait_key_blocks_run(m, x, random.drop_last());
        lemma_decode_wf(m.opcode());
        lemma_wait_key_blocks(m, x, random.last());
    }
}

/// A cycle that reports something has no other effect than to move on to the
/// following instruction.
pub proof fn lemma_reported_cycle_moves_on(m: Machine, random: u8)
    requires
        m.wf(),
        m.diagnostic() is Some,
    ensures
        m.step(random) == m.next(),
{
}

/// A tick takes one from each timer that is above zero and leaves a timer at
/// zero where it is; it touches nothing else.
pub proof fn lemma_tick(m: Machine)
    ensures
        m.tick().delay == (if m.delay == 0 { 0int } else { m.delay - 1 }),
        m.tick().sound == (if m.sound == 0 { 0int } else { m.sound - 1 }),
        m.tick() == (Machine { delay: m.tick().delay, sound: m.tick().sound, ..m }),
        count_down(1) == 0,
        count_down(0) == 0,
{
}

} // verus!
