//! The mathematical model of the machine and of one execution cycle.
//!
//! A [`Machine`] is the whole state as plain values. Each instruction is a
//! function from one machine to the next; [`Machine::step`] fetches, decodes
//! and applies one instruction, [`Machine::frame`] is what one display refresh
//! does.
use crate::decode::decode_spec;
use crate::decode::Instruction;
use crate::diagnostic::Diagnostic;
use crate::display::blank;
use crate::display::collides;
use crate::display::draw_spec;
use crate::display::scroll_down_spec;
use crate::display::scroll_left_spec;
use crate::display::scroll_right_spec;
use crate::display::Sprite;
use crate::font::FONT;
use vstd::prelude::*;

verus! {

/// The state of the machine.
#[verifier::ext_equal]
pub struct Machine {
    /// 4096 bytes of memory.
    pub memory: Seq<u8>,
    /// 8192 display cells, row by row, 128 to a row.
    pub display: Seq<bool>,
    /// The registers `V0`..`VF`.
    pub v: Seq<u8>,
    /// The 16 stack slots.
    pub stack: Seq<u16>,
    /// Which of the 16 keys are down.
    pub keys: Seq<bool>,
    /// The index register `I`.
    pub i: int,
    /// The delay timer.
    pub delay: u8,
    /// The sound timer.
    pub sound: u8,
    /// The program counter.
    pub pc: int,
    /// Number of return addresses on the stack.
    pub sp: int,
    /// Whether the display is in extended mode.
    pub extended: bool,
}

/// Whether the key numbered `index` exists and is down.
pub open spec fn key_down(keys: Seq<bool>, index: int) -> bool {
    0 <= index < 16 && keys[index]
}

/// The lowest key at or above `from` and below 15 that is down, or 15 if
/// there is none.
pub open spec fn first_key_down(keys: Seq<bool>, from: int) -> int
    decreases 15 - from,
{
    if from >= 15 {
        15
    } else if keys[from] {
        from
    } else {
        first_key_down(keys, from + 1)
    }
}

/// A timer after one refresh: one less, and never below zero.
pub open spec fn count_down(timer: u8) -> u8 {
    if timer > 0 {
        (timer - 1) as u8
    } else {
        0
    }
}

impl Machine {
    /// Sizes are fixed; the index register and the program counter are
    /// 12-bit values; the stack holds at most 15 return addresses.
    pub open spec fn wf(self) -> bool {
        &&& self.memory.len() == 4096
        &&& self.display.len() == 8192
        &&& self.v.len() == 16
        &&& self.stack.len() == 16
        &&& self.keys.len() == 16
        &&& 0 <= self.i < 4096
        &&& 0 <= self.pc < 4096
        &&& 0 <= self.sp <= 15
    }

    /// The machine at power-on: glyphs at the bottom of memory, everything
    /// else zero, the program counter at the program start.
    pub open spec fn initial() -> Machine {
        Machine {
            memory: Seq::new(4096, |a: int| if a < 180 { FONT@[a] } else { 0u8 }),
            display: blank(),
            v: Seq::new(16, |k: int| 0u8),
            stack: Seq::new(16, |k: int| 0u16),
            keys: Seq::new(16, |k: int| false),
            i: 0,
            delay: 0,
            sound: 0,
            pc: 0x200,
            sp: 0,
            extended: false,
        }
    }

    /// The machine with a program in memory. The program goes to address
    /// `0x200`; what does not fit below the end of memory is dropped.
    pub open spec fn load_rom(self, rom: Seq<u8>) -> Machine {
        Machine {
            memory: Seq::new(
                4096,
                |a: int|
                    if 0x200 <= a < 0x200 + rom.len() {
                        rom[a - 0x200]
                    } else {
                        self.memory[a]
                    },
            ),
            ..self
        }
    }

    /// The big-endian word at the program counter. The address of its second
    /// byte wraps at the end of memory.
    pub open spec fn opcode(self) -> u16 {
        (self.memory[self.pc] * 0x100 + self.memory[(self.pc + 1) % 4096]) as u16
    }

    /// Moves on to the following instruction.
    pub open spec fn next(self) -> Machine {
        Machine { pc: (self.pc + 2) % 4096, ..self }
    }

    /// Moves on past the following instruction.
    pub open spec fn skip(self) -> Machine {
        Machine { pc: (self.pc + 4) % 4096, ..self }
    }

    /// Continues at `target`.
    pub open spec fn jump(self, target: int) -> Machine {
        Machine { pc: target % 4096, ..self }
    }

    /// Skips the following instruction if `condition` holds.
    pub open spec fn skip_if(self, condition: bool) -> Machine {
        if condition {
            self.skip()
        } else {
            self.next()
        }
    }

    /// Stores `value` in register `x`.
    pub open spec fn set_v(self, x: int, value: u8) -> Machine {
        Machine { v: self.v.update(x, value), ..self }
    }

    /// Stores 1 or 0 in the flag register `VF`.
    pub open spec fn set_flag(self, on: bool) -> Machine {
        self.set_v(
            15,
            if on {
                1u8
            } else {
                0u8
            },
        )
    }

    /// Replaces the display.
    pub open spec fn show(self, display: Seq<bool>) -> Machine {
        Machine { display, ..self }
    }

    /// Return: pops the last return address and continues there. With an
    /// empty stack nothing is popped and execution moves on.
    pub open spec fn ret(self) -> Machine {
        if self.sp > 0 {
            Machine { sp: self.sp - 1, ..self }.jump(self.stack[self.sp - 1] as int)
        } else {
            self.next()
        }
    }

    /// Call: pushes the address of the following instruction and continues
    /// at `addr`. With 15 addresses on the stack nothing is pushed and
    /// execution moves on.
    pub open spec fn call(self, addr: int) -> Machine {
        if self.sp < 15 {
            Machine {
                stack: self.stack.update(self.sp, (self.pc + 2) as u16),
                sp: self.sp + 1,
                ..self
            }.jump(addr)
        } else {
            self.next()
        }
    }

    /// `Vx = Vx + byte` modulo 256; the flag is untouched.
    pub open spec fn add_byte(self, x: int, byte: u8) -> Machine {
        self.set_v(x, ((self.v[x] + byte) % 256) as u8).next()
    }

    /// `Vx = Vx + Vy` modulo 256; the flag is set iff the sum exceeds 255.
    pub open spec fn add_reg(self, x: int, y: int) -> Machine {
        let sum = self.v[x] + self.v[y];
        self.set_v(x, (sum % 256) as u8).set_flag(sum > 255).next()
    }

    /// `Vx = Vx - Vy` modulo 256; the flag is set iff `Vx >= Vy`.
    pub open spec fn sub(self, x: int, y: int) -> Machine {
        let difference = self.v[x] - self.v[y];
        self.set_v(x, (difference % 256) as u8).set_flag(difference >= 0).next()
    }

    /// `Vx = Vy - Vx` modulo 256; the flag is set iff `Vy >= Vx`.
    pub open spec fn subn(self, x: int, y: int) -> Machine {
        let difference = self.v[y] - self.v[x];
        self.set_v(x, (difference % 256) as u8).set_flag(difference >= 0).next()
    }

    /// `Vx = Vx / 2`; the flag is the bit that fell off.
    pub open spec fn shr(self, x: int) -> Machine {
        self.set_v(x, self.v[x] / 2).set_flag(self.v[x] % 2 == 1).next()
    }

    /// `Vx = 2 * Vx` modulo 256; the flag is the bit that fell off.
    pub open spec fn shl(self, x: int) -> Machine {
        self.set_v(x, ((self.v[x] * 2) % 256) as u8).set_flag(self.v[x] >= 128).next()
    }

    /// The sprite that a draw instruction with these operands puts up.
    pub open spec fn sprite(self, x: int, y: int, n: int) -> Sprite {
        Sprite {
            memory: self.memory,
            base: self.i,
            x: self.v[x] as int,
            y: self.v[y] as int,
            n,
            extended: self.extended,
        }
    }

    /// Draw: XORs the sprite onto the display; the flag is set iff a lit
    /// cell went dark.
    pub open spec fn draw(self, x: int, y: int, n: int) -> Machine {
        let sprite = self.sprite(x, y, n);
        self.show(draw_spec(self.display, sprite)).set_flag(collides(self.display, sprite)).next()
    }

    /// Key wait: with a key below 15 down, stores the lowest such key in
    /// `Vx` and moves on; otherwise stays on this instruction.
    pub open spec fn wait_key(self, x: int) -> Machine {
        let key = first_key_down(self.keys, 0);
        if key < 15 {
            self.set_v(x, key as u8).next()
        } else {
            self
        }
    }

    /// Stores the hundreds, tens and units of `Vx` at `I`, `I+1`, `I+2`.
    pub open spec fn bcd(self, x: int) -> Machine {
        let value = self.v[x];
        Machine {
            memory: self.memory.update(self.i, value / 100).update(
                (self.i + 1) % 4096,
                (value / 10) % 10,
            ).update((self.i + 2) % 4096, value % 10),
            ..self
        }.next()
    }

    /// Stores `V0..=Vx` at `I`, `I+1`, ...; addresses wrap at the end of
    /// memory.
    pub open spec fn store(self, x: int) -> Machine {
        Machine {
            memory: Seq::new(
                4096,
                |a: int|
                    if (a - self.i) % 4096 <= x {
                        self.v[(a - self.i) % 4096]
                    } else {
                        self.memory[a]
                    },
            ),
            ..self
        }.next()
    }

    /// Loads `V0..=Vx` from `I`, `I+1`, ...; addresses wrap at the end of
    /// memory.
    pub open spec fn load(self, x: int) -> Machine {
        Machine {
            v: Seq::new(
                16,
                |k: int|
                    if k <= x {
                        self.memory[(self.i + k) % 4096]
                    } else {
                        self.v[k]
                    },
            ),
            ..self
        }.next()
    }

    /// The machine after `ins`, where `random` is the byte that the random
    /// source gives if the instruction asks for one.
    pub open spec fn execute(self, ins: Instruction, random: u8) -> Machine {
        match ins {
            Instruction::Nop => self.next(),
            Instruction::ScrollDown { n } => self.show(
                scroll_down_spec(self.display, n as int),
            ).next(),
            Instruction::Cls => self.show(blank()).next(),
            Instruction::Ret => self.ret(),
            Instruction::ScrollRight => self.show(scroll_right_spec(self.display)).next(),
            Instruction::ScrollLeft => self.show(scroll_left_spec(self.display)).next(),
            Instruction::Exit => self,
            Instruction::Low => Machine { extended: false, ..self }.next(),
            Instruction::High => Machine { extended: true, ..self }.next(),
            Instruction::Jp { addr } => self.jump(addr as int),
            Instruction::Call { addr } => self.call(addr as int),
            Instruction::SeByte { x, byte } => self.skip_if(self.v[x as int] == byte),
            Instruction::SneByte { x, byte } => self.skip_if(self.v[x as int] != byte),
            Instruction::SeReg { x, y } => self.skip_if(self.v[x as int] == self.v[y as int]),
            Instruction::LdByte { x, byte } => self.set_v(x as int, byte).next(),
            Instruction::AddByte { x, byte } => self.add_byte(x as int, byte),
            Instruction::LdReg { x, y } => self.set_v(x as int, self.v[y as int]).next(),
            Instruction::Or { x, y } => self.set_v(
                x as int,
                self.v[x as int] | self.v[y as int],
            ).next(),
            Instruction::And { x, y } => self.set_v(
                x as int,
                self.v[x as int] & self.v[y as int],
            ).next(),
            Instruction::Xor { x, y } => self.set_v(
                x as int,
                self.v[x as int] ^ self.v[y as int],
            ).next(),
            Instruction::AddReg { x, y } => self.add_reg(x as int, y as int),
            Instruction::Sub { x, y } => self.sub(x as int, y as int),
            Instruction::Shr { x } => self.shr(x as int),
            Instruction::Subn { x, y } => self.subn(x as int, y as int),
            Instruction::Shl { x } => self.shl(x as int),
            Instruction::SneReg { x, y } => self.skip_if(self.v[x as int] != self.v[y as int]),
            Instruction::LdI { addr } => Machine { i: addr as int, ..self }.next(),
            Instruction::JpV0 { addr } => self.jump(self.v[0] + addr),
            Instruction::Rnd { x, byte } => self.set_v(x as int, random & byte).next(),
            Instruction::Drw { x, y, n } => self.draw(x as int, y as int, n as int),
            Instruction::Skp { x } => self.skip_if(key_down(self.keys, self.v[x as int] as int)),
            Instruction::Sknp { x } => self.skip_if(
                !key_down(self.keys, self.v[x as int] as int),
            ),
            Instruction::LdVxDt { x } => self.set_v(x as int, self.delay).next(),
            Instruction::LdKey { x } => self.wait_key(x as int),
            Instruction::LdDtVx { x } => Machine { delay: self.v[x as int], ..self }.next(),
            Instruction::LdStVx { x } => Machine { sound: self.v[x as int], ..self }.next(),
            Instruction::AddI { x } => Machine {
                i: (self.i + self.v[x as int]) % 4096,
                ..self
            }.next(),
            Instruction::LdSmallGlyph { x } => Machine { i: 5 * self.v[x as int], ..self }.next(),
            Instruction::LdLargeGlyph { x } => Machine {
                i: 10 * self.v[x as int] + 80,
                ..self
            }.next(),
            Instruction::LdBcd { x } => self.bcd(x as int),
            Instruction::Store { x } => self.store(x as int),
            Instruction::Load { x } => self.load(x as int),
            Instruction::Unknown { .. } => self.next(),
        }
    }

    /// What there is to report about `ins`: that it is no instruction, or
    /// that it is a call and the stack is full.
    pub open spec fn diagnose(self, ins: Instruction) -> Option<Diagnostic> {
        match ins {
            Instruction::Call { .. } => if self.sp < 15 {
                None
            } else {
                Some(Diagnostic::StackOverflow)
            },
            Instruction::Unknown { opcode } => Some(Diagnostic::UnknownOpcode { opcode }),
            _ => None,
        }
    }

    /// One cycle: fetch, decode, execute.
    pub open spec fn step(self, random: u8) -> Machine {
        self.execute(decode_spec(self.opcode()), random)
    }

    /// What the next cycle reports.
    pub open spec fn diagnostic(self) -> Option<Diagnostic> {
        self.diagnose(decode_spec(self.opcode()))
    }

    /// As many cycles as `random` has bytes, the k-th cycle with the k-th
    /// byte.
    pub open spec fn run(self, random: Seq<u8>) -> Machine
        decreases random.len(),
    {
        if random.len() == 0 {
            self
        } else {
            self.run(random.drop_last()).step(random.last())
        }
    }

    /// The reports of the cycles of [`Machine::run`], in order.
    pub open spec fn log(self, random: Seq<u8>) -> Seq<Diagnostic>
        decreases random.len(),
    {
        if random.len() == 0 {
            Seq::empty()
        } else {
            match self.run(random.drop_last()).diagnostic() {
                Some(diagnostic) => self.log(random.drop_last()).push(diagnostic),
                None => self.log(random.drop_last()),
            }
        }
    }

    /// Both timers count down by one, stopping at zero.
    pub open spec fn tick(self) -> Machine {
        Machine { delay: count_down(self.delay), sound: count_down(self.sound), ..self }
    }

    /// One display refresh: the cycles, then one tick of the timers.
    pub open spec fn frame(self, random: Seq<u8>) -> Machine {
        self.run(random).tick()
    }
}

} // verus!
