//! The interpreter: the machine state in executable form and the functions
//! that drive it.
use crate::decode::decode;
use crate::decode::Instruction;
use crate::diagnostic::Diagnostic;
use crate::display::clear;
use crate::display::draw;
use crate::display::scroll_down;
use crate::display::scroll_left;
use crate::display::scroll_right;
use crate::font::FONT;
use crate::machine::first_key_down;
use crate::machine::key_down;
use crate::machine::Machine;
use crate::rng::random_byte;
use vstd::prelude::*;

verus! {

/// A CHIP-8 / SUPER-CHIP virtual machine.
///
/// Between frames the host reports key changes with [`Chip8VM::set_key`] and
/// reads [`Chip8VM::vram`] to paint the screen.
pub struct Chip8VM {
    ram: [u8; 4096],
    vram: [bool; 8192],
    v: [u8; 16],
    stack: [u16; 16],
    keys: [bool; 16],
    i: u16,
    dt: u8,
    st: u8,
    pc: u16,
    sp: u8,
    extended_mode: bool,
}

impl View for Chip8VM {
    type V = Machine;

    closed spec fn view(&self) -> Machine {
        Machine {
            memory: self.ram@,
            display: self.vram@,
            v: self.v@,
            stack: self.stack@,
            keys: self.keys@,
            i: self.i as int,
            delay: self.dt,
            sound: self.st,
            pc: self.pc as int,
            sp: self.sp as int,
            extended: self.extended_mode,
        }
    }
}

impl Chip8VM {
    /// The state is a well-formed machine.
    pub open spec fn wf(&self) -> bool {
        self@.wf()
    }

    /// A machine at power-on.
    pub fn new() -> (vm: Chip8VM)
        ensures
            vm.wf(),
            vm@ == Machine::initial(),
    {
        let mut vm = Chip8VM {
            ram: [0u8; 4096],
            vram: [false; 8192],
            v: [0u8; 16],
            stack: [0u16; 16],
            keys: [false; 16],
            i: 0,
            dt: 0,
            st: 0,
            pc: 0x0200,
            sp: 0,
            extended_mode: false,
        };
        let mut a: usize = 0;
        while a < 180
            invariant
                a <= 180,
                vm@ == (Machine {
                    memory: Seq::new(
                        4096,
                        |b: int|
                            if b < a {
                                FONT@[b]
                            } else {
                                0u8
                            },
                    ),
                    ..Machine::initial()
                }),
            decreases 180 - a,
        {
            vm.ram[a] = FONT[a];
            a += 1;
        }
        vm
    }

    /// Copies a program into memory at address `0x200`. Bytes beyond the
    /// first 3584 do not fit and are ignored.
    pub fn load_rom(&mut self, rom: &[u8])
        requires
            old(self).wf(),
        ensures
            final(self).wf(),
            final(self)@ == old(self)@.load_rom(rom@),
    {
        let count: usize = if rom.len() < 0xE00 { rom.len() } else { 0xE00 };
        let mut k: usize = 0;
        while k < count
            invariant
                k <= count,
                count <= 0xE00,
                count <= rom.len(),
                count == rom.len() || count == 0xE00,
                self@ == old(self)@.load_rom(rom@.take(k as int)),
            decreases count - k,
        {
            self.ram[0x200 + k] = rom[k];
            k += 1;
        }
        assert(self@ == old(self)@.load_rom(rom@));
    }

    /// Reads the instruction word at the program counter.
    fn fetch(&self) -> (opcode: u16)
        requires
            self.wf(),
        ensures
            opcode == self@.opcode(),
    {
        let high = self.ram[self.pc as usize] as u16;
        let low = self.ram[(self.pc as usize + 1) % 0x1000] as u16;
        high * 0x100 + low
    }

    /// Moves the program counter to the following instruction.
    fn advance(&mut self)
        requires
            old(self).wf(),
        ensures
            final(self).wf(),
            final(self)@ == old(self)@.next(),
    {
        self.pc = (self.pc + 2) % 0x1000;
    }

    /// Moves the program counter to `target`, reduced to 12 bits.
    fn jump(&mut self, target: u16)
        requires
            old(self).wf(),
        ensures
            final(self).wf(),
            final(self)@ == old(self)@.jump(target as int),
    {
        self.pc = target % 0x1000;
    }

    /// Skips the following instruction if `condition` holds.
    fn skip_if(&mut self, condition: bool)
        requires
            old(self).wf(),
        ensures
            final(self).wf(),
            final(self)@ == old(self)@.skip_if(condition),
    {
        if condition {
            self.pc = (self.pc + 4) % 0x1000;
        } else {
            self.advance();
        }
    }

    /// Stores `value` in register `x` and moves on.
    fn load_register(&mut self, x: usize, value: u8)
        requires
            old(self).wf(),
            x < 16,
        ensures
            final(self).wf(),
            final(self)@ == old(self)@.set_v(x as int, value).next(),
    {
        self.v[x] = value;
        self.advance();
    }

    /// Stores `value` in register `x`, then the flag in `VF`, and moves on.
    fn load_register_and_flag(&mut self, x: usize, value: u8, flag: bool)
        requires
            old(self).wf(),
            x < 16,
        ensures
            final(self).wf(),
            final(self)@ == old(self)@.set_v(x as int, value).set_flag(flag).next(),
    {
        self.v[x] = value;
        self.v[0xF] = if flag { 1 } else { 0 };
        self.advance();
    }

    /// Return from a subroutine.
    fn ret(&mut self)
        requires
            old(self).wf(),
        ensures
            final(self).wf(),
            final(self)@ == old(self)@.ret(),
    {
        if self.sp > 0 {
            self.sp -= 1;
            let target = self.stack[self.sp as usize];
            self.jump(target);
        } else {
            self.advance();
        }
    }

    /// Call the subroutine at `addr`.
    fn call(&mut self, addr: u16)
        requires
            old(self).wf(),
        ensures
            final(self).wf(),
            final(self)@ == old(self)@.call(addr as int),
    {
        if self.sp < 15 {
            self.stack[self.sp as usize] = self.pc + 2;
            self.sp += 1;
            self.jump(addr);
        } else {
            self.advance();
        }
    }

    /// `Vx = Vx + byte`, wrapping.
    fn add_byte(&mut self, x: usize, byte: u8)
        requires
            old(self).wf(),
            x < 16,
        ensures
            final(self).wf(),
            final(self)@ == old(self)@.add_byte(x as int, byte),
    {
        let sum = self.v[x].wrapping_add(byte);
        self.load_register(x, sum);
    }

    /// `Vx = Vx + Vy`, wrapping, with carry in `VF`.
    fn add_reg(&mut self, x: usize, y: usize)
        requires
            old(self).wf(),
            x < 16,
            y < 16,
        ensures
            final(self).wf(),
            final(self)@ == old(self)@.add_reg(x as int, y as int),
    {
        let a = self.v[x];
        let b = self.v[y];
        let carry = a as u16 + b as u16 > 0xFF;
        self.load_register_and_flag(x, a.wrapping_add(b), carry);
    }

    /// `Vx = Vx - Vy`, wrapping, with "no borrow" in `VF`.
    fn sub(&mut self, x: usize, y: usize)
        requires
            old(self).wf(),
            x < 16,
            y < 16,
        ensures
            final(self).wf(),
            final(self)@ == old(self)@.sub(x as int, y as int),
    {
        let a = self.v[x];
        let b = self.v[y];
        self.load_register_and_flag(x, a.wrapping_sub(b), a >= b);
    }

    /// `Vx = Vy - Vx`, wrapping, with "no borrow" in `VF`.
    fn subn(&mut self, x: usize, y: usize)
        requires
            old(self).wf(),
            x < 16,
            y < 16,
        ensures
            final(self).wf(),
            final(self)@ == old(self)@.subn(x as int, y as int),
    {
        let a = self.v[x];
        let b = self.v[y];
        self.load_register_and_flag(x, b.wrapping_sub(a), b >= a);
    }

    /// `Vx = Vx >> 1`, with the low bit in `VF`.
    fn shr(&mut self, x: usize)
        requires
            old(self).wf(),
            x < 16,
        ensures
            final(self).wf(),
            final(self)@ == old(self)@.shr(x as int),
    {
        let a = self.v[x];
        assert(a >> 1 == a / 2 && ((a & 1) != 0) == (a % 2 == 1)) by (bit_vector);
        self.load_register_and_flag(x, a >> 1, (a & 1) != 0);
    }

    /// `Vx = Vx << 1`, with the high bit in `VF`.
    fn shl(&mut self, x: usize)
        requires
            old(self).wf(),
            x < 16,
        ensures
            final(self).wf(),
            final(self)@ == old(self)@.shl(x as int),
    {
        let a = self.v[x];
        assert(a << 1 == (a * 2) % 256 && ((a & 0x80) != 0) == (a >= 128)) by (bit_vector);
        self.load_register_and_flag(x, a << 1, (a & 0x80) != 0);
    }

    /// Draw a sprite at (`Vx`, `Vy`), with the collision in `VF`.
    fn draw_sprite(&mut self, x: usize, y: usize, n: u8)
        requires
            old(self).wf(),
            x < 16,
            y < 16,
        ensures
            final(self).wf(),
            final(self)@ == old(self)@.draw(x as int, y as int, n as int),
    {
        let left = self.v[x];
        let top = self.v[y];
        let hit = draw(&mut self.vram, &self.ram, self.i, left, top, n, self.extended_mode);
        self.v[0xF] = if hit { 1 } else { 0 };
        self.advance();
    }

    /// Whether the key numbered `index` exists and is down.
    fn is_key_down(&self, index: u8) -> (down: bool)
        ensures
            down == key_down(self@.keys, index as int),
    {
        index < 16 && self.keys[index as usize]
    }

    /// The lowest key below 15 that is down, or 15.
    fn pressed_key(&self) -> (key: u8)
        ensures
            key == first_key_down(self@.keys, 0),
    {
        let mut key: u8 = 0;
        while key < 15
            invariant
                key <= 15,
                first_key_down(self.keys@, 0) == first_key_down(self.keys@, key as int),
            decreases 15 - key,
        {
            if self.keys[key as usize] {
                return key;
            }
            key += 1;
        }
        key
    }

    /// Wait for a key.
    fn wait_key(&mut self, x: usize)
        requires
            old(self).wf(),
            x < 16,
        ensures
            final(self).wf(),
            final(self)@ == old(self)@.wait_key(x as int),
    {
        let key = self.pressed_key();
        if key < 15 {
            self.load_register(x, key);
        }
    }

    /// Store the decimal digits of `Vx` at `I`.
    fn bcd(&mut self, x: usize)
        requires
            old(self).wf(),
            x < 16,
        ensures
            final(self).wf(),
            final(self)@ == old(self)@.bcd(x as int),
    {
        let value = self.v[x];
        let at = self.i as usize;
        self.ram[at] = value / 100;
        self.ram[(at + 1) % 0x1000] = (value / 10) % 10;
        self.ram[(at + 2) % 0x1000] = value % 10;
        self.advance();
    }

    /// Store `V0..=Vx` at `I`.
    fn store(&mut self, x: usize)
        requires
            old(self).wf(),
            x < 16,
        ensures
            final(self).wf(),
            final(self)@ == old(self)@.store(x as int),
    {
        let mut k: usize = 0;
        while k <= x
            invariant
                k <= x + 1,
                x < 16,
                old(self).wf(),
                self@ == (Machine {
                    memory: Seq::new(
                        4096,
                        |a: int|
                            if (a - old(self)@.i) % 4096 < k {
                                old(self)@.v[(a - old(self)@.i) % 4096]
                            } else {
                                old(self)@.memory[a]
                            },
                    ),
                    ..old(self)@
                }),
            decreases x + 1 - k,
        {
            self.ram[(self.i as usize + k) % 0x1000] = self.v[k];
            k += 1;
        }
        self.advance();
    }

    /// Load `V0..=Vx` from `I`.
    fn load(&mut self, x: usize)
        requires
            old(self).wf(),
            x < 16,
        ensures
            final(self).wf(),
            final(self)@ == old(self)@.load(x as int),
    {
        let mut k: usize = 0;
        while k <= x
            invariant
                k <= x + 1,
                x < 16,
                old(self).wf(),
                self@ == (Machine {
                    v: Seq::new(
                        16,
                        |r: int|
                            if r < k {
                                old(self)@.memory[(old(self)@.i + r) % 4096]
                            } else {
                                old(self)@.v[r]
                            },
                    ),
                    ..old(self)@
                }),
            decreases x + 1 - k,
        {
            self.v[k] = self.ram[(self.i as usize + k) % 0x1000];
            k += 1;
        }
        self.advance();
    }

    /// What there is to report about `ins` in this state.
    fn diagnose(&self, ins: Instruction) -> (note: Option<Diagnostic>)
        ensures
            note == self@.diagnose(ins),
    {
        match ins {
            Instruction::Call { .. } => {
                if self.sp < 15 {
                    None
                } else {
                    Some(Diagnostic::StackOverflow)
                }
            },
            Instruction::Unknown { opcode } => Some(Diagnostic::UnknownOpcode { opcode }),
            _ => None,
        }
    }

    /// Executes one decoded instruction. `random` is used by the random
    /// instruction only.
    fn execute(&mut self, ins: Instruction, random: u8)
        requires
            old(self).wf(),
            ins.wf(),
        ensures
            final(self).wf(),
            final(self)@ == old(self)@.execute(ins, random),
    {
        match ins {
            Instruction::Nop => self.advance(),
            Instruction::ScrollDown { n } => {
                scroll_down(&mut self.vram, n);
                self.advance();
            },
            Instruction::Cls => {
                clear(&mut self.vram);
                self.advance();
            },
            Instruction::Ret => self.ret(),
            Instruction::ScrollRight => {
                scroll_right(&mut self.vram);
                self.advance();
            },
            Instruction::ScrollLeft => {
                scroll_left(&mut self.vram);
                self.advance();
            },
            Instruction::Exit => {},
            Instruction::Low => {
                self.extended_mode = false;
                self.advance();
            },
            Instruction::High => {
                self.extended_mode = true;
                self.advance();
            },
            Instruction::Jp { addr } => self.jump(addr),
            Instruction::Call { addr } => self.call(addr),
            Instruction::SeByte { x, byte } => self.skip_if(self.v[x] == byte),
            Instruction::SneByte { x, byte } => self.skip_if(self.v[x] != byte),
            Instruction::SeReg { x, y } => self.skip_if(self.v[x] == self.v[y]),
            Instruction::LdByte { x, byte } => self.load_register(x, byte),
            Instruction::AddByte { x, byte } => self.add_byte(x, byte),
            Instruction::LdReg { x, y } => self.load_register(x, self.v[y]),
            Instruction::Or { x, y } => self.load_register(x, self.v[x] | self.v[y]),
            Instruction::And { x, y } => self.load_register(x, self.v[x] & self.v[y]),
            Instruction::Xor { x, y } => self.load_register(x, self.v[x] ^ self.v[y]),
            Instruction::AddReg { x, y } => self.add_reg(x, y),
            Instruction::Sub { x, y } => self.sub(x, y),
            Instruction::Shr { x } => self.shr(x),
            Instruction::Subn { x, y } => self.subn(x, y),
            Instruction::Shl { x } => self.shl(x),
            Instruction::SneReg { x, y } => self.skip_if(self.v[x] != self.v[y]),
            Instruction::LdI { addr } => {
                self.i = addr;
                self.advance();
            },
            Instruction::JpV0 { addr } => self.jump(self.v[0] as u16 + addr),
            Instruction::Rnd { x, byte } => self.load_register(x, random & byte),
            Instruction::Drw { x, y, n } => self.draw_sprite(x, y, n),
            Instruction::Skp { x } => {
                let down = self.is_key_down(self.v[x]);
                self.skip_if(down);
            },
            Instruction::Sknp { x } => {
                let down = self.is_key_down(self.v[x]);
                self.skip_if(!down);
            },
            Instruction::LdVxDt { x } => self.load_register(x, self.dt),
            Instruction::LdKey { x } => self.wait_key(x),
            Instruction::LdDtVx { x } => {
                self.dt = self.v[x];
                self.advance();
            },
            Instruction::LdStVx { x } => {
                self.st = self.v[x];
                self.advance();
            },
            Instruction::AddI { x } => {
                self.i = (self.i + self.v[x] as u16) % 0x1000;
                self.advance();
            },
            Instruction::LdSmallGlyph { x } => {
                self.i = self.v[x] as u16 * 5;
                self.advance();
            },
            Instruction::LdLargeGlyph { x } => {
                self.i = self.v[x] as u16 * 10 + 80;
                self.advance();
            },
            Instruction::LdBcd { x } => self.bcd(x),
            Instruction::Store { x } => self.store(x),
            Instruction::Load { x } => self.load(x),
            Instruction::Unknown { .. } => self.advance(),
        }
    }

    /// Runs one cycle with `random` as the byte for the random instruction,
    /// and returns what the cycle reports.
    pub fn step(&mut self, random: u8) -> (note: Option<Diagnostic>)
        requires
            old(self).wf(),
        ensures
            final(self).wf(),
            final(self)@ == old(self)@.step(random),
            note == old(self)@.diagnostic(),
    {
        let ins = decode(self.fetch());
        let note = self.diagnose(ins);
        self.execute(ins, random);
        note
    }

    /// Runs one cycle and returns what it reports. A random instruction gets
    /// its byte from the random source; whatever byte comes, the cycle is a
    /// [`Chip8VM::step`] with it.
    pub fn do_cycle(&mut self) -> (note: Option<Diagnostic>)
        requires
            old(self).wf(),
        ensures
            final(self).wf(),
            exists|random: u8| final(self)@ == old(self)@.step(random),
            note == old(self)@.diagnostic(),
    {
        let ins = decode(self.fetch());
        let random = match ins {
            Instruction::Rnd { .. } => random_byte(),
            _ => 0,
        };
        let note = self.diagnose(ins);
        self.execute(ins, random);
        assert(self@ == old(self)@.step(random));
        note
    }

    /// Counts both timers down by one, stopping at zero.
    pub fn tick_timers(&mut self)
        requires
            old(self).wf(),
        ensures
            final(self).wf(),
            final(self)@ == old(self)@.tick(),
    {
        if self.dt > 0 {
            self.dt -= 1;
        }
        if self.st > 0 {
            self.st -= 1;
        }
    }

    /// One display refresh: runs `cycles` cycles, then counts the timers
    /// down once, and returns what the cycles reported, in order. The random
    /// bytes are whatever the random source gave, one for each cycle, used
    /// by random instructions only.
    pub fn do_frame(&mut self, cycles: u32) -> (log: Vec<Diagnostic>)
        requires
            old(self).wf(),
        ensures
            final(self).wf(),
            exists|random: Seq<u8>|
                random.len() == cycles && final(self)@ == #[trigger] old(self)@.frame(random)
                    && log@ == old(self)@.log(random),
    {
        let mut log: Vec<Diagnostic> = Vec::new();
        let ghost mut drawn: Seq<u8> = Seq::empty();
        let mut done: u32 = 0;
        while done < cycles
            invariant
                done <= cycles,
                self.wf(),
                drawn.len() == done,
                self@ == old(self)@.run(drawn),
                log@ == old(self)@.log(drawn),
            decreases cycles - done,
        {
            let ghost before = self@;
            let note = self.do_cycle();
            proof {
                let byte = choose|random: u8| self@ == before.step(random);
                assert(drawn.push(byte).drop_last() == drawn);
                drawn = drawn.push(byte);
            }
            if let Some(diagnostic) = note {
                log.push(diagnostic);
            }
            done += 1;
        }
        self.tick_timers();
        assert(self@ == old(self)@.frame(drawn));
        log
    }

    /// Records that key `key` went down or up. A number that names none of
    /// the 16 keys is ignored.
    pub fn set_key(&mut self, key: usize, down: bool)
        requires
            old(self).wf(),
        ensures
            final(self).wf(),
            key < 16 ==> final(self)@ == (Machine {
                keys: old(self)@.keys.update(key as int, down),
                ..old(self)@
            }),
            key >= 16 ==> final(self)@ == old(self)@,
    {
        if key < 16 {
            self.keys[key] = down;
        }
    }

    /// The display: cell `row * 128 + col` is `true` when lit.
    pub fn vram(&self) -> (cells: &[bool; 8192])
        ensures
            cells@ == self@.display,
    {
        &self.vram
    }

    /// The key states.
    pub fn keys(&self) -> (keys: &[bool; 16])
        ensures
            keys@ == self@.keys,
    {
        &self.keys
    }

    /// The memory.
    pub fn memory(&self) -> (bytes: &[u8; 4096])
        ensures
            bytes@ == self@.memory,
    {
        &self.ram
    }

    /// The registers `V0`..`VF`.
    pub fn registers(&self) -> (v: &[u8; 16])
        ensures
            v@ == self@.v,
    {
        &self.v
    }

    /// The stack slots; the first [`Chip8VM::sp`] of them are in use.
    pub fn stack(&self) -> (slots: &[u16; 16])
        ensures
            slots@ == self@.stack,
    {
        &self.stack
    }

    /// The index register.
    pub fn index(&self) -> (i: u16)
        ensures
            i == self@.i,
    {
        self.i
    }

    /// The program counter.
    pub fn pc(&self) -> (pc: u16)
        ensures
            pc == self@.pc,
    {
        self.pc
    }

    /// The number of return addresses on the stack.
    pub fn sp(&self) -> (sp: u8)
        ensures
            sp == self@.sp,
    {
        self.sp
    }

    /// The delay timer.
    pub fn delay_timer(&self) -> (timer: u8)
        ensures
            timer == self@.delay,
    {
        self.dt
    }

    /// The sound timer. The host sounds its tone while this is above zero.
    pub fn sound_timer(&self) -> (timer: u8)
        ensures
            timer == self@.sound,
    {
        self.st
    }

    /// Whether the display is in extended mode.
    pub fn extended_mode(&self) -> (extended: bool)
        ensures
            extended == self@.extended,
    {
        self.extended_mode
    }
}

} // verus!
