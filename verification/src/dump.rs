//! The textual dump of the machine state, for debugging.
use crate::hex::hex;
use crate::hex::push_hex;
use crate::machine::Machine;
use crate::vm::Chip8VM;
use vstd::prelude::*;

verus! {

/// The dump of register `k`: its name, its value, and a line break after
/// every fourth register.
pub open spec fn register_text(k: int, value: u8) -> Seq<char> {
    "V"@ + hex(k as nat, 1) + ": "@ + hex(value as nat, 2) + " "@ + (if (k + 1) % 4 == 0 {
        "\n"@
    } else {
        ""@
    })
}

/// The dump of the registers below `count`.
pub open spec fn registers_text(v: Seq<u8>, count: int) -> Seq<char>
    decreases count,
{
    if count <= 0 {
        Seq::empty()
    } else {
        registers_text(v, count - 1) + register_text(count - 1, v[count - 1])
    }
}

/// The dump of the stack slots below `count`, each followed by a space.
pub open spec fn stack_text(stack: Seq<u16>, count: int) -> Seq<char>
    decreases count,
{
    if count <= 0 {
        Seq::empty()
    } else {
        stack_text(stack, count - 1) + hex(stack[count - 1] as nat, 3) + " "@
    }
}

/// The dump of a machine: the sixteen registers four to a line, the return
/// addresses on the stack, then the index register, the program counter, the
/// stack pointer and the two timers, one to a line.
pub open spec fn dump_text(m: Machine) -> Seq<char> {
    registers_text(m.v, 16) + "Stack: "@ + stack_text(m.stack, m.sp) + "\n"@ + "I : "@ + hex(
        m.i as nat,
        3,
    ) + "\n"@ + "PC: "@ + hex(m.pc as nat, 3) + "\n"@ + "SP: "@ + hex(m.sp as nat, 2) + "\n"@
        + "DT: "@ + hex(m.delay as nat, 2) + "\n"@ + "ST: "@ + hex(m.sound as nat, 2) + "\n"@
}

impl Chip8VM {
    /// The state as text, for debugging. Reads the machine and changes
    /// nothing.
    pub fn register_dump(&self) -> (text: String)
        requires
            self.wf(),
        ensures
            text@ == dump_text(self@),
    {
        let mut out = String::new();
        let v = self.registers();
        let mut k: usize = 0;
        while k < 16
            invariant
                k <= 16,
                v@ == self@.v,
                out@ == registers_text(self@.v, k as int),
            decreases 16 - k,
        {
            out.append("V");
            push_hex(&mut out, k as u16, 1);
            out.append(": ");
            push_hex(&mut out, v[k] as u16, 2);
            out.append(" ");
            out.append(if (k + 1) % 4 == 0 { "\n" } else { "" });
            k += 1;
        }
        out.append("Stack: ");
        let ghost head = out@;
        let stack = self.stack();
        let depth = self.sp() as usize;
        let mut s: usize = 0;
        while s < depth
            invariant
                s <= depth,
                depth == self@.sp,
                depth <= 15,
                stack@ == self@.stack,
                out@ == head + stack_text(self@.stack, s as int),
            decreases depth - s,
        {
            push_hex(&mut out, stack[s], 3);
            out.append(" ");
            s += 1;
        }
        out.append("\n");
        out.append("I : ");
        push_hex(&mut out, self.index(), 3);
        out.append("\n");
        out.append("PC: ");
        push_hex(&mut out, self.pc(), 3);
        out.append("\n");
        out.append("SP: ");
        push_hex(&mut out, self.sp() as u16, 2);
        out.append("\n");
        out.append("DT: ");
        push_hex(&mut out, self.delay_timer() as u16, 2);
        out.append("\n");
        out.append("ST: ");
        push_hex(&mut out, self.sound_timer() as u16, 2);
        out.append("\n");
        out
    }
}

} // verus!
