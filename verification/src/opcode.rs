//! Decoded instructions, and what executing one can report.

use vstd::prelude::*;

verus! {

/// One instruction word as four 4-bit fields, most significant first.
#[derive(Clone, Copy, Debug, PartialEq, Eq, Structural)]
pub struct Opcode {
    pub n0: u8,
    pub n1: u8,
    pub n2: u8,
    pub n3: u8,
}

/// What the machine does with the program counter once a handler has run.
#[derive(Clone, Copy, Debug, PartialEq, Eq, Structural)]
pub enum ControlEffect {
    /// The program counter moves on by one instruction.
    Advance,
    /// The handler has placed the program counter itself.
    Stay,
}

/// Why a step could not be carried out.
#[derive(Clone, Copy, Debug, PartialEq, Eq, Structural)]
pub enum Fault {
    /// Fewer than two bytes of memory are left at the program counter.
    DecodeFault,
    /// A return was executed with an empty call stack.
    StackUnderflow,
    /// An address computed from the index register lies beyond memory.
    MemoryBoundsFault,
}

impl Opcode {
    /// Each field holds four bits.
    pub open spec fn wf(self) -> bool {
        self.n0 < 16 && self.n1 < 16 && self.n2 < 16 && self.n3 < 16
    }

    /// The fields of the word whose high byte is `hi` and whose low byte is `lo`.
    pub open spec fn spec_from_bytes(hi: u8, lo: u8) -> Opcode {
        Opcode { n0: hi / 16, n1: hi % 16, n2: lo / 16, n3: lo % 16 }
    }

    /// The 12-bit address held in the last three fields.
    pub open spec fn spec_nnn(self) -> u16 {
        (self.n1 * 256 + self.n2 * 16 + self.n3) as u16
    }

    /// The byte held in the last two fields.
    pub open spec fn spec_nn(self) -> u8 {
        (self.n2 * 16 + self.n3) as u8
    }

    /// Whether the word is one of the instructions of the machine. Every
    /// other word is carried out as an instruction that does nothing.
    pub open spec fn is_known(self) -> bool {
        if self.n0 == 0 {
            self.n1 == 0 && self.n2 == 0xE && (self.n3 == 0 || self.n3 == 0xE)
        } else if self.n0 == 5 || self.n0 == 9 {
            self.n3 == 0
        } else if self.n0 == 8 {
            self.n3 <= 7 || self.n3 == 0xE
        } else if self.n0 == 0xE {
            (self.n2 == 9 && self.n3 == 0xE) || (self.n2 == 0xA && self.n3 == 1)
        } else if self.n0 == 0xF {
            ||| (self.n2 == 0 && (self.n3 == 7 || self.n3 == 0xA))
            ||| (self.n2 == 1 && (self.n3 == 5 || self.n3 == 8 || self.n3 == 0xE))
            ||| (self.n2 == 2 && self.n3 == 9)
            ||| (self.n2 == 3 && self.n3 == 3)
            ||| (self.n2 == 5 && self.n3 == 5)
            ||| (self.n2 == 6 && self.n3 == 5)
        } else {
            self.n0 < 16
        }
    }

    /// Splits the two bytes of an instruction into its four fields.
    pub fn from_bytes(hi: u8, lo: u8) -> (op: Opcode)
        ensures
            op == Self::spec_from_bytes(hi, lo),
            op.wf(),
    {
        Opcode { n0: hi / 16, n1: hi % 16, n2: lo / 16, n3: lo % 16 }
    }

    /// The 12-bit address operand.
    pub fn nnn(&self) -> (address: u16)
        requires
            self.wf(),
        ensures
            address == self.spec_nnn(),
            address == self.n1 * 256 + self.n2 * 16 + self.n3,
            address < 4096,
    {
        self.n1 as u16 * 256 + self.n2 as u16 * 16 + self.n3 as u16
    }

    /// The byte operand.
    pub fn nn(&self) -> (byte: u8)
        requires
            self.wf(),
        ensures
            byte == self.spec_nn(),
            byte == self.n2 * 16 + self.n3,
    {
        self.n2 * 16 + self.n3
    }
}

/// A word split into fields is put together again by its operands: the first
/// field and the address give back the high byte, the byte operand is the low
/// byte.
pub proof fn lemma_fields_recompose(hi: u8, lo: u8)
    ensures
        Opcode::spec_from_bytes(hi, lo).wf(),
        Opcode::spec_from_bytes(hi, lo).spec_nn() == lo,
        Opcode::spec_from_bytes(hi, lo).spec_nnn() == (hi % 16) * 256 + lo,
        Opcode::spec_from_bytes(hi, lo).n0 * 16 + Opcode::spec_from_bytes(hi, lo).n1 == hi,
{
}

} // verus!
