//! The executor: one handler for each family of instructions.

use vstd::prelude::*;
use crate::bits::{get_bit, splice_digits};
use crate::machine::CHIP8;
use crate::framebuffer::draw_sprite;
use crate::model::{next_pc, outcome_is, Machine};
use crate::opcode::{ControlEffect, Fault, Opcode};

verus! {

impl CHIP8 {
    /// Moves the program counter on by one instruction, up to the largest
    /// address.
    pub fn advance_pc(&mut self)
        ensures
            final(self)@ == old(self)@.set_pc(next_pc(old(self)@.pc)),
            final(self).wf() == old(self).wf(),
    {
        self.pc = if self.pc > 0xFFFF - 2 {
            0xFFFF
        } else {
            self.pc + 2
        };
    }

    /// Passes over the next instruction where `condition` holds.
    fn skip_if(&mut self, condition: bool)
        ensures
            final(self)@ == old(self)@.skip_if(condition),
            final(self).wf() == old(self).wf(),
    {
        if condition {
            self.advance_pc();
        }
    }

    /// The handler of `00E0` and `00EE`.
    fn execute_system(&mut self, op: Opcode) -> (result: Result<ControlEffect, Fault>)
        requires
            op.wf(),
        ensures
            outcome_is(old(self)@.exec_system(op), result, old(self)@, final(self)@),
            final(self).wf() == old(self).wf(),
    {
        if op.n1 == 0 && op.n2 == 0xE && op.n3 == 0 {
            self.frame_buffer.clear();
            Ok(ControlEffect::Advance)
        } else if op.n1 == 0 && op.n2 == 0xE && op.n3 == 0xE {
            match self.return_from_subroutine() {
                Ok(()) => Ok(ControlEffect::Advance),
                Err(fault) => Err(fault),
            }
        } else {
            Ok(ControlEffect::Advance)
        }
    }

    /// The handler of the shifts `8XY6` and `8XYE`.
    fn execute_shift(&mut self, op: Opcode, left: bool)
        requires
            op.wf(),
        ensures
            final(self)@ == old(self)@.exec_shift(op, left),
            final(self).wf() == old(self).wf(),
    {
        let x: usize = op.n1 as usize;
        if self.super_chip {
            self.registers[x] = self.registers[op.n2 as usize];
        }
        let position: u8 = if left {
            0
        } else {
            7
        };
        if get_bit(&self.registers[x], &position) {
            self.registers[15] = 1;
        } else {
            self.registers[15] = 0;
        }
        if left {
            self.registers[x] = self.registers[x] << 1u8;
        } else {
            self.registers[x] = self.registers[x] >> 1u8;
        }
    }

    /// The handler of `8XY0` to `8XYE`.
    fn execute_alu(&mut self, op: Opcode)
        requires
            op.wf(),
        ensures
            final(self)@ == old(self)@.exec_alu(op),
            final(self).wf() == old(self).wf(),
    {
        let index: usize = op.n1 as usize;
        let second_index: usize = op.n2 as usize;
        let vx: u8 = self.registers[index];
        let vy: u8 = self.registers[second_index];
        match op.n3 {
            0 => {
                self.registers[index] = vy;
            },
            1 => {
                self.registers[index] = vx | vy;
            },
            2 => {
                self.registers[index] = vx & vy;
            },
            3 => {
                self.registers[index] = vx ^ vy;
            },
            4 => {
                if 255 - vx >= vy {
                    self.registers[index] = vx + vy;
                    self.registers[15] = 0;
                } else {
                    self.registers[index] = 255;
                    self.registers[15] = 1;
                }
            },
            5 => {
                if vx > vy {
                    self.registers[index] = vx - vy;
                    self.registers[15] = 1;
                } else {
                    self.registers[index] = 0;
                    self.registers[15] = 0;
                }
            },
            6 => {
                self.execute_shift(op, false);
            },
            7 => {
                if vy > vx {
                    self.registers[index] = vy - vx;
                    self.registers[15] = 1;
                } else {
                    self.registers[index] = 0;
                    self.registers[15] = 0;
                }
            },
            0xE => {
                self.execute_shift(op, true);
            },
            _ => {},
        }
    }

    /// The handler of `DXYN`. Memory is checked before anything is drawn.
    fn execute_draw(&mut self, op: Opcode) -> (result: Result<ControlEffect, Fault>)
        requires
            op.wf(),
        ensures
            outcome_is(old(self)@.exec_draw(op), result, old(self)@, final(self)@),
            final(self).wf() == old(self).wf(),
    {
        let x: u8 = self.registers[op.n1 as usize] % 64;
        let y: u8 = self.registers[op.n2 as usize] % 32;
        let n: u8 = op.n3;
        let rows: u8 = if n < 32 - y {
            n
        } else {
            32 - y
        };
        if rows > 0 && self.index_reg as u32 + rows as u32 > 4096 {
            return Err(Fault::MemoryBoundsFault);
        }
        let vf_flip = if rows > 0 {
            self.frame_buffer.draw_sprite(&self.memory, self.index_reg, x, y, rows)
        } else {
            proof {
                self.frame_buffer.lemma_view_wf();
                assert(self.frame_buffer@ =~~= draw_sprite(
                    self.frame_buffer@,
                    self.memory@,
                    self.index_reg as int,
                    x as int,
                    y as int,
                    0,
                ));
            }
            false
        };
        if vf_flip {
            self.registers[15] = 1;
        } else {
            self.registers[15] = 0;
        }
        Ok(ControlEffect::Advance)
    }

    /// The handler of `EX9E` and `EXA1`.
    fn execute_key_skip(&mut self, op: Opcode)
        requires
            op.wf(),
            old(self).wf(),
        ensures
            final(self)@ == old(self)@.exec_key_skip(op),
            final(self).wf(),
    {
        if self.key_pressed {
            if let Some(key) = self.last_key {
                let vx: u8 = self.registers[op.n1 as usize];
                if op.n2 == 9 && op.n3 == 0xE {
                    self.skip_if(vx == key);
                } else if op.n2 == 0xA && op.n3 == 1 {
                    self.skip_if(vx != key);
                }
            }
        }
    }

    /// The handler of `FX33`.
    fn execute_store_digits(&mut self, op: Opcode) -> (result: Result<ControlEffect, Fault>)
        requires
            op.wf(),
        ensures
            outcome_is(old(self)@.exec_store_digits(op), result, old(self)@, final(self)@),
            final(self).wf() == old(self).wf(),
    {
        if self.index_reg as u32 + 2 >= 4096 {
            return Err(Fault::MemoryBoundsFault);
        }
        let number: u8 = self.registers[op.n1 as usize];
        let (digit_one, digit_two, digit_three) = splice_digits(number);
        let at: usize = self.index_reg as usize;
        self.memory[at] = digit_one;
        self.memory[at + 1] = digit_two;
        self.memory[at + 2] = digit_three;
        Ok(ControlEffect::Advance)
    }

    /// Moves the index register past a block of registers 0 to `x` in the
    /// older dialect.
    fn finish_block(&mut self, x: u8)
        requires
            x < 16,
        ensures
            final(self)@ == old(self)@.set_index(old(self)@.after_block(x as int)),
            final(self).wf() == old(self).wf(),
    {
        if !self.super_chip {
            let past: u32 = self.index_reg as u32 + x as u32 + 1;
            self.index_reg = if past > 0xFFFF {
                0xFFFF
            } else {
                past as u16
            };
        }
    }

    /// The handler of `FX55`.
    fn execute_store_registers(&mut self, op: Opcode) -> (result: Result<ControlEffect, Fault>)
        requires
            op.wf(),
        ensures
            outcome_is(old(self)@.exec_store_registers(op), result, old(self)@, final(self)@),
            final(self).wf() == old(self).wf(),
    {
        let max: u8 = op.n1;
        if self.index_reg as u32 + max as u32 >= 4096 {
            return Err(Fault::MemoryBoundsFault);
        }
        let base: usize = self.index_reg as usize;
        let mut i: usize = 0;
        while i <= max as usize
            invariant
                i <= max + 1,
                max < 16,
                base + max < 4096,
                base == old(self)@.index_reg,
                self.wf() == old(self).wf(),
                self@ == (Machine { memory: self@.memory, ..old(self)@ }),
                forall|a: int|
                    0 <= a < 4096 ==> self@.memory[a] == (if base <= a < base + i {
                        old(self)@.registers[a - base]
                    } else {
                        old(self)@.memory[a]
                    }),
            decreases max + 1 - i,
        {
            self.memory[base + i] = self.registers[i];
            i += 1;
        }
        assert(self@.memory =~= old(self)@.exec_store_registers(op).unwrap().0.memory);
        self.finish_block(max);
        Ok(ControlEffect::Advance)
    }

    /// The handler of `FX65`.
    fn execute_load_registers(&mut self, op: Opcode) -> (result: Result<ControlEffect, Fault>)
        requires
            op.wf(),
        ensures
            outcome_is(old(self)@.exec_load_registers(op), result, old(self)@, final(self)@),
            final(self).wf() == old(self).wf(),
    {
        let max: u8 = op.n1;
        if self.index_reg as u32 + max as u32 >= 4096 {
            return Err(Fault::MemoryBoundsFault);
        }
        let base: usize = self.index_reg as usize;
        let mut i: usize = 0;
        while i <= max as usize
            invariant
                i <= max + 1,
                max < 16,
                base + max < 4096,
                base == old(self)@.index_reg,
                self.wf() == old(self).wf(),
                self@ == (Machine { registers: self@.registers, ..old(self)@ }),
                forall|r: int|
                    0 <= r < 16 ==> self@.registers[r] == (if r < i {
                        old(self)@.memory[base + r]
                    } else {
                        old(self)@.registers[r]
                    }),
            decreases max + 1 - i,
        {
            self.registers[i] = self.memory[base + i];
            i += 1;
        }
        assert(self@.registers =~= old(self)@.exec_load_registers(op).unwrap().0.registers);
        self.finish_block(max);
        Ok(ControlEffect::Advance)
    }

    /// The handler of `FX0A`.
    fn execute_wait_key(&mut self, op: Opcode) -> (result: Result<ControlEffect, Fault>)
        requires
            op.wf(),
            old(self).wf(),
        ensures
            outcome_is(old(self)@.exec_wait_key(op), result, old(self)@, final(self)@),
            final(self).wf(),
    {
        if self.key_pressed {
            if let Some(key) = self.last_key {
                self.registers[op.n1 as usize] = key;
            }
            self.key_pressed = false;
            Ok(ControlEffect::Advance)
        } else {
            Ok(ControlEffect::Stay)
        }
    }

    /// The handler of the instructions that start with F.
    fn execute_misc(&mut self, op: Opcode) -> (result: Result<ControlEffect, Fault>)
        requires
            op.wf(),
            old(self).wf(),
        ensures
            outcome_is(old(self)@.exec_misc(op), result, old(self)@, final(self)@),
            final(self).wf(),
    {
        let x: usize = op.n1 as usize;
        let vx: u8 = self.registers[x];
        if op.n2 == 0 && op.n3 == 7 {
            self.registers[x] = self.delay_timer;
            Ok(ControlEffect::Advance)
        } else if op.n2 == 1 && op.n3 == 5 {
            self.delay_timer = vx;
            Ok(ControlEffect::Advance)
        } else if op.n2 == 1 && op.n3 == 8 {
            self.sound_timer = vx;
            Ok(ControlEffect::Advance)
        } else if op.n2 == 1 && op.n3 == 0xE {
            let sum: u32 = self.index_reg as u32 + vx as u32;
            self.index_reg = if sum > 0xFFFF {
                0xFFFF
            } else {
                sum as u16
            };
            Ok(ControlEffect::Advance)
        } else if op.n2 == 0 && op.n3 == 0xA {
            self.execute_wait_key(op)
        } else if op.n2 == 2 && op.n3 == 9 {
            let character: u16 = (vx % 16) as u16;
            self.index_reg = character * 5;
            Ok(ControlEffect::Advance)
        } else if op.n2 == 3 && op.n3 == 3 {
            self.execute_store_digits(op)
        } else if op.n2 == 5 && op.n3 == 5 {
            self.execute_store_registers(op)
        } else if op.n2 == 6 && op.n3 == 5 {
            self.execute_load_registers(op)
        } else {
            Ok(ControlEffect::Advance)
        }
    }

    /// Carries out the handler of one decoded instruction. `random` is the
    /// byte that `CXNN` masks. The result tells whether the program counter
    /// is still to be moved on; on a fault the machine is left as it was.
    pub fn execute(&mut self, op: Opcode, random: u8) -> (result: Result<ControlEffect, Fault>)
        requires
            op.wf(),
            old(self).wf(),
        ensures
            outcome_is(old(self)@.execute(op, random), result, old(self)@, final(self)@),
            final(self).wf(),
    {
        let x: usize = op.n1 as usize;
        let vx: u8 = self.registers[x];
        let vy: u8 = self.registers[op.n2 as usize];
        let nn: u8 = op.nn();
        let nnn: u16 = op.nnn();
        match op.n0 {
            0 => self.execute_system(op),
            1 => {
                self.pc = nnn;
                Ok(ControlEffect::Stay)
            },
            2 => {
                self.stack.push(self.pc);
                self.pc = nnn;
                Ok(ControlEffect::Stay)
            },
            3 => {
                self.skip_if(vx == nn);
                Ok(ControlEffect::Advance)
            },
            4 => {
                self.skip_if(vx != nn);
                Ok(ControlEffect::Advance)
            },
            5 => {
                self.skip_if(op.n3 == 0 && vx == vy);
                Ok(ControlEffect::Advance)
            },
            6 => {
                self.registers[x] = nn;
                Ok(ControlEffect::Advance)
            },
            7 => {
                if 255 - vx >= nn {
                    self.registers[x] = vx + nn;
                } else {
                    self.registers[x] = 255;
                }
                Ok(ControlEffect::Advance)
            },
            8 => {
                self.execute_alu(op);
                Ok(ControlEffect::Advance)
            },
            9 => {
                self.skip_if(op.n3 == 0 && vx != vy);
                Ok(ControlEffect::Advance)
            },
            0xA => {
                self.index_reg = nnn;
                Ok(ControlEffect::Advance)
            },
            0xB => {
                let offset: u8 = if self.super_chip {
                    vx
                } else {
                    self.registers[0]
                };
                self.pc = nnn + offset as u16;
                Ok(ControlEffect::Stay)
            },
            0xC => {
                self.registers[x] = random & nn;
                Ok(ControlEffect::Advance)
            },
            0xD => self.execute_draw(op),
            0xE => {
                self.execute_key_skip(op);
                Ok(ControlEffect::Advance)
            },
            _ => self.execute_misc(op),
        }
    }
}

} // verus!
