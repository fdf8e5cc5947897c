//! The machine as a mathematical value, and what each instruction does to it.

use vstd::prelude::*;
use crate::bits::{spec_digits, spec_get_bit};
use crate::framebuffer::{blank_screen, draw_sprite, screen_wf, sprite_collides};
use crate::memory::initial_memory;
use crate::opcode::{ControlEffect, Fault, Opcode};

verus! {

/// The state of a machine: what a step reads and changes.
pub struct Machine {
    /// The sixteen general registers; register 15 is the flag register.
    pub registers: Seq<u8>,
    /// The 4096 bytes of memory.
    pub memory: Seq<u8>,
    /// The return addresses of the calls in progress, the latest last.
    pub stack: Seq<u16>,
    pub pc: u16,
    pub index_reg: u16,
    pub sound_timer: u8,
    pub delay_timer: u8,
    /// The display, 32 rows of 64 pixels.
    pub pixels: Seq<Seq<bool>>,
    pub paused: bool,
    /// Whether a key press is waiting to be consumed by the next step.
    pub key_pressed: bool,
    /// The key pressed last, if any was.
    pub last_key: Option<u8>,
    /// Which of the two dialects the shifts, the jump with offset and the
    /// block transfers follow.
    pub super_chip: bool,
}

/// What executing one instruction leads to: the new state and what becomes of
/// the program counter, or the fault that left the state as it was.
pub type Outcome = Result<(Machine, ControlEffect), Fault>;

/// The program counter one instruction further, held at the largest address.
pub open spec fn next_pc(pc: u16) -> u16 {
    if pc + 2 > 0xFFFF {
        0xFFFFu16
    } else {
        (pc + 2) as u16
    }
}

/// `a + b` as a 16-bit value, held at 65535.
pub open spec fn saturating_u16(sum: int) -> u16 {
    if sum > 0xFFFF {
        0xFFFFu16
    } else {
        sum as u16
    }
}

/// `a + b` as a byte, held at 255.
pub open spec fn saturating_u8(sum: int) -> u8 {
    if sum > 0xFF {
        0xFFu8
    } else {
        sum as u8
    }
}

/// 1 for true, 0 for false: how a flag is written to a register.
pub open spec fn flag(on: bool) -> u8 {
    if on {
        1u8
    } else {
        0u8
    }
}

/// The rows of an `n`-row sprite that lie on the screen when its top is at
/// row `y`: the rows below row 31 are dropped.
pub open spec fn visible_rows(y: int, n: int) -> int {
    if n < 32 - y {
        n
    } else {
        32 - y
    }
}

/// The timer units that have run out in a span of `secs` whole seconds and
/// `nanos` nanoseconds, at sixty units a second, rounded down.
pub open spec fn timer_units(secs: u64, nanos: u32) -> nat {
    ((secs * 1_000_000_000 + nanos) * 60 / 1_000_000_000) as nat
}

/// A timer after `units` units have run out: it stops at zero.
pub open spec fn countdown(timer: u8, units: nat) -> u8 {
    if units >= timer {
        0u8
    } else {
        (timer - units) as u8
    }
}

impl Machine {
    /// Sixteen registers, 4096 bytes, a full screen, a key from 0 to 15 if
    /// there is one, and a key wherever a key press is pending.
    pub open spec fn wf(self) -> bool {
        &&& self.registers.len() == 16
        &&& self.memory.len() == 4096
        &&& screen_wf(self.pixels)
        &&& (self.key_pressed ==> self.last_key is Some)
        &&& (self.last_key matches Some(key) ==> key <= 15)
    }

    /// A machine that has just been given `program`.
    pub open spec fn initial(program: Seq<u8>, super_chip: bool) -> Machine {
        Machine {
            registers: Seq::new(16, |i: int| 0u8),
            memory: initial_memory(program),
            stack: Seq::empty(),
            pc: 512,
            index_reg: 0,
            sound_timer: 0,
            delay_timer: 0,
            pixels: blank_screen(),
            paused: false,
            key_pressed: false,
            last_key: None,
            super_chip,
        }
    }

    /// The instruction at the program counter.
    pub open spec fn fetch(self) -> Opcode {
        Opcode::spec_from_bytes(self.memory[self.pc as int], self.memory[self.pc + 1])
    }

    /// Register X of an instruction.
    pub open spec fn vx(self, op: Opcode) -> u8 {
        self.registers[op.n1 as int]
    }

    /// Register Y of an instruction.
    pub open spec fn vy(self, op: Opcode) -> u8 {
        self.registers[op.n2 as int]
    }

    pub open spec fn set_reg(self, i: int, value: u8) -> Machine {
        Machine { registers: self.registers.update(i, value), ..self }
    }

    pub open spec fn set_pc(self, pc: u16) -> Machine {
        Machine { pc, ..self }
    }

    pub open spec fn set_index(self, index_reg: u16) -> Machine {
        Machine { index_reg, ..self }
    }

    /// The program counter moved past the next instruction where `condition` holds.
    pub open spec fn skip_if(self, condition: bool) -> Machine {
        if condition {
            self.set_pc(next_pc(self.pc))
        } else {
            self
        }
    }

    /// The index register after a block transfer of registers 0 to `x`: left
    /// alone in the newer dialect, moved past the block in the older one.
    pub open spec fn after_block(self, x: int) -> u16 {
        if self.super_chip {
            self.index_reg
        } else {
            saturating_u16(self.index_reg + x + 1)
        }
    }

    /// `00E0` clears the screen, `00EE` returns from a subroutine; any other
    /// instruction that starts with 0 does nothing.
    pub open spec fn exec_system(self, op: Opcode) -> Outcome {
        if op.n1 == 0 && op.n2 == 0xE && op.n3 == 0 {
            Ok((Machine { pixels: blank_screen(), ..self }, ControlEffect::Advance))
        } else if op.n1 == 0 && op.n2 == 0xE && op.n3 == 0xE {
            if self.stack.len() == 0 {
                Err(Fault::StackUnderflow)
            } else {
                Ok(
                    (
                        Machine { pc: self.stack.last(), stack: self.stack.drop_last(), ..self },
                        ControlEffect::Advance,
                    ),
                )
            }
        } else {
            Ok((self, ControlEffect::Advance))
        }
    }

    /// The shifts `8XY6` (to the right when `left` is false) and `8XYE`: in the
    /// newer dialect register X first takes the value of register Y; the
    /// flag register receives the bit that is shifted out, then register X
    /// is shifted by one place.
    pub open spec fn exec_shift(self, op: Opcode, left: bool) -> Machine {
        let x = op.n1 as int;
        let loaded = if self.super_chip {
            self.set_reg(x, self.vy(op))
        } else {
            self
        };
        let flagged = loaded.set_reg(
            15,
            flag(
                spec_get_bit(
                    loaded.registers[x],
                    if left {
                        0
                    } else {
                        7
                    },
                ),
            ),
        );
        flagged.set_reg(
            x,
            if left {
                flagged.registers[x] << 1u8
            } else {
                flagged.registers[x] >> 1u8
            },
        )
    }

    /// The instructions `8XY0` to `8XYE` that combine register X with register
    /// Y. The flag register is written after register X.
    pub open spec fn exec_alu(self, op: Opcode) -> Machine {
        let x = op.n1 as int;
        let vx = self.vx(op);
        let vy = self.vy(op);
        if op.n3 == 0 {
            self.set_reg(x, vy)
        } else if op.n3 == 1 {
            self.set_reg(x, vx | vy)
        } else if op.n3 == 2 {
            self.set_reg(x, vx & vy)
        } else if op.n3 == 3 {
            self.set_reg(x, vx ^ vy)
        } else if op.n3 == 4 {
            self.set_reg(x, saturating_u8(vx + vy)).set_reg(15, flag(vx + vy > 255))
        } else if op.n3 == 5 {
            if vx > vy {
                self.set_reg(x, (vx - vy) as u8).set_reg(15, 1)
            } else {
                self.set_reg(x, 0).set_reg(15, 0)
            }
        } else if op.n3 == 6 {
            self.exec_shift(op, false)
        } else if op.n3 == 7 {
            if vy > vx {
                self.set_reg(x, (vy - vx) as u8).set_reg(15, 1)
            } else {
                self.set_reg(x, 0).set_reg(15, 0)
            }
        } else if op.n3 == 0xE {
            self.exec_shift(op, true)
        } else {
            self
        }
    }

    /// `DXYN` draws the sprite of N rows that memory holds at the index
    /// register, at column VX mod 64 of row VY mod 32. Rows that would fall
    /// below the screen are not drawn and not read. The flag register tells
    /// whether a lit pixel was hit.
    pub open spec fn exec_draw(self, op: Opcode) -> Outcome {
        let x = (self.vx(op) % 64) as int;
        let y = (self.vy(op) % 32) as int;
        let rows = visible_rows(y, op.n3 as int);
        if rows > 0 && self.index_reg + rows > 4096 {
            Err(Fault::MemoryBoundsFault)
        } else {
            let hit = sprite_collides(self.pixels, self.memory, self.index_reg as int, x, y, rows);
            Ok(
                (
                    Machine {
                        pixels: draw_sprite(
                            self.pixels,
                            self.memory,
                            self.index_reg as int,
                            x,
                            y,
                            rows,
                        ),
                        registers: self.registers.update(15, flag(hit)),
                        ..self
                    },
                    ControlEffect::Advance,
                ),
            )
        }
    }

    /// `EX9E` skips the next instruction where the pending key is the value
    /// of register X, `EXA1` where it is another; neither does anything
    /// while no key press is pending.
    pub open spec fn exec_key_skip(self, op: Opcode) -> Machine {
        if op.n2 == 9 && op.n3 == 0xE {
            self.skip_if(self.key_pressed && self.last_key == Some(self.vx(op)))
        } else if op.n2 == 0xA && op.n3 == 1 {
            self.skip_if(self.key_pressed && self.last_key != Some(self.vx(op)))
        } else {
            self
        }
    }

    /// `FX33` stores the decimal digits of register X at the index register
    /// and the two addresses after it.
    pub open spec fn exec_store_digits(self, op: Opcode) -> Outcome {
        let i = self.index_reg as int;
        let digits = spec_digits(self.vx(op));
        if i + 2 >= 4096 {
            Err(Fault::MemoryBoundsFault)
        } else {
            Ok(
                (
                    Machine {
                        memory: self.memory.update(i, digits.0).update(i + 1, digits.1).update(
                            i + 2,
                            digits.2,
                        ),
                        ..self
                    },
                    ControlEffect::Advance,
                ),
            )
        }
    }

    /// `FX55` stores registers 0 to X in memory from the index register on.
    pub open spec fn exec_store_registers(self, op: Opcode) -> Outcome {
        let i = self.index_reg as int;
        let x = op.n1 as int;
        if i + x >= 4096 {
            Err(Fault::MemoryBoundsFault)
        } else {
            Ok(
                (
                    Machine {
                        memory: Seq::new(
                            4096,
                            |a: int|
                                if i <= a <= i + x {
                                    self.registers[a - i]
                                } else {
                                    self.memory[a]
                                },
                        ),
                        index_reg: self.after_block(x),
                        ..self
                    },
                    ControlEffect::Advance,
                ),
            )
        }
    }

    /// `FX65` loads registers 0 to X from memory at the index register.
    pub open spec fn exec_load_registers(self, op: Opcode) -> Outcome {
        let i = self.index_reg as int;
        let x = op.n1 as int;
        if i + x >= 4096 {
            Err(Fault::MemoryBoundsFault)
        } else {
            Ok(
                (
                    Machine {
                        registers: Seq::new(
                            16,
                            |r: int|
                                if r <= x {
                                    self.memory[i + r]
                                } else {
                                    self.registers[r]
                                },
                        ),
                        index_reg: self.after_block(x),
                        ..self
                    },
                    ControlEffect::Advance,
                ),
            )
        }
    }

    /// `FX0A` waits for a key: with a key press pending, register X takes
    /// the key and the press is consumed; without one the program counter
    /// stays, so that the next step meets the same instruction again.
    pub open spec fn exec_wait_key(self, op: Opcode) -> Outcome {
        if self.key_pressed {
            Ok(
                (
                    Machine {
                        registers: self.registers.update(op.n1 as int, self.last_key.unwrap()),
                        key_pressed: false,
                        ..self
                    },
                    ControlEffect::Advance,
                ),
            )
        } else {
            Ok((self, ControlEffect::Stay))
        }
    }

    /// The instructions that start with F: timers, index register, key wait,
    /// glyph address, decimal digits and block transfers.
    pub open spec fn exec_misc(self, op: Opcode) -> Outcome {
        let x = op.n1 as int;
        let vx = self.vx(op);
        if op.n2 == 0 && op.n3 == 7 {
            Ok((self.set_reg(x, self.delay_timer), ControlEffect::Advance))
        } else if op.n2 == 1 && op.n3 == 5 {
            Ok((Machine { delay_timer: vx, ..self }, ControlEffect::Advance))
        } else if op.n2 == 1 && op.n3 == 8 {
            Ok((Machine { sound_timer: vx, ..self }, ControlEffect::Advance))
        } else if op.n2 == 1 && op.n3 == 0xE {
            Ok((self.set_index(saturating_u16(self.index_reg + vx)), ControlEffect::Advance))
        } else if op.n2 == 0 && op.n3 == 0xA {
            self.exec_wait_key(op)
        } else if op.n2 == 2 && op.n3 == 9 {
            Ok((self.set_index(((vx % 16) * 5) as u16), ControlEffect::Advance))
        } else if op.n2 == 3 && op.n3 == 3 {
            self.exec_store_digits(op)
        } else if op.n2 == 5 && op.n3 == 5 {
            self.exec_store_registers(op)
        } else if op.n2 == 6 && op.n3 == 5 {
            self.exec_load_registers(op)
        } else {
            Ok((self, ControlEffect::Advance))
        }
    }

    /// What executing `op` does, given the byte that the random source hands
    /// to `CXNN`. An instruction that no pattern matches does nothing.
    pub open spec fn execute(self, op: Opcode, random: u8) -> Outcome {
        let x = op.n1 as int;
        let vx = self.vx(op);
        let vy = self.vy(op);
        let nn = op.spec_nn();
        let nnn = op.spec_nnn();
        if op.n0 == 0 {
            self.exec_system(op)
        } else if op.n0 == 1 {
            Ok((self.set_pc(nnn), ControlEffect::Stay))
        } else if op.n0 == 2 {
            Ok((Machine { pc: nnn, stack: self.stack.push(self.pc), ..self }, ControlEffect::Stay))
        } else if op.n0 == 3 {
            Ok((self.skip_if(vx == nn), ControlEffect::Advance))
        } else if op.n0 == 4 {
            Ok((self.skip_if(vx != nn), ControlEffect::Advance))
        } else if op.n0 == 5 {
            Ok((self.skip_if(op.n3 == 0 && vx == vy), ControlEffect::Advance))
        } else if op.n0 == 6 {
            Ok((self.set_reg(x, nn), ControlEffect::Advance))
        } else if op.n0 == 7 {
            Ok((self.set_reg(x, saturating_u8(vx + nn)), ControlEffect::Advance))
        } else if op.n0 == 8 {
            Ok((self.exec_alu(op), ControlEffect::Advance))
        } else if op.n0 == 9 {
            Ok((self.skip_if(op.n3 == 0 && vx != vy), ControlEffect::Advance))
        } else if op.n0 == 0xA {
            Ok((self.set_index(nnn), ControlEffect::Advance))
        } else if op.n0 == 0xB {
            let offset = if self.super_chip {
                vx
            } else {
                self.registers[0]
            };
            Ok((self.set_pc((nnn + offset) as u16), ControlEffect::Stay))
        } else if op.n0 == 0xC {
            Ok((self.set_reg(x, random & nn), ControlEffect::Advance))
        } else if op.n0 == 0xD {
            self.exec_draw(op)
        } else if op.n0 == 0xE {
            Ok((self.exec_key_skip(op), ControlEffect::Advance))
        } else if op.n0 == 0xF {
            self.exec_misc(op)
        } else {
            Ok((self, ControlEffect::Advance))
        }
    }

    /// Both timers after `units` units have run out.
    pub open spec fn tick(self, units: nat) -> Machine {
        Machine {
            delay_timer: countdown(self.delay_timer, units),
            sound_timer: countdown(self.sound_timer, units),
            ..self
        }
    }

    /// The program counter after a handler has run with `effect`.
    pub open spec fn advance(self, effect: ControlEffect) -> Machine {
        match effect {
            ControlEffect::Advance => self.set_pc(next_pc(self.pc)),
            ControlEffect::Stay => self,
        }
    }

    /// One instruction carried out but for the timers: the handler runs, the
    /// program counter moves on unless the handler placed it, and a pending
    /// key press is dropped.
    pub open spec fn perform(self, op: Opcode, random: u8) -> Result<Machine, Fault> {
        match self.execute(op, random) {
            Ok((after, effect)) => Ok(Machine { key_pressed: false, ..after.advance(effect) }),
            Err(fault) => Err(fault),
        }
    }

    /// One instruction carried out in full: it is performed, then the timers
    /// run down by `units`.
    pub open spec fn process_op(self, op: Opcode, random: u8, units: nat) -> Result<
        Machine,
        Fault,
    > {
        match self.perform(op, random) {
            Ok(after) => Ok(after.tick(units)),
            Err(fault) => Err(fault),
        }
    }

    /// One step of the machine: nothing while it is paused; else the
    /// instruction at the program counter is fetched and carried out. Where
    /// fewer than two bytes are left at the program counter, or the
    /// instruction faults, the state stays as it was.
    pub open spec fn step(self, random: u8, units: nat) -> Result<Machine, Fault> {
        if self.paused {
            Ok(self)
        } else if self.pc >= 4095 {
            Err(Fault::DecodeFault)
        } else {
            self.process_op(self.fetch(), random, units)
        }
    }
}

/// Whether `after` is `before` with its timers run down by what fits into
/// `secs` seconds and `nanos` nanoseconds, `nanos` being less than a second.
pub open spec fn ticked(before: Machine, secs: u64, nanos: u32, after: Machine) -> bool {
    nanos < 1_000_000_000 && after == before.tick(timer_units(secs, nanos))
}

/// Whether a handler that returned `result` and took the machine from
/// `before` to `after` did what `expected` says: on success the effect and
/// the new state are those expected, on a fault the state is untouched.
pub open spec fn outcome_is(
    expected: Outcome,
    result: Result<ControlEffect, Fault>,
    before: Machine,
    after: Machine,
) -> bool {
    match expected {
        Ok((machine, effect)) => result == Ok::<ControlEffect, Fault>(effect) && after == machine,
        Err(fault) => result == Err::<ControlEffect, Fault>(fault) && after == before,
    }
}

/// The same for a whole instruction or a whole step, which report no effect.
pub open spec fn result_is(
    expected: Result<Machine, Fault>,
    result: Result<(), Fault>,
    before: Machine,
    after: Machine,
) -> bool {
    match expected {
        Ok(machine) => result == Ok::<(), Fault>(()) && after == machine,
        Err(fault) => result == Err::<(), Fault>(fault) && after == before,
    }
}

} // verus!
