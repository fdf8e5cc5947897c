//! One step of the machine: fetch, decode, execute, and the timers.

use vstd::prelude::*;
use crate::machine::CHIP8;
use crate::model::{result_is, ticked, timer_units, Machine};
use crate::opcode::{ControlEffect, Fault, Opcode};
use crate::random::random_byte;

verus! {

/// Whether carrying out `op` took the machine from `before` to `after` and
/// returned `result`, with `random` as the random byte and with `secs`
/// seconds and `nanos` nanoseconds gone since the timers were last updated.
pub open spec fn op_yields(
    before: Machine,
    op: Opcode,
    random: u8,
    secs: u64,
    nanos: u32,
    result: Result<(), Fault>,
    after: Machine,
) -> bool {
    nanos < 1_000_000_000 && result_is(
        before.process_op(op, random, timer_units(secs, nanos)),
        result,
        before,
        after,
    )
}

/// The same for a whole step.
pub open spec fn step_yields(
    before: Machine,
    random: u8,
    secs: u64,
    nanos: u32,
    result: Result<(), Fault>,
    after: Machine,
) -> bool {
    nanos < 1_000_000_000 && result_is(
        before.step(random, timer_units(secs, nanos)),
        result,
        before,
        after,
    )
}

impl CHIP8 {
    /// Reads the two bytes at the program counter and splits them into the
    /// four fields of an instruction. Fails where the second byte would lie
    /// beyond memory.
    pub fn decode(&self) -> (result: Result<Opcode, Fault>)
        ensures
            self@.pc >= 4095 ==> result == Err::<Opcode, Fault>(Fault::DecodeFault),
            self@.pc < 4095 ==> result == Ok::<Opcode, Fault>(self@.fetch()) && self@.fetch().wf(),
    {
        if self.pc >= 4095 {
            return Err(Fault::DecodeFault);
        }
        let at: usize = self.pc as usize;
        Ok(Opcode::from_bytes(self.memory[at], self.memory[at + 1]))
    }

    /// Carries out one decoded instruction but for the timers: runs its
    /// handler with `random` as the random byte, moves the program counter on
    /// unless the handler placed it, and drops a pending key press. A fault
    /// leaves the machine as it was.
    pub fn perform(&mut self, op: Opcode, random: u8) -> (result: Result<(), Fault>)
        requires
            op.wf(),
            old(self).wf(),
        ensures
            result_is(old(self)@.perform(op, random), result, old(self)@, final(self)@),
            final(self).wf(),
    {
        match self.execute(op, random) {
            Err(fault) => Err(fault),
            Ok(effect) => {
                match effect {
                    ControlEffect::Advance => {
                        self.advance_pc();
                    },
                    ControlEffect::Stay => {},
                }
                self.key_pressed = false;
                Ok(())
            },
        }
    }

    /// Carries out one decoded instruction in full: performs it and brings
    /// the timers up to date. The random byte and the time that has passed
    /// come from outside, so the contract holds for some byte and some span
    /// of time. A fault leaves the machine as it was.
    pub fn process_op(&mut self, op: Opcode) -> (result: Result<(), Fault>)
        requires
            op.wf(),
            old(self).wf(),
        ensures
            exists|random: u8, secs: u64, nanos: u32|
                op_yields(old(self)@, op, random, secs, nanos, result, final(self)@),
            final(self).wf(),
    {
        let random: u8 = if op.n0 == 0xC {
            random_byte()
        } else {
            0
        };
        match self.perform(op, random) {
            Err(fault) => {
                assert(op_yields(old(self)@, op, random, 0, 0, Err(fault), self@));
                Err(fault)
            },
            Ok(()) => {
                let ghost performed = self@;
                self.update_timers();
                proof {
                    let (secs, nanos) = choose|secs: u64, nanos: u32|
                        ticked(performed, secs, nanos, self@);
                    assert(op_yields(old(self)@, op, random, secs, nanos, Ok(()), self@));
                }
                Ok(())
            },
        }
    }

    /// One step: fetch, decode, execute, timers. A paused machine does
    /// nothing. The contract holds for some random byte and some span of
    /// time; a fault leaves the machine as it was.
    pub fn update(&mut self) -> (result: Result<(), Fault>)
        requires
            old(self).wf(),
        ensures
            exists|random: u8, secs: u64, nanos: u32|
                step_yields(old(self)@, random, secs, nanos, result, final(self)@),
            final(self).wf(),
    {
        if self.paused {
            assert(step_yields(old(self)@, 0, 0, 0, Ok(()), self@));
            return Ok(());
        }
        match self.decode() {
            Err(fault) => {
                assert(step_yields(old(self)@, 0, 0, 0, Err(fault), self@));
                Err(fault)
            },
            Ok(op) => {
                let result = self.process_op(op);
                proof {
                    let (random, secs, nanos) = choose|random: u8, secs: u64, nanos: u32|
                        op_yields(old(self)@, op, random, secs, nanos, result, self@);
                    assert(step_yields(old(self)@, random, secs, nanos, result, self@));
                }
                result
            },
        }
    }
}

} // verus!
