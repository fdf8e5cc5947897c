//! The machine itself: its state, how it is set up, and what the host may do
//! to it between steps.

use vstd::prelude::*;
use crate::clock::TickClock;
use crate::framebuffer::{flatten, FrameBuffer};
use crate::memory::{
    initial_memory,
    load_font_into_memory,
    load_program_into_memory,
    PROGRAM_CAPACITY,
    PROGRAM_START,
};
use crate::model::{ticked, timer_units, Machine};
use crate::opcode::Fault;

verus! {

/// A CHIP-8 machine.
pub struct CHIP8 {
    /// The sixteen general registers; register 15 is the flag register.
    pub registers: [u8; 16],
    /// Font from address 0, program from address 512.
    pub memory: [u8; 4096],
    /// Return addresses of the calls in progress.
    pub stack: Vec<u16>,
    pub pc: u16,
    pub index_reg: u16,
    pub sound_timer: u8,
    pub delay_timer: u8,
    pub frame_buffer: FrameBuffer,
    pub paused: bool,
    /// Whether a key press is waiting to be consumed by the next step.
    pub key_pressed: bool,
    /// The key pressed last, 0 to 15.
    pub last_key: Option<u8>,
    /// Selects the newer dialect for the shifts, the jump with offset and the
    /// block transfers.
    pub super_chip: bool,
    /// When the timers were last brought up to date.
    pub clock: TickClock,
}

impl View for CHIP8 {
    type V = Machine;

    /// The state of the machine. The clock is no part of it.
    open spec fn view(&self) -> Machine {
        Machine {
            registers: self.registers@,
            memory: self.memory@,
            stack: self.stack@,
            pc: self.pc,
            index_reg: self.index_reg,
            sound_timer: self.sound_timer,
            delay_timer: self.delay_timer,
            pixels: self.frame_buffer@,
            paused: self.paused,
            key_pressed: self.key_pressed,
            last_key: self.last_key,
            super_chip: self.super_chip,
        }
    }
}

/// The four bytes of a pixel in a frame of RGBA values: white where it is
/// lit, black where it is not, opaque either way.
pub open spec fn rgba_byte(lit: bool, channel: int) -> u8 {
    if lit || channel == 3 {
        0xFFu8
    } else {
        0x00u8
    }
}

/// A frame after the screen has been painted into its whole groups of four
/// bytes; the bytes of a last, incomplete group keep their values.
pub open spec fn painted(frame: Seq<u8>, screen: Seq<bool>) -> Seq<u8> {
    Seq::new(
        frame.len(),
        |k: int|
            if k / 4 < frame.len() / 4 {
                rgba_byte(screen[k / 4], k % 4)
            } else {
                frame[k]
            },
    )
}

impl CHIP8 {
    /// The key pressed last, if there is one, is a key from 0 to 15, and a
    /// key press can only be pending once a key has been pressed.
    pub open spec fn wf(&self) -> bool {
        &&& self.key_pressed ==> self.last_key is Some
        &&& self.last_key matches Some(key) ==> key <= 15
    }

    /// The state of a well-formed machine is a well-formed state.
    pub proof fn lemma_view_wf(&self)
        requires
            self.wf(),
        ensures
            self@.wf(),
    {
        self.frame_buffer.lemma_view_wf();
    }

    /// Create a new emulator of the newer dialect, with `program` loaded.
    pub fn new(program: Vec<u8>) -> (machine: Self)
        requires
            program@.len() <= PROGRAM_CAPACITY,
        ensures
            machine@ == Machine::initial(program@, true),
            machine.wf(),
    {
        Self::with_dialect(program, true)
    }

    /// Create a new emulator of the dialect chosen, with `program` loaded.
    pub fn with_dialect(program: Vec<u8>, super_chip: bool) -> (machine: Self)
        requires
            program@.len() <= PROGRAM_CAPACITY,
        ensures
            machine@ == Machine::initial(program@, super_chip),
            machine.wf(),
    {
        let mut memory: [u8; 4096] = [0; 4096];
        assert(memory@ =~= Seq::new(4096, |a: int| 0u8));

        load_font_into_memory(&mut memory);
        load_program_into_memory(&mut memory, program);

        let machine = Self {
            registers: [0; 16],
            memory,
            pc: PROGRAM_START,
            index_reg: 0,
            stack: Vec::with_capacity(32),
            sound_timer: 0,
            delay_timer: 0,
            frame_buffer: FrameBuffer::new(),
            paused: false,
            key_pressed: false,
            last_key: None,
            super_chip,
            clock: TickClock::start(),
        };
        assert(machine@.registers =~= Seq::new(16, |i: int| 0u8));
        machine
    }

    /// Loads `program` anew: memory holds the font and the program again,
    /// registers, index register, stack and timers are zeroed, and the
    /// program counter is back at 512.
    pub fn reset(&mut self, program: Vec<u8>)
        requires
            program@.len() <= PROGRAM_CAPACITY,
        ensures
            final(self)@ == (Machine {
                registers: Seq::new(16, |i: int| 0u8),
                memory: initial_memory(program@),
                stack: Seq::empty(),
                pc: 512,
                index_reg: 0,
                sound_timer: 0,
                delay_timer: 0,
                ..old(self)@
            }),
            final(self).wf() == old(self).wf(),
    {
        let mut memory: [u8; 4096] = [0; 4096];
        assert(memory@ =~= Seq::new(4096, |a: int| 0u8));
        load_font_into_memory(&mut memory);
        load_program_into_memory(&mut memory, program);
        self.memory = memory;
        self.registers = [0; 16];
        self.stack.clear();
        self.pc = PROGRAM_START;
        self.index_reg = 0;
        self.sound_timer = 0;
        self.delay_timer = 0;
        assert(self@.registers =~= Seq::new(16, |i: int| 0u8));
    }

    /// Halts the machine, or lets it run again.
    pub fn pause(&mut self)
        ensures
            final(self)@ == (Machine { paused: !old(self)@.paused, ..old(self)@ }),
    {
        self.paused ^= true;
    }

    /// Latches a key press for the next step.
    pub fn set_key(&mut self, code: u8)
        requires
            code <= 15,
        ensures
            final(self)@ == (Machine { key_pressed: true, last_key: Some(code), ..old(self)@ }),
            final(self).wf(),
    {
        self.last_key = Some(code);
        self.key_pressed = true;
    }

    /// Drops a key press that no step has consumed.
    pub fn clear_key(&mut self)
        ensures
            final(self)@ == (Machine { key_pressed: false, ..old(self)@ }),
            old(self).wf() ==> final(self).wf(),
    {
        self.key_pressed = false;
    }

    /// The value of general register `x`.
    pub fn register(&self, x: u8) -> (value: u8)
        requires
            x <= 15,
        ensures
            value == self@.registers[x as int],
    {
        self.registers[x as usize]
    }

    /// Gives general register `x` a value.
    pub fn set_register(&mut self, x: u8, value: u8)
        requires
            x <= 15,
        ensures
            final(self)@ == old(self)@.set_reg(x as int, value),
            final(self).wf() == old(self).wf(),
    {
        self.registers[x as usize] = value;
    }

    /// Puts a return address on the stack.
    pub fn push(&mut self, address: u16)
        ensures
            final(self)@ == (Machine { stack: old(self)@.stack.push(address), ..old(self)@ }),
            final(self).wf() == old(self).wf(),
    {
        self.stack.push(address);
    }

    /// Takes the latest return address off the stack. On an empty stack
    /// nothing changes and the fault is reported.
    pub fn pop(&mut self) -> (result: Result<u16, Fault>)
        ensures
            old(self)@.stack.len() == 0 ==> result == Err::<u16, Fault>(Fault::StackUnderflow)
                && final(self)@ == old(self)@,
            old(self)@.stack.len() > 0 ==> result == Ok::<u16, Fault>(old(self)@.stack.last())
                && final(self)@ == (Machine {
                stack: old(self)@.stack.drop_last(),
                ..old(self)@
            }),
            final(self).wf() == old(self).wf(),
    {
        match self.stack.pop() {
            Some(address) => Ok(address),
            None => Err(Fault::StackUnderflow),
        }
    }

    /// Takes the latest return address off the stack and continues there. On
    /// an empty stack nothing changes and the fault is reported.
    pub fn return_from_subroutine(&mut self) -> (result: Result<(), Fault>)
        ensures
            old(self)@.stack.len() == 0 ==> result == Err::<(), Fault>(Fault::StackUnderflow)
                && final(self)@ == old(self)@,
            old(self)@.stack.len() > 0 ==> result == Ok::<(), Fault>(()) && final(self)@ == (Machine {
                pc: old(self)@.stack.last(),
                stack: old(self)@.stack.drop_last(),
                ..old(self)@
            }),
            final(self).wf() == old(self).wf(),
    {
        match self.pop() {
            Ok(address) => {
                self.pc = address;
                Ok(())
            },
            Err(fault) => Err(fault),
        }
    }

    /// Runs both timers down by the units that fit into the time given, sixty
    /// to the second; neither goes below zero.
    pub fn tick(&mut self, elapsed_secs: u64, elapsed_nanos: u32)
        ensures
            final(self)@ == old(self)@.tick(timer_units(elapsed_secs, elapsed_nanos)),
            final(self).wf() == old(self).wf(),
    {
        let total: u128 = elapsed_secs as u128 * 1_000_000_000 + elapsed_nanos as u128;
        let units: u128 = total * 60 / 1_000_000_000;
        if units >= self.sound_timer as u128 {
            self.sound_timer = 0;
        } else {
            self.sound_timer = self.sound_timer - units as u8;
        }
        if units >= self.delay_timer as u128 {
            self.delay_timer = 0;
        } else {
            self.delay_timer = self.delay_timer - units as u8;
        }
    }

    /// Brings the timers up to date with the clock: they run down by the
    /// units that fit into the time since the last update, whatever that time
    /// is, and the clock starts anew.
    pub fn update_timers(&mut self)
        ensures
            exists|secs: u64, nanos: u32| ticked(old(self)@, secs, nanos, final(self)@),
            final(self).wf() == old(self).wf(),
    {
        let (secs, nanos) = self.clock.elapsed();
        self.tick(secs, nanos);
        self.clock.restart();
        assert(ticked(old(self)@, secs, nanos, self@));
    }

    /// Paints the screen into a frame of RGBA pixels, four bytes each.
    pub fn draw(&self, frame: &mut [u8])
        requires
            old(frame)@.len() / 4 <= 2048,
        ensures
            final(frame)@ == painted(old(frame)@, flatten(self@.pixels)),
    {
        let frame_buffer = self.frame_buffer.export();
        let groups: usize = frame.len() / 4;
        let mut i: usize = 0;
        while i < groups
            invariant
                i <= groups <= 2048,
                groups == old(frame)@.len() / 4,
                frame@.len() == old(frame)@.len(),
                frame_buffer@ == flatten(self@.pixels),
                forall|k: int|
                    0 <= k < 4 * i ==> frame@[k] == rgba_byte(frame_buffer@[k / 4], k % 4),
                forall|k: int| 4 * i <= k < frame@.len() ==> frame@[k] == old(frame)@[k],
            decreases groups - i,
        {
            let shade: u8 = if frame_buffer[i] {
                0xff
            } else {
                0x00
            };
            frame[4 * i] = shade;
            frame[4 * i + 1] = shade;
            frame[4 * i + 2] = shade;
            frame[4 * i + 3] = 0xff;
            i += 1;
        }
    }
}

} // verus!
