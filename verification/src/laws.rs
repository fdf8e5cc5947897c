//! What holds of every machine, proved over its model.

use vstd::prelude::*;
use crate::framebuffer::blank_screen;
use crate::model::Machine;
use crate::opcode::{ControlEffect, Fault, Opcode};

verus! {

/// Whether the instruction at the program counter of `machine` is a key
/// wait, `FX0A`.
pub open spec fn at_key_wait(machine: Machine) -> bool {
    let op = machine.fetch();
    machine.pc < 4095 && op.n0 == 0xF && op.n2 == 0 && op.n3 == 0xA
}

/// While no key press is pending, a step at a key wait changes nothing but
/// the timers: the program counter stays on the instruction, which the next
/// step meets again.
pub proof fn lemma_key_wait_retries(machine: Machine, random: u8, units: nat)
    requires
        machine.wf(),
        !machine.paused,
        at_key_wait(machine),
        !machine.key_pressed,
    ensures
        machine.step(random, units) == Ok::<Machine, Fault>(machine.tick(units)),
        machine.step(random, units).unwrap().pc == machine.pc,
        at_key_wait(machine.step(random, units).unwrap()),
{
}

/// Once a key has been latched, the step at a key wait consumes the press:
/// register X holds the key, no press is pending any more, and the program
/// counter has moved on to the next instruction.
pub proof fn lemma_key_wait_consumes(machine: Machine, key: u8, random: u8, units: nat)
    requires
        machine.wf(),
        !machine.paused,
        at_key_wait(machine),
    ensures
        ({
            let latched = Machine { key_pressed: true, last_key: Some(key), ..machine };
            let x = machine.fetch().n1 as int;
            &&& latched.step(random, units) == Ok::<Machine, Fault>(
                (Machine {
                    registers: machine.registers.update(x, key),
                    pc: (machine.pc + 2) as u16,
                    key_pressed: false,
                    last_key: Some(key),
                    ..machine
                }).tick(units),
            )
            &&& latched.step(random, units).unwrap().registers[x] == key
            &&& latched.step(random, units).unwrap().pc == machine.pc + 2
            &&& !latched.step(random, units).unwrap().key_pressed
        }),
{
}

/// A handler keeps a well-formed state well formed.
pub proof fn lemma_execute_preserves_wf(machine: Machine, op: Opcode, random: u8)
    requires
        machine.wf(),
        op.wf(),
    ensures
        machine.execute(op, random) matches Ok((after, effect)) ==> after.wf(),
{
}

/// A step keeps a well-formed state well formed, and no key press is pending
/// after a step that carried out an instruction.
pub proof fn lemma_step_preserves_wf(machine: Machine, random: u8, units: nat)
    requires
        machine.wf(),
    ensures
        machine.step(random, units) matches Ok(after) ==> after.wf() && (!machine.paused
            ==> !after.key_pressed),
{
    if !machine.paused && machine.pc < 4095 {
        crate::opcode::lemma_fields_recompose(
            machine.memory[machine.pc as int],
            machine.memory[machine.pc + 1],
        );
        lemma_execute_preserves_wf(machine, machine.fetch(), random);
    }
}

/// A word that is no instruction of the machine changes nothing, and lets
/// the program counter move on.
pub proof fn lemma_unknown_is_no_op(machine: Machine, op: Opcode, random: u8)
    requires
        !op.is_known(),
    ensures
        machine.execute(op, random) == Ok::<(Machine, ControlEffect), Fault>(
            (machine, ControlEffect::Advance),
        ),
{
}

/// Running the timers down in two parts is running them down by the sum, and
/// a timer never rises.
pub proof fn lemma_tick_adds_up(machine: Machine, first: nat, second: nat)
    ensures
        machine.tick(first).tick(second) == machine.tick(first + second),
        machine.tick(first).delay_timer <= machine.delay_timer,
        machine.tick(first).sound_timer <= machine.sound_timer,
        machine.tick(0) == machine,
{
}

/// Whether the machine stands at address 512 in front of the two
/// instructions `00E0` and `1200`: clear the screen, then jump back to 512.
pub open spec fn at_clear_loop(machine: Machine) -> bool {
    &&& machine.wf()
    &&& !machine.paused
    &&& machine.pc == 512
    &&& machine.memory[512] == 0x00
    &&& machine.memory[513] == 0xE0
    &&& machine.memory[514] == 0x12
    &&& machine.memory[515] == 0x00
}

/// A machine that runs the loop of `00E0` and `1200` is back at address 512
/// after every second step, with a blank screen, whatever the random bytes
/// and the time that passes; so the same holds after any even number of
/// steps.
pub proof fn lemma_clear_loop_returns(
    machine: Machine,
    first_random: u8,
    first_units: nat,
    second_random: u8,
    second_units: nat,
)
    requires
        at_clear_loop(machine),
    ensures
        ({
            &&& machine.step(first_random, first_units) matches Ok(halfway)
            &&& halfway.pc == 514
            &&& halfway.pixels == blank_screen()
            &&& halfway.step(second_random, second_units) matches Ok(after)
            &&& at_clear_loop(after)
            &&& after.pixels == blank_screen()
        }),
{
}

/// `FX29` points the index register at the glyph of the digit that the low
/// four bits of register X hold: five times that digit.
pub proof fn lemma_glyph_address(machine: Machine, op: Opcode, random: u8)
    requires
        op.n0 == 0xF && op.n2 == 2 && op.n3 == 9,
    ensures
        machine.execute(op, random) == Ok::<(Machine, ControlEffect), Fault>(
            (machine.set_index((5 * (machine.vx(op) % 16)) as u16), ControlEffect::Advance),
        ),
{
}

/// Only two instructions draw: whatever else is carried out, `00E0` and
/// `DXYN` apart, leaves the screen as it is.
pub proof fn lemma_screen_changes_only_by_clear_and_draw(machine: Machine, op: Opcode, random: u8)
    requires
        op.n0 != 0xD,
        !(op.n0 == 0 && op.n1 == 0 && op.n2 == 0xE && op.n3 == 0),
    ensures
        machine.execute(op, random) matches Ok((after, effect)) ==> after.pixels
            == machine.pixels,
{
}

/// Only two instructions write to memory: whatever else is carried out,
/// `FX33` and `FX55` apart, leaves memory as it is.
pub proof fn lemma_memory_changes_only_by_stores(machine: Machine, op: Opcode, random: u8)
    requires
        !(op.n0 == 0xF && ((op.n2 == 3 && op.n3 == 3) || (op.n2 == 5 && op.n3 == 5))),
    ensures
        machine.execute(op, random) matches Ok((after, effect)) ==> after.memory
            == machine.memory,
{
}

} // verus!
