//! Jumps, calls, returns and restarts.
use crate::alu::ALU;
use crate::cpu::CPU;
use crate::instructions::Instruction;
use crate::memory_bus::{add16, pop_spec, push_spec, BusView, MemoryBus};
use vstd::prelude::*;

verus! {

/// The instructions that `handle_instruction` of this module executes.
pub open spec fn is_control_instruction(i: Instruction) -> bool {
    match i {
        Instruction::Jump(_) | Instruction::JumpConditional(_, _) | Instruction::JumpRelative(_)
        | Instruction::JumpRelativeConditional(_, _) | Instruction::JumpHL | Instruction::Call(_)
        | Instruction::CallConditional(_, _) | Instruction::Ret | Instruction::RetConditional(_)
        | Instruction::RetInterrupt | Instruction::Reset(_) => true,
        _ => false,
    }
}

/// A call: the return address (the current PC) is pushed and PC becomes
/// `target`.
pub open spec fn call_spec(cpu: CPU, bus: BusView, target: u16) -> (CPU, BusView) {
    let pushed = push_spec(bus, cpu.SP, cpu.PC);
    (CPU { SP: pushed.1, PC: target, ..cpu }, pushed.0)
}

/// A return: PC is popped.
pub open spec fn ret_spec(cpu: CPU, bus: BusView) -> CPU {
    let popped = pop_spec(bus, cpu.SP);
    CPU { SP: popped.1, PC: popped.0, ..cpu }
}

/// What a jump does, PC already past it, and whether its branch was taken.
pub open spec fn jump_step(cpu: CPU, i: Instruction) -> (CPU, bool) {
    match i {
        Instruction::Jump(target) => (CPU { PC: target, ..cpu }, false),
        Instruction::JumpConditional(c, target) => if cpu.condition(c) {
            (CPU { PC: target, ..cpu }, true)
        } else {
            (cpu, false)
        },
        Instruction::JumpRelative(rel) => (CPU { PC: add16(cpu.PC, rel as int), ..cpu }, false),
        Instruction::JumpRelativeConditional(c, rel) => if cpu.condition(c) {
            (CPU { PC: add16(cpu.PC, rel as int), ..cpu }, true)
        } else {
            (cpu, false)
        },
        Instruction::JumpHL => (CPU { PC: cpu.hl(), ..cpu }, false),
        _ => (cpu, false),
    }
}

/// What an instruction of this group does, PC already past the instruction,
/// and whether its branch was taken.
pub open spec fn control_step(cpu: CPU, bus: BusView, i: Instruction) -> (CPU, BusView, bool) {
    match i {
        Instruction::Jump(_) | Instruction::JumpConditional(_, _) | Instruction::JumpRelative(_)
        | Instruction::JumpRelativeConditional(_, _) | Instruction::JumpHL => {
            (jump_step(cpu, i).0, bus, jump_step(cpu, i).1)
        },
        Instruction::Call(target) => (call_spec(cpu, bus, target).0, call_spec(cpu, bus, target).1, false),
        Instruction::CallConditional(c, target) => if cpu.condition(c) {
            (call_spec(cpu, bus, target).0, call_spec(cpu, bus, target).1, true)
        } else {
            (cpu, bus, false)
        },
        Instruction::Ret => (ret_spec(cpu, bus), bus, false),
        Instruction::RetConditional(c) => if cpu.condition(c) {
            (ret_spec(cpu, bus), bus, true)
        } else {
            (cpu, bus, false)
        },
        Instruction::RetInterrupt => (CPU { IME: true, ..ret_spec(cpu, bus) }, bus, false),
        Instruction::Reset(n) => (
            call_spec(cpu, bus, (n * 8) as u16).0,
            call_spec(cpu, bus, (n * 8) as u16).1,
            false,
        ),
        _ => (cpu, bus, false),
    }
}

/// Pushes PC and jumps to `target`.
fn call(cpu: &mut CPU, memory_bus: &mut MemoryBus, target: u16)
    requires
        old(memory_bus).wf(),
    ensures
        final(memory_bus).wf(),
        (*final(cpu), final(memory_bus)@) == call_spec(*old(cpu), old(memory_bus)@, target),
{
    let pc = cpu.PC;
    memory_bus.write_stack_16(&mut cpu.SP, pc);
    cpu.PC = target;
}

/// Pops PC.
fn ret(cpu: &mut CPU, memory_bus: &MemoryBus)
    requires
        memory_bus.wf(),
    ensures
        *final(cpu) == ret_spec(*old(cpu), memory_bus@),
{
    cpu.PC = memory_bus.get_stack_16(&mut cpu.SP);
}

/// Jumps.
fn step_jump(cpu: &mut CPU, instr: Instruction) -> (taken: bool)
    requires
        instr is Jump || instr is JumpConditional || instr is JumpRelative || instr is JumpRelativeConditional
            || instr is JumpHL,
    ensures
        (*final(cpu), taken) == jump_step(*old(cpu), instr),
{
    match instr {
        Instruction::Jump(target) => {
            cpu.PC = target;
            false
        },
        Instruction::JumpConditional(condition, addr) => {
            if cpu.check_condition(condition) {
                cpu.PC = addr;
                true
            } else {
                false
            }
        },
        Instruction::JumpRelative(rel) => {
            cpu.PC = ALU::add_rel(cpu.PC, rel);
            false
        },
        Instruction::JumpRelativeConditional(condition, rel) => {
            if cpu.check_condition(condition) {
                cpu.PC = ALU::add_rel(cpu.PC, rel);
                true
            } else {
                false
            }
        },
        Instruction::JumpHL => {
            cpu.PC = cpu.get_hl();
            false
        },
        _ => false,
    }
}

/// Calls, returns and restarts.
fn step_call(cpu: &mut CPU, instr: Instruction, memory_bus: &mut MemoryBus) -> (taken: bool)
    requires
        old(memory_bus).wf(),
        instr.wf(),
        instr is Call || instr is CallConditional || instr is Ret || instr is RetConditional
            || instr is RetInterrupt || instr is Reset,
    ensures
        final(memory_bus).wf(),
        (*final(cpu), final(memory_bus)@, taken) == control_step(*old(cpu), old(memory_bus)@, instr),
{
    match instr {
        Instruction::Call(target) => {
            call(cpu, memory_bus, target);
            false
        },
        Instruction::CallConditional(condition, target) => {
            if cpu.check_condition(condition) {
                call(cpu, memory_bus, target);
                true
            } else {
                false
            }
        },
        Instruction::Ret => {
            ret(cpu, memory_bus);
            false
        },
        Instruction::RetConditional(condition) => {
            if cpu.check_condition(condition) {
                ret(cpu, memory_bus);
                true
            } else {
                false
            }
        },
        Instruction::RetInterrupt => {
            ret(cpu, memory_bus);
            cpu.IME = true;
            false
        },
        Instruction::Reset(n) => {
            call(cpu, memory_bus, n as u16 * 8);
            false
        },
        _ => false,
    }
}

/// Executes an instruction of the control-flow group, PC already past it:
/// `Some` of its cost in M-cycles, taken or not, with the state changed as
/// `control_step` says, or `None` with nothing changed for an instruction of
/// another group.
pub fn handle_instruction(cpu: &mut CPU, instr: Instruction, memory_bus: &mut MemoryBus) -> (r: Option<u32>)
    requires
        old(memory_bus).wf(),
        instr.wf(),
    ensures
        final(memory_bus).wf(),
        is_control_instruction(instr) ==> ({
            let s = control_step(*old(cpu), old(memory_bus)@, instr);
            r == Some(instr.cost(s.2)) && *final(cpu) == s.0 && final(memory_bus)@ == s.1
        }),
        !is_control_instruction(instr) ==> r is None && *final(cpu) == *old(cpu) && final(memory_bus)@
            == old(memory_bus)@,
{
    let action_taken = match instr {
        Instruction::Jump(_) | Instruction::JumpConditional(_, _) | Instruction::JumpRelative(_)
        | Instruction::JumpRelativeConditional(_, _) | Instruction::JumpHL => step_jump(cpu, instr),
        Instruction::Call(_) | Instruction::CallConditional(_, _) | Instruction::Ret
        | Instruction::RetConditional(_) | Instruction::RetInterrupt | Instruction::Reset(_) => {
            step_call(cpu, instr, memory_bus)
        },
        _ => return None,
    };
    Some(instr.ticks(action_taken))
}

} // verus!
