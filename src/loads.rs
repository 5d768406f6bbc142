//! Loads: register and memory moves, 16-bit immediates, stack-pointer
//! arithmetic, PUSH and POP.
use crate::alu::ALU;
use crate::cpu::{flags_spec, CPU};
use crate::instructions::{rel_byte, Instruction, Register16, Register16Indirect, Register16Stack};
use crate::memory_bus::{add16, pop_spec, push_spec, read_spec, write_spec, BusView, MemoryBus};
use vstd::prelude::*;

verus! {

/// `SP + r` for `ADD SP,r8` and `LD HL,SP+r8`, with its flags: Z and N
/// clear, H and C the carries out of bits 3 and 7 of the low byte of SP plus
/// the offset's byte.
pub open spec fn sp_offset_spec(sp: u16, r: i8, f: u8) -> (u16, u8) {
    let u = rel_byte(r);
    (add16(sp, r as int), flags_spec(f, false, false, sp % 16 + u % 16 > 15, sp % 256 + u > 255))
}

impl CPU {
    /// The value of a PUSH / POP register pair.
    pub open spec fn stack_reg(self, r: Register16Stack) -> u16 {
        match r {
            Register16Stack::BC => self.bc(),
            Register16Stack::DE => self.de(),
            Register16Stack::HL => self.hl(),
            Register16Stack::AF => self.af(),
        }
    }

    /// The registers after POP into `r`; the low nibble of F stays zero.
    pub open spec fn with_stack_reg(self, r: Register16Stack, v: u16) -> CPU {
        match r {
            Register16Stack::BC => self.with_reg16(Register16::BC, v),
            Register16Stack::DE => self.with_reg16(Register16::DE, v),
            Register16Stack::HL => self.with_reg16(Register16::HL, v),
            Register16Stack::AF => CPU {
                Accumulator: (v / 256) as u8,
                Flags: ((v % 256) / 16 * 16) as u8,
                ..self
            },
        }
    }
}

/// The instructions that `handle_instruction` of this module executes.
pub open spec fn is_load_instruction(i: Instruction) -> bool {
    match i {
        Instruction::Load(_, _) | Instruction::LoadImmediate(_, _) | Instruction::LoadIndirectImmediateA(_)
        | Instruction::LoadAIndirectImmediate(_) | Instruction::LoadHighPageA(_) | Instruction::LoadAHighPage(_)
        | Instruction::LoadHighPageIndirectA | Instruction::LoadAHighPageIndirect
        | Instruction::LoadImmediate16(_, _) | Instruction::LoadAIndirect(_) | Instruction::LoadIndirectA(_)
        | Instruction::LoadSP(_) | Instruction::LoadSPHL | Instruction::LoadHLSP(_) | Instruction::AddSp(_)
        | Instruction::Push(_) | Instruction::Pop(_) => true,
        _ => false,
    }
}

/// What an instruction of this group does to the registers and the bus.
pub open spec fn load_step(cpu: CPU, bus: BusView, i: Instruction) -> (CPU, BusView) {
    let a = cpu.Accumulator;
    match i {
        Instruction::Load(d, s) => (cpu.with_reg8(d, cpu.reg8(bus, s)), cpu.bus_with_reg8(bus, d, cpu.reg8(bus, s))),
        Instruction::LoadImmediate(r, v) => (cpu.with_reg8(r, v), cpu.bus_with_reg8(bus, r, v)),
        Instruction::LoadIndirectImmediateA(addr) => (cpu, write_spec(bus, addr, a)),
        Instruction::LoadAIndirectImmediate(addr) => (CPU { Accumulator: read_spec(bus, addr), ..cpu }, bus),
        Instruction::LoadHighPageA(n) => (cpu, write_spec(bus, (0xFF00 + n) as u16, a)),
        Instruction::LoadAHighPage(n) => (CPU { Accumulator: read_spec(bus, (0xFF00 + n) as u16), ..cpu }, bus),
        Instruction::LoadHighPageIndirectA => (cpu, write_spec(bus, (0xFF00 + cpu.C) as u16, a)),
        Instruction::LoadAHighPageIndirect => (CPU { Accumulator: read_spec(bus, (0xFF00 + cpu.C) as u16), ..cpu }, bus),
        Instruction::LoadImmediate16(rr, w) => (cpu.with_reg16(rr, w), bus),
        Instruction::LoadAIndirect(ind) => {
            let (addr, stepped) = cpu.indirect(ind);
            (CPU { Accumulator: read_spec(bus, addr), ..stepped }, bus)
        },
        Instruction::LoadIndirectA(ind) => {
            let (addr, stepped) = cpu.indirect(ind);
            (stepped, write_spec(bus, addr, a))
        },
        Instruction::LoadSP(addr) => {
            let low = write_spec(bus, addr, (cpu.SP % 256) as u8);
            (cpu, write_spec(low, add16(addr, 1), (cpu.SP / 256) as u8))
        },
        Instruction::LoadSPHL => (CPU { SP: cpu.hl(), ..cpu }, bus),
        Instruction::LoadHLSP(r) => {
            let out = sp_offset_spec(cpu.SP, r, cpu.Flags);
            (CPU { Flags: out.1, ..cpu }.with_reg16(Register16::HL, out.0), bus)
        },
        Instruction::AddSp(r) => {
            let out = sp_offset_spec(cpu.SP, r, cpu.Flags);
            (CPU { SP: out.0, Flags: out.1, ..cpu }, bus)
        },
        Instruction::Push(rr) => {
            let pushed = push_spec(bus, cpu.SP, cpu.stack_reg(rr));
            (CPU { SP: pushed.1, ..cpu }, pushed.0)
        },
        Instruction::Pop(rr) => {
            let popped = pop_spec(bus, cpu.SP);
            (CPU { SP: popped.1, ..cpu }.with_stack_reg(rr, popped.0), bus)
        },
        _ => (cpu, bus),
    }
}

/// `LD A,(HLI)` and `LD (HLI),A` step HL up by one, `LD A,(HLD)` and
/// `LD (HLD),A` step it down by one, modulo 2^16; the byte moved is the one
/// at the old HL.
pub proof fn lemma_hl_step(cpu: CPU, bus: BusView)
    ensures
        load_step(cpu, bus, Instruction::LoadAIndirect(Register16Indirect::HLI)).0.hl() == add16(cpu.hl(), 1),
        load_step(cpu, bus, Instruction::LoadAIndirect(Register16Indirect::HLI)).0.Accumulator == read_spec(bus, cpu.hl()),
        load_step(cpu, bus, Instruction::LoadAIndirect(Register16Indirect::HLD)).0.hl() == add16(cpu.hl(), -1),
        load_step(cpu, bus, Instruction::LoadAIndirect(Register16Indirect::HLD)).0.Accumulator == read_spec(bus, cpu.hl()),
        load_step(cpu, bus, Instruction::LoadIndirectA(Register16Indirect::HLI)).0.hl() == add16(cpu.hl(), 1),
        load_step(cpu, bus, Instruction::LoadIndirectA(Register16Indirect::HLI)).1 == write_spec(bus, cpu.hl(), cpu.Accumulator),
        load_step(cpu, bus, Instruction::LoadIndirectA(Register16Indirect::HLD)).0.hl() == add16(cpu.hl(), -1),
        load_step(cpu, bus, Instruction::LoadIndirectA(Register16Indirect::HLD)).1 == write_spec(bus, cpu.hl(), cpu.Accumulator),
{
}

/// Register and memory moves.
fn step_moves(cpu: &mut CPU, instr: Instruction, memory_bus: &mut MemoryBus)
    requires
        old(memory_bus).wf(),
        instr is Load || instr is LoadImmediate || instr is LoadIndirectImmediateA
            || instr is LoadAIndirectImmediate || instr is LoadHighPageA || instr is LoadAHighPage
            || instr is LoadHighPageIndirectA || instr is LoadAHighPageIndirect,
    ensures
        final(memory_bus).wf(),
        (*final(cpu), final(memory_bus)@) == load_step(*old(cpu), old(memory_bus)@, instr),
{
    match instr {
        Instruction::Load(reg1, reg2) => {
            cpu.write_register(reg1, reg2, memory_bus);
        },
        Instruction::LoadImmediate(register, immediate) => {
            cpu.write_register_immediate(register, immediate, memory_bus);
        },
        Instruction::LoadIndirectImmediateA(addr) => {
            memory_bus.write_u8(addr, cpu.Accumulator);
        },
        Instruction::LoadAIndirectImmediate(addr) => {
            cpu.Accumulator = memory_bus.get_u8(addr);
        },
        Instruction::LoadHighPageA(offset) => {
            memory_bus.write_u8(0xFF00 + offset as u16, cpu.Accumulator);
        },
        Instruction::LoadAHighPage(offset) => {
            cpu.Accumulator = memory_bus.get_u8(0xFF00 + offset as u16);
        },
        Instruction::LoadHighPageIndirectA => {
            memory_bus.write_u8(0xFF00 + cpu.C as u16, cpu.Accumulator);
        },
        Instruction::LoadAHighPageIndirect => {
            cpu.Accumulator = memory_bus.get_u8(0xFF00 + cpu.C as u16);
        },
        _ => {},
    }
}

/// Sixteen-bit loads and loads through an address register.
fn step_wide(cpu: &mut CPU, instr: Instruction, memory_bus: &mut MemoryBus)
    requires
        old(memory_bus).wf(),
        instr is LoadImmediate16 || instr is LoadAIndirect || instr is LoadIndirectA || instr is LoadSP
            || instr is LoadSPHL,
    ensures
        final(memory_bus).wf(),
        (*final(cpu), final(memory_bus)@) == load_step(*old(cpu), old(memory_bus)@, instr),
{
    match instr {
        Instruction::LoadImmediate16(register, immediate) => {
            cpu.write_16(register, immediate);
        },
        Instruction::LoadAIndirect(_) | Instruction::LoadIndirectA(_) => step_indirect(cpu, instr, memory_bus),
        Instruction::LoadSP(addr) => {
            memory_bus.write_u8(addr, (cpu.SP % 256) as u8);
            let next = addr.wrapping_add(1);
            assert(next == add16(addr, 1));
            memory_bus.write_u8(next, (cpu.SP / 256) as u8);
        },
        Instruction::LoadSPHL => {
            cpu.SP = cpu.get_hl();
        },
        _ => {},
    }
}

/// Loads between A and the byte an address register names.
fn step_indirect(cpu: &mut CPU, instr: Instruction, memory_bus: &mut MemoryBus)
    requires
        old(memory_bus).wf(),
        instr is LoadAIndirect || instr is LoadIndirectA,
    ensures
        final(memory_bus).wf(),
        (*final(cpu), final(memory_bus)@) == load_step(*old(cpu), old(memory_bus)@, instr),
{
    match instr {
        Instruction::LoadAIndirect(reg_with_addr) => {
            let addr = cpu.get_indirect(reg_with_addr);
            cpu.Accumulator = memory_bus.get_u8(addr);
        },
        Instruction::LoadIndirectA(reg_with_addr) => {
            let addr = cpu.get_indirect(reg_with_addr);
            memory_bus.write_u8(addr, cpu.Accumulator);
        },
        _ => {},
    }
}

/// `SP + r` and its flags.
fn sp_offset(cpu: &mut CPU, offset: i8) -> (r: u16)
    ensures
        (r, final(cpu).Flags) == sp_offset_spec(old(cpu).SP, offset, old(cpu).Flags),
        *final(cpu) == (CPU { Flags: final(cpu).Flags, ..*old(cpu) }),
{
    let sp = cpu.SP;
    let u = offset as u8;
    let new_value = ALU::add_rel(sp, offset);
    cpu.set_flags(false, false, sp % 16 + (u % 16) as u16 > 15, sp % 256 + u as u16 > 255);
    new_value
}

/// Stack-pointer arithmetic, PUSH and POP.
fn step_stack(cpu: &mut CPU, instr: Instruction, memory_bus: &mut MemoryBus)
    requires
        old(memory_bus).wf(),
        instr is LoadHLSP || instr is AddSp || instr is Push || instr is Pop,
    ensures
        final(memory_bus).wf(),
        (*final(cpu), final(memory_bus)@) == load_step(*old(cpu), old(memory_bus)@, instr),
{
    match instr {
        Instruction::LoadHLSP(offset) => {
            let new_value = sp_offset(cpu, offset);
            cpu.write_16(Register16::HL, new_value);
        },
        Instruction::AddSp(offset) => {
            cpu.SP = sp_offset(cpu, offset);
        },
        Instruction::Push(register) => {
            let value = match register {
                Register16Stack::BC => cpu.get_bc(),
                Register16Stack::DE => cpu.get_de(),
                Register16Stack::HL => cpu.get_hl(),
                Register16Stack::AF => cpu.get_af(),
            };
            memory_bus.write_stack_16(&mut cpu.SP, value);
        },
        Instruction::Pop(register) => {
            let value = memory_bus.get_stack_16(&mut cpu.SP);
            match register {
                Register16Stack::BC => cpu.write_16(Register16::BC, value),
                Register16Stack::DE => cpu.write_16(Register16::DE, value),
                Register16Stack::HL => cpu.write_16(Register16::HL, value),
                Register16Stack::AF => {
                    ALU::write_16(&mut cpu.Accumulator, &mut cpu.Flags, value);
                    cpu.Flags = cpu.Flags / 16 * 16;
                },
            }
        },
        _ => {},
    }
}

/// Executes an instruction of the load group: `Some` of its cost in M-cycles
/// with the state changed as `load_step` says, or `None` with nothing changed
/// for an instruction of another group.
pub fn handle_instruction(cpu: &mut CPU, instr: Instruction, memory_bus: &mut MemoryBus) -> (r: Option<u32>)
    requires
        old(memory_bus).wf(),
    ensures
        final(memory_bus).wf(),
        is_load_instruction(instr) ==> r == Some(instr.cost(false)) && (*final(cpu), final(memory_bus)@)
            == load_step(*old(cpu), old(memory_bus)@, instr),
        !is_load_instruction(instr) ==> r is None && *final(cpu) == *old(cpu) && final(memory_bus)@
            == old(memory_bus)@,
{
    match instr {
        Instruction::Load(_, _) | Instruction::LoadImmediate(_, _) | Instruction::LoadIndirectImmediateA(_)
        | Instruction::LoadAIndirectImmediate(_) | Instruction::LoadHighPageA(_) | Instruction::LoadAHighPage(_)
        | Instruction::LoadHighPageIndirectA | Instruction::LoadAHighPageIndirect => {
            step_moves(cpu, instr, memory_bus)
        },
        Instruction::LoadImmediate16(_, _) | Instruction::LoadAIndirect(_) | Instruction::LoadIndirectA(_)
        | Instruction::LoadSP(_) | Instruction::LoadSPHL => step_wide(cpu, instr, memory_bus),
        Instruction::LoadHLSP(_) | Instruction::AddSp(_) | Instruction::Push(_) | Instruction::Pop(_) => {
            step_stack(cpu, instr, memory_bus)
        },
        _ => return None,
    }
    // Loads cost the same whatever `action_taken` says.
    Some(instr.ticks(false))
}

} // verus!
