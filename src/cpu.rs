//! CPU state: registers, flags and register access, plus interrupt dispatch
//! and the fetch-decode-execute step.
use crate::alu::{self, alu_step, is_alu_instruction};
use crate::bits::{bit_spec, get_bit, set_bit, with_bit_spec};
use crate::control_flow::{self, control_step, is_control_instruction};
use crate::error::Error;
use crate::instructions::{decode_spec, Condition, Instruction, Register16, Register16Indirect, Register8};
use crate::loads::{self, is_load_instruction, load_step};
use crate::memory_bus::{add16, push_spec, read_spec, write_spec, BusView, MemoryBus, IE, IF};
use vstd::prelude::*;

verus! {

/// A flag of the F register.
#[derive(Debug, Clone, Copy, PartialEq, Eq, Structural)]
pub enum Flag {
    /// Zero flag
    Z,
    /// Subtraction flag (BCD)
    N,
    /// Half Carry flag (BCD)
    H,
    /// Carry flag
    C,
}

impl Flag {
    /// The flag's bit in F.
    pub open spec fn bit(self) -> u8 {
        match self {
            Flag::Z => 7,
            Flag::N => 6,
            Flag::H => 5,
            Flag::C => 4,
        }
    }
}

/// Whether `flag` is set in the flags byte `f`.
pub open spec fn flag_spec(f: u8, flag: Flag) -> bool {
    bit_spec(f, flag.bit())
}

/// `f` with `flag` set to `v`, the other bits kept.
pub open spec fn set_flag_spec(f: u8, flag: Flag, v: bool) -> u8 {
    with_bit_spec(f, flag.bit(), v)
}

/// `f` with Z, N, H and C set, in that order, to the given values.
pub open spec fn flags_spec(f: u8, z: bool, n: bool, h: bool, c: bool) -> u8 {
    set_flag_spec(set_flag_spec(set_flag_spec(set_flag_spec(f, Flag::Z, z), Flag::N, n), Flag::H, h), Flag::C, c)
}

/// What NOP, STOP, HALT, DI and EI do. EI takes effect at once.
pub open spec fn misc_step(cpu: CPU, i: Instruction) -> CPU {
    match i {
        Instruction::Stop => CPU { stop: true, ..cpu },
        Instruction::Halt => CPU { halted: true, ..cpu },
        Instruction::DisableInterrupts => CPU { IME: false, ..cpu },
        Instruction::EnableInterrupts => CPU { IME: true, ..cpu },
        _ => cpu,
    }
}

/// What executing `i` does, PC already past it, and whether its branch was
/// taken.
pub open spec fn execute_spec(cpu: CPU, bus: BusView, i: Instruction) -> (CPU, BusView, bool) {
    if is_alu_instruction(i) {
        (alu_step(cpu, bus, i).0, alu_step(cpu, bus, i).1, false)
    } else if is_load_instruction(i) {
        (load_step(cpu, bus, i).0, load_step(cpu, bus, i).1, false)
    } else if is_control_instruction(i) {
        control_step(cpu, bus, i)
    } else {
        (misc_step(cpu, i), bus, false)
    }
}

/// Interrupts both requested and enabled, as a 5-bit mask.
pub open spec fn pending(bus: BusView) -> u8 {
    bus.interrupts.flag & bus.interrupts.enable & 0x1F
}

/// The index of the lowest set bit among bits 0..=3 of `t`, else 4.
pub open spec fn lowest_bit(t: u8) -> u8 {
    if bit_spec(t, 0) {
        0
    } else if bit_spec(t, 1) {
        1
    } else if bit_spec(t, 2) {
        2
    } else if bit_spec(t, 3) {
        3
    } else {
        4
    }
}

/// Interrupt dispatch at the start of a step: the registers, the bus and the
/// cost (0 when nothing was dispatched). A pending interrupt wakes a halted
/// CPU whatever IME says; with IME set, the lowest pending interrupt `n` is
/// taken: IME is cleared, its IF bit cleared, PC pushed, and PC set to
/// `0x40 + 8n`.
pub open spec fn interrupt_spec(cpu: CPU, bus: BusView) -> (CPU, BusView, u32) {
    let t = pending(bus);
    if t == 0 {
        (cpu, bus, 0)
    } else if !cpu.IME {
        (CPU { halted: false, ..cpu }, bus, 0)
    } else {
        let n = lowest_bit(t);
        let cleared = write_spec(bus, IF, with_bit_spec(bus.interrupts.flag, n, false));
        let pushed = push_spec(cleared, cpu.SP, cpu.PC);
        (CPU { halted: false, IME: false, SP: pushed.1, PC: (0x40 + n * 8) as u16, ..cpu }, pushed.0, 5)
    }
}

/// The four bytes fetched at `pc`.
pub open spec fn fetch_spec(bus: BusView, pc: u16) -> Seq<u8> {
    seq![read_spec(bus, pc), read_spec(bus, add16(pc, 1)), read_spec(bus, add16(pc, 2)), read_spec(bus, add16(pc, 3))]
}

/// One step of the CPU: the registers, the bus, and the M-cycles spent or
/// the decode error. Interrupt dispatch comes first and costs 5; a halted
/// CPU with nothing pending idles for 1; otherwise the instruction at PC is
/// decoded, PC moves past it, and it executes.
pub open spec fn tick_spec(cpu: CPU, bus: BusView) -> (CPU, BusView, Result<u32, Error>) {
    let irq = interrupt_spec(cpu, bus);
    let (c, b) = (irq.0, irq.1);
    if irq.2 != 0 {
        (c, b, Ok(irq.2))
    } else if c.halted {
        (c, b, Ok(1))
    } else {
        match decode_spec(fetch_spec(b, c.PC), c.PC) {
            Err(e) => (c, b, Err(e)),
            Ok((i, len)) => {
                let s = execute_spec(CPU { PC: add16(c.PC, len as int), ..c }, b, i);
                (s.0, s.1, Ok(i.cost(s.2)))
            },
        }
    }
}

/// Reading back the flags that `flags_spec` wrote gives the values written,
/// and the low nibble of F is kept.
pub proof fn lemma_flags_read(f: u8, z: bool, n: bool, h: bool, c: bool)
    ensures
        flag_spec(flags_spec(f, z, n, h, c), Flag::Z) == z,
        flag_spec(flags_spec(f, z, n, h, c), Flag::N) == n,
        flag_spec(flags_spec(f, z, n, h, c), Flag::H) == h,
        flag_spec(flags_spec(f, z, n, h, c), Flag::C) == c,
        flags_spec(f, z, n, h, c) % 16 == f % 16,
{
    let f1 = with_bit_spec(f, 7, z);
    let f2 = with_bit_spec(f1, 6, n);
    let f3 = with_bit_spec(f2, 5, h);
    let f4 = with_bit_spec(f3, 4, c);
    assert((f4 & (1u8 << 7u8) != 0) == z && (f4 & (1u8 << 6u8) != 0) == n && (f4 & (1u8 << 5u8) != 0)
        == h && (f4 & (1u8 << 4u8) != 0) == c && f4 % 16 == f % 16) by (bit_vector)
        requires
            f1 == (if z { f | (1u8 << 7u8) } else { f & !(1u8 << 7u8) }),
            f2 == (if n { f1 | (1u8 << 6u8) } else { f1 & !(1u8 << 6u8) }),
            f3 == (if h { f2 | (1u8 << 5u8) } else { f2 & !(1u8 << 5u8) }),
            f4 == (if c { f3 | (1u8 << 4u8) } else { f3 & !(1u8 << 4u8) }),
    ;
}

/// With both requested and enabled, VBlank (bit 0) wins over LCD-STAT
/// (bit 1): the CPU jumps to 0x40, and of IF only bit 0 is cleared. This
/// holds when IME is set and the two stack bytes written are not IF itself.
pub proof fn lemma_interrupt_priority(cpu: CPU, bus: BusView)
    requires
        bus.wf(),
        cpu.IME,
        bit_spec(bus.interrupts.flag, 0),
        bit_spec(bus.interrupts.flag, 1),
        bit_spec(bus.interrupts.enable, 0),
        bit_spec(bus.interrupts.enable, 1),
        add16(cpu.SP, -1) != IF,
        add16(cpu.SP, -2) != IF,
    ensures
        interrupt_spec(cpu, bus).2 == 5,
        interrupt_spec(cpu, bus).0.PC == 0x40,
        interrupt_spec(cpu, bus).1.interrupts.flag == with_bit_spec(bus.interrupts.flag, 0, false),
        !bit_spec(interrupt_spec(cpu, bus).1.interrupts.flag, 0),
        bit_spec(interrupt_spec(cpu, bus).1.interrupts.flag, 1),
{
    let flag = bus.interrupts.flag;
    let enable = bus.interrupts.enable;
    let t = pending(bus);
    let cleared = with_bit_spec(flag, 0, false);
    assert(t != 0 && bit_spec(t, 0) && cleared & 0x1F == cleared && !bit_spec(cleared, 0) && bit_spec(cleared, 1))
        by (bit_vector)
        requires
            t == flag & enable & 0x1F,
            flag < 32,
            flag & (1u8 << 0u8) != 0,
            flag & (1u8 << 1u8) != 0,
            enable & (1u8 << 0u8) != 0,
            cleared == flag & !(1u8 << 0u8),
    ;
}

/// Registers and run flags of the LR35902 core.
#[allow(non_snake_case)]
#[derive(Debug, Clone, Copy)]
pub struct CPU {
    pub Accumulator: u8,
    pub Flags: u8,
    pub B: u8,
    pub C: u8,
    pub D: u8,
    pub E: u8,
    pub H: u8,
    pub L: u8,
    pub SP: u16,
    pub PC: u16,
    /// Set by STOP; the driver stops on it.
    pub stop: bool,
    /// Set by HALT; cleared when an interrupt is requested and enabled.
    pub halted: bool,
    /// Interrupt master enable.
    pub IME: bool,
}

/// The register state after reset.
pub open spec fn reset_state() -> CPU {
    CPU {
        Accumulator: 0,
        Flags: 0,
        B: 0,
        C: 0,
        D: 0,
        E: 0,
        H: 0,
        L: 0,
        SP: 0xFFFE,
        PC: 0x0100,
        stop: false,
        halted: false,
        IME: false,
    }
}

impl Default for CPU {
    /// A = F = B = C = D = E = H = L = 0, SP = 0xFFFE, PC = 0x0100, with
    /// `stop`, `halted` and IME clear.
    fn default() -> (r: CPU)
        ensures
            r == reset_state(),
    {
        CPU {
            Accumulator: 0,
            Flags: 0,
            B: 0,
            C: 0,
            D: 0,
            E: 0,
            H: 0,
            L: 0,
            SP: 0xFFFE,
            PC: 0x0100,
            stop: false,
            halted: false,
            IME: false,
        }
    }
}

pub open spec fn pair(hi: u8, lo: u8) -> u16 {
    (hi * 256 + lo) as u16
}

impl CPU {
    pub open spec fn af(self) -> u16 {
        pair(self.Accumulator, self.Flags)
    }

    pub open spec fn bc(self) -> u16 {
        pair(self.B, self.C)
    }

    pub open spec fn de(self) -> u16 {
        pair(self.D, self.E)
    }

    pub open spec fn hl(self) -> u16 {
        pair(self.H, self.L)
    }

    pub open spec fn flag(self, flag: Flag) -> bool {
        flag_spec(self.Flags, flag)
    }

    /// The value of a 16-bit register pair.
    pub open spec fn reg16(self, r: Register16) -> u16 {
        match r {
            Register16::BC => self.bc(),
            Register16::DE => self.de(),
            Register16::HL => self.hl(),
            Register16::SP => self.SP,
        }
    }

    /// The state with a 16-bit register pair set to `v`.
    pub open spec fn with_reg16(self, r: Register16, v: u16) -> CPU {
        let hi = (v / 256) as u8;
        let lo = (v % 256) as u8;
        match r {
            Register16::BC => CPU { B: hi, C: lo, ..self },
            Register16::DE => CPU { D: hi, E: lo, ..self },
            Register16::HL => CPU { H: hi, L: lo, ..self },
            Register16::SP => CPU { SP: v, ..self },
        }
    }

    /// Whether a branch condition holds.
    pub open spec fn condition(self, c: Condition) -> bool {
        match c {
            Condition::NZ => !self.flag(Flag::Z),
            Condition::Z => self.flag(Flag::Z),
            Condition::NC => !self.flag(Flag::C),
            Condition::C => self.flag(Flag::C),
        }
    }

    /// The value of an 8-bit operand slot; `(HL)` reads the bus.
    pub open spec fn reg8(self, bus: BusView, r: Register8) -> u8 {
        match r {
            Register8::B => self.B,
            Register8::C => self.C,
            Register8::D => self.D,
            Register8::E => self.E,
            Register8::H => self.H,
            Register8::L => self.L,
            Register8::IndirectHL => read_spec(bus, self.hl()),
            Register8::A => self.Accumulator,
        }
    }

    /// The registers after writing `v` to an 8-bit operand slot (`(HL)`
    /// leaves them unchanged).
    pub open spec fn with_reg8(self, r: Register8, v: u8) -> CPU {
        match r {
            Register8::B => CPU { B: v, ..self },
            Register8::C => CPU { C: v, ..self },
            Register8::D => CPU { D: v, ..self },
            Register8::E => CPU { E: v, ..self },
            Register8::H => CPU { H: v, ..self },
            Register8::L => CPU { L: v, ..self },
            Register8::IndirectHL => self,
            Register8::A => CPU { Accumulator: v, ..self },
        }
    }

    /// The bus after writing `v` to an 8-bit operand slot (only `(HL)`
    /// changes it).
    pub open spec fn bus_with_reg8(self, bus: BusView, r: Register8, v: u8) -> BusView {
        if r == Register8::IndirectHL {
            write_spec(bus, self.hl(), v)
        } else {
            bus
        }
    }

    /// The address an indirect register names, and the registers after the
    /// HLI / HLD step.
    pub open spec fn indirect(self, r: Register16Indirect) -> (u16, CPU) {
        match r {
            Register16Indirect::BC => (self.bc(), self),
            Register16Indirect::DE => (self.de(), self),
            Register16Indirect::HLI => (self.hl(), self.with_reg16(Register16::HL, add16(self.hl(), 1))),
            Register16Indirect::HLD => (self.hl(), self.with_reg16(Register16::HL, add16(self.hl(), -1))),
        }
    }

    pub fn get_af(&self) -> (r: u16)
        ensures
            r == self.af(),
    {
        (self.Accumulator as u16) * 256 + self.Flags as u16
    }

    pub fn get_bc(&self) -> (r: u16)
        ensures
            r == self.bc(),
    {
        (self.B as u16) * 256 + self.C as u16
    }

    pub fn get_de(&self) -> (r: u16)
        ensures
            r == self.de(),
    {
        (self.D as u16) * 256 + self.E as u16
    }

    pub fn get_hl(&self) -> (r: u16)
        ensures
            r == self.hl(),
    {
        (self.H as u16) * 256 + self.L as u16
    }

    /// The value of a 16-bit register pair.
    pub fn read_16(&self, register: Register16) -> (r: u16)
        ensures
            r == self.reg16(register),
    {
        match register {
            Register16::BC => self.get_bc(),
            Register16::DE => self.get_de(),
            Register16::HL => self.get_hl(),
            Register16::SP => self.SP,
        }
    }

    /// Sets a 16-bit register pair.
    pub fn write_16(&mut self, register: Register16, value: u16)
        ensures
            *final(self) == old(self).with_reg16(register, value),
    {
        let hi = (value / 256) as u8;
        let lo = (value % 256) as u8;
        match register {
            Register16::BC => {
                self.B = hi;
                self.C = lo;
            },
            Register16::DE => {
                self.D = hi;
                self.E = lo;
            },
            Register16::HL => {
                self.H = hi;
                self.L = lo;
            },
            Register16::SP => {
                self.SP = value;
            },
        }
    }

    pub fn get_flag(&self, flag: Flag) -> (r: bool)
        ensures
            r == self.flag(flag),
    {
        match flag {
            Flag::Z => get_bit(self.Flags, 7),
            Flag::N => get_bit(self.Flags, 6),
            Flag::H => get_bit(self.Flags, 5),
            Flag::C => get_bit(self.Flags, 4),
        }
    }

    pub fn set_flag(&mut self, flag: Flag, value: bool)
        ensures
            *final(self) == (CPU { Flags: set_flag_spec(old(self).Flags, flag, value), ..*old(self) }),
    {
        match flag {
            Flag::Z => self.Flags = set_bit(self.Flags, 7, value),
            Flag::N => self.Flags = set_bit(self.Flags, 6, value),
            Flag::H => self.Flags = set_bit(self.Flags, 5, value),
            Flag::C => self.Flags = set_bit(self.Flags, 4, value),
        }
    }

    /// Sets Z, N, H and C, in that order.
    pub fn set_flags(&mut self, z: bool, n: bool, h: bool, c: bool)
        ensures
            *final(self) == (CPU { Flags: flags_spec(old(self).Flags, z, n, h, c), ..*old(self) }),
    {
        self.set_flag(Flag::Z, z);
        self.set_flag(Flag::N, n);
        self.set_flag(Flag::H, h);
        self.set_flag(Flag::C, c);
    }

    /// Whether a branch condition holds.
    pub fn check_condition(&self, condition: Condition) -> (r: bool)
        ensures
            r == self.condition(condition),
    {
        match condition {
            Condition::NZ => !self.get_flag(Flag::Z),
            Condition::Z => self.get_flag(Flag::Z),
            Condition::NC => !self.get_flag(Flag::C),
            Condition::C => self.get_flag(Flag::C),
        }
    }

    /// The value of an 8-bit operand slot.
    pub fn read_register(&self, register: Register8, memory_bus: &MemoryBus) -> (r: u8)
        requires
            memory_bus.wf(),
        ensures
            r == self.reg8(memory_bus@, register),
    {
        match register {
            Register8::B => self.B,
            Register8::C => self.C,
            Register8::D => self.D,
            Register8::E => self.E,
            Register8::H => self.H,
            Register8::L => self.L,
            Register8::IndirectHL => memory_bus.get_u8(self.get_hl()),
            Register8::A => self.Accumulator,
        }
    }

    /// Writes `immediate` to an 8-bit operand slot.
    pub fn write_register_immediate(&mut self, target: Register8, immediate: u8, memory_bus: &mut MemoryBus)
        requires
            old(memory_bus).wf(),
        ensures
            final(memory_bus).wf(),
            *final(self) == old(self).with_reg8(target, immediate),
            final(memory_bus)@ == old(self).bus_with_reg8(old(memory_bus)@, target, immediate),
    {
        match target {
            Register8::B => self.B = immediate,
            Register8::C => self.C = immediate,
            Register8::D => self.D = immediate,
            Register8::E => self.E = immediate,
            Register8::H => self.H = immediate,
            Register8::L => self.L = immediate,
            Register8::IndirectHL => memory_bus.write_u8(self.get_hl(), immediate),
            Register8::A => self.Accumulator = immediate,
        }
    }

    /// Copies the operand slot `source` into `target`.
    pub fn write_register(&mut self, target: Register8, source: Register8, memory_bus: &mut MemoryBus)
        requires
            old(memory_bus).wf(),
        ensures
            final(memory_bus).wf(),
            *final(self) == old(self).with_reg8(target, old(self).reg8(old(memory_bus)@, source)),
            final(memory_bus)@ == old(self).bus_with_reg8(
                old(memory_bus)@,
                target,
                old(self).reg8(old(memory_bus)@, source),
            ),
    {
        let read = self.read_register(source, memory_bus);
        self.write_register_immediate(target, read, memory_bus);
    }

    /// The address an indirect register names; HLI and HLD then step HL by
    /// one, modulo 2^16.
    pub fn get_indirect(&mut self, register: Register16Indirect) -> (r: u16)
        ensures
            (r, *final(self)) == old(self).indirect(register),
    {
        match register {
            Register16Indirect::BC => self.get_bc(),
            Register16Indirect::DE => self.get_de(),
            Register16Indirect::HLI => {
                let addr = self.get_hl();
                self.write_16(Register16::HL, addr.wrapping_add(1));
                addr
            },
            Register16Indirect::HLD => {
                let addr = self.get_hl();
                self.write_16(Register16::HL, addr.wrapping_sub(1));
                addr
            },
        }
    }

    /// Dispatches a pending interrupt as `interrupt_spec` says; returns its
    /// cost, 0 when none was dispatched.
    pub fn handle_interrupt(&mut self, memory_bus: &mut MemoryBus) -> (r: u32)
        requires
            old(memory_bus).wf(),
        ensures
            final(memory_bus).wf(),
            (*final(self), final(memory_bus)@, r) == interrupt_spec(*old(self), old(memory_bus)@),
    {
        let requested = memory_bus.get_u8(IF);
        let triggered = requested & memory_bus.get_u8(IE) & 0x1F;
        if triggered == 0 {
            return 0;
        }
        self.halted = false;
        if !self.IME {
            return 0;
        }
        self.IME = false;
        let n: u8 = if get_bit(triggered, 0) {
            0
        } else if get_bit(triggered, 1) {
            1
        } else if get_bit(triggered, 2) {
            2
        } else if get_bit(triggered, 3) {
            3
        } else {
            4
        };
        memory_bus.write_u8(IF, set_bit(requested, n, false));
        memory_bus.write_stack_16(&mut self.SP, self.PC);
        self.PC = 0x40 + n as u16 * 8;
        5
    }

    /// Fetches and decodes the instruction at PC and moves PC past it; on a
    /// decode error nothing changes.
    pub fn next_instruction(&mut self, memory_bus: &MemoryBus) -> (r: Result<Instruction, Error>)
        requires
            memory_bus.wf(),
        ensures
            match decode_spec(fetch_spec(memory_bus@, old(self).PC), old(self).PC) {
                Ok((i, len)) => r == Ok::<Instruction, Error>(i) && i.wf() && *final(self) == (CPU {
                    PC: add16(old(self).PC, len as int),
                    ..*old(self)
                }),
                Err(e) => r == Err::<Instruction, Error>(e) && *final(self) == *old(self),
            },
    {
        let instr = memory_bus.get_instr(self.PC);
        match Instruction::parse(instr.as_slice(), self.PC) {
            Ok((actual_instr, len)) => {
                self.PC = self.PC.wrapping_add(len as u16);
                Ok(actual_instr)
            },
            Err(e) => Err(e),
        }
    }

    /// Executes a decoded instruction, PC already past it; returns its cost.
    pub fn execute(&mut self, instr: Instruction, memory_bus: &mut MemoryBus) -> (r: u32)
        requires
            old(memory_bus).wf(),
            instr.wf(),
        ensures
            final(memory_bus).wf(),
            ({
                let s = execute_spec(*old(self), old(memory_bus)@, instr);
                *final(self) == s.0 && final(memory_bus)@ == s.1 && r == instr.cost(s.2)
            }),
    {
        if let Some(n) = alu::handle_instruction(self, instr, memory_bus) {
            return n;
        }
        if let Some(n) = loads::handle_instruction(self, instr, memory_bus) {
            return n;
        }
        if let Some(n) = control_flow::handle_instruction(self, instr, memory_bus) {
            return n;
        }
        match instr {
            Instruction::Stop => self.stop = true,
            Instruction::Halt => self.halted = true,
            Instruction::DisableInterrupts => self.IME = false,
            Instruction::EnableInterrupts => self.IME = true,
            _ => {},
        }
        instr.ticks(false)
    }

    /// One step: interrupt dispatch, else (unless halted) fetch, decode and
    /// execute one instruction. Returns the M-cycles spent, or the decode
    /// error, which leaves the state as interrupt dispatch left it.
    pub fn tick(&mut self, memory_bus: &mut MemoryBus) -> (r: Result<u32, Error>)
        requires
            old(memory_bus).wf(),
        ensures
            final(memory_bus).wf(),
            (*final(self), final(memory_bus)@, r) == tick_spec(*old(self), old(memory_bus)@),
    {
        let n = self.handle_interrupt(memory_bus);
        if n != 0 {
            return Ok(n);
        }
        if self.halted {
            return Ok(1);
        }
        match self.next_instruction(memory_bus) {
            Ok(instr) => Ok(self.execute(instr, memory_bus)),
            Err(e) => Err(e),
        }
    }
}

} // verus!
