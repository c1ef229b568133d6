//! The instruction set: opcodes, their encoding as words, and the number
//! of operand words each one takes.
use vstd::prelude::*;
use crate::arithmetic::wrap;
use crate::bus::Bus;
use crate::cpu::Data;
use crate::cpu::Pointer;
use crate::cpu::CpuView;
use crate::cpu::OperandBuffer;
use crate::cpu::Processor;
use crate::cpu::bad_register;
use crate::cpu::cpu_outcome;
use crate::cpu::step_outcome;
use crate::fault::Fault;
use crate::memory::Addressable;
use crate::RAM_SIZE;

verus! {

/// An opcode. Its encoding is its position in this list, from zero.
/// `JumpIfNotZero` branches while the zero flag is clear, which is what a
/// count-down loop closed by `Compare` needs. `EnumLength` is never
/// executed: it bounds the valid encodings.
#[derive(Debug, Clone, Copy, PartialEq, Eq, Structural)]
pub enum Instruction {
    Halt,
    Null,
    LoadImm,
    LoadMem,
    Copy,
    Add,
    Sub,
    Mul,
    Div,
    Jump,
    JumpIfNotZero,
    Push,
    Pop,
    Compare,
    Increment,
    Decrement,
    Ret,
    EnumLength,
}

/// The number of valid opcode encodings.
pub const OPCODE_COUNT: u8 = 17;

/// The word that encodes an opcode.
pub open spec fn opcode_of(i: Instruction) -> u8 {
    match i {
        Instruction::Halt => 0,
        Instruction::Null => 1,
        Instruction::LoadImm => 2,
        Instruction::LoadMem => 3,
        Instruction::Copy => 4,
        Instruction::Add => 5,
        Instruction::Sub => 6,
        Instruction::Mul => 7,
        Instruction::Div => 8,
        Instruction::Jump => 9,
        Instruction::JumpIfNotZero => 10,
        Instruction::Push => 11,
        Instruction::Pop => 12,
        Instruction::Compare => 13,
        Instruction::Increment => 14,
        Instruction::Decrement => 15,
        Instruction::Ret => 16,
        Instruction::EnumLength => 17,
    }
}

/// The opcode a word encodes; every word from `OPCODE_COUNT` up reads as
/// the `EnumLength` sentinel.
pub open spec fn instruction_of(w: u8) -> Instruction {
    if w == 0 {
        Instruction::Halt
    } else if w == 1 {
        Instruction::Null
    } else if w == 2 {
        Instruction::LoadImm
    } else if w == 3 {
        Instruction::LoadMem
    } else if w == 4 {
        Instruction::Copy
    } else if w == 5 {
        Instruction::Add
    } else if w == 6 {
        Instruction::Sub
    } else if w == 7 {
        Instruction::Mul
    } else if w == 8 {
        Instruction::Div
    } else if w == 9 {
        Instruction::Jump
    } else if w == 10 {
        Instruction::JumpIfNotZero
    } else if w == 11 {
        Instruction::Push
    } else if w == 12 {
        Instruction::Pop
    } else if w == 13 {
        Instruction::Compare
    } else if w == 14 {
        Instruction::Increment
    } else if w == 15 {
        Instruction::Decrement
    } else if w == 16 {
        Instruction::Ret
    } else {
        Instruction::EnumLength
    }
}

/// How many operand words follow an opcode in the instruction stream.
pub open spec fn operand_count_of(i: Instruction) -> nat {
    match i {
        Instruction::Halt | Instruction::Null | Instruction::Ret | Instruction::EnumLength => 0,
        Instruction::Jump
        | Instruction::JumpIfNotZero
        | Instruction::Push
        | Instruction::Pop
        | Instruction::Increment
        | Instruction::Decrement => 1,
        Instruction::LoadImm | Instruction::LoadMem | Instruction::Copy | Instruction::Compare => 2,
        Instruction::Add | Instruction::Sub | Instruction::Mul | Instruction::Div => 3,
    }
}

impl Instruction {
    /// Whether this is an opcode that can be executed.
    pub open spec fn is_valid(self) -> bool {
        self != Instruction::EnumLength
    }

    pub fn operand_count(&self) -> (r: usize)
        requires
            self.is_valid(),
        ensures
            r == operand_count_of(*self),
    {
        match self {
            Instruction::Halt | Instruction::Null | Instruction::Ret => 0,
            Instruction::Jump
            | Instruction::JumpIfNotZero
            | Instruction::Push
            | Instruction::Pop
            | Instruction::Increment
            | Instruction::Decrement => 1,
            Instruction::LoadImm
            | Instruction::LoadMem
            | Instruction::Copy
            | Instruction::Compare => 2,
            Instruction::Add | Instruction::Sub | Instruction::Mul | Instruction::Div => 3,
            Instruction::EnumLength => 0,
        }
    }

    /// The opcode a word encodes, or `None` for a word that encodes none.
    pub fn decode(w: u8) -> (r: Option<Instruction>)
        ensures
            w < OPCODE_COUNT ==> r == Some(instruction_of(w)),
            w >= OPCODE_COUNT ==> r is None,
    {
        if w >= OPCODE_COUNT {
            None
        } else {
            Some(Instruction::from(w))
        }
    }
}

impl From<u8> for Instruction {
    /// Reads a word as an opcode; a word that encodes none reads as the
    /// `EnumLength` sentinel, which decoding rejects.
    fn from(value: u8) -> (r: Instruction) {
        match value {
            0 => Instruction::Halt,
            1 => Instruction::Null,
            2 => Instruction::LoadImm,
            3 => Instruction::LoadMem,
            4 => Instruction::Copy,
            5 => Instruction::Add,
            6 => Instruction::Sub,
            7 => Instruction::Mul,
            8 => Instruction::Div,
            9 => Instruction::Jump,
            10 => Instruction::JumpIfNotZero,
            11 => Instruction::Push,
            12 => Instruction::Pop,
            13 => Instruction::Compare,
            14 => Instruction::Increment,
            15 => Instruction::Decrement,
            16 => Instruction::Ret,
            _ => Instruction::EnumLength,
        }
    }
}

impl vstd::std_specs::convert::FromSpecImpl<u8> for Instruction {
    open spec fn obeys_from_spec() -> bool {
        true
    }

    open spec fn from_spec(v: u8) -> Instruction {
        instruction_of(v)
    }
}

impl From<Instruction> for u8 {
    fn from(value: Instruction) -> (r: u8) {
        match value {
            Instruction::Halt => 0,
            Instruction::Null => 1,
            Instruction::LoadImm => 2,
            Instruction::LoadMem => 3,
            Instruction::Copy => 4,
            Instruction::Add => 5,
            Instruction::Sub => 6,
            Instruction::Mul => 7,
            Instruction::Div => 8,
            Instruction::Jump => 9,
            Instruction::JumpIfNotZero => 10,
            Instruction::Push => 11,
            Instruction::Pop => 12,
            Instruction::Compare => 13,
            Instruction::Increment => 14,
            Instruction::Decrement => 15,
            Instruction::Ret => 16,
            Instruction::EnumLength => 17,
        }
    }
}

impl vstd::std_specs::convert::FromSpecImpl<Instruction> for u8 {
    open spec fn obeys_from_spec() -> bool {
        true
    }

    open spec fn from_spec(v: Instruction) -> u8 {
        opcode_of(v)
    }
}

/// Decoding the encoding of an opcode gives the opcode back.
pub proof fn lemma_encoding_round_trip(i: Instruction)
    ensures
        instruction_of(opcode_of(i)) == i,
        i.is_valid() <==> opcode_of(i) < OPCODE_COUNT,
{
}


/// The processor after an instruction that changes nothing but finishes.
pub open spec fn done_unchanged(c: CpuView) -> CpuView {
    c.done(c.registers, c.program_counter, c.flags.zero, c.flags.less, c.flags.great)
}

/// A processor-only outcome, with the bus left alone.
pub open spec fn with_bus(r: Result<CpuView, Fault>, b: Bus<Pointer, Data>) -> Result<
    (CpuView, Bus<Pointer, Data>),
    Fault,
> {
    match r {
        Ok(c) => Ok((c, b)),
        Err(e) => Err(e),
    }
}

/// `R[d] <- v` for the first operand `d`, once it is checked to be a
/// register; otherwise the fault it raises.
pub open spec fn set_register_step(c: CpuView, checked: int, v: u8) -> Result<CpuView, Fault> {
    match bad_register(c.operands.take(checked), c.registers.len()) {
        Some(x) => Err(Fault::RegisterOutOfRange(x)),
        None => Ok(c.done_with_register(c.op(0), v)),
    }
}

pub open spec fn halt_step(c: CpuView) -> Result<CpuView, Fault> {
    Ok(CpuView { halted: true, ..done_unchanged(c) })
}

pub open spec fn load_imm_step(c: CpuView) -> Result<CpuView, Fault> {
    set_register_step(c, 1, c.op(1))
}

pub open spec fn copy_step(c: CpuView) -> Result<CpuView, Fault> {
    set_register_step(c, 2, c.reg(c.op(1) as int))
}

pub open spec fn add_step(c: CpuView) -> Result<CpuView, Fault> {
    set_register_step(c, 3, wrap(c.reg(c.op(1) as int) + c.reg(c.op(2) as int)))
}

pub open spec fn sub_step(c: CpuView) -> Result<CpuView, Fault> {
    set_register_step(c, 3, wrap(c.reg(c.op(1) as int) - c.reg(c.op(2) as int)))
}

pub open spec fn mul_step(c: CpuView) -> Result<CpuView, Fault> {
    set_register_step(c, 3, wrap(c.reg(c.op(1) as int) * c.reg(c.op(2) as int)))
}

pub open spec fn div_step(c: CpuView) -> Result<CpuView, Fault> {
    if bad_register(c.operands.take(3), c.registers.len()) is None && c.reg(c.op(2) as int) == 0 {
        Err(Fault::DivisionByZero)
    } else {
        set_register_step(c, 3, (c.reg(c.op(1) as int) / c.reg(c.op(2) as int)) as u8)
    }
}

pub open spec fn jump_step(c: CpuView) -> Result<CpuView, Fault> {
    Ok(c.done(c.registers, c.op(0) as Pointer, c.flags.zero, c.flags.less, c.flags.great))
}

pub open spec fn jump_if_not_zero_step(c: CpuView) -> Result<CpuView, Fault> {
    let pc = if c.flags.zero {
        c.program_counter
    } else {
        c.op(0) as Pointer
    };
    Ok(c.done(c.registers, pc, c.flags.zero, c.flags.less, c.flags.great))
}

pub open spec fn compare_step(c: CpuView) -> Result<CpuView, Fault> {
    match bad_register(c.operands.take(2), c.registers.len()) {
        Some(x) => Err(Fault::RegisterOutOfRange(x)),
        None => {
            let (x, y) = (c.reg(c.op(0) as int), c.reg(c.op(1) as int));
            Ok(c.done(c.registers, c.program_counter, x == y, x < y, x > y))
        },
    }
}

pub open spec fn increment_step(c: CpuView) -> Result<CpuView, Fault> {
    set_register_step(c, 1, wrap(c.reg(c.op(0) as int) + 1))
}

pub open spec fn decrement_step(c: CpuView) -> Result<CpuView, Fault> {
    set_register_step(c, 1, wrap(c.reg(c.op(0) as int) - 1))
}

pub open spec fn load_mem_step(c: CpuView, b: Bus<Pointer, Data>) -> Result<(CpuView, Bus<Pointer, Data>), Fault> {
    match bad_register(c.operands.take(1), c.registers.len()) {
        Some(x) => Err(Fault::RegisterOutOfRange(x)),
        None => if c.microstate == 0 {
            if b.available() {
                Ok((c.waiting(c.stack_pointer), b.with_read(c.op(1) as Pointer)))
            } else {
                Err(Fault::BusProtocol)
            }
        } else {
            match b.data {
                Some(v) => Ok((c.done_with_register(c.op(0), v), b.without_data())),
                None => Err(Fault::BusProtocol),
            }
        },
    }
}

pub open spec fn push_step(c: CpuView, b: Bus<Pointer, Data>) -> Result<(CpuView, Bus<Pointer, Data>), Fault> {
    if c.microstate == 0 {
        match bad_register(c.operands.take(1), c.registers.len()) {
            Some(x) => Err(Fault::RegisterOutOfRange(x)),
            None => if c.stack_pointer == 0 {
                Err(Fault::StackOverflow)
            } else if !b.available() {
                Err(Fault::BusProtocol)
            } else {
                Ok((
                    c.waiting((c.stack_pointer - 1) as Pointer),
                    b.with_write(c.stack_pointer, c.reg(c.op(0) as int)),
                ))
            },
        }
    } else if b.available() {
        Ok((done_unchanged(c), b))
    } else {
        Err(Fault::BusProtocol)
    }
}

pub open spec fn pop_step(c: CpuView, b: Bus<Pointer, Data>) -> Result<(CpuView, Bus<Pointer, Data>), Fault> {
    match bad_register(c.operands.take(1), c.registers.len()) {
        Some(x) => Err(Fault::RegisterOutOfRange(x)),
        None => if c.microstate == 0 {
            if c.stack_pointer + 1 >= RAM_SIZE {
                Err(Fault::StackUnderflow)
            } else if !b.available() {
                Err(Fault::BusProtocol)
            } else {
                let sp = (c.stack_pointer + 1) as Pointer;
                Ok((c.waiting(sp), b.with_read(sp)))
            }
        } else {
            match b.data {
                Some(v) => Ok((c.done_with_register(c.op(0), v), b.without_data())),
                None => Err(Fault::BusProtocol),
            }
        },
    }
}

pub open spec fn ret_step(c: CpuView, b: Bus<Pointer, Data>) -> Result<(CpuView, Bus<Pointer, Data>), Fault> {
    if c.microstate == 0 {
        if c.stack_pointer + 1 >= RAM_SIZE {
            Err(Fault::StackUnderflow)
        } else if !b.available() {
            Err(Fault::BusProtocol)
        } else {
            let sp = (c.stack_pointer + 1) as Pointer;
            Ok((c.waiting(sp), b.with_read(sp)))
        }
    } else {
        match b.data {
            Some(v) => Ok((
                c.done(c.registers, v as Pointer, c.flags.zero, c.flags.less, c.flags.great),
                b.without_data(),
            )),
            None => Err(Fault::BusProtocol),
        }
    }
}

/// One execution step of the current opcode.
pub open spec fn exec_step(c: CpuView, b: Bus<Pointer, Data>) -> Result<(CpuView, Bus<Pointer, Data>), Fault> {
    match c.current_instruction {
        Instruction::Halt => with_bus(halt_step(c), b),
        Instruction::Null => Ok((done_unchanged(c), b)),
        Instruction::LoadImm => with_bus(load_imm_step(c), b),
        Instruction::LoadMem => load_mem_step(c, b),
        Instruction::Copy => with_bus(copy_step(c), b),
        Instruction::Add => with_bus(add_step(c), b),
        Instruction::Sub => with_bus(sub_step(c), b),
        Instruction::Mul => with_bus(mul_step(c), b),
        Instruction::Div => with_bus(div_step(c), b),
        Instruction::Jump => with_bus(jump_step(c), b),
        Instruction::JumpIfNotZero => with_bus(jump_if_not_zero_step(c), b),
        Instruction::Push => push_step(c, b),
        Instruction::Pop => pop_step(c, b),
        Instruction::Compare => with_bus(compare_step(c), b),
        Instruction::Increment => with_bus(increment_step(c), b),
        Instruction::Decrement => with_bus(decrement_step(c), b),
        Instruction::Ret => ret_step(c, b),
        Instruction::EnumLength => Err(Fault::InvalidOpcode(OPCODE_COUNT)),
    }
}

/// Checks that the first `n` operands name registers, changing nothing.
fn check_registers<const N: usize>(buffer: &OperandBuffer<N>, n: usize) -> (r: Result<(), Fault>)
    requires
        buffer.wf(),
        n <= buffer.fetched,
        n <= 3,
    ensures
        match bad_register(buffer.operands@.take(n as int), N as nat) {
            Some(x) => r == Err::<(), Fault>(Fault::RegisterOutOfRange(x)),
            None => r is Ok,
        },
{
    if n > 0 {
        let x = buffer.operand(0);
        if x as usize >= N {
            return Err(Fault::RegisterOutOfRange(x));
        }
    }
    if n > 1 {
        let x = buffer.operand(1);
        if x as usize >= N {
            return Err(Fault::RegisterOutOfRange(x));
        }
    }
    if n > 2 {
        let x = buffer.operand(2);
        if x as usize >= N {
            return Err(Fault::RegisterOutOfRange(x));
        }
    }
    Ok(())
}

/// Stops the machine.
pub fn halt<const R: usize>(cpu: &mut Processor<R>)
    requires
        old(cpu).wf(),
        old(cpu)@.ready_for(Instruction::Halt),
    ensures
        cpu_outcome(halt_step(old(cpu)@), Ok(()), old(cpu)@, final(cpu)@),
{
    cpu.halted = true;
    cpu.flags.complete = true;
}

/// `R[d] <- v`.
pub fn load_imm<const R: usize>(cpu: &mut Processor<R>) -> (r: Result<(), Fault>)
    requires
        old(cpu).wf(),
        old(cpu)@.ready_for(Instruction::LoadImm),
    ensures
        cpu_outcome(load_imm_step(old(cpu)@), r, old(cpu)@, final(cpu)@),
{
    if let Err(e) = check_registers(&cpu.operand_buffer, 1) {
        return Err(e);
    }
    let dst = cpu.operand_buffer.read_next();
    let val = cpu.operand_buffer.read_next();
    *cpu.registers.write(dst as usize) = val;
    cpu.flags.complete = true;
    Ok(())
}

/// `R[d] <- R[s]`.
pub fn copy<const R: usize>(cpu: &mut Processor<R>) -> (r: Result<(), Fault>)
    requires
        old(cpu).wf(),
        old(cpu)@.ready_for(Instruction::Copy),
    ensures
        cpu_outcome(copy_step(old(cpu)@), r, old(cpu)@, final(cpu)@),
{
    if let Err(e) = check_registers(&cpu.operand_buffer, 2) {
        return Err(e);
    }
    let dst = cpu.operand_buffer.read_next();
    let rg1 = cpu.operand_buffer.read_next();
    let val = cpu.registers.read(rg1 as usize);
    *cpu.registers.write(dst as usize) = val;
    cpu.flags.complete = true;
    Ok(())
}

/// `R[d] <- R[a] + R[b]`, wrapping.
pub fn add<const R: usize>(cpu: &mut Processor<R>) -> (r: Result<(), Fault>)
    requires
        old(cpu).wf(),
        old(cpu)@.ready_for(Instruction::Add),
    ensures
        cpu_outcome(add_step(old(cpu)@), r, old(cpu)@, final(cpu)@),
{
    if let Err(e) = check_registers(&cpu.operand_buffer, 3) {
        return Err(e);
    }
    let dst = cpu.operand_buffer.read_next();
    let rg1 = cpu.operand_buffer.read_next();
    let rg2 = cpu.operand_buffer.read_next();
    let va1 = cpu.registers.read(rg1 as usize);
    let va2 = cpu.registers.read(rg2 as usize);
    *cpu.registers.write(dst as usize) = crate::arithmetic::add(va1, va2);
    cpu.flags.complete = true;
    Ok(())
}

/// `R[d] <- R[a] - R[b]`, wrapping.
pub fn sub<const R: usize>(cpu: &mut Processor<R>) -> (r: Result<(), Fault>)
    requires
        old(cpu).wf(),
        old(cpu)@.ready_for(Instruction::Sub),
    ensures
        cpu_outcome(sub_step(old(cpu)@), r, old(cpu)@, final(cpu)@),
{
    if let Err(e) = check_registers(&cpu.operand_buffer, 3) {
        return Err(e);
    }
    let dst = cpu.operand_buffer.read_next();
    let rg1 = cpu.operand_buffer.read_next();
    let rg2 = cpu.operand_buffer.read_next();
    let va1 = cpu.registers.read(rg1 as usize);
    let va2 = cpu.registers.read(rg2 as usize);
    *cpu.registers.write(dst as usize) = crate::arithmetic::sub(va1, va2);
    cpu.flags.complete = true;
    Ok(())
}

/// `R[d] <- R[a] * R[b]`, wrapping.
pub fn mul<const R: usize>(cpu: &mut Processor<R>) -> (r: Result<(), Fault>)
    requires
        old(cpu).wf(),
        old(cpu)@.ready_for(Instruction::Mul),
    ensures
        cpu_outcome(mul_step(old(cpu)@), r, old(cpu)@, final(cpu)@),
{
    if let Err(e) = check_registers(&cpu.operand_buffer, 3) {
        return Err(e);
    }
    let dst = cpu.operand_buffer.read_next();
    let rg1 = cpu.operand_buffer.read_next();
    let rg2 = cpu.operand_buffer.read_next();
    let va1 = cpu.registers.read(rg1 as usize);
    let va2 = cpu.registers.read(rg2 as usize);
    *cpu.registers.write(dst as usize) = crate::arithmetic::mul(va1, va2);
    cpu.flags.complete = true;
    Ok(())
}

/// `R[d] <- R[a] / R[b]`, rounding down; a zero divisor is a fault.
pub fn div<const R: usize>(cpu: &mut Processor<R>) -> (r: Result<(), Fault>)
    requires
        old(cpu).wf(),
        old(cpu)@.ready_for(Instruction::Div),
    ensures
        cpu_outcome(div_step(old(cpu)@), r, old(cpu)@, final(cpu)@),
{
    if let Err(e) = check_registers(&cpu.operand_buffer, 3) {
        return Err(e);
    }
    let divisor = cpu.registers.read(cpu.operand_buffer.operand(2) as usize);
    if divisor == 0 {
        return Err(Fault::DivisionByZero);
    }
    let dst = cpu.operand_buffer.read_next();
    let rg1 = cpu.operand_buffer.read_next();
    let rg2 = cpu.operand_buffer.read_next();
    let va1 = cpu.registers.read(rg1 as usize);
    let va2 = cpu.registers.read(rg2 as usize);
    *cpu.registers.write(dst as usize) = crate::arithmetic::div(va1, va2);
    cpu.flags.complete = true;
    Ok(())
}

/// `PC <- addr`.
pub fn jump<const R: usize>(cpu: &mut Processor<R>)
    requires
        old(cpu).wf(),
        old(cpu)@.ready_for(Instruction::Jump),
    ensures
        cpu_outcome(jump_step(old(cpu)@), Ok(()), old(cpu)@, final(cpu)@),
{
    let adr = cpu.operand_buffer.read_next();
    cpu.program_counter = adr as Pointer;
    cpu.flags.complete = true;
}

/// Executes `JumpIfNotZero`: `PC <- addr` when the zero flag is clear.
pub fn jump_if_zero<const R: usize>(cpu: &mut Processor<R>)
    requires
        old(cpu).wf(),
        old(cpu)@.ready_for(Instruction::JumpIfNotZero),
    ensures
        cpu_outcome(jump_if_not_zero_step(old(cpu)@), Ok(()), old(cpu)@, final(cpu)@),
{
    let adr = cpu.operand_buffer.read_next();
    if !cpu.flags.zero {
        cpu.program_counter = adr as Pointer;
    }
    cpu.flags.complete = true;
}

/// Sets exactly one of the zero, less and great flags from the ordering
/// of `R[a]` and `R[b]`.
pub fn compare<const R: usize>(cpu: &mut Processor<R>) -> (r: Result<(), Fault>)
    requires
        old(cpu).wf(),
        old(cpu)@.ready_for(Instruction::Compare),
    ensures
        cpu_outcome(compare_step(old(cpu)@), r, old(cpu)@, final(cpu)@),
{
    if let Err(e) = check_registers(&cpu.operand_buffer, 2) {
        return Err(e);
    }
    let rg1 = cpu.operand_buffer.read_next();
    let rg2 = cpu.operand_buffer.read_next();
    let va1 = cpu.registers.read(rg1 as usize);
    let va2 = cpu.registers.read(rg2 as usize);
    cpu.flags.reset_logical();
    match crate::logic::compare(va1, va2) {
        crate::logic::Ordering::Equal => cpu.flags.zero = true,
        crate::logic::Ordering::Less => cpu.flags.less = true,
        crate::logic::Ordering::Great => cpu.flags.great = true,
    }
    cpu.flags.complete = true;
    Ok(())
}

/// `R[d] <- R[d] + 1`, wrapping.
pub fn increment<const R: usize>(cpu: &mut Processor<R>) -> (r: Result<(), Fault>)
    requires
        old(cpu).wf(),
        old(cpu)@.ready_for(Instruction::Increment),
    ensures
        cpu_outcome(increment_step(old(cpu)@), r, old(cpu)@, final(cpu)@),
{
    if let Err(e) = check_registers(&cpu.operand_buffer, 1) {
        return Err(e);
    }
    let dst = cpu.operand_buffer.read_next();
    let val = cpu.registers.read(dst as usize);
    *cpu.registers.write(dst as usize) = crate::arithmetic::add(val, 1);
    cpu.flags.complete = true;
    Ok(())
}

/// `R[d] <- R[d] - 1`, wrapping.
pub fn decrement<const R: usize>(cpu: &mut Processor<R>) -> (r: Result<(), Fault>)
    requires
        old(cpu).wf(),
        old(cpu)@.ready_for(Instruction::Decrement),
    ensures
        cpu_outcome(decrement_step(old(cpu)@), r, old(cpu)@, final(cpu)@),
{
    if let Err(e) = check_registers(&cpu.operand_buffer, 1) {
        return Err(e);
    }
    let dst = cpu.operand_buffer.read_next();
    let val = cpu.registers.read(dst as usize);
    *cpu.registers.write(dst as usize) = crate::arithmetic::sub(val, 1);
    cpu.flags.complete = true;
    Ok(())
}

/// `R[d] <- M[a]`. The first phase consumes the operands and asks the
/// bus for `M[a]`; the second stores the word that came back in the
/// register the first operand named.
pub fn load_mem<const R: usize>(cpu: &mut Processor<R>, bus: &mut Bus<Pointer, Data>) -> (r: Result<(), Fault>)
    requires
        old(cpu).wf(),
        old(cpu)@.ready_for(Instruction::LoadMem),
    ensures
        step_outcome(load_mem_step(old(cpu)@, *old(bus)), r, old(cpu)@, *old(bus), final(cpu)@, *final(bus)),
{
    if let Err(e) = check_registers(&cpu.operand_buffer, 1) {
        return Err(e);
    }
    if cpu.microstate.0 == 0 {
        if !bus.is_avaliable() {
            return Err(Fault::BusProtocol);
        }
        let _dst = cpu.operand_buffer.read_next();
        let adr = cpu.operand_buffer.read_next();
        let _ = bus.dispatch_read(adr as Pointer);
        cpu.microstate.increment();
        Ok(())
    } else {
        match bus.read_data() {
            Some(val) => {
                let dst = cpu.operand_buffer.operand(0);
                *cpu.registers.write(dst as usize) = val;
                cpu.flags.complete = true;
                Ok(())
            },
            None => Err(Fault::BusProtocol),
        }
    }
}

/// `M[SP] <- R[s]; SP <- SP - 1`. The first phase dispatches the write
/// and moves the stack pointer; the second sees the bus free again.
pub fn push<const R: usize>(cpu: &mut Processor<R>, bus: &mut Bus<Pointer, Data>) -> (r: Result<(), Fault>)
    requires
        old(cpu).wf(),
        old(cpu)@.ready_for(Instruction::Push),
    ensures
        step_outcome(push_step(old(cpu)@, *old(bus)), r, old(cpu)@, *old(bus), final(cpu)@, *final(bus)),
{
    if cpu.microstate.0 == 0 {
        if let Err(e) = check_registers(&cpu.operand_buffer, 1) {
            return Err(e);
        }
        if cpu.stack_pointer == 0 {
            return Err(Fault::StackOverflow);
        }
        if !bus.is_avaliable() {
            return Err(Fault::BusProtocol);
        }
        let rg1 = cpu.operand_buffer.read_next();
        let val = cpu.registers.read(rg1 as usize);
        let _ = bus.dispatch_write(cpu.stack_pointer, val);
        cpu.stack_pointer = cpu.stack_pointer - 1;
        cpu.microstate.increment();
        Ok(())
    } else if bus.is_avaliable() {
        cpu.flags.complete = true;
        Ok(())
    } else {
        Err(Fault::BusProtocol)
    }
}

/// `SP <- SP + 1; R[d] <- M[SP]`. The first phase consumes the operand,
/// moves the stack pointer and asks for the word; the second stores it.
pub fn pop<const R: usize>(cpu: &mut Processor<R>, bus: &mut Bus<Pointer, Data>) -> (r: Result<(), Fault>)
    requires
        old(cpu).wf(),
        old(cpu)@.ready_for(Instruction::Pop),
    ensures
        step_outcome(pop_step(old(cpu)@, *old(bus)), r, old(cpu)@, *old(bus), final(cpu)@, *final(bus)),
{
    if let Err(e) = check_registers(&cpu.operand_buffer, 1) {
        return Err(e);
    }
    if cpu.microstate.0 == 0 {
        if cpu.stack_pointer as usize + 1 >= RAM_SIZE {
            return Err(Fault::StackUnderflow);
        }
        if !bus.is_avaliable() {
            return Err(Fault::BusProtocol);
        }
        let _dst = cpu.operand_buffer.read_next();
        cpu.stack_pointer = cpu.stack_pointer + 1;
        let _ = bus.dispatch_read(cpu.stack_pointer);
        cpu.microstate.increment();
        Ok(())
    } else {
        match bus.read_data() {
            Some(val) => {
                let dst = cpu.operand_buffer.operand(0);
                *cpu.registers.write(dst as usize) = val;
                cpu.flags.complete = true;
                Ok(())
            },
            None => Err(Fault::BusProtocol),
        }
    }
}

/// `SP <- SP + 1; PC <- M[SP]`: a pop into the program counter.
pub fn ret<const R: usize>(cpu: &mut Processor<R>, bus: &mut Bus<Pointer, Data>) -> (r: Result<(), Fault>)
    requires
        old(cpu).wf(),
        old(cpu)@.ready_for(Instruction::Ret),
    ensures
        step_outcome(ret_step(old(cpu)@, *old(bus)), r, old(cpu)@, *old(bus), final(cpu)@, *final(bus)),
{
    if cpu.microstate.0 == 0 {
        if cpu.stack_pointer as usize + 1 >= RAM_SIZE {
            return Err(Fault::StackUnderflow);
        }
        if !bus.is_avaliable() {
            return Err(Fault::BusProtocol);
        }
        cpu.stack_pointer = cpu.stack_pointer + 1;
        let _ = bus.dispatch_read(cpu.stack_pointer);
        cpu.microstate.increment();
        Ok(())
    } else {
        match bus.read_data() {
            Some(val) => {
                cpu.program_counter = val as Pointer;
                cpu.flags.complete = true;
                Ok(())
            },
            None => Err(Fault::BusProtocol),
        }
    }
}


/// A `Push s` followed by a `Pop d`, with memory serving each request in
/// between, leaves `R[d]` equal to the old `R[s]`, the stack pointer where
/// it started, and the bus free. The `Pop` starts from any processor
/// about to execute it that holds the registers and stack pointer the
/// `Push` left.
pub proof fn lemma_push_pop_round_trip(
    c: CpuView,
    p: CpuView,
    bus: Bus<Pointer, Data>,
    mem: Seq<u8>,
)
    requires
        c.ready_for(Instruction::Push),
        c.microstate == 0,
        c.op(0) < c.registers.len(),
        c.stack_pointer > 0,
        p.ready_for(Instruction::Pop),
        p.microstate == 0,
        p.registers.len() == c.registers.len(),
        p.op(0) < p.registers.len(),
        bus.available(),
        mem.len() == RAM_SIZE,
    ensures
        ({
            let (c1, b1) = push_step(c, bus)->Ok_0;
            let (b2, m2) = crate::memory::memory_step(b1, mem)->Ok_0;
            let (c2, b3) = push_step(c1, b2)->Ok_0;
            let p0 = CpuView { registers: c2.registers, stack_pointer: c2.stack_pointer, ..p };
            let (p1, b4) = pop_step(p0, b3)->Ok_0;
            let (b5, m5) = crate::memory::memory_step(b4, m2)->Ok_0;
            let (p2, b6) = pop_step(p1, b5)->Ok_0;
            &&& push_step(c, bus) is Ok
            &&& crate::memory::memory_step(b1, mem) is Ok
            &&& push_step(c1, b2) is Ok
            &&& pop_step(p0, b3) is Ok
            &&& crate::memory::memory_step(b4, m2) is Ok
            &&& pop_step(p1, b5) is Ok
            &&& p2.reg(p.op(0) as int) == c.reg(c.op(0) as int)
            &&& p2.stack_pointer == c.stack_pointer
            &&& b6.available()
        }),
{
}

} // verus!
