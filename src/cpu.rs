//! The processor: registers, flags, the operand buffer and the
//! instruction-cycle state machine.
use vstd::prelude::*;
use crate::bus::Bus;
use crate::bus::BusState;
use crate::clock::Clock;
use crate::fault::Fault;
use crate::instructions;
use crate::instructions::Instruction;
use crate::instructions::OPCODE_COUNT;
use crate::instructions::instruction_of;
use crate::instructions::exec_step;
use crate::memory::memory_cycle;
use crate::memory::memory_step;
use crate::CYCLE_LIMIT;
use crate::instructions::operand_count_of;
use crate::memory::Addressable;
use crate::memory::MemoryBlock;
use crate::RAM_SIZE;

verus! {

/// A machine word.
pub type Data = u8;

/// A memory address.
pub type Pointer = u16;

/// The comparison flags, and whether the current instruction has done
/// its work.
#[derive(Debug, Clone, Copy, PartialEq, Eq, Structural)]
pub struct ProcFlags {
    pub zero: bool,
    pub less: bool,
    pub great: bool,
    pub complete: bool,
}

impl ProcFlags {
    pub fn reset_complete(&mut self)
        ensures
            *final(self) == (ProcFlags { complete: false, ..*old(self) }),
    {
        self.complete = false;
    }

    pub fn reset_logical(&mut self)
        ensures
            *final(self) == (ProcFlags { zero: false, less: false, great: false, ..*old(self) }),
    {
        self.zero = false;
        self.less = false;
        self.great = false;
    }
}

/// The operand words of the current instruction, in the order they were
/// fetched, with how many the instruction needs and how many the
/// executor has consumed.
#[derive(Debug)]
pub struct OperandBuffer<const N: usize> {
    pub operands: MemoryBlock<N>,
    pub required: usize,
    pub fetched: usize,
    pub reader_head: usize,
}

impl<const N: usize> OperandBuffer<N> {
    pub open spec fn wf(&self) -> bool {
        &&& self.operands@.len() == N
        &&& self.fetched <= self.required <= N
        &&& self.reader_head <= self.fetched
    }

    /// The operand words fetched so far.
    pub open spec fn fetched_operands(&self) -> Seq<u8> {
        self.operands@.subrange(0, self.fetched as int)
    }

    pub fn new() -> (r: OperandBuffer<N>)
        ensures
            r.wf(),
            r.required == 0,
            r.fetched == 0,
            r.reader_head == 0,
    {
        OperandBuffer { operands: MemoryBlock::default(), required: 0, fetched: 0, reader_head: 0 }
    }

    pub fn is_full(&self) -> (r: bool)
        ensures
            r == (self.fetched == self.required),
    {
        self.fetched == self.required
    }

    pub fn push(&mut self, operand: Data)
        requires
            old(self).wf(),
            old(self).fetched < old(self).required,
        ensures
            final(self).wf(),
            final(self).fetched == old(self).fetched + 1,
            final(self).required == old(self).required,
            final(self).reader_head == old(self).reader_head,
            final(self).operands@ == old(self).operands@.update(old(self).fetched as int, operand),
            final(self).fetched_operands() == old(self).fetched_operands().push(operand),
    {
        *self.operands.write(self.fetched) = operand;
        self.fetched = self.fetched + 1;
        assert(self.fetched_operands() =~= old(self).fetched_operands().push(operand));
    }

    /// The next operand in fetch order.
    pub fn read_next(&mut self) -> (r: Data)
        requires
            old(self).wf(),
            old(self).reader_head < old(self).fetched,
        ensures
            final(self).wf(),
            r == old(self).operands@[old(self).reader_head as int],
            final(self).reader_head == old(self).reader_head + 1,
            final(self).fetched == old(self).fetched,
            final(self).required == old(self).required,
            final(self).operands@ == old(self).operands@,
    {
        let out = self.operands.read(self.reader_head);
        self.reader_head = self.reader_head + 1;
        out
    }

    /// The operand at position `i` in fetch order, wherever the reader is.
    pub fn operand(&self, i: usize) -> (r: Data)
        requires
            self.wf(),
            i < self.fetched,
        ensures
            r == self.operands@[i as int],
    {
        self.operands.read(i)
    }

    /// Empties the buffer: nothing required, fetched or consumed.
    pub fn reset(&mut self)
        requires
            old(self).wf(),
        ensures
            final(self).wf(),
            final(self).required == 0,
            final(self).fetched == 0,
            final(self).reader_head == 0,
            final(self).operands@ == old(self).operands@,
    {
        self.required = 0;
        self.fetched = 0;
        self.reader_head = 0;
    }
}

/// The steps of the instruction cycle.
#[derive(Debug, Clone, Copy, PartialEq, Eq, Structural)]
pub enum ProcState {
    Idle,
    FetchInit,
    Decode,
    FetchOperands,
    Execute,
    WriteBack,
}

/// The phase reached by an instruction that spans several ticks.
#[derive(Debug, Clone, Copy, PartialEq, Eq, Structural)]
pub struct MicroState(pub Data);

impl MicroState {
    pub fn reset(&mut self)
        ensures
            final(self).0 == 0,
    {
        self.0 = 0;
    }

    pub fn increment(&mut self)
        requires
            old(self).0 < 255,
        ensures
            final(self).0 == old(self).0 + 1,
    {
        self.0 = self.0 + 1;
    }
}


/// The first of up to three operand words that names no register of a
/// file of `count` registers, if any.
pub open spec fn bad_register(ops: Seq<u8>, count: nat) -> Option<u8> {
    if ops.len() > 0 && ops[0] >= count {
        Some(ops[0])
    } else if ops.len() > 1 && ops[1] >= count {
        Some(ops[1])
    } else if ops.len() > 2 && ops[2] >= count {
        Some(ops[2])
    } else {
        None
    }
}

/// Whether an opcode needs the bus during its execution, which then
/// spans two ticks.
pub open spec fn uses_bus(i: Instruction) -> bool {
    i == Instruction::LoadMem || i == Instruction::Push || i == Instruction::Pop || i == Instruction::Ret
}

/// The processor as a mathematical value: its registers and operand
/// slots as sequences of words.
pub struct CpuView {
    pub program_counter: Pointer,
    pub stack_pointer: Pointer,
    pub registers: Seq<u8>,
    pub flags: ProcFlags,
    pub halted: bool,
    pub state: ProcState,
    pub microstate: u8,
    pub current_instruction: Instruction,
    pub operands: Seq<u8>,
    pub required: usize,
    pub fetched: usize,
    pub reader_head: usize,
}

impl CpuView {
    /// The invariant of the instruction cycle: the file has room for the
    /// largest operand count and the buffer one slot per register; the
    /// stack pointer stays in
    /// memory; from decoding on, the buffer expects exactly the operands
    /// of a valid opcode; execution starts with all of them fetched and
    /// none consumed, and only a bus opcode has a second phase.
    pub open spec fn wf(self) -> bool {
        &&& self.registers.len() >= 3
        &&& self.operands.len() == self.registers.len()
        &&& self.fetched <= self.required <= self.operands.len()
        &&& self.reader_head <= self.fetched
        &&& self.microstate <= 1
        &&& self.stack_pointer < RAM_SIZE
        &&& self.state == ProcState::Decode ==> self.current_instruction.is_valid()
        &&& self.state == ProcState::FetchOperands ==> {
            &&& self.reader_head == 0
            &&& self.microstate == 0
            &&& !self.flags.complete
        }
        &&& (self.state == ProcState::FetchOperands || self.state == ProcState::Execute) ==> {
            &&& self.current_instruction.is_valid()
            &&& self.required == operand_count_of(self.current_instruction)
        }
        &&& self.state == ProcState::Execute ==> self.fetched == self.required
        &&& (self.state == ProcState::Execute && !self.flags.complete && self.microstate == 0)
            ==> self.reader_head == 0
        &&& (self.state == ProcState::Execute && self.microstate == 1) ==> {
            &&& uses_bus(self.current_instruction)
            &&& self.reader_head == self.fetched
        }
    }

    /// Operand `i` of the current instruction.
    pub open spec fn op(self, i: int) -> u8 {
        self.operands[i]
    }

    /// Register `i`.
    pub open spec fn reg(self, i: int) -> u8 {
        self.registers[i]
    }

    /// About to execute opcode `i`, in either of its phases.
    pub open spec fn ready_for(self, i: Instruction) -> bool {
        &&& self.wf()
        &&& i.is_valid()
        &&& self.current_instruction == i
        &&& self.state == ProcState::Execute
        &&& !self.flags.complete
    }

    /// The processor once the current instruction has done its work with
    /// all operands consumed, leaving the given registers, program counter
    /// and comparison flags.
    pub open spec fn done(
        self,
        registers: Seq<u8>,
        pc: Pointer,
        zero: bool,
        less: bool,
        great: bool,
    ) -> CpuView {
        CpuView {
            registers,
            program_counter: pc,
            flags: ProcFlags { zero, less, great, complete: true },
            reader_head: self.fetched,
            ..self
        }
    }

    /// The processor once the current instruction has done its work by
    /// setting register `d` to `v`.
    pub open spec fn done_with_register(self, d: u8, v: u8) -> CpuView {
        self.done(
            self.registers.update(d as int, v),
            self.program_counter,
            self.flags.zero,
            self.flags.less,
            self.flags.great,
        )
    }

    /// The processor once the first phase of a bus opcode has consumed its
    /// operands, set the stack pointer to `sp`, and waits for the bus.
    pub open spec fn waiting(self, sp: Pointer) -> CpuView {
        CpuView { stack_pointer: sp, microstate: 1, reader_head: self.fetched, ..self }
    }
}

/// The processor. Registers, flags, program counter and stack pointer
/// are the architectural state; the rest records where it is in the
/// instruction cycle.
#[derive(Debug)]
pub struct Processor<const R: usize> {
    pub program_counter: Pointer,
    pub stack_pointer: Pointer,
    pub registers: MemoryBlock<R>,
    pub flags: ProcFlags,
    pub halted: bool,
    pub state: ProcState,
    pub microstate: MicroState,
    pub current_instruction: Instruction,
    pub operand_buffer: OperandBuffer<R>,
}

impl<const R: usize> View for Processor<R> {
    type V = CpuView;

    open spec fn view(&self) -> CpuView {
        CpuView {
            program_counter: self.program_counter,
            stack_pointer: self.stack_pointer,
            registers: self.registers@,
            flags: self.flags,
            halted: self.halted,
            state: self.state,
            microstate: self.microstate.0,
            current_instruction: self.current_instruction,
            operands: self.operand_buffer.operands@,
            required: self.operand_buffer.required,
            fetched: self.operand_buffer.fetched,
            reader_head: self.operand_buffer.reader_head,
        }
    }
}

impl<const R: usize> Processor<R> {
    pub open spec fn wf(&self) -> bool {
        self@.wf() && self@.registers.len() == R
    }
}

impl<const R: usize> Default for Processor<R> {
    /// A processor at reset: everything zero, the stack pointer at the
    /// top of memory, the cycle idle. It is well formed when its file has
    /// room for the largest operand count.
    fn default() -> (r: Self)
        ensures
            R >= 3 ==> r.wf(),
            r.program_counter == 0,
            r.stack_pointer == RAM_SIZE - 1,
            r.registers@ == Seq::new(R as nat, |i: int| 0u8),
            r.flags == (ProcFlags { zero: false, less: false, great: false, complete: false }),
            !r.halted,
            r.state == ProcState::Idle,
            r.microstate.0 == 0,
            r.current_instruction == Instruction::Halt,
            r.operand_buffer.required == 0,
            r.operand_buffer.fetched == 0,
            r.operand_buffer.reader_head == 0,
    {
        Processor {
            program_counter: 0,
            stack_pointer: (RAM_SIZE - 1) as Pointer,
            registers: MemoryBlock::default(),
            flags: ProcFlags { zero: false, less: false, great: false, complete: false },
            halted: false,
            state: ProcState::Idle,
            microstate: MicroState(0),
            current_instruction: Instruction::Halt,
            operand_buffer: OperandBuffer::new(),
        }
    }
}

/// The outcome a processor operation owes: on success exactly the
/// expected processor, on a fault that fault with the processor as it was.
pub open spec fn cpu_outcome(
    expected: Result<CpuView, Fault>,
    r: Result<(), Fault>,
    before: CpuView,
    after: CpuView,
) -> bool {
    match expected {
        Ok(c) => r is Ok && after == c,
        Err(e) => r == Err::<(), Fault>(e) && after == before,
    }
}

/// The outcome a step of processor and bus owes: on success exactly the
/// expected processor and bus, on a fault that fault with both as they
/// were.
pub open spec fn step_outcome(
    expected: Result<(CpuView, Bus<Pointer, Data>), Fault>,
    r: Result<(), Fault>,
    before: CpuView,
    before_bus: Bus<Pointer, Data>,
    after: CpuView,
    after_bus: Bus<Pointer, Data>,
) -> bool {
    match expected {
        Ok((c, b)) => r is Ok && after == c && after_bus == b,
        Err(e) => r == Err::<(), Fault>(e) && after == before && after_bus == before_bus,
    }
}

/// Dispatching a read of the word at the program counter and moving the
/// counter past it.
pub open spec fn fetch_step(c: CpuView, b: Bus<Pointer, Data>) -> Result<(CpuView, Bus<Pointer, Data>), Fault> {
    if c.program_counter == Pointer::MAX {
        Err(Fault::AddressOutOfRange(Pointer::MAX))
    } else if !b.available() {
        Err(Fault::BusProtocol)
    } else {
        Ok((CpuView { program_counter: (c.program_counter + 1) as Pointer, ..c }, b.with_read(c.program_counter)))
    }
}

/// Fetch-operands once the arriving word, if any, is in the buffer: ask
/// for the next operand, or with all of them in move to execution.
pub open spec fn operands_received(c: CpuView, b: Bus<Pointer, Data>) -> Result<(CpuView, Bus<Pointer, Data>), Fault> {
    if c.fetched < c.required {
        fetch_step(c, b)
    } else {
        Ok((CpuView { state: ProcState::Execute, ..c }, b))
    }
}

/// One tick of fetch-operands.
pub open spec fn fetch_operands_step(c: CpuView, b: Bus<Pointer, Data>) -> Result<(CpuView, Bus<Pointer, Data>), Fault> {
    match b.data {
        Some(w) => if c.fetched >= c.required {
            Err(Fault::BusProtocol)
        } else {
            operands_received(
                CpuView {
                    operands: c.operands.update(c.fetched as int, w),
                    fetched: (c.fetched + 1) as usize,
                    ..c
                },
                b.without_data(),
            )
        },
        None => operands_received(c, b),
    }
}

/// One tick of the processor: the work of its current state.
pub open spec fn cpu_step(c: CpuView, b: Bus<Pointer, Data>) -> Result<(CpuView, Bus<Pointer, Data>), Fault> {
    match c.state {
        ProcState::Idle => match fetch_step(c, b) {
            Ok((c1, b1)) => Ok((CpuView { state: ProcState::FetchInit, ..c1 }, b1)),
            Err(e) => Err(e),
        },
        ProcState::FetchInit => match b.data {
            None => Ok((c, b)),
            Some(w) => if w < OPCODE_COUNT {
                Ok((
                    CpuView { state: ProcState::Decode, current_instruction: instruction_of(w), ..c },
                    b.without_data(),
                ))
            } else {
                Err(Fault::InvalidOpcode(w))
            },
        },
        ProcState::Decode => Ok((
            CpuView {
                state: ProcState::FetchOperands,
                required: operand_count_of(c.current_instruction) as usize,
                fetched: 0,
                reader_head: 0,
                microstate: 0,
                flags: ProcFlags { complete: false, ..c.flags },
                ..c
            },
            b,
        )),
        ProcState::FetchOperands => fetch_operands_step(c, b),
        ProcState::Execute => if c.flags.complete {
            Ok((CpuView { state: ProcState::WriteBack, ..c }, b))
        } else {
            exec_step(c, b)
        },
        ProcState::WriteBack => Ok((
            CpuView { state: ProcState::Idle, current_instruction: Instruction::Null, ..c },
            b,
        )),
    }
}

/// The whole machine as a value: processor, memory and bus.
pub type MachineView = (CpuView, Seq<u8>, Bus<Pointer, Data>);

/// One tick of the machine: the processor's step, then memory's.
pub open spec fn machine_step(c: CpuView, mem: Seq<u8>, b: Bus<Pointer, Data>) -> Result<MachineView, Fault> {
    match cpu_step(c, b) {
        Err(e) => Err(e),
        Ok((c1, b1)) => match memory_step(b1, mem) {
            Err(e) => Err(e),
            Ok((b2, m2)) => Ok((c1, m2, b2)),
        },
    }
}

/// The machine a faulting tick leaves behind: a processor fault changes
/// nothing; a memory fault comes after the processor's step.
pub open spec fn fault_state(c: CpuView, mem: Seq<u8>, b: Bus<Pointer, Data>) -> MachineView {
    match cpu_step(c, b) {
        Err(_) => (c, mem, b),
        Ok((c1, b1)) => (c1, mem, b1),
    }
}

/// The machine after `n` ticks, or the fault of the first tick that
/// faulted.
pub open spec fn run(c: CpuView, mem: Seq<u8>, b: Bus<Pointer, Data>, n: nat) -> Result<MachineView, Fault>
    decreases n,
{
    if n == 0 {
        Ok((c, mem, b))
    } else {
        match run(c, mem, b, (n - 1) as nat) {
            Ok((c1, m1, b1)) => machine_step(c1, m1, b1),
            Err(e) => Err(e),
        }
    }
}

/// A run that has reached a machine whose processor has not halted.
pub open spec fn running(r: Result<MachineView, Fault>) -> bool {
    match r {
        Ok((c, _, _)) => !c.halted,
        Err(_) => false,
    }
}

/// Each of the first `k` ticks from the given machine starts with the
/// processor running.
pub open spec fn runs_for(c: CpuView, mem: Seq<u8>, b: Bus<Pointer, Data>, k: nat) -> bool {
    forall|j: nat| j < k ==> running(#[trigger] run(c, mem, b, j))
}


/// Idle: asks for the word at the program counter and moves past it.
fn procstate_idle<const R: usize>(cpu: &mut Processor<R>, bus: &mut Bus<Pointer, Data>) -> (r: Result<(), Fault>)
    requires
        old(cpu).wf(),
        old(cpu)@.state == ProcState::Idle,
    ensures
        step_outcome(cpu_step(old(cpu)@, *old(bus)), r, old(cpu)@, *old(bus), final(cpu)@, *final(bus)),
{
    match cpu.initiate_fetch(bus) {
        Ok(()) => {
            cpu.state = ProcState::FetchInit;
            Ok(())
        },
        Err(e) => Err(e),
    }
}

/// Fetch-init: takes the opcode word once it has arrived and decodes it.
fn procstate_fetch_init<const R: usize>(cpu: &mut Processor<R>, bus: &mut Bus<Pointer, Data>) -> (r: Result<(), Fault>)
    requires
        old(cpu).wf(),
        old(cpu)@.state == ProcState::FetchInit,
    ensures
        step_outcome(cpu_step(old(cpu)@, *old(bus)), r, old(cpu)@, *old(bus), final(cpu)@, *final(bus)),
{
    let arrived = bus.data;
    match arrived {
        None => Ok(()),
        Some(w) => match Instruction::decode(w) {
            Some(i) => {
                let _ = bus.read_data();
                cpu.current_instruction = i;
                cpu.state = ProcState::Decode;
                Ok(())
            },
            None => Err(Fault::InvalidOpcode(w)),
        },
    }
}

/// Decode: readies the operand buffer for the current opcode.
fn procstate_decode<const R: usize>(cpu: &mut Processor<R>)
    requires
        old(cpu).wf(),
        old(cpu)@.state == ProcState::Decode,
    ensures
        final(cpu)@ == (CpuView {
            state: ProcState::FetchOperands,
            required: operand_count_of(old(cpu)@.current_instruction) as usize,
            fetched: 0,
            reader_head: 0,
            microstate: 0,
            flags: ProcFlags { complete: false, ..old(cpu)@.flags },
            ..old(cpu)@
        }),
{
    cpu.operand_buffer.reset();
    cpu.microstate.reset();
    cpu.flags.reset_complete();
    cpu.operand_buffer.required = cpu.current_instruction.operand_count();
    cpu.state = ProcState::FetchOperands;
}

/// Fetch-operands: stores the operand word that arrived, if any, then
/// asks for the next one or, with all of them in, moves to execution.
fn procstate_fetch_operands<const R: usize>(cpu: &mut Processor<R>, bus: &mut Bus<Pointer, Data>) -> (r: Result<(), Fault>)
    requires
        old(cpu).wf(),
        old(cpu)@.state == ProcState::FetchOperands,
    ensures
        step_outcome(cpu_step(old(cpu)@, *old(bus)), r, old(cpu)@, *old(bus), final(cpu)@, *final(bus)),
{
    let arrived = bus.data;
    let mut after: usize = cpu.operand_buffer.fetched;
    if arrived.is_some() {
        if cpu.operand_buffer.is_full() {
            return Err(Fault::BusProtocol);
        }
        after = after + 1;
    }
    if after < cpu.operand_buffer.required {
        if cpu.program_counter == Pointer::MAX {
            return Err(Fault::AddressOutOfRange(Pointer::MAX));
        }
        let free = match bus.get_instruction() {
            BusState::Null => bus.address.is_none(),
            _ => false,
        };
        if !free {
            return Err(Fault::BusProtocol);
        }
    }
    if let Some(operand) = bus.read_data() {
        cpu.operand_buffer.push(operand);
    }
    if !cpu.operand_buffer.is_full() {
        return cpu.initiate_fetch(bus);
    }
    cpu.state = ProcState::Execute;
    Ok(())
}

/// Execute: runs the current opcode until it reports its work done,
/// then moves to write-back.
fn procstate_execute<const R: usize>(cpu: &mut Processor<R>, bus: &mut Bus<Pointer, Data>) -> (r: Result<(), Fault>)
    requires
        old(cpu).wf(),
        old(cpu)@.state == ProcState::Execute,
    ensures
        step_outcome(cpu_step(old(cpu)@, *old(bus)), r, old(cpu)@, *old(bus), final(cpu)@, *final(bus)),
{
    if !cpu.flags.complete {
        return cpu.execute(bus);
    }
    cpu.state = ProcState::WriteBack;
    Ok(())
}

/// Write-back: the instruction is retired and the cycle starts over.
fn procstate_writeback<const R: usize>(cpu: &mut Processor<R>)
    requires
        old(cpu).wf(),
        old(cpu)@.state == ProcState::WriteBack,
    ensures
        final(cpu)@ == (CpuView {
            state: ProcState::Idle,
            current_instruction: Instruction::Null,
            ..old(cpu)@
        }),
{
    cpu.current_instruction = Instruction::Null;
    cpu.state = ProcState::Idle;
}

impl<const R: usize> Processor<R> {
    /// Dispatches a read of the word at the program counter and moves
    /// the counter past it.
    fn initiate_fetch(&mut self, bus: &mut Bus<Pointer, Data>) -> (r: Result<(), Fault>)
        ensures
            step_outcome(fetch_step(old(self)@, *old(bus)), r, old(self)@, *old(bus), final(self)@, *final(bus)),
    {
        if self.program_counter == Pointer::MAX {
            return Err(Fault::AddressOutOfRange(Pointer::MAX));
        }
        if !bus.is_avaliable() {
            return Err(Fault::BusProtocol);
        }
        let _ = bus.dispatch_read(self.program_counter);
        self.program_counter = self.program_counter + 1;
        Ok(())
    }

    /// Runs the current opcode's action for this tick.
    fn execute(&mut self, bus: &mut Bus<Pointer, Data>) -> (r: Result<(), Fault>)
        requires
            old(self).wf(),
            old(self)@.state == ProcState::Execute,
            !old(self)@.flags.complete,
        ensures
            step_outcome(exec_step(old(self)@, *old(bus)), r, old(self)@, *old(bus), final(self)@, *final(bus)),
    {
        match self.current_instruction {
            Instruction::Halt => {
                instructions::halt(self);
                Ok(())
            },
            Instruction::Null => {
                self.flags.complete = true;
                Ok(())
            },
            Instruction::LoadImm => instructions::load_imm(self),
            Instruction::LoadMem => instructions::load_mem(self, bus),
            Instruction::Copy => instructions::copy(self),
            Instruction::Add => instructions::add(self),
            Instruction::Sub => instructions::sub(self),
            Instruction::Mul => instructions::mul(self),
            Instruction::Div => instructions::div(self),
            Instruction::Jump => {
                instructions::jump(self);
                Ok(())
            },
            Instruction::JumpIfNotZero => {
                instructions::jump_if_zero(self);
                Ok(())
            },
            Instruction::Push => instructions::push(self, bus),
            Instruction::Pop => instructions::pop(self, bus),
            Instruction::Compare => instructions::compare(self),
            Instruction::Increment => instructions::increment(self),
            Instruction::Decrement => instructions::decrement(self),
            Instruction::Ret => instructions::ret(self, bus),
            Instruction::EnumLength => Err(Fault::InvalidOpcode(OPCODE_COUNT)),
        }
    }

    /// One tick of the processor: the work of its current state. A fault
    /// leaves processor and bus as they were.
    pub fn cycle(&mut self, bus: &mut Bus<Pointer, Data>) -> (r: Result<(), Fault>)
        requires
            old(self).wf(),
        ensures
            step_outcome(cpu_step(old(self)@, *old(bus)), r, old(self)@, *old(bus), final(self)@, *final(bus)),
            r is Ok ==> final(self).wf(),
    {
        let r = match self.state {
            ProcState::Idle => procstate_idle(self, bus),
            ProcState::FetchInit => procstate_fetch_init(self, bus),
            ProcState::Decode => {
                procstate_decode(self);
                Ok(())
            },
            ProcState::FetchOperands => procstate_fetch_operands(self, bus),
            ProcState::Execute => procstate_execute(self, bus),
            ProcState::WriteBack => {
                procstate_writeback(self);
                Ok(())
            },
        };
        proof {
            lemma_cpu_step_keeps_wf(old(self)@, *old(bus));
        }
        r
    }
}

/// A processor step from a well-formed processor leaves it well-formed.
pub proof fn lemma_cpu_step_keeps_wf(c: CpuView, b: Bus<Pointer, Data>)
    requires
        c.wf(),
    ensures
        cpu_step(c, b) matches Ok((c1, _)) ==> c1.wf(),
{
}

/// Decoding leaves the operand buffer empty and expecting the opcode's
/// operand count; fetch-operands moves to execution only with every
/// required operand fetched.
pub proof fn lemma_operand_buffer_phases(c: CpuView, b: Bus<Pointer, Data>)
    requires
        c.wf(),
    ensures
        c.state == ProcState::Decode ==> (cpu_step(c, b) matches Ok((c1, _)) && c1.fetched == 0
            && c1.reader_head == 0 && c1.required == operand_count_of(c.current_instruction)),
        c.state == ProcState::FetchOperands ==> (cpu_step(c, b) matches Ok((c1, _)) ==> (c1.state
            == ProcState::Execute ==> c1.fetched == c1.required)),
{
}

/// One tick of the machine: the processor's step, then memory's, then
/// the clock advances. On a fault the clock stays, and the machine is as
/// `fault_state` says.
pub fn tick<const M: usize, const R: usize>(
    cpu: &mut Processor<R>,
    ram: &mut MemoryBlock<M>,
    bus: &mut Bus<Pointer, Data>,
    clock: &mut Clock,
) -> (r: Result<(), Fault>)
    requires
        old(cpu).wf(),
        old(clock).tick < CYCLE_LIMIT,
    ensures
        match machine_step(old(cpu)@, old(ram)@, *old(bus)) {
            Ok((c, m, b)) => {
                &&& r is Ok
                &&& final(cpu)@ == c
                &&& final(ram)@ == m
                &&& *final(bus) == b
                &&& final(clock).tick == old(clock).tick + 1
            },
            Err(e) => {
                &&& r == Err::<(), Fault>(e)
                &&& (final(cpu)@, final(ram)@, *final(bus)) == fault_state(old(cpu)@, old(ram)@, *old(bus))
                &&& final(clock).tick == old(clock).tick
            },
        },
        r is Ok ==> final(cpu).wf(),
{
    if let Err(e) = cpu.cycle(bus) {
        return Err(e);
    }
    if let Err(e) = memory_cycle(ram, bus) {
        return Err(e);
    }
    clock.tick = clock.tick + 1;
    Ok(())
}

/// Runs the machine tick after tick until the processor halts, the clock
/// reaches `CYCLE_LIMIT`, or a fault stops it. The run is the one `run`
/// describes: it goes on exactly while the processor has not halted and
/// the limit is not reached, reaching the limit is an ordinary return,
/// and a fault stops it with the machine as the faulting tick left it.
pub fn processor_run<const M: usize, const R: usize>(
    cpu: &mut Processor<R>,
    ram: &mut MemoryBlock<M>,
    bus: &mut Bus<Pointer, Data>,
    clock: &mut Clock,
) -> (r: Result<(), Fault>)
    requires
        old(cpu).wf(),
        old(clock).tick <= CYCLE_LIMIT,
    ensures
        old(clock).tick <= final(clock).tick <= CYCLE_LIMIT,
        ({
            let k = (final(clock).tick - old(clock).tick) as nat;
            let start = (old(cpu)@, old(ram)@, *old(bus));
            &&& runs_for(start.0, start.1, start.2, k)
            &&& match r {
                Ok(_) => {
                    &&& run(start.0, start.1, start.2, k) == Ok::<MachineView, Fault>(
                        (final(cpu)@, final(ram)@, *final(bus)),
                    )
                    &&& final(cpu).halted || final(clock).tick == CYCLE_LIMIT
                },
                Err(e) => {
                    &&& final(clock).tick < CYCLE_LIMIT
                    &&& match run(start.0, start.1, start.2, k) {
                        Ok((c, m, b)) => {
                            &&& !c.halted
                            &&& machine_step(c, m, b) == Err::<MachineView, Fault>(e)
                            &&& fault_state(c, m, b) == (final(cpu)@, final(ram)@, *final(bus))
                        },
                        Err(_) => false,
                    }
                },
            }
        }),
{
    let ghost c0 = cpu@;
    let ghost m0 = ram@;
    let ghost b0 = *bus;
    let ghost t0 = clock.tick;
    while !cpu.halted && clock.tick < CYCLE_LIMIT
        invariant
            cpu.wf(),
            t0 == old(clock).tick,
            c0 == old(cpu)@,
            m0 == old(ram)@,
            b0 == *old(bus),
            t0 <= clock.tick <= CYCLE_LIMIT,
            run(c0, m0, b0, (clock.tick - t0) as nat) == Ok::<MachineView, Fault>((cpu@, ram@, *bus)),
            runs_for(c0, m0, b0, (clock.tick - t0) as nat),
        decreases CYCLE_LIMIT - clock.tick,
    {
        let ghost k = (clock.tick - t0) as nat;
        let ghost before = (cpu@, ram@, *bus);
        let r = tick(cpu, ram, bus, clock);
        proof {
            assert(run(c0, m0, b0, k + 1) == machine_step(before.0, before.1, before.2));
            assert forall|j: nat| j < k + 1 implies running(#[trigger] run(c0, m0, b0, j)) by {
                if j < k {
                }
            }
        }
        if let Err(e) = r {
            return Err(e);
        }
    }
    Ok(())
}

} // verus!
