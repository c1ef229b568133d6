use cpusim::assembler::ProgramAssembler;
use cpusim::bus::Bus;
use cpusim::clock::Clock;
use cpusim::cpu::processor_run;
use cpusim::cpu::ProcState;
use cpusim::cpu::Processor;
use cpusim::fault::Fault;
use cpusim::instructions::Instruction;
use cpusim::memory::Addressable;
use cpusim::memory::MemoryBlock;
use cpusim::CYCLE_LIMIT;
use cpusim::RAM_SIZE;
use cpusim::REG_COUNT;

struct Machine {
    cpu: Processor<REG_COUNT>,
    ram: MemoryBlock<RAM_SIZE>,
    bus: Bus<u16, u8>,
    clock: Clock,
}

fn load(program: Vec<Vec<u8>>) -> Machine {
    let mut ram = MemoryBlock::<RAM_SIZE>::default();
    let mut assembler = ProgramAssembler::build(&mut ram);
    assembler.assemble_program(program);
    Machine { cpu: Processor::default(), ram, bus: Bus::default(), clock: Clock::default() }
}

fn run(m: &mut Machine) -> Result<(), Fault> {
    processor_run(&mut m.cpu, &mut m.ram, &mut m.bus, &mut m.clock)
}

fn op(i: Instruction) -> u8 {
    i.into()
}

fn reg(m: &Machine, r: usize) -> u8 {
    m.cpu.registers.read(r)
}

#[test]
fn three_word_add() {
    let mut m = load(vec![
        vec![op(Instruction::LoadImm), 0, 1],
        vec![op(Instruction::LoadImm), 1, 3],
        vec![op(Instruction::Add), 2, 0, 1],
        vec![op(Instruction::Halt)],
    ]);
    assert_eq!(run(&mut m), Ok(()));
    assert_eq!(reg(&m, 0), 1);
    assert_eq!(reg(&m, 1), 3);
    assert_eq!(reg(&m, 2), 4);
    assert!(m.cpu.halted);
}

#[test]
fn first_fibonacci_numbers_on_the_stack() {
    let mut m = load(vec![
        vec![op(Instruction::LoadImm), 3, 10],
        vec![op(Instruction::LoadImm), 1, 0],
        vec![op(Instruction::LoadImm), 2, 1],
        vec![op(Instruction::LoadImm), 4, 0],
        vec![op(Instruction::Push), 1],
        vec![op(Instruction::Push), 2],
        vec![op(Instruction::Add), 0, 1, 2],
        vec![op(Instruction::Push), 0],
        vec![op(Instruction::Copy), 1, 2],
        vec![op(Instruction::Copy), 2, 0],
        vec![op(Instruction::Decrement), 3],
        vec![op(Instruction::Compare), 3, 4],
        vec![op(Instruction::JumpIfNotZero), 16],
        vec![op(Instruction::Halt)],
    ]);
    assert_eq!(run(&mut m), Ok(()));
    assert!(m.cpu.halted);
    let expected: [u8; 12] = [0, 1, 1, 2, 3, 5, 8, 13, 21, 34, 55, 89];
    for (k, v) in expected.iter().enumerate() {
        assert_eq!(m.ram.read(RAM_SIZE - 1 - k), *v);
    }
    assert_eq!(m.ram.read(RAM_SIZE - 13), 0);
    assert_eq!(m.cpu.stack_pointer as usize, RAM_SIZE - 13);
    assert_eq!(reg(&m, 3), 0);
}

#[test]
fn five_factorial() {
    let mut m = load(vec![
        vec![op(Instruction::LoadImm), 0, 5],
        vec![op(Instruction::LoadImm), 1, 1],
        vec![op(Instruction::LoadImm), 2, 0],
        vec![op(Instruction::Mul), 1, 1, 0],
        vec![op(Instruction::Decrement), 0],
        vec![op(Instruction::Compare), 0, 2],
        vec![op(Instruction::JumpIfNotZero), 9],
        vec![op(Instruction::Push), 1],
        vec![op(Instruction::Halt)],
    ]);
    assert_eq!(run(&mut m), Ok(()));
    assert!(m.cpu.halted);
    assert_eq!(reg(&m, 1), 120);
    assert_eq!(m.ram.read(RAM_SIZE - 1), 120);
}

#[test]
fn call_and_return() {
    let mut m = load(vec![
        vec![op(Instruction::LoadImm), 0, 33],
        vec![op(Instruction::LoadImm), 1, 10],
        vec![op(Instruction::Push), 1],
        vec![op(Instruction::Jump), 11],
        vec![op(Instruction::Halt)],
        vec![op(Instruction::LoadImm), 1, 2],
        vec![op(Instruction::Mul), 0, 0, 1],
        vec![op(Instruction::Ret)],
    ]);
    assert_eq!(run(&mut m), Ok(()));
    assert!(m.cpu.halted);
    assert_eq!(reg(&m, 0), 66);
    assert_eq!(m.cpu.stack_pointer as usize, RAM_SIZE - 1);
    assert_eq!(m.cpu.program_counter, 11);
}

#[test]
fn overflow_wrap() {
    let mut m = load(vec![
        vec![op(Instruction::LoadImm), 0, 200],
        vec![op(Instruction::LoadImm), 1, 100],
        vec![op(Instruction::Add), 2, 0, 1],
        vec![op(Instruction::Halt)],
    ]);
    assert_eq!(run(&mut m), Ok(()));
    assert_eq!(reg(&m, 2), 44);
}

#[test]
fn halt_on_first_word() {
    let mut m = load(vec![]);
    assert_eq!(run(&mut m), Ok(()));
    assert!(m.cpu.halted);
    // fetch, fetch-init, decode, fetch-operands, execute
    assert_eq!(m.clock.tick, 5);
    assert_eq!(m.cpu.program_counter, 1);
}

#[test]
fn push_then_pop_copies_and_restores_the_stack_pointer() {
    let mut m = load(vec![
        vec![op(Instruction::LoadImm), 5, 77],
        vec![op(Instruction::Push), 5],
        vec![op(Instruction::Pop), 6],
        vec![op(Instruction::Halt)],
    ]);
    assert_eq!(run(&mut m), Ok(()));
    assert_eq!(reg(&m, 6), 77);
    assert_eq!(m.cpu.stack_pointer as usize, RAM_SIZE - 1);
    assert_eq!(m.ram.read(RAM_SIZE - 1), 77);
}

#[test]
fn push_moves_the_stack_pointer_at_dispatch() {
    let mut m = load(vec![vec![op(Instruction::Push), 0], vec![op(Instruction::Halt)]]);
    let sp = m.cpu.stack_pointer;
    while !(m.cpu.state == ProcState::Execute && m.cpu.microstate.0 == 1) {
        m.cpu.cycle(&mut m.bus).unwrap();
        cpusim::memory::memory_cycle(&mut m.ram, &mut m.bus).unwrap();
    }
    assert_eq!(m.cpu.stack_pointer, sp - 1);
    assert!(!m.cpu.flags.complete);
}

#[test]
fn operand_buffer_through_decode_and_fetch() {
    let mut m = load(vec![vec![op(Instruction::Add), 2, 0, 1], vec![op(Instruction::Halt)]]);
    let mut seen_decode = false;
    loop {
        let before = m.cpu.state;
        m.cpu.cycle(&mut m.bus).unwrap();
        cpusim::memory::memory_cycle(&mut m.ram, &mut m.bus).unwrap();
        if before == ProcState::Decode {
            seen_decode = true;
            assert_eq!(m.cpu.state, ProcState::FetchOperands);
            assert_eq!(m.cpu.operand_buffer.fetched, 0);
            assert_eq!(m.cpu.operand_buffer.required, 3);
        }
        if before == ProcState::FetchOperands && m.cpu.state == ProcState::Execute {
            assert_eq!(m.cpu.operand_buffer.fetched, 3);
            assert_eq!(m.cpu.operand_buffer.required, 3);
            break;
        }
    }
    assert!(seen_decode);
}

#[test]
fn jump_if_zero_branches_only_while_zero_is_clear() {
    // equal registers set zero: the branch to the second Halt is not taken
    let mut m = load(vec![
        vec![op(Instruction::Compare), 0, 1],
        vec![op(Instruction::JumpIfNotZero), 7],
        vec![op(Instruction::LoadImm), 2, 1],
        vec![op(Instruction::Halt)],
    ]);
    assert_eq!(run(&mut m), Ok(()));
    assert!(m.cpu.flags.zero);
    assert_eq!(reg(&m, 2), 1);

    // different registers clear zero: the branch skips the load
    let mut m = load(vec![
        vec![op(Instruction::LoadImm), 0, 4],
        vec![op(Instruction::Compare), 0, 1],
        vec![op(Instruction::JumpIfNotZero), 10],
        vec![op(Instruction::LoadImm), 2, 1],
        vec![op(Instruction::Halt)],
    ]);
    assert_eq!(run(&mut m), Ok(()));
    assert!(!m.cpu.flags.zero);
    assert!(m.cpu.flags.great);
    assert!(!m.cpu.flags.less);
    assert_eq!(reg(&m, 2), 0);
}

#[test]
fn load_from_memory_and_copy() {
    let mut m = load(vec![
        vec![op(Instruction::LoadMem), 3, 40],
        vec![op(Instruction::Copy), 4, 3],
        vec![op(Instruction::Increment), 4],
        vec![op(Instruction::Halt)],
    ]);
    *m.ram.write(40) = 99;
    assert_eq!(run(&mut m), Ok(()));
    assert_eq!(reg(&m, 3), 99);
    assert_eq!(reg(&m, 4), 100);
}

#[test]
fn sub_div_and_decrement_in_programs() {
    let mut m = load(vec![
        vec![op(Instruction::LoadImm), 0, 37],
        vec![op(Instruction::LoadImm), 1, 12],
        vec![op(Instruction::Div), 2, 0, 1],
        vec![op(Instruction::Sub), 3, 1, 0],
        vec![op(Instruction::Decrement), 5],
        vec![op(Instruction::Halt)],
    ]);
    assert_eq!(run(&mut m), Ok(()));
    assert_eq!(reg(&m, 2), 3);
    assert_eq!(reg(&m, 3), 231);
    assert_eq!(reg(&m, 5), 255);
}

#[test]
fn compare_less_sets_only_less() {
    let mut m = load(vec![
        vec![op(Instruction::LoadImm), 1, 9],
        vec![op(Instruction::Compare), 0, 1],
        vec![op(Instruction::Null)],
        vec![op(Instruction::Halt)],
    ]);
    assert_eq!(run(&mut m), Ok(()));
    assert!(m.cpu.flags.less);
    assert!(!m.cpu.flags.zero);
    assert!(!m.cpu.flags.great);
}

#[test]
fn run_stops_at_the_cycle_limit() {
    let mut m = load(vec![vec![op(Instruction::Jump), 0]]);
    m.clock.tick = CYCLE_LIMIT - 1000;
    assert_eq!(run(&mut m), Ok(()));
    assert!(!m.cpu.halted);
    assert_eq!(m.clock.tick, CYCLE_LIMIT);
}

#[test]
fn invalid_opcode_is_a_fault() {
    let mut m = load(vec![vec![17]]);
    assert_eq!(run(&mut m), Err(Fault::InvalidOpcode(17)));
    assert!(!m.cpu.halted);
}

#[test]
fn register_out_of_range_is_a_fault() {
    let mut m = load(vec![vec![op(Instruction::LoadImm), 8, 1], vec![op(Instruction::Halt)]]);
    assert_eq!(run(&mut m), Err(Fault::RegisterOutOfRange(8)));
    let mut m = load(vec![vec![op(Instruction::Add), 0, 1, 200], vec![op(Instruction::Halt)]]);
    assert_eq!(run(&mut m), Err(Fault::RegisterOutOfRange(200)));
}

#[test]
fn division_by_zero_is_a_fault() {
    let mut m = load(vec![vec![op(Instruction::Div), 2, 0, 1], vec![op(Instruction::Halt)]]);
    assert_eq!(run(&mut m), Err(Fault::DivisionByZero));
}

#[test]
fn pop_of_empty_stack_is_a_fault() {
    let mut m = load(vec![vec![op(Instruction::Pop), 0], vec![op(Instruction::Halt)]]);
    assert_eq!(run(&mut m), Err(Fault::StackUnderflow));
    let mut m = load(vec![vec![op(Instruction::Ret)]]);
    assert_eq!(run(&mut m), Err(Fault::StackUnderflow));
}

#[test]
fn push_below_address_zero_is_a_fault() {
    let mut m = load(vec![vec![op(Instruction::Push), 0], vec![op(Instruction::Halt)]]);
    m.cpu.stack_pointer = 0;
    assert_eq!(run(&mut m), Err(Fault::StackOverflow));
}

#[test]
fn fetch_past_memory_is_a_fault() {
    let mut m = load(vec![vec![op(Instruction::Jump), 255]]);
    m.cpu.program_counter = 0;
    // the jump lands inside memory; running on reads zeros until it halts
    assert_eq!(run(&mut m), Ok(()));
    let mut m = load(vec![]);
    m.cpu.program_counter = RAM_SIZE as u16;
    assert_eq!(run(&mut m), Err(Fault::AddressOutOfRange(RAM_SIZE as u16)));
}

#[test]
fn fault_leaves_the_machine_as_the_faulting_tick_found_it() {
    let mut m = load(vec![
        vec![op(Instruction::LoadImm), 0, 14],
        vec![op(Instruction::LoadImm), 1, 7],
        vec![op(Instruction::Div), 2, 0, 1],
        vec![op(Instruction::Copy), 3, 9],
    ]);
    let r = run(&mut m);
    assert_eq!(r, Err(Fault::RegisterOutOfRange(9)));
    assert_eq!(m.cpu.state, ProcState::Execute);
    assert_eq!(m.cpu.current_instruction, Instruction::Copy);
    assert_eq!(m.cpu.operand_buffer.reader_head, 0);
    assert!(!m.cpu.flags.complete);
    assert_eq!(reg(&m, 2), 2);
    assert_eq!(reg(&m, 3), 0);
    assert_eq!(m.cpu.program_counter, 13);
}

#[test]
fn rerunning_a_program_gives_the_same_machine() {
    let program = vec![
        vec![op(Instruction::LoadImm), 0, 5],
        vec![op(Instruction::LoadImm), 1, 1],
        vec![op(Instruction::LoadImm), 2, 0],
        vec![op(Instruction::Mul), 1, 1, 0],
        vec![op(Instruction::Decrement), 0],
        vec![op(Instruction::Compare), 0, 2],
        vec![op(Instruction::JumpIfNotZero), 9],
        vec![op(Instruction::Push), 1],
        vec![op(Instruction::Halt)],
    ];
    let mut a = load(program.clone());
    let mut b = load(program);
    assert_eq!(run(&mut a), Ok(()));
    assert_eq!(run(&mut b), Ok(()));
    assert_eq!(a.clock.tick, b.clock.tick);
    assert_eq!(format!("{:?}", a.cpu), format!("{:?}", b.cpu));
    for addr in 0..RAM_SIZE {
        assert_eq!(a.ram.read(addr), b.ram.read(addr));
    }
}

#[test]
fn halted_machine_is_left_unchanged() {
    let mut m = load(vec![vec![op(Instruction::Halt)]]);
    assert_eq!(run(&mut m), Ok(()));
    let tick = m.clock.tick;
    let before = format!("{:?}", m.cpu);
    assert_eq!(run(&mut m), Ok(()));
    assert_eq!(m.clock.tick, tick);
    assert_eq!(format!("{:?}", m.cpu), before);
}

#[test]
fn busy_bus_at_fetch_is_a_fault() {
    let mut m = load(vec![]);
    m.bus.dispatch_read(3);
    assert_eq!(m.cpu.cycle(&mut m.bus), Err(Fault::BusProtocol));
}

#[test]
fn smaller_register_file_bounds_register_operands() {
    let mut ram = MemoryBlock::<RAM_SIZE>::default();
    let mut assembler = ProgramAssembler::build(&mut ram);
    assembler.assemble_program(vec![
        vec![op(Instruction::LoadImm), 3, 9],
        vec![op(Instruction::LoadImm), 4, 1],
        vec![op(Instruction::Halt)],
    ]);
    let mut cpu = Processor::<4>::default();
    let mut bus = Bus::default();
    let mut clock = Clock::default();
    assert_eq!(
        processor_run(&mut cpu, &mut ram, &mut bus, &mut clock),
        Err(Fault::RegisterOutOfRange(4))
    );
    assert_eq!(cpu.registers.read(3), 9);
}
