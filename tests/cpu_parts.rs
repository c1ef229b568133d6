use cpusim::cpu::MicroState;
use cpusim::cpu::OperandBuffer;
use cpusim::cpu::ProcFlags;
use cpusim::cpu::ProcState;
use cpusim::cpu::Processor;
use cpusim::instructions::Instruction;
use cpusim::memory::Addressable;
use cpusim::RAM_SIZE;
use cpusim::REG_COUNT;

#[test]
fn operand_buffer_fills_and_reads_in_order() {
    let mut buffer = OperandBuffer::<REG_COUNT>::new();
    buffer.required = 3;
    assert!(!buffer.is_full());
    buffer.push(4);
    buffer.push(5);
    assert!(!buffer.is_full());
    buffer.push(6);
    assert!(buffer.is_full());
    assert_eq!(buffer.fetched, 3);
    assert_eq!(buffer.read_next(), 4);
    assert_eq!(buffer.read_next(), 5);
    assert_eq!(buffer.read_next(), 6);
    assert_eq!(buffer.reader_head, 3);
    assert_eq!(buffer.operand(1), 5);
    buffer.reset();
    assert_eq!(buffer.required, 0);
    assert_eq!(buffer.fetched, 0);
    assert_eq!(buffer.reader_head, 0);
    assert!(buffer.is_full());
}

#[test]
fn micro_state_counts_from_zero() {
    let mut micro = MicroState(0);
    micro.increment();
    micro.increment();
    assert_eq!(micro.0, 2);
    micro.reset();
    assert_eq!(micro.0, 0);
}

#[test]
fn flags_reset_separately() {
    let mut flags = ProcFlags { zero: true, less: true, great: true, complete: true };
    flags.reset_logical();
    assert_eq!(flags, ProcFlags { zero: false, less: false, great: false, complete: true });
    flags.zero = true;
    flags.reset_complete();
    assert_eq!(flags, ProcFlags { zero: true, less: false, great: false, complete: false });
}

#[test]
fn processor_at_reset() {
    let cpu = Processor::<REG_COUNT>::default();
    assert_eq!(cpu.program_counter, 0);
    assert_eq!(cpu.stack_pointer as usize, RAM_SIZE - 1);
    for r in 0..REG_COUNT {
        assert_eq!(cpu.registers.read(r), 0);
    }
    assert_eq!(cpu.flags, ProcFlags { zero: false, less: false, great: false, complete: false });
    assert!(!cpu.halted);
    assert_eq!(cpu.state, ProcState::Idle);
    assert_eq!(cpu.current_instruction, Instruction::Halt);
}
