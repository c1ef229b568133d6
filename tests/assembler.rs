use cpusim::assembler::ProgramAssembler;
use cpusim::instructions::Instruction;
use cpusim::memory::Addressable;
use cpusim::memory::MemoryBlock;

#[test]
fn label() {
    let mut mem = MemoryBlock::<10>::default();
    let mut writer = ProgramAssembler::build(&mut mem);
    assert_eq!(writer.head, 0);
    // jump targets are written as literal addresses
    writer.assemble_program(vec![vec![Instruction::Jump.into(), 10]]);
    assert_eq!(writer.head, 2);
    assert_eq!(mem.read(0), 9);
    assert_eq!(mem.read(1), 10);
}

#[test]
fn lines_are_written_back_to_back() {
    let mut mem = MemoryBlock::<10>::default();
    let mut writer = ProgramAssembler::build(&mut mem);
    writer.assemble_program(vec![vec![2, 0, 1], vec![], vec![0]]);
    writer.assemble_program(vec![vec![7, 7]]);
    assert_eq!(writer.head, 6);
    let expected: [u8; 10] = [2, 0, 1, 0, 7, 7, 0, 0, 0, 0];
    for (a, w) in expected.iter().enumerate() {
        assert_eq!(mem.read(a), *w);
    }
}
