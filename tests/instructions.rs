use cpusim::instructions::Instruction;

#[test]
fn enum_transmute() {
    assert!(Into::<Instruction>::into(0_u8) == Instruction::Halt);
    assert!(Into::<Instruction>::into(1_u8) == Instruction::Null);
}

#[test]
fn u8_transmute() {
    assert!(Into::<u8>::into(Instruction::Halt) == 0);
    assert!(Into::<u8>::into(Instruction::Null) == 1);
}

#[test]
fn encoding_is_sequential_and_round_trips() {
    let all = [
        Instruction::Halt,
        Instruction::Null,
        Instruction::LoadImm,
        Instruction::LoadMem,
        Instruction::Copy,
        Instruction::Add,
        Instruction::Sub,
        Instruction::Mul,
        Instruction::Div,
        Instruction::Jump,
        Instruction::JumpIfNotZero,
        Instruction::Push,
        Instruction::Pop,
        Instruction::Compare,
        Instruction::Increment,
        Instruction::Decrement,
        Instruction::Ret,
    ];
    for (w, i) in all.iter().enumerate() {
        assert_eq!(u8::from(*i), w as u8);
        assert_eq!(Instruction::from(w as u8), *i);
        assert_eq!(Instruction::decode(w as u8), Some(*i));
    }
    assert_eq!(u8::from(Instruction::EnumLength), 17);
}

#[test]
fn words_past_the_opcodes_do_not_decode() {
    assert_eq!(Instruction::decode(17), None);
    assert_eq!(Instruction::decode(255), None);
    assert_eq!(Instruction::from(200), Instruction::EnumLength);
}

#[test]
fn operand_counts() {
    assert_eq!(Instruction::Halt.operand_count(), 0);
    assert_eq!(Instruction::Null.operand_count(), 0);
    assert_eq!(Instruction::Ret.operand_count(), 0);
    assert_eq!(Instruction::Jump.operand_count(), 1);
    assert_eq!(Instruction::JumpIfNotZero.operand_count(), 1);
    assert_eq!(Instruction::Push.operand_count(), 1);
    assert_eq!(Instruction::Pop.operand_count(), 1);
    assert_eq!(Instruction::Increment.operand_count(), 1);
    assert_eq!(Instruction::Decrement.operand_count(), 1);
    assert_eq!(Instruction::LoadImm.operand_count(), 2);
    assert_eq!(Instruction::LoadMem.operand_count(), 2);
    assert_eq!(Instruction::Copy.operand_count(), 2);
    assert_eq!(Instruction::Compare.operand_count(), 2);
    assert_eq!(Instruction::Add.operand_count(), 3);
    assert_eq!(Instruction::Sub.operand_count(), 3);
    assert_eq!(Instruction::Mul.operand_count(), 3);
    assert_eq!(Instruction::Div.operand_count(), 3);
}
