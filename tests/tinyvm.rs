use sum_circuit::tinyvm::{interpret, Instruction, Outcome, Stack, VmError};

#[test]
fn decodes_every_opcode() {
    let expected = [
        Instruction::PUSH,
        Instruction::POP,
        Instruction::ADD,
        Instruction::SUB,
        Instruction::INCR,
        Instruction::DECR,
        Instruction::MUL,
        Instruction::DIV,
        Instruction::JUMP,
        Instruction::RETURN,
    ];
    for (i, ins) in expected.iter().enumerate() {
        assert_eq!(Instruction::from_code(&(i as u8 + 1)), Some(*ins));
    }
    assert_eq!(Instruction::from_code(&0), None);
    assert_eq!(Instruction::from_code(&0xb), None);
}

#[test]
fn stack_push_pop_last() {
    let mut s = Stack(Vec::new());
    s.push(3);
    s.push(4);
    *s.last() += 1;
    assert_eq!(s.0, vec![3, 5]);
    assert_eq!(s.pop(), 5);
    assert_eq!(s.pop(), 3);
    assert!(s.0.is_empty());
}

#[test]
fn runs_push_push_add_return() {
    let program: Vec<u8> = vec![0x1, 0x2, 0x1, 0x3, 0x3, 0xa];
    assert_eq!(interpret(&program[..], 100), Ok(Outcome::Returned(5)));
}

#[test]
fn arithmetic_opcodes() {
    // 7 - 2 = 5, 5 * 4 = 20, 20 / 3 = 6, then 6 + 1 - 1 + 1 = 7.
    let program: Vec<u8> = vec![
        0x1, 7, 0x1, 2, 0x4, 0x1, 4, 0x7, 0x1, 3, 0x8, 0x5, 0x6, 0x5, 0xa,
    ];
    assert_eq!(interpret(&program[..], 100), Ok(Outcome::Returned(7)));
}

#[test]
fn unknown_opcode_stops() {
    let program: Vec<u8> = vec![0x1, 0x2, 0x0];
    assert_eq!(interpret(&program[..], 100), Ok(Outcome::Stopped));
}

#[test]
fn faults() {
    assert_eq!(interpret(&[0x2u8][..], 10), Err(VmError::Fault));
    assert_eq!(interpret(&[0x1u8, 0x1][..], 10), Err(VmError::Fault));
    assert_eq!(interpret(&[0x1u8, 0x1, 0x1, 0x2, 0x4, 0xa][..], 10), Err(VmError::Fault));
    assert_eq!(interpret(&[0x1u8, 0x2, 0x1, 0x0, 0x8, 0xa][..], 10), Err(VmError::Fault));
    assert_eq!(interpret(&[0x6u8][..], 10), Err(VmError::Fault));
}

#[test]
fn jump_loop_runs_out_of_fuel() {
    assert_eq!(interpret(&[0x9u8, 0x0][..], 50), Err(VmError::OutOfFuel));
    assert_eq!(interpret(&[0x1u8, 0x2, 0x9, 0x5, 0x0, 0xa][..], 10), Ok(Outcome::Returned(2)));
}
