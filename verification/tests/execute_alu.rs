//! Execution tests for the arithmetic and logic instructions and the
//! pseudoinstructions that expand to them.
use riskv::csr::ControlStatusRegisters;
use riskv::instruction_set::Exception;
use riskv::instructions::pseudoinstructions::Expansion;
use riskv::instructions::Instruction;
use riskv::processor::Processor;
use riskv::registers::Register;

/// A processor preloaded with the given registers, memory words, CSR values
/// and program counter.
fn machine(regs: &[(Register, i32)], mem: &[(usize, i32)], csr: &[(u16, i32)], pc: i32) -> Processor {
    let mut p = Processor::new();
    for &(r, v) in regs {
        p.registers.write(r, v);
    }
    for &(a, v) in mem {
        p.memory.store_word(a, v);
    }
    for &(c, v) in csr {
        p.csrs.read_write(c, v);
    }
    p.pc = pc;
    p
}

/// Execute every instruction of an expansion in order.
fn run_all(e: Expansion, p: &mut Processor) -> Result<(), Exception> {
    for i in e.to_vec() {
        i.execute(p)?;
    }
    Ok(())
}

#[test]
fn execute_li() {
    for (i, pc_inc) in [
        (0, 4),
        (-2048, 4),
        (2047, 4),
        (-2049, 8),
        (2048, 8),
        (i32::MAX, 8),
        (i32::MIN, 8),
    ] {
        let mut p = machine(&[], &[], &[], 0);
        run_all(Instruction::LI(Register::T1, i), &mut p).unwrap();
        assert_eq!(p, machine(&[(Register::T1, i)], &[], &[], pc_inc));
    }
}

#[test]
fn execute_not() {
    let mut p = machine(&[(Register::A6, -1)], &[], &[], 0);
    run_all(Instruction::NOT(Register::A5, Register::A6), &mut p).unwrap();
    assert_eq!(p, machine(&[(Register::A5, 0), (Register::A6, -1)], &[], &[], 4));

    let mut p = machine(&[(Register::A6, 0)], &[], &[], 0);
    run_all(Instruction::NOT(Register::A5, Register::A6), &mut p).unwrap();
    assert_eq!(p, machine(&[(Register::A5, -1), (Register::A6, 0)], &[], &[], 4));

    let mut p = machine(&[(Register::A6, 42)], &[], &[], 0);
    run_all(Instruction::NOT(Register::A5, Register::A6), &mut p).unwrap();
    assert_eq!(p, machine(&[(Register::A5, -43), (Register::A6, 42)], &[], &[], 4));
}

#[test]
fn execute_neg() {
    let mut p = machine(&[(Register::S6, -1)], &[], &[], 0);
    run_all(Instruction::NEG(Register::S5, Register::S6), &mut p).unwrap();
    assert_eq!(p, machine(&[(Register::S5, 1), (Register::S6, -1)], &[], &[], 4));

    let mut p = machine(&[(Register::S6, -1)], &[], &[], 0);
    run_all(Instruction::NEG(Register::S5, Register::S6), &mut p).unwrap();
    assert_eq!(p, machine(&[(Register::S5, 1), (Register::S6, -1)], &[], &[], 4));

    let mut p = machine(&[(Register::S6, 42)], &[], &[], 0);
    run_all(Instruction::NEG(Register::S5, Register::S6), &mut p).unwrap();
    assert_eq!(p, machine(&[(Register::S5, -42), (Register::S6, 42)], &[], &[], 4));

    let mut p = machine(&[(Register::S6, 0)], &[], &[], 0);
    run_all(Instruction::NEG(Register::S5, Register::S6), &mut p).unwrap();
    assert_eq!(p, machine(&[(Register::S5, 0), (Register::S6, 0)], &[], &[], 4));
}

#[test]
fn execute_mov() {
    let mut p = machine(&[(Register::T6, -1)], &[], &[], 0);
    run_all(Instruction::MOV(Register::T5, Register::T6), &mut p).unwrap();
    assert_eq!(p, machine(&[(Register::T5, -1), (Register::T6, -1)], &[], &[], 4));
}

#[test]
fn execute_seqz() {
    let mut p = machine(&[(Register::A1, -1)], &[], &[], 0);
    run_all(Instruction::SEQZ(Register::A3, Register::A1), &mut p).unwrap();
    assert_eq!(p, machine(&[(Register::A1, -1), (Register::A3, 0)], &[], &[], 4));

    let mut p = machine(&[(Register::A1, 0)], &[], &[], 0);
    run_all(Instruction::SEQZ(Register::A3, Register::A1), &mut p).unwrap();
    assert_eq!(p, machine(&[(Register::A1, 0), (Register::A3, 1)], &[], &[], 4));

    let mut p = machine(&[(Register::A1, 1)], &[], &[], 0);
    run_all(Instruction::SEQZ(Register::A3, Register::A1), &mut p).unwrap();
    assert_eq!(p, machine(&[(Register::A1, 1), (Register::A3, 0)], &[], &[], 4));
}

#[test]
fn execute_snez() {
    let mut p = machine(&[(Register::A1, -1)], &[], &[], 0);
    run_all(Instruction::SNEZ(Register::A3, Register::A1), &mut p).unwrap();
    assert_eq!(p, machine(&[(Register::A1, -1), (Register::A3, 1)], &[], &[], 4));

    let mut p = machine(&[(Register::A1, 0)], &[], &[], 0);
    run_all(Instruction::SNEZ(Register::A3, Register::A1), &mut p).unwrap();
    assert_eq!(p, machine(&[(Register::A1, 0), (Register::A3, 0)], &[], &[], 4));

    let mut p = machine(&[(Register::A1, 1)], &[], &[], 0);
    run_all(Instruction::SNEZ(Register::A3, Register::A1), &mut p).unwrap();
    assert_eq!(p, machine(&[(Register::A1, 1), (Register::A3, 1)], &[], &[], 4));
}

#[test]
fn execute_sltz() {
    let mut p = machine(&[(Register::A1, -1)], &[], &[], 0);
    run_all(Instruction::SLTZ(Register::A3, Register::A1), &mut p).unwrap();
    assert_eq!(p, machine(&[(Register::A1, -1), (Register::A3, 1)], &[], &[], 4));

    let mut p = machine(&[(Register::A1, 0)], &[], &[], 0);
    run_all(Instruction::SLTZ(Register::A3, Register::A1), &mut p).unwrap();
    assert_eq!(p, machine(&[(Register::A1, 0), (Register::A3, 0)], &[], &[], 4));

    let mut p = machine(&[(Register::A1, 1)], &[], &[], 0);
    run_all(Instruction::SLTZ(Register::A3, Register::A1), &mut p).unwrap();
    assert_eq!(p, machine(&[(Register::A1, 1), (Register::A3, 0)], &[], &[], 4));
}

#[test]
fn execute_sgtz() {
    let mut p = machine(&[(Register::A1, -1)], &[], &[], 0);
    run_all(Instruction::SGLZ(Register::A3, Register::A1), &mut p).unwrap();
    assert_eq!(p, machine(&[(Register::A1, -1), (Register::A3, 0)], &[], &[], 4));

    let mut p = machine(&[(Register::A1, 0)], &[], &[], 0);
    run_all(Instruction::SGLZ(Register::A3, Register::A1), &mut p).unwrap();
    assert_eq!(p, machine(&[(Register::A1, 0), (Register::A3, 0)], &[], &[], 4));

    let mut p = machine(&[(Register::A1, 1)], &[], &[], 0);
    run_all(Instruction::SGLZ(Register::A3, Register::A1), &mut p).unwrap();
    assert_eq!(p, machine(&[(Register::A1, 1), (Register::A3, 1)], &[], &[], 4));
}

#[test]
fn execute_nop() {
    let mut p = machine(&[], &[], &[], 0);
    run_all(Instruction::NOP(), &mut p).unwrap();
    assert_eq!(p, machine(&[], &[], &[], 4));
}

#[test]
fn execute_lui() {
    let mut p = machine(&[], &[], &[], 0);
    Instruction::LUI { rd: Register::S11, imm: 0x2BAAA }.execute(&mut p).unwrap();
    assert_eq!(p, machine(&[(Register::S11, 0x2BAA_A000)], &[], &[], 4));

    let mut p = machine(&[], &[], &[], 0);
    Instruction::LUI { rd: Register::S11, imm: 0xDEAD_B }.execute(&mut p).unwrap();
    assert_eq!(
        p,
        machine(&[(Register::S11, i32::from_be_bytes([0xDE, 0xAD, 0xB0, 0x00]))], &[], &[], 4)
    );
}

#[test]
fn execute_auipc() {
    let mut p = machine(&[], &[], &[], 0x0000_0AAD);
    Instruction::AUIPC { rd: Register::SP, imm: 0x2BAAA }.execute(&mut p).unwrap();
    assert_eq!(p, machine(&[(Register::SP, 0x2BAA_AAAD)], &[], &[], 0x0000_0AB1));

    let mut p = machine(&[], &[], &[], 0x0000_0EAF);
    Instruction::AUIPC { rd: Register::SP, imm: 0xDEAD_B }.execute(&mut p).unwrap();
    assert_eq!(
        p,
        machine(
            &[(Register::SP, i32::from_be_bytes([0xDE, 0xAD, 0xBE, 0xAF]))],
            &[],
            &[],
            0x0000_0EB3,
        )
    );
}

#[test]
fn execute_addi() {
    let mut p = machine(&[(Register::T1, 42)], &[], &[], 0);
    Instruction::ADDI { rd: Register::T4, rs1: Register::T1, imm: 42 }.execute(&mut p).unwrap();
    assert_eq!(p, machine(&[(Register::T1, 42), (Register::T4, 84)], &[], &[], 4));
}

#[test]
fn execute_slti() {
    let mut p = machine(&[(Register::T1, 42)], &[], &[], 0);
    Instruction::SLTI { rd: Register::T4, rs1: Register::T1, imm: 43 }.execute(&mut p).unwrap();
    assert_eq!(p, machine(&[(Register::T1, 42), (Register::T4, 1)], &[], &[], 4));

    let mut p = machine(&[(Register::T1, 42), (Register::T4, 100)], &[], &[], 0);
    Instruction::SLTI { rd: Register::T4, rs1: Register::T1, imm: 42 }.execute(&mut p).unwrap();
    assert_eq!(p, machine(&[(Register::T1, 42), (Register::T4, 0)], &[], &[], 4));

    let mut p = machine(&[(Register::T1, 42)], &[], &[], 0);
    Instruction::SLTI { rd: Register::T4, rs1: Register::T1, imm: -43 }.execute(&mut p).unwrap();
    assert_eq!(p, machine(&[(Register::T1, 42), (Register::T4, 0)], &[], &[], 4));
}

#[test]
fn execute_sltiu() {
    let mut p = machine(&[(Register::T1, 42)], &[], &[], 0);
    Instruction::SLTIU { rd: Register::T4, rs1: Register::T1, imm: 43 }.execute(&mut p).unwrap();
    assert_eq!(p, machine(&[(Register::T1, 42), (Register::T4, 1)], &[], &[], 4));

    let mut p = machine(&[(Register::T1, 42), (Register::T4, 100)], &[], &[], 0);
    Instruction::SLTIU { rd: Register::T4, rs1: Register::T1, imm: 42 }.execute(&mut p).unwrap();
    assert_eq!(p, machine(&[(Register::T1, 42), (Register::T4, 0)], &[], &[], 4));

    let mut p = machine(&[(Register::T1, 42)], &[], &[], 0);
    Instruction::SLTIU { rd: Register::T4, rs1: Register::T1, imm: -43 }.execute(&mut p).unwrap();
    assert_eq!(p, machine(&[(Register::T1, 42), (Register::T4, 1)], &[], &[], 4));

    let mut p = machine(&[(Register::T1, 42)], &[], &[], 0);
    Instruction::SLTIU { rd: Register::T4, rs1: Register::T1, imm: 1 }.execute(&mut p).unwrap();
    assert_eq!(p, machine(&[(Register::T1, 42), (Register::T4, 0)], &[], &[], 4));

    let mut p = machine(&[(Register::T1, 0)], &[], &[], 0);
    Instruction::SLTIU { rd: Register::T4, rs1: Register::T1, imm: 1 }.execute(&mut p).unwrap();
    assert_eq!(p, machine(&[(Register::T1, 0), (Register::T4, 1)], &[], &[], 4));
}

#[test]
fn execute_xori() {
    let mut p = machine(&[(Register::A1, 42)], &[], &[], 0);
    Instruction::XORI { rd: Register::A0, rs1: Register::A1, imm: -1 }.execute(&mut p).unwrap();
    assert_eq!(p, machine(&[(Register::A0, !42), (Register::A1, 42)], &[], &[], 4));

    let mut p = machine(&[(Register::A3, 2)], &[], &[], 0);
    Instruction::XORI { rd: Register::A2, rs1: Register::A3, imm: 1 }.execute(&mut p).unwrap();
    assert_eq!(p, machine(&[(Register::A2, 3), (Register::A3, 2)], &[], &[], 4));
}

#[test]
fn execute_ori() {
    let mut p = machine(&[(Register::S1, 42)], &[], &[], 0);
    Instruction::ORI { rd: Register::S0, rs1: Register::S1, imm: -1 }.execute(&mut p).unwrap();
    assert_eq!(p, machine(&[(Register::S0, -1), (Register::S1, 42)], &[], &[], 4));

    let mut p = machine(&[(Register::S3, 2)], &[], &[], 0);
    Instruction::ORI { rd: Register::S2, rs1: Register::S3, imm: 2 }.execute(&mut p).unwrap();
    assert_eq!(p, machine(&[(Register::S2, 2), (Register::S3, 2)], &[], &[], 4));

    let mut p = machine(&[(Register::S5, 3)], &[], &[], 0);
    Instruction::ORI { rd: Register::S4, rs1: Register::S5, imm: 8 }.execute(&mut p).unwrap();
    assert_eq!(p, machine(&[(Register::S4, 11), (Register::S5, 3)], &[], &[], 4));

    let mut p = machine(&[(Register::S5, 19)], &[], &[], 0);
    Instruction::ORI { rd: Register::S4, rs1: Register::S5, imm: 7 }.execute(&mut p).unwrap();
    assert_eq!(p, machine(&[(Register::S4, 23), (Register::S5, 19)], &[], &[], 4));
}

#[test]
fn execute_andi() {
    let mut p = machine(&[(Register::S1, 42)], &[], &[], 0);
    Instruction::ANDI { rd: Register::S0, rs1: Register::S1, imm: -1 }.execute(&mut p).unwrap();
    assert_eq!(p, machine(&[(Register::S0, 42), (Register::S1, 42)], &[], &[], 4));

    let mut p = machine(&[(Register::S3, 2)], &[], &[], 0);
    Instruction::ANDI { rd: Register::S2, rs1: Register::S3, imm: 2 }.execute(&mut p).unwrap();
    assert_eq!(p, machine(&[(Register::S2, 2), (Register::S3, 2)], &[], &[], 4));

    let mut p = machine(&[(Register::S5, 3)], &[], &[], 0);
    Instruction::ANDI { rd: Register::S4, rs1: Register::S5, imm: 8 }.execute(&mut p).unwrap();
    assert_eq!(p, machine(&[(Register::S4, 0), (Register::S5, 3)], &[], &[], 4));

    let mut p = machine(&[(Register::S5, 19)], &[], &[], 0);
    Instruction::ANDI { rd: Register::S4, rs1: Register::S5, imm: 7 }.execute(&mut p).unwrap();
    assert_eq!(p, machine(&[(Register::S4, 3), (Register::S5, 19)], &[], &[], 4));
}

#[test]
fn execute_slli() {
    let mut p = machine(&[(Register::RA, 1)], &[], &[], 0);
    Instruction::SLLI { rd: Register::SP, rs1: Register::RA, shamt: 5 }.execute(&mut p).unwrap();
    assert_eq!(p, machine(&[(Register::SP, 32), (Register::RA, 1)], &[], &[], 4));

    let mut p = machine(&[(Register::RA, 0)], &[], &[], 0);
    Instruction::SLLI { rd: Register::SP, rs1: Register::RA, shamt: 20 }.execute(&mut p).unwrap();
    assert_eq!(p, machine(&[(Register::SP, 0), (Register::RA, 0)], &[], &[], 4));

    let mut p = machine(&[(Register::RA, i32::MAX)], &[], &[], 0);
    Instruction::SLLI { rd: Register::SP, rs1: Register::RA, shamt: 1 }.execute(&mut p).unwrap();
    assert_eq!(p, machine(&[(Register::SP, -2), (Register::RA, i32::MAX)], &[], &[], 4));

    let mut p = machine(&[(Register::RA, 2 << 29)], &[], &[], 0);
    Instruction::SLLI { rd: Register::SP, rs1: Register::RA, shamt: 2 }.execute(&mut p).unwrap();
    assert_eq!(p, machine(&[(Register::SP, 0), (Register::RA, 2 << 29)], &[], &[], 4));
}

#[test]
fn execute_srli() {
    let mut p = machine(&[(Register::RA, 64)], &[], &[], 0);
    Instruction::SRLI { rd: Register::SP, rs1: Register::RA, shamt: 5 }.execute(&mut p).unwrap();
    assert_eq!(p, machine(&[(Register::SP, 2), (Register::RA, 64)], &[], &[], 4));

    let mut p = machine(&[(Register::RA, 0)], &[], &[], 0);
    Instruction::SRLI { rd: Register::SP, rs1: Register::RA, shamt: 20 }.execute(&mut p).unwrap();
    assert_eq!(p, machine(&[(Register::SP, 0), (Register::RA, 0)], &[], &[], 4));

    let mut p = machine(&[(Register::RA, -1)], &[], &[], 0);
    Instruction::SRLI { rd: Register::SP, rs1: Register::RA, shamt: 1 }.execute(&mut p).unwrap();
    assert_eq!(p, machine(&[(Register::SP, i32::MAX), (Register::RA, -1)], &[], &[], 4));

    let mut p = machine(&[(Register::RA, -1000)], &[], &[], 0);
    Instruction::SRLI { rd: Register::SP, rs1: Register::RA, shamt: 1 }.execute(&mut p).unwrap();
    assert_eq!(p, machine(&[(Register::SP, 2147483148), (Register::RA, -1000)], &[], &[], 4));

    let mut p = machine(&[(Register::RA, 42)], &[], &[], 0);
    Instruction::SRLI { rd: Register::SP, rs1: Register::RA, shamt: 2 }.execute(&mut p).unwrap();
    assert_eq!(p, machine(&[(Register::SP, 10), (Register::RA, 42)], &[], &[], 4));
}

#[test]
fn execute_srai() {
    let mut p = machine(&[(Register::RA, 64)], &[], &[], 0);
    Instruction::SRAI { rd: Register::SP, rs1: Register::RA, shamt: 5 }.execute(&mut p).unwrap();
    assert_eq!(p, machine(&[(Register::SP, 2), (Register::RA, 64)], &[], &[], 4));

    let mut p = machine(&[(Register::RA, 0)], &[], &[], 0);
    Instruction::SRAI { rd: Register::SP, rs1: Register::RA, shamt: 20 }.execute(&mut p).unwrap();
    assert_eq!(p, machine(&[(Register::SP, 0), (Register::RA, 0)], &[], &[], 4));

    let mut p = machine(&[(Register::RA, -1)], &[], &[], 0);
    Instruction::SRAI { rd: Register::SP, rs1: Register::RA, shamt: 10 }.execute(&mut p).unwrap();
    assert_eq!(p, machine(&[(Register::SP, -1), (Register::RA, -1)], &[], &[], 4));

    let mut p = machine(&[(Register::RA, -1000)], &[], &[], 0);
    Instruction::SRAI { rd: Register::SP, rs1: Register::RA, shamt: 4 }.execute(&mut p).unwrap();
    assert_eq!(p, machine(&[(Register::SP, -63), (Register::RA, -1000)], &[], &[], 4));

    let mut p = machine(&[(Register::RA, 42)], &[], &[], 0);
    Instruction::SRAI { rd: Register::SP, rs1: Register::RA, shamt: 2 }.execute(&mut p).unwrap();
    assert_eq!(p, machine(&[(Register::SP, 10), (Register::RA, 42)], &[], &[], 4));
}

#[test]
fn execute_add() {
    let mut p = machine(&[(Register::T1, 21), (Register::T2, 21)], &[], &[], 0);
    Instruction::ADD { rd: Register::T3, rs1: Register::T1, rs2: Register::T2 }
        .execute(&mut p)
        .unwrap();
    assert_eq!(
        p,
        machine(&[(Register::T1, 21), (Register::T2, 21), (Register::T3, 42)], &[], &[], 4)
    );
}

#[test]
fn execute_sub() {
    let mut p = machine(&[(Register::T1, 45), (Register::T2, 3)], &[], &[], 0);
    Instruction::SUB { rd: Register::T3, rs1: Register::T1, rs2: Register::T2 }
        .execute(&mut p)
        .unwrap();
    assert_eq!(
        p,
        machine(&[(Register::T1, 45), (Register::T2, 3), (Register::T3, 42)], &[], &[], 4)
    );
}

#[test]
fn execute_sll() {
    let mut p = machine(&[(Register::T5, 0), (Register::T6, 4)], &[], &[], 0);
    Instruction::SLL { rd: Register::T4, rs1: Register::T5, rs2: Register::T6 }
        .execute(&mut p)
        .unwrap();
    assert_eq!(
        p,
        machine(&[(Register::T4, 0), (Register::T5, 0), (Register::T6, 4)], &[], &[], 4)
    );

    let mut p = machine(&[(Register::S1, 100), (Register::S2, 1), (Register::S3, 63)], &[], &[], 0);
    Instruction::SLL { rd: Register::S1, rs1: Register::S2, rs2: Register::S3 }
        .execute(&mut p)
        .unwrap();
    assert_eq!(
        p,
        machine(&[(Register::S1, i32::MIN), (Register::S2, 1), (Register::S3, 63)], &[], &[], 4)
    );

    let mut p = machine(
        &[(Register::S4, 100), (Register::S5, i32::MAX), (Register::S6, 1)],
        &[],
        &[],
        0,
    );
    Instruction::SLL { rd: Register::S4, rs1: Register::S5, rs2: Register::S6 }
        .execute(&mut p)
        .unwrap();
    assert_eq!(
        p,
        machine(&[(Register::S4, -2), (Register::S5, i32::MAX), (Register::S6, 1)], &[], &[], 4)
    );

    let mut p = machine(
        &[(Register::S7, 100), (Register::S8, 2 << 29), (Register::S9, 2)],
        &[],
        &[],
        0,
    );
    Instruction::SLL { rd: Register::S7, rs1: Register::S8, rs2: Register::S9 }
        .execute(&mut p)
        .unwrap();
    assert_eq!(
        p,
        machine(&[(Register::S7, 0), (Register::S8, 2 << 29), (Register::S9, 2)], &[], &[], 4)
    );
}

#[test]
fn execute_slt() {
    let mut p = machine(&[(Register::T1, 42), (Register::T3, 43)], &[], &[], 0);
    Instruction::SLT { rd: Register::T4, rs1: Register::T1, rs2: Register::T3 }
        .execute(&mut p)
        .unwrap();
    assert_eq!(
        p,
        machine(&[(Register::T1, 42), (Register::T4, 1), (Register::T3, 43)], &[], &[], 4)
    );

    let mut p = machine(&[(Register::T1, 42), (Register::T4, 100), (Register::T3, 42)], &[], &[], 0);
    Instruction::SLT { rd: Register::T4, rs1: Register::T1, rs2: Register::T3 }
        .execute(&mut p)
        .unwrap();
    assert_eq!(
        p,
        machine(&[(Register::T1, 42), (Register::T4, 0), (Register::T3, 42)], &[], &[], 4)
    );

    let mut p = machine(&[(Register::T1, 42), (Register::T3, -43)], &[], &[], 0);
    Instruction::SLT { rd: Register::T4, rs1: Register::T1, rs2: Register::T3 }
        .execute(&mut p)
        .unwrap();
    assert_eq!(
        p,
        machine(&[(Register::T1, 42), (Register::T4, 0), (Register::T3, -43)], &[], &[], 4)
    );
}

#[test]
fn execute_sltu() {
    let mut p = machine(&[(Register::T1, 42), (Register::A4, 43)], &[], &[], 0);
    Instruction::SLTU { rd: Register::T4, rs1: Register::T1, rs2: Register::A4 }
        .execute(&mut p)
        .unwrap();
    assert_eq!(
        p,
        machine(&[(Register::T1, 42), (Register::T4, 1), (Register::A4, 43)], &[], &[], 4)
    );

    let mut p = machine(&[(Register::T1, 42), (Register::T4, 100), (Register::A4, 42)], &[], &[], 0);
    Instruction::SLTU { rd: Register::T4, rs1: Register::T1, rs2: Register::A4 }
        .execute(&mut p)
        .unwrap();
    assert_eq!(
        p,
        machine(&[(Register::T1, 42), (Register::T4, 0), (Register::A4, 42)], &[], &[], 4)
    );

    let mut p = machine(&[(Register::T1, 42), (Register::A4, -43)], &[], &[], 0);
    Instruction::SLTU { rd: Register::T4, rs1: Register::T1, rs2: Register::A4 }
        .execute(&mut p)
        .unwrap();
    assert_eq!(
        p,
        machine(&[(Register::T1, 42), (Register::T4, 1), (Register::A4, -43)], &[], &[], 4)
    );

    let mut p = machine(&[(Register::T1, 42), (Register::A4, 1)], &[], &[], 0);
    Instruction::SLTU { rd: Register::T4, rs1: Register::T1, rs2: Register::A4 }
        .execute(&mut p)
        .unwrap();
    assert_eq!(
        p,
        machine(&[(Register::T1, 42), (Register::T4, 0), (Register::A4, 1)], &[], &[], 4)
    );

    let mut p = machine(&[(Register::T1, 0), (Register::A4, 1)], &[], &[], 0);
    Instruction::SLTU { rd: Register::T4, rs1: Register::T1, rs2: Register::A4 }
        .execute(&mut p)
        .unwrap();
    assert_eq!(
        p,
        machine(&[(Register::T1, 0), (Register::T4, 1), (Register::A4, 1)], &[], &[], 4)
    );
}

#[test]
fn execute_or() {
    let mut p = machine(&[(Register::S1, 42), (Register::T2, -1)], &[], &[], 0);
    Instruction::OR { rd: Register::S0, rs1: Register::S1, rs2: Register::T2 }
        .execute(&mut p)
        .unwrap();
    assert_eq!(
        p,
        machine(&[(Register::S0, -1), (Register::S1, 42), (Register::T2, -1)], &[], &[], 4)
    );

    let mut p = machine(&[(Register::S3, 2), (Register::T3, 2)], &[], &[], 0);
    Instruction::OR { rd: Register::S2, rs1: Register::S3, rs2: Register::T3 }
        .execute(&mut p)
        .unwrap();
    assert_eq!(
        p,
        machine(&[(Register::S2, 2), (Register::S3, 2), (Register::T3, 2)], &[], &[], 4)
    );

    let mut p = machine(&[(Register::S5, 3), (Register::T4, 8)], &[], &[], 0);
    Instruction::OR { rd: Register::S4, rs1: Register::S5, rs2: Register::T4 }
        .execute(&mut p)
        .unwrap();
    assert_eq!(
        p,
        machine(&[(Register::S4, 11), (Register::S5, 3), (Register::T4, 8)], &[], &[], 4)
    );

    let mut p = machine(&[(Register::S5, 19), (Register::T5, 7)], &[], &[], 0);
    Instruction::OR { rd: Register::S4, rs1: Register::S5, rs2: Register::T5 }
        .execute(&mut p)
        .unwrap();
    assert_eq!(
        p,
        machine(&[(Register::S4, 23), (Register::S5, 19), (Register::T5, 7)], &[], &[], 4)
    );
}

#[test]
fn execute_srl() {
    let mut p = machine(&[(Register::S10, 100), (Register::S11, 64), (Register::A0, 5)], &[], &[], 0);
    Instruction::SRL { rd: Register::S10, rs1: Register::S11, rs2: Register::A0 }
        .execute(&mut p)
        .unwrap();
    assert_eq!(
        p,
        machine(&[(Register::S10, 2), (Register::S11, 64), (Register::A0, 5)], &[], &[], 4)
    );

    let mut p = machine(&[(Register::A1, 100), (Register::A2, -1), (Register::A3, 1)], &[], &[], 0);
    Instruction::SRL { rd: Register::A1, rs1: Register::A2, rs2: Register::A3 }
        .execute(&mut p)
        .unwrap();
    assert_eq!(
        p,
        machine(&[(Register::A1, i32::MAX), (Register::A2, -1), (Register::A3, 1)], &[], &[], 4)
    );

    let mut p = machine(&[(Register::A4, 100), (Register::A5, -1000), (Register::A6, 1)], &[], &[], 0);
    Instruction::SRL { rd: Register::A4, rs1: Register::A5, rs2: Register::A6 }
        .execute(&mut p)
        .unwrap();
    assert_eq!(
        p,
        machine(
            &[(Register::A4, 2147483148), (Register::A5, -1000), (Register::A6, 1)],
            &[],
            &[],
            4,
        )
    );

    let mut p = machine(
        &[(Register::A4, 100), (Register::A5, i32::MIN), (Register::A6, 63)],
        &[],
        &[],
        0,
    );
    Instruction::SRL { rd: Register::A4, rs1: Register::A5, rs2: Register::A6 }
        .execute(&mut p)
        .unwrap();
    assert_eq!(
        p,
        machine(&[(Register::A4, 1), (Register::A5, i32::MIN), (Register::A6, 63)], &[], &[], 4)
    );

    let mut p = machine(&[(Register::A7, 100), (Register::A2, 42), (Register::A3, 2)], &[], &[], 0);
    Instruction::SRL { rd: Register::A7, rs1: Register::A2, rs2: Register::A3 }
        .execute(&mut p)
        .unwrap();
    assert_eq!(
        p,
        machine(&[(Register::A7, 10), (Register::A2, 42), (Register::A3, 2)], &[], &[], 4)
    );
}

#[test]
fn execute_sra() {
    let mut p = machine(&[(Register::T0, 100), (Register::T1, 64), (Register::T2, 5)], &[], &[], 0);
    Instruction::SRA { rd: Register::T0, rs1: Register::T1, rs2: Register::T2 }
        .execute(&mut p)
        .unwrap();
    assert_eq!(
        p,
        machine(&[(Register::T0, 2), (Register::T1, 64), (Register::T2, 5)], &[], &[], 4)
    );

    let mut p = machine(&[(Register::T3, 100), (Register::T4, 0), (Register::T5, 20)], &[], &[], 0);
    Instruction::SRA { rd: Register::T3, rs1: Register::T4, rs2: Register::T5 }
        .execute(&mut p)
        .unwrap();
    assert_eq!(
        p,
        machine(&[(Register::T3, 0), (Register::T4, 0), (Register::T5, 20)], &[], &[], 4)
    );

    let mut p = machine(&[(Register::T6, 100), (Register::S0, -1), (Register::TP, 10)], &[], &[], 0);
    Instruction::SRA { rd: Register::T6, rs1: Register::S0, rs2: Register::TP }
        .execute(&mut p)
        .unwrap();
    assert_eq!(
        p,
        machine(&[(Register::T6, -1), (Register::S0, -1), (Register::TP, 10)], &[], &[], 4)
    );

    let mut p = machine(
        &[(Register::A4, 100), (Register::A5, i32::MIN), (Register::A6, 63)],
        &[],
        &[],
        0,
    );
    Instruction::SRA { rd: Register::A4, rs1: Register::A5, rs2: Register::A6 }
        .execute(&mut p)
        .unwrap();
    assert_eq!(
        p,
        machine(&[(Register::A4, -1), (Register::A5, i32::MIN), (Register::A6, 63)], &[], &[], 4)
    );

    let mut p = machine(&[(Register::GP, 100), (Register::SP, -1000), (Register::RA, 4)], &[], &[], 0);
    Instruction::SRA { rd: Register::GP, rs1: Register::SP, rs2: Register::RA }
        .execute(&mut p)
        .unwrap();
    assert_eq!(
        p,
        machine(&[(Register::GP, -63), (Register::SP, -1000), (Register::RA, 4)], &[], &[], 4)
    );

    let mut p = machine(&[(Register::GP, 100), (Register::SP, 42), (Register::RA, 2)], &[], &[], 0);
    Instruction::SRA { rd: Register::GP, rs1: Register::SP, rs2: Register::RA }
        .execute(&mut p)
        .unwrap();
    assert_eq!(
        p,
        machine(&[(Register::GP, 10), (Register::SP, 42), (Register::RA, 2)], &[], &[], 4)
    );
}

#[test]
fn execute_xor() {
    let mut p = machine(&[(Register::A1, 42), (Register::A2, -1)], &[], &[], 0);
    Instruction::XOR { rd: Register::A0, rs1: Register::A1, rs2: Register::A2 }
        .execute(&mut p)
        .unwrap();
    assert_eq!(
        p,
        machine(&[(Register::A0, !42), (Register::A1, 42), (Register::A2, -1)], &[], &[], 4)
    );

    let mut p = machine(&[(Register::A3, 2), (Register::A4, 1)], &[], &[], 0);
    Instruction::XOR { rd: Register::A2, rs1: Register::A3, rs2: Register::A4 }
        .execute(&mut p)
        .unwrap();
    assert_eq!(
        p,
        machine(&[(Register::A2, 3), (Register::A3, 2), (Register::A4, 1)], &[], &[], 4)
    );
}

#[test]
fn execute_and() {
    let mut p = machine(&[(Register::S1, 42), (Register::A1, -1)], &[], &[], 0);
    Instruction::AND { rd: Register::S0, rs1: Register::S1, rs2: Register::A1 }
        .execute(&mut p)
        .unwrap();
    assert_eq!(
        p,
        machine(&[(Register::S0, 42), (Register::S1, 42), (Register::A1, -1)], &[], &[], 4)
    );

    let mut p = machine(&[(Register::S3, 2), (Register::A2, 2)], &[], &[], 0);
    Instruction::AND { rd: Register::S2, rs1: Register::S3, rs2: Register::A2 }
        .execute(&mut p)
        .unwrap();
    assert_eq!(
        p,
        machine(&[(Register::S2, 2), (Register::S3, 2), (Register::A2, 2)], &[], &[], 4)
    );

    let mut p = machine(&[(Register::S5, 3), (Register::A3, 8)], &[], &[], 0);
    Instruction::AND { rd: Register::S4, rs1: Register::S5, rs2: Register::A3 }
        .execute(&mut p)
        .unwrap();
    assert_eq!(
        p,
        machine(&[(Register::S4, 0), (Register::S5, 3), (Register::A3, 8)], &[], &[], 4)
    );

    let mut p = machine(&[(Register::S5, 19), (Register::A4, 7)], &[], &[], 0);
    Instruction::AND { rd: Register::S4, rs1: Register::S5, rs2: Register::A4 }
        .execute(&mut p)
        .unwrap();
    assert_eq!(
        p,
        machine(&[(Register::S4, 3), (Register::S5, 19), (Register::A4, 7)], &[], &[], 4)
    );
}
