//! Execution tests for the jump and branch instructions and the control
//! pseudoinstructions.
//!
//! A jump's link-register write is committed before the target's alignment
//! is checked, so the misaligned-fetch cases assert the link register
//! already updated while the program counter stays put.
use riskv::instruction_set::Exception;
use riskv::instructions::pseudoinstructions::Expansion;
use riskv::instructions::Instruction;
use riskv::processor::Processor;
use riskv::registers::Register;

/// A processor preloaded with the given registers and program counter.
fn machine(regs: &[(Register, i32)], pc: i32) -> Processor {
    let mut p = Processor::new();
    for &(r, v) in regs {
        p.registers.write(r, v);
    }
    p.pc = pc;
    p
}

/// Execute every instruction of an expansion in order.
fn run_all(e: Expansion, p: &mut Processor) -> Result<(), Exception> {
    for i in e.to_vec() {
        i.execute(p)?;
    }
    Ok(())
}

#[test]
fn execute_jal() {
    let mut p = machine(&[], 0);
    Instruction::JAL { rd: Register::RA, offset: 84 }.execute(&mut p).unwrap();
    assert_eq!(p, machine(&[(Register::RA, 4)], 84));

    let mut p = machine(&[], 5000);
    Instruction::JAL { rd: Register::ZERO, offset: 5000 }.execute(&mut p).unwrap();
    assert_eq!(p, machine(&[], 10000));

    let mut p = machine(&[], 40000);
    Instruction::JAL { rd: Register::T0, offset: -15000 }.execute(&mut p).unwrap();
    assert_eq!(p, machine(&[(Register::T0, 40004)], 25000));

    let mut p = machine(&[], 84);
    let r = Instruction::JAL { rd: Register::RA, offset: -42 }.execute(&mut p);
    assert_eq!(r, Err(Exception::MisalignedInstructionFetch));
    assert_eq!(p, machine(&[(Register::RA, 88)], 84));
}

#[test]
fn execute_jal_pseudoinstruction() {
    let mut p = machine(&[], 0);
    run_all(Instruction::JAL(84), &mut p).unwrap();
    assert_eq!(p, machine(&[(Register::RA, 4)], 84));

    let mut p = machine(&[], 5000);
    run_all(Instruction::JAL(1000), &mut p).unwrap();
    assert_eq!(p, machine(&[(Register::RA, 5004)], 6000));

    let mut p = machine(&[], 82);
    run_all(Instruction::JAL(-42), &mut p).unwrap();
    assert_eq!(p, machine(&[(Register::RA, 86)], 40));

    let mut p = machine(&[], 84);
    let r = run_all(Instruction::JAL(-42), &mut p);
    assert_eq!(r, Err(Exception::MisalignedInstructionFetch));
    assert_eq!(p, machine(&[(Register::RA, 88)], 84));
}

#[test]
fn execute_j() {
    let mut p = machine(&[], 0);
    run_all(Instruction::J(84), &mut p).unwrap();
    assert_eq!(p, machine(&[], 84));

    let mut p = machine(&[], 5000);
    run_all(Instruction::J(1000), &mut p).unwrap();
    assert_eq!(p, machine(&[], 6000));

    let mut p = machine(&[], 82);
    run_all(Instruction::J(-42), &mut p).unwrap();
    assert_eq!(p, machine(&[], 40));

    let mut p = machine(&[], 84);
    let r = run_all(Instruction::J(-42), &mut p);
    assert_eq!(r, Err(Exception::MisalignedInstructionFetch));
    assert_eq!(p, machine(&[], 84));
}

#[test]
fn execute_jalr() {
    let mut p = machine(&[], 0);
    Instruction::JALR { rd: Register::RA, rs1: Register::ZERO, offset: 84 }
        .execute(&mut p)
        .unwrap();
    assert_eq!(p, machine(&[(Register::RA, 4)], 84));

    let mut p = machine(&[(Register::A0, 5000)], 5000);
    Instruction::JALR { rd: Register::ZERO, rs1: Register::A0, offset: 5000 }
        .execute(&mut p)
        .unwrap();
    assert_eq!(p, machine(&[(Register::A0, 5000)], 10000));

    let mut p = machine(&[(Register::A0, 5005)], 5000);
    Instruction::JALR { rd: Register::ZERO, rs1: Register::A0, offset: 5000 }
        .execute(&mut p)
        .unwrap();
    assert_eq!(p, machine(&[(Register::A0, 5005)], 10004));

    let mut p = machine(&[(Register::T1, 40000)], 4);
    Instruction::JALR { rd: Register::T0, rs1: Register::T1, offset: -15000 }
        .execute(&mut p)
        .unwrap();
    assert_eq!(p, machine(&[(Register::T0, 8), (Register::T1, 40000)], 25000));

    let mut p = machine(&[(Register::S3, 84)], 84);
    let r = Instruction::JALR { rd: Register::RA, rs1: Register::S3, offset: -42 }.execute(&mut p);
    assert_eq!(r, Err(Exception::MisalignedInstructionFetch));
    assert_eq!(p, machine(&[(Register::RA, 88), (Register::S3, 84)], 84));
}

#[test]
fn execute_jalr_psuedoinstruction() {
    let mut p = machine(&[(Register::A0, 5000)], 1000);
    run_all(Instruction::JALR(Register::A0), &mut p).unwrap();
    assert_eq!(p, machine(&[(Register::RA, 1004), (Register::A0, 5000)], 5000));

    let mut p = machine(&[(Register::S3, 42)], 84);
    let r = run_all(Instruction::JALR(Register::S3), &mut p);
    assert_eq!(r, Err(Exception::MisalignedInstructionFetch));
    assert_eq!(p, machine(&[(Register::RA, 88), (Register::S3, 42)], 84));
}

#[test]
fn execute_jr() {
    let mut p = machine(&[(Register::A0, 5000)], 1000);
    run_all(Instruction::JR(Register::A0), &mut p).unwrap();
    assert_eq!(p, machine(&[(Register::A0, 5000)], 5000));

    let mut p = machine(&[(Register::S3, 42)], 84);
    let r = run_all(Instruction::JR(Register::S3), &mut p);
    assert_eq!(r, Err(Exception::MisalignedInstructionFetch));
    assert_eq!(p, machine(&[(Register::S3, 42)], 84));
}

#[test]
fn execute_ret() {
    let mut p = machine(&[(Register::RA, 5000)], 1000);
    run_all(Instruction::RET(), &mut p).unwrap();
    assert_eq!(p, machine(&[(Register::RA, 5000)], 5000));

    let mut p = machine(&[(Register::RA, 42)], 84);
    let r = run_all(Instruction::RET(), &mut p);
    assert_eq!(r, Err(Exception::MisalignedInstructionFetch));
    assert_eq!(p, machine(&[(Register::RA, 42)], 84));
}

#[test]
fn execute_call() {
    let mut p = machine(&[], 1000);
    run_all(Instruction::CALL(50_000_000), &mut p).unwrap();
    assert_eq!(p, machine(&[(Register::RA, 1008)], 50_001_000));

    let mut p = machine(&[], 84);
    let r = run_all(Instruction::CALL(50_000_003), &mut p);
    assert_eq!(r, Err(Exception::MisalignedInstructionFetch));
    assert_eq!(p, machine(&[(Register::RA, 92)], 88));
}

#[test]
fn execute_tail() {
    let mut p = machine(&[], 1000);
    run_all(Instruction::TAIL(50_000_000), &mut p).unwrap();
    assert_eq!(p, machine(&[(Register::T1, 50_000_872)], 50_001_000));

    let mut p = machine(&[], 84);
    let r = run_all(Instruction::TAIL(50_000_003), &mut p);
    assert_eq!(r, Err(Exception::MisalignedInstructionFetch));
    assert_eq!(p, machine(&[(Register::T1, 49999956)], 88));
}

#[test]
fn execute_beq() {
    let mut p = machine(&[], 1000);
    Instruction::BEQ { rs1: Register::RA, rs2: Register::S3, offset: -44 }
        .execute(&mut p)
        .unwrap();
    assert_eq!(p, machine(&[], 956));

    let mut p = machine(&[(Register::RA, 1)], 1000);
    Instruction::BEQ { rs1: Register::RA, rs2: Register::S3, offset: -42 }
        .execute(&mut p)
        .unwrap();
    assert_eq!(p, machine(&[(Register::RA, 1)], 1004));

    let mut p = machine(&[(Register::RA, 42), (Register::S3, 42)], 52);
    let r = Instruction::BEQ { rs1: Register::RA, rs2: Register::S3, offset: -42 }.execute(&mut p);
    assert_eq!(r, Err(Exception::MisalignedInstructionFetch));
    assert_eq!(p, machine(&[(Register::RA, 42), (Register::S3, 42)], 52));

    let mut p = machine(&[(Register::RA, 42), (Register::S3, 42)], 52);
    Instruction::BEQ { rs1: Register::RA, rs2: Register::S3, offset: -44 }
        .execute(&mut p)
        .unwrap();
    assert_eq!(p, machine(&[(Register::RA, 42), (Register::S3, 42)], 8));
}

#[test]
fn execute_beqz() {
    let mut p = machine(&[], 1000);
    run_all(Instruction::BEQZ(Register::RA, -44), &mut p).unwrap();
    assert_eq!(p, machine(&[], 956));

    let mut p = machine(&[(Register::RA, 1)], 1000);
    run_all(Instruction::BEQZ(Register::RA, -42), &mut p).unwrap();
    assert_eq!(p, machine(&[(Register::RA, 1)], 1004));

    let mut p = machine(&[(Register::RA, 0)], 52);
    let r = run_all(Instruction::BEQZ(Register::RA, -42), &mut p);
    assert_eq!(r, Err(Exception::MisalignedInstructionFetch));
    assert_eq!(p, machine(&[(Register::RA, 0)], 52));
}

#[test]
fn execute_bne() {
    let mut p = machine(&[], 1000);
    Instruction::BNE { rs1: Register::RA, rs2: Register::S3, offset: -44 }
        .execute(&mut p)
        .unwrap();
    assert_eq!(p, machine(&[], 1004));

    let mut p = machine(&[(Register::RA, 1)], 1000);
    Instruction::BNE { rs1: Register::RA, rs2: Register::S3, offset: -44 }
        .execute(&mut p)
        .unwrap();
    assert_eq!(p, machine(&[(Register::RA, 1)], 956));

    let mut p = machine(&[(Register::RA, 42), (Register::S3, 41)], 52);
    let r = Instruction::BNE { rs1: Register::RA, rs2: Register::S3, offset: -42 }.execute(&mut p);
    assert_eq!(r, Err(Exception::MisalignedInstructionFetch));
    assert_eq!(p, machine(&[(Register::RA, 42), (Register::S3, 41)], 52));

    let mut p = machine(&[(Register::RA, 42), (Register::S3, 41)], 52);
    Instruction::BNE { rs1: Register::RA, rs2: Register::S3, offset: -44 }
        .execute(&mut p)
        .unwrap();
    assert_eq!(p, machine(&[(Register::RA, 42), (Register::S3, 41)], 8));
}

#[test]
fn execute_bnez() {
    let mut p = machine(&[], 1000);
    run_all(Instruction::BNEZ(Register::RA, -44), &mut p).unwrap();
    assert_eq!(p, machine(&[], 1004));

    let mut p = machine(&[(Register::RA, 0)], 1000);
    run_all(Instruction::BNEZ(Register::RA, -42), &mut p).unwrap();
    assert_eq!(p, machine(&[(Register::RA, 0)], 1004));

    let mut p = machine(&[(Register::RA, 1)], 52);
    let r = run_all(Instruction::BNEZ(Register::RA, -42), &mut p);
    assert_eq!(r, Err(Exception::MisalignedInstructionFetch));
    assert_eq!(p, machine(&[(Register::RA, 1)], 52));
}

#[test]
fn execute_blt() {
    let mut p = machine(&[], 1000);
    Instruction::BLT { rs1: Register::RA, rs2: Register::S3, offset: -44 }
        .execute(&mut p)
        .unwrap();
    assert_eq!(p, machine(&[], 1004));

    let mut p = machine(&[(Register::S3, 1)], 1000);
    Instruction::BLT { rs1: Register::RA, rs2: Register::S3, offset: -44 }
        .execute(&mut p)
        .unwrap();
    assert_eq!(p, machine(&[(Register::S3, 1)], 956));

    let mut p = machine(&[(Register::RA, 41), (Register::S3, 42)], 52);
    let r = Instruction::BLT { rs1: Register::RA, rs2: Register::S3, offset: -42 }.execute(&mut p);
    assert_eq!(r, Err(Exception::MisalignedInstructionFetch));
    assert_eq!(p, machine(&[(Register::RA, 41), (Register::S3, 42)], 52));

    let mut p = machine(&[(Register::RA, 43), (Register::S3, 42)], 52);
    Instruction::BLT { rs1: Register::RA, rs2: Register::S3, offset: -44 }
        .execute(&mut p)
        .unwrap();
    assert_eq!(p, machine(&[(Register::RA, 43), (Register::S3, 42)], 56));

    let mut p = machine(&[(Register::RA, -42), (Register::S3, 43)], 52);
    Instruction::BLT { rs1: Register::RA, rs2: Register::S3, offset: -44 }
        .execute(&mut p)
        .unwrap();
    assert_eq!(p, machine(&[(Register::RA, -42), (Register::S3, 43)], 8));
}

#[test]
fn execute_ble() {
    let mut p = machine(&[], 1000);
    run_all(Instruction::BLE(Register::RA, Register::S3, -44), &mut p).unwrap();
    assert_eq!(p, machine(&[], 956));

    let mut p = machine(&[(Register::S3, -1)], 1000);
    run_all(Instruction::BLE(Register::RA, Register::S3, -42), &mut p).unwrap();
    assert_eq!(p, machine(&[(Register::S3, -1)], 1004));

    let mut p = machine(&[(Register::RA, 41), (Register::S3, 42)], 52);
    let r = run_all(Instruction::BLE(Register::RA, Register::S3, -42), &mut p);
    assert_eq!(r, Err(Exception::MisalignedInstructionFetch));
    assert_eq!(p, machine(&[(Register::RA, 41), (Register::S3, 42)], 52));

    let mut p = machine(&[(Register::RA, 43), (Register::S3, 42)], 52);
    run_all(Instruction::BLE(Register::RA, Register::S3, -44), &mut p).unwrap();
    assert_eq!(p, machine(&[(Register::RA, 43), (Register::S3, 42)], 56));

    let mut p = machine(&[(Register::RA, -42), (Register::S3, 43)], 52);
    run_all(Instruction::BLE(Register::RA, Register::S3, -44), &mut p).unwrap();
    assert_eq!(p, machine(&[(Register::RA, -42), (Register::S3, 43)], 8));
}

#[test]
fn execute_bltz() {
    let mut p = machine(&[], 1000);
    run_all(Instruction::BLTZ(Register::RA, -44), &mut p).unwrap();
    assert_eq!(p, machine(&[], 1004));

    let mut p = machine(&[(Register::RA, 1)], 1000);
    run_all(Instruction::BLTZ(Register::RA, -42), &mut p).unwrap();
    assert_eq!(p, machine(&[(Register::RA, 1)], 1004));

    let mut p = machine(&[(Register::RA, -1)], 52);
    let r = run_all(Instruction::BLTZ(Register::RA, -42), &mut p);
    assert_eq!(r, Err(Exception::MisalignedInstructionFetch));
    assert_eq!(p, machine(&[(Register::RA, -1)], 52));
}

#[test]
fn execute_blez() {
    let mut p = machine(&[], 1000);
    run_all(Instruction::BLEZ(Register::RA, -44), &mut p).unwrap();
    assert_eq!(p, machine(&[], 956));

    let mut p = machine(&[(Register::RA, 1)], 1000);
    run_all(Instruction::BLEZ(Register::RA, -42), &mut p).unwrap();
    assert_eq!(p, machine(&[(Register::RA, 1)], 1004));

    let mut p = machine(&[(Register::RA, -1)], 52);
    let r = run_all(Instruction::BLEZ(Register::RA, -42), &mut p);
    assert_eq!(r, Err(Exception::MisalignedInstructionFetch));
    assert_eq!(p, machine(&[(Register::RA, -1)], 52));
}

#[test]
fn execute_bge() {
    let mut p = machine(&[], 1000);
    Instruction::BGE { rs1: Register::RA, rs2: Register::S3, offset: -44 }
        .execute(&mut p)
        .unwrap();
    assert_eq!(p, machine(&[], 956));

    let mut p = machine(&[(Register::RA, 1)], 1000);
    Instruction::BGE { rs1: Register::RA, rs2: Register::S3, offset: -44 }
        .execute(&mut p)
        .unwrap();
    assert_eq!(p, machine(&[(Register::RA, 1)], 956));

    let mut p = machine(&[(Register::RA, 43), (Register::S3, 42)], 52);
    let r = Instruction::BGE { rs1: Register::RA, rs2: Register::S3, offset: -42 }.execute(&mut p);
    assert_eq!(r, Err(Exception::MisalignedInstructionFetch));
    assert_eq!(p, machine(&[(Register::RA, 43), (Register::S3, 42)], 52));

    let mut p = machine(&[(Register::RA, 43), (Register::S3, 42)], 52);
    Instruction::BGE { rs1: Register::RA, rs2: Register::S3, offset: -44 }
        .execute(&mut p)
        .unwrap();
    assert_eq!(p, machine(&[(Register::RA, 43), (Register::S3, 42)], 8));

    let mut p = machine(&[(Register::RA, -41), (Register::S3, 43)], 52);
    Instruction::BGE { rs1: Register::RA, rs2: Register::S3, offset: -44 }
        .execute(&mut p)
        .unwrap();
    assert_eq!(p, machine(&[(Register::RA, -41), (Register::S3, 43)], 56));
}

#[test]
fn execute_bgt() {
    let mut p = machine(&[], 1000);
    run_all(Instruction::BGT(Register::RA, Register::T0, -44), &mut p).unwrap();
    assert_eq!(p, machine(&[], 1004));

    let mut p = machine(&[(Register::RA, -1), (Register::T0, 3)], 1000);
    run_all(Instruction::BGT(Register::RA, Register::T0, -42), &mut p).unwrap();
    assert_eq!(p, machine(&[(Register::RA, -1), (Register::T0, 3)], 1004));

    let mut p = machine(&[(Register::RA, 1), (Register::T0, -1)], 52);
    let r = run_all(Instruction::BGT(Register::RA, Register::T0, -42), &mut p);
    assert_eq!(r, Err(Exception::MisalignedInstructionFetch));
    assert_eq!(p, machine(&[(Register::RA, 1), (Register::T0, -1)], 52));
}

#[test]
fn execute_bgez() {
    let mut p = machine(&[], 1000);
    run_all(Instruction::BGEZ(Register::RA, -44), &mut p).unwrap();
    assert_eq!(p, machine(&[], 956));

    let mut p = machine(&[(Register::RA, -1)], 1000);
    run_all(Instruction::BGEZ(Register::RA, -42), &mut p).unwrap();
    assert_eq!(p, machine(&[(Register::RA, -1)], 1004));

    let mut p = machine(&[(Register::RA, 1)], 52);
    let r = run_all(Instruction::BGEZ(Register::RA, -42), &mut p);
    assert_eq!(r, Err(Exception::MisalignedInstructionFetch));
    assert_eq!(p, machine(&[(Register::RA, 1)], 52));
}

#[test]
fn execute_bgtz() {
    let mut p = machine(&[], 1000);
    run_all(Instruction::BGTZ(Register::RA, -44), &mut p).unwrap();
    assert_eq!(p, machine(&[], 1004));

    let mut p = machine(&[(Register::RA, -1)], 1000);
    run_all(Instruction::BGTZ(Register::RA, -42), &mut p).unwrap();
    assert_eq!(p, machine(&[(Register::RA, -1)], 1004));

    let mut p = machine(&[(Register::RA, 1)], 52);
    let r = run_all(Instruction::BGTZ(Register::RA, -42), &mut p);
    assert_eq!(r, Err(Exception::MisalignedInstructionFetch));
    assert_eq!(p, machine(&[(Register::RA, 1)], 52));
}

#[test]
fn execute_bltu() {
    let mut p = machine(&[], 1000);
    Instruction::BLTU { rs1: Register::RA, rs2: Register::S3, offset: -44 }
        .execute(&mut p)
        .unwrap();
    assert_eq!(p, machine(&[], 1004));

    let mut p = machine(&[(Register::S3, 1)], 1000);
    Instruction::BLTU { rs1: Register::RA, rs2: Register::S3, offset: -44 }
        .execute(&mut p)
        .unwrap();
    assert_eq!(p, machine(&[(Register::S3, 1)], 956));

    let mut p = machine(&[(Register::RA, 41), (Register::S3, 42)], 52);
    let r = Instruction::BLTU { rs1: Register::RA, rs2: Register::S3, offset: -42 }.execute(&mut p);
    assert_eq!(r, Err(Exception::MisalignedInstructionFetch));
    assert_eq!(p, machine(&[(Register::RA, 41), (Register::S3, 42)], 52));

    let mut p = machine(&[(Register::RA, 43), (Register::S3, 42)], 52);
    Instruction::BLTU { rs1: Register::RA, rs2: Register::S3, offset: -44 }
        .execute(&mut p)
        .unwrap();
    assert_eq!(p, machine(&[(Register::RA, 43), (Register::S3, 42)], 56));

    let mut p = machine(&[(Register::RA, -42), (Register::S3, 43)], 52);
    Instruction::BLTU { rs1: Register::RA, rs2: Register::S3, offset: -44 }
        .execute(&mut p)
        .unwrap();
    assert_eq!(p, machine(&[(Register::RA, -42), (Register::S3, 43)], 56));
}

#[test]
fn execute_bgtu() {
    let mut p = machine(&[], 1000);
    run_all(Instruction::BGTU(Register::RA, Register::S3, -44), &mut p).unwrap();
    assert_eq!(p, machine(&[], 1004));

    let mut p = machine(&[(Register::S3, 1)], 1000);
    run_all(Instruction::BGTU(Register::RA, Register::S3, -44), &mut p).unwrap();
    assert_eq!(p, machine(&[(Register::S3, 1)], 1004));

    let mut p = machine(&[(Register::RA, 43), (Register::S3, 42)], 52);
    let r = run_all(Instruction::BGTU(Register::RA, Register::S3, -42), &mut p);
    assert_eq!(r, Err(Exception::MisalignedInstructionFetch));
    assert_eq!(p, machine(&[(Register::RA, 43), (Register::S3, 42)], 52));

    let mut p = machine(&[(Register::RA, 41), (Register::S3, 42)], 52);
    run_all(Instruction::BGTU(Register::RA, Register::S3, -44), &mut p).unwrap();
    assert_eq!(p, machine(&[(Register::RA, 41), (Register::S3, 42)], 56));

    let mut p = machine(&[(Register::RA, 42), (Register::S3, -43)], 52);
    run_all(Instruction::BGTU(Register::RA, Register::S3, -44), &mut p).unwrap();
    assert_eq!(p, machine(&[(Register::RA, 42), (Register::S3, -43)], 56));
}

#[test]
fn execute_bgeu() {
    let mut p = machine(&[], 1000);
    Instruction::BGEU { rs1: Register::RA, rs2: Register::S3, offset: -44 }
        .execute(&mut p)
        .unwrap();
    assert_eq!(p, machine(&[], 956));

    let mut p = machine(&[(Register::RA, 1)], 1000);
    Instruction::BGEU { rs1: Register::RA, rs2: Register::S3, offset: -44 }
        .execute(&mut p)
        .unwrap();
    assert_eq!(p, machine(&[(Register::RA, 1)], 956));

    let mut p = machine(&[(Register::RA, 43), (Register::S3, 42)], 52);
    let r = Instruction::BGEU { rs1: Register::RA, rs2: Register::S3, offset: -42 }.execute(&mut p);
    assert_eq!(r, Err(Exception::MisalignedInstructionFetch));
    assert_eq!(p, machine(&[(Register::RA, 43), (Register::S3, 42)], 52));

    let mut p = machine(&[(Register::RA, 43), (Register::S3, 42)], 52);
    Instruction::BGEU { rs1: Register::RA, rs2: Register::S3, offset: -44 }
        .execute(&mut p)
        .unwrap();
    assert_eq!(p, machine(&[(Register::RA, 43), (Register::S3, 42)], 8));

    let mut p = machine(&[(Register::RA, -41), (Register::S3, 43)], 52);
    Instruction::BGEU { rs1: Register::RA, rs2: Register::S3, offset: -44 }
        .execute(&mut p)
        .unwrap();
    assert_eq!(p, machine(&[(Register::RA, -41), (Register::S3, 43)], 8));
}

#[test]
fn execute_bleu() {
    let mut p = machine(&[], 1000);
    run_all(Instruction::BLEU(Register::RA, Register::S3, -44), &mut p).unwrap();
    assert_eq!(p, machine(&[], 956));

    let mut p = machine(&[(Register::RA, 1)], 1000);
    run_all(Instruction::BLEU(Register::RA, Register::S3, -44), &mut p).unwrap();
    assert_eq!(p, machine(&[(Register::RA, 1)], 1004));

    let mut p = machine(&[(Register::RA, 41), (Register::S3, 42)], 5);
    let r = run_all(Instruction::BLEU(Register::RA, Register::S3, -42), &mut p);
    assert_eq!(r, Err(Exception::MisalignedInstructionFetch));
    assert_eq!(p, machine(&[(Register::RA, 41), (Register::S3, 42)], 5));

    let mut p = machine(&[(Register::RA, 41), (Register::S3, 42)], 52);
    run_all(Instruction::BLEU(Register::RA, Register::S3, -44), &mut p).unwrap();
    assert_eq!(p, machine(&[(Register::RA, 41), (Register::S3, 42)], 8));

    let mut p = machine(&[(Register::RA, 41), (Register::S3, -43)], 52);
    run_all(Instruction::BLEU(Register::RA, Register::S3, -44), &mut p).unwrap();
    assert_eq!(p, machine(&[(Register::RA, 41), (Register::S3, -43)], 8));
}
