use toyasm::instr_repr::{EncodeError, Operand, Reg, Verb};

fn enc(v: &Verb) -> [u8; 3] {
    v.to_bytes().expect("should encode")
}

#[test]
fn mov_reg_imm() {
    let v = Verb::Mov(Operand::Reg(Reg::R1), Operand::Imm(0x00FF));
    assert_eq!(enc(&v), [0x11, 0x00, 0xFF]);
}

#[test]
fn mov_reg_mem_at_imm() {
    let v = Verb::Mov(Operand::Reg(Reg::R2), Operand::MemAtImm(0x1234));
    assert_eq!(enc(&v), [0x22, 0x12, 0x34]);
}

#[test]
fn mov_mem_at_imm_reg() {
    let v = Verb::Mov(Operand::MemAtImm(0x1234), Operand::Reg(Reg::R3));
    assert_eq!(enc(&v), [0x33, 0x12, 0x34]);
}

#[test]
fn mov_reg_reg() {
    let v = Verb::Mov(Operand::Reg(Reg::R1), Operand::Reg(Reg::R2));
    assert_eq!(enc(&v), [0xF0, 0x00, 0x12]);
}

#[test]
fn mov_reg_mem_at_reg() {
    let v = Verb::Mov(Operand::Reg(Reg::R4), Operand::MemAtReg(Reg::R5));
    assert_eq!(enc(&v), [0xF0, 0x01, 0x45]);
}

#[test]
fn mov_mem_at_reg_reg() {
    let v = Verb::Mov(Operand::MemAtReg(Reg::R6), Operand::Reg(Reg::R7));
    assert_eq!(enc(&v), [0xF0, 0x02, 0x67]);
}

#[test]
fn jmp_imm() {
    let v = Verb::Jmp(Operand::Imm(0xABCD));
    assert_eq!(enc(&v), [0xE3, 0xAB, 0xCD]);
}

#[test]
fn jz_imm_reg() {
    let v = Verb::Jz(Operand::Imm(0x0010), Operand::Reg(Reg::R4));
    assert_eq!(enc(&v), [0x44, 0x00, 0x10]);
}

#[test]
fn jnz_imm_reg() {
    let v = Verb::Jnz(Operand::Imm(0x0010), Operand::Reg(Reg::R5));
    assert_eq!(enc(&v), [0x55, 0x00, 0x10]);
}

#[test]
fn alu_reg_reg_forms() {
    assert_eq!(
        enc(&Verb::Add(Operand::Reg(Reg::R2), Operand::Reg(Reg::R3))),
        [0xF0, 0x20, 0x23]
    );
    assert_eq!(
        enc(&Verb::Sub(Operand::Reg(Reg::R2), Operand::Reg(Reg::R3))),
        [0xF0, 0x21, 0x23]
    );
    assert_eq!(
        enc(&Verb::And(Operand::Reg(Reg::R2), Operand::Reg(Reg::R3))),
        [0xF0, 0x22, 0x23]
    );
    assert_eq!(
        enc(&Verb::Or(Operand::Reg(Reg::R2), Operand::Reg(Reg::R3))),
        [0xF0, 0x23, 0x23]
    );
}

#[test]
fn alu_reg_imm_forms() {
    assert_eq!(
        enc(&Verb::Add(Operand::Reg(Reg::R2), Operand::Imm(0x0102))),
        [0xA2, 0x01, 0x02]
    );
    assert_eq!(
        enc(&Verb::Sub(Operand::Reg(Reg::R2), Operand::Imm(0x0102))),
        [0xB2, 0x01, 0x02]
    );
    assert_eq!(
        enc(&Verb::And(Operand::Reg(Reg::R2), Operand::Imm(0x0102))),
        [0xC2, 0x01, 0x02]
    );
    assert_eq!(
        enc(&Verb::Or(Operand::Reg(Reg::R2), Operand::Imm(0x0102))),
        [0xD2, 0x01, 0x02]
    );
}

#[test]
fn not_reg() {
    let v = Verb::Not(Operand::Reg(Reg::R9));
    assert_eq!(enc(&v), [0xF0, 0x24, 0x90]);
}

#[test]
fn shift_reg_reg_forms() {
    assert_eq!(
        enc(&Verb::Shl(Operand::Reg(Reg::R1), Operand::Reg(Reg::R2))),
        [0xF0, 0x31, 0x12]
    );
    assert_eq!(
        enc(&Verb::Shr(Operand::Reg(Reg::R1), Operand::Reg(Reg::R2))),
        [0xF0, 0x33, 0x12]
    );
}

#[test]
fn shift_reg_imm_forms() {
    assert_eq!(
        enc(&Verb::Shl(Operand::Reg(Reg::R3), Operand::Imm(0x0005))),
        [0xF0, 0x30, 0x35]
    );
    assert_eq!(
        enc(&Verb::Shr(Operand::Reg(Reg::R3), Operand::Imm(0x0005))),
        [0xF0, 0x32, 0x35]
    );
}

#[test]
fn shift_imm_truncates_to_low_nibble() {
    let v = Verb::Shl(Operand::Reg(Reg::R0), Operand::Imm(0x001F));
    let bytes = enc(&v);
    assert_eq!(bytes, [0xF0, 0x30, 0x0F]);
    assert_eq!(bytes[2] & 0x0F, 0x0F);
}

#[test]
fn dbg_imm() {
    let v = Verb::Dbg(Operand::Imm(0x0708));
    assert_eq!(enc(&v), [0xE0, 0x07, 0x08]);
}

#[test]
fn dbg_regs() {
    assert_eq!(enc(&Verb::DbgRegs), [0xE1, 0x00, 0x00]);
}

#[test]
fn call_imm() {
    let v = Verb::Call(Operand::Imm(0x0006));
    assert_eq!(enc(&v), [0xE4, 0x00, 0x06]);
}

#[test]
fn nop_halt_ret() {
    assert_eq!(enc(&Verb::Nop), [0x00, 0x00, 0x00]);
    assert_eq!(enc(&Verb::Halt), [0xFF, 0xFF, 0xFF]);
    assert_eq!(enc(&Verb::Ret), [0xFF, 0xFF, 0xF0]);
}

#[test]
fn register_ids_span_all_sixteen() {
    let regs = [
        Reg::R0,
        Reg::R1,
        Reg::R2,
        Reg::R3,
        Reg::R4,
        Reg::R5,
        Reg::R6,
        Reg::R7,
        Reg::R8,
        Reg::R9,
        Reg::R10,
        Reg::R11,
        Reg::R12,
        Reg::R13,
        Reg::R14,
        Reg::R15,
    ];
    for (want, r) in regs.iter().enumerate() {
        assert_eq!(r.to_id(), want as u8);
        let bytes = enc(&Verb::Mov(Operand::Reg(*r), Operand::Imm(0)));
        assert_eq!(bytes[0], 0x10 | want as u8);
    }
}

#[test]
fn unsupported_mov_combination_is_encoding_error() {
    let v = Verb::Mov(Operand::Imm(1), Operand::Imm(2));
    match v.to_bytes() {
        Err(EncodeError::UnsupportedOperands(desc)) => {
            assert_eq!(desc, "mov 0x1 0x2");
        }
        other => panic!("expected unsupported-operands error, got {:?}", other),
    }
}

#[test]
fn label_reaching_encoder_is_rejected() {
    let v = Verb::Jmp(Operand::Label(String::from("start")));
    match v.to_bytes() {
        Err(EncodeError::WrongOperandKind(desc)) => {
            assert_eq!(desc, "start");
        }
        other => panic!("expected wrong-operand-kind error, got {:?}", other),
    }
}

#[test]
fn jz_checks_register_slot_first() {
    let v = Verb::Jz(Operand::Label(String::from("x")), Operand::Imm(3));
    match v.to_bytes() {
        Err(EncodeError::WrongOperandKind(desc)) => {
            assert_eq!(desc, "0x3");
        }
        other => panic!("expected wrong-operand-kind error, got {:?}", other),
    }
}
