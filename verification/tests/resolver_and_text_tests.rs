use toyasm::instr_repr::{EncodeError, Operand, Reg, Verb};
use toyasm::label_resolver::{resolve_labels, ResolveError};

fn table(entries: &[(&str, u16)]) -> Vec<(String, u16)> {
    entries
        .iter()
        .map(|(name, addr)| (String::from(*name), *addr))
        .collect()
}

#[test]
fn resolve_jmp_label_to_imm() {
    let mut prog = vec![Verb::Jmp(Operand::Label(String::from("loop")))];
    let map = table(&[("loop", 0x0006)]);
    assert_eq!(resolve_labels(&mut prog, &map), Ok(()));
    assert_eq!(prog, vec![Verb::Jmp(Operand::Imm(0x0006))]);
    assert_eq!(prog[0].to_bytes().unwrap(), [0xE3, 0x00, 0x06]);
}

#[test]
fn resolve_all_control_transfer_verbs() {
    let mut prog = vec![
        Verb::Jmp(Operand::Label(String::from("a"))),
        Verb::Jz(Operand::Label(String::from("b")), Operand::Reg(Reg::R1)),
        Verb::Jnz(Operand::Label(String::from("c")), Operand::Reg(Reg::R2)),
        Verb::Call(Operand::Label(String::from("a"))),
    ];
    let map = table(&[("a", 0x0003), ("b", 0x0006), ("c", 0x0009)]);
    assert_eq!(resolve_labels(&mut prog, &map), Ok(()));
    assert_eq!(
        prog,
        vec![
            Verb::Jmp(Operand::Imm(0x0003)),
            Verb::Jz(Operand::Imm(0x0006), Operand::Reg(Reg::R1)),
            Verb::Jnz(Operand::Imm(0x0009), Operand::Reg(Reg::R2)),
            Verb::Call(Operand::Imm(0x0003)),
        ]
    );
}

#[test]
fn resolve_without_symbolic_operands_is_noop() {
    let mut prog = vec![
        Verb::Mov(Operand::Reg(Reg::R1), Operand::Imm(0x00FF)),
        Verb::Add(Operand::Reg(Reg::R1), Operand::Reg(Reg::R2)),
        Verb::Jmp(Operand::Imm(0x0009)),
        Verb::Halt,
    ];
    let before = prog.clone();
    let before_bytes: Vec<[u8; 3]> = before.iter().map(|v| v.to_bytes().unwrap()).collect();
    let map = table(&[("unused", 0x0001)]);
    assert_eq!(resolve_labels(&mut prog, &map), Ok(()));
    assert_eq!(prog, before);
    let after_bytes: Vec<[u8; 3]> = prog.iter().map(|v| v.to_bytes().unwrap()).collect();
    assert_eq!(after_bytes, before_bytes);
}

#[test]
fn resolve_with_empty_table_and_no_labels() {
    let mut prog = vec![Verb::Nop, Verb::Ret];
    let map = table(&[]);
    assert_eq!(resolve_labels(&mut prog, &map), Ok(()));
    assert_eq!(prog, vec![Verb::Nop, Verb::Ret]);
}

#[test]
fn unresolved_label_reports_name_and_touches_nothing() {
    let mut prog = vec![
        Verb::Jmp(Operand::Label(String::from("here"))),
        Verb::Jz(Operand::Label(String::from("gone")), Operand::Reg(Reg::R3)),
        Verb::Mov(Operand::Reg(Reg::R0), Operand::Imm(1)),
    ];
    let before = prog.clone();
    let map = table(&[("here", 0x0000)]);
    match resolve_labels(&mut prog, &map) {
        Err(ResolveError::UnresolvedLabel(name)) => assert_eq!(name, "gone"),
        other => panic!("expected unresolved-label error, got {:?}", other),
    }
    assert_eq!(prog, before);
}

#[test]
fn duplicate_table_entries_resolve_to_first() {
    let mut prog = vec![Verb::Call(Operand::Label(String::from("dup")))];
    let map = table(&[("dup", 0x0003), ("dup", 0x0009)]);
    assert_eq!(resolve_labels(&mut prog, &map), Ok(()));
    assert_eq!(prog, vec![Verb::Call(Operand::Imm(0x0003))]);
}

#[test]
fn resolving_twice_changes_nothing_more() {
    let mut prog = vec![
        Verb::Jmp(Operand::Label(String::from("loop"))),
        Verb::Mov(Operand::Reg(Reg::R1), Operand::Imm(2)),
    ];
    let map = table(&[("loop", 0x0006)]);
    assert_eq!(resolve_labels(&mut prog, &map), Ok(()));
    let once = prog.clone();
    assert_eq!(resolve_labels(&mut prog, &map), Ok(()));
    assert_eq!(prog, once);
}

#[test]
fn accessor_misuse_is_distinct_from_encoding_error() {
    let op = Operand::Reg(Reg::R3);
    let accessor_err = op.to_imm().unwrap_err();
    match &accessor_err {
        EncodeError::WrongOperandKind(desc) => assert_eq!(desc, "R3"),
        other => panic!("expected wrong-operand-kind error, got {:?}", other),
    }
    let encoding_err = Verb::Mov(Operand::Imm(1), Operand::Imm(2))
        .to_bytes()
        .unwrap_err();
    assert!(matches!(encoding_err, EncodeError::UnsupportedOperands(_)));
    assert_ne!(accessor_err, encoding_err);
}

#[test]
fn to_reg_accessor() {
    assert_eq!(Operand::Reg(Reg::R7).to_reg(), Ok(Reg::R7));
    match Operand::Imm(0x10).to_reg() {
        Err(EncodeError::WrongOperandKind(desc)) => assert_eq!(desc, "0x10"),
        other => panic!("expected wrong-operand-kind error, got {:?}", other),
    }
}

#[test]
fn to_imm_accessor() {
    assert_eq!(Operand::Imm(0xBEEF).to_imm(), Ok(0xBEEF));
    assert!(Operand::MemAtImm(0xBEEF).to_imm().is_err());
}

#[test]
fn operand_text_forms() {
    assert_eq!(Operand::Reg(Reg::R4).to_text(), "R4");
    assert_eq!(Operand::Reg(Reg::R12).to_text(), "R12");
    assert_eq!(Operand::Imm(0x10).to_text(), "0x10");
    assert_eq!(Operand::Imm(0).to_text(), "0x0");
    assert_eq!(Operand::Imm(0xABCD).to_text(), "0xABCD");
    assert_eq!(Operand::Label(String::from("loop")).to_text(), "loop");
    assert_eq!(Operand::MemAtReg(Reg::R2).to_text(), "[R2]");
    assert_eq!(Operand::MemAtImm(0x1F).to_text(), "[0x1F]");
}

#[test]
fn verb_text_forms() {
    assert_eq!(
        Verb::Mov(Operand::Reg(Reg::R1), Operand::Imm(0xFF)).to_text(),
        "mov R1 0xFF"
    );
    assert_eq!(Verb::Jmp(Operand::Imm(0x10)).to_text(), "jmp 0x10");
    assert_eq!(Verb::Not(Operand::Reg(Reg::R5)).to_text(), "not R5");
    assert_eq!(Verb::Dbg(Operand::Imm(7)).to_text(), "dbg 0x7");
    assert_eq!(Verb::DbgRegs.to_text(), "dbg");
    assert_eq!(Verb::Nop.to_text(), "nop");
    assert_eq!(Verb::Halt.to_text(), "halt");
    assert_eq!(Verb::Ret.to_text(), "ret");
}

#[test]
fn hex_file_line_embeds_bytes_and_text() {
    let v = Verb::Jz(Operand::Imm(0x10), Operand::Reg(Reg::R4));
    assert_eq!(v.as_hex_file_line().unwrap(), "44_00_10  // jz 0x10 R4");
}

#[test]
fn hex_file_line_zero_pads_bytes() {
    let v = Verb::Nop;
    assert_eq!(v.as_hex_file_line().unwrap(), "00_00_00  // nop");
}

#[test]
fn hex_file_line_fails_like_the_encoder() {
    let v = Verb::Jmp(Operand::Label(String::from("loop")));
    assert!(matches!(
        v.as_hex_file_line(),
        Err(EncodeError::WrongOperandKind(_))
    ));
}
