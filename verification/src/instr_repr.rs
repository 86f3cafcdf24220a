//! The instruction model: registers, operands and verbs (mnemonics), their
//! canonical textual rendering, and the encoder from a resolved instruction to
//! its fixed 3-byte binary form.

use vstd::prelude::*;
use vstd::string::StringExecFns;

verus! {

/// An instruction operand: a register, an unsigned 16-bit immediate, a
/// symbolic label (resolved away before encoding), or a memory reference
/// through a register or an absolute address.
#[derive(Debug, PartialEq, Eq, Clone)]
pub enum Operand {
    Reg(Reg),
    Imm(u16),
    Label(String),
    MemAtReg(Reg),
    MemAtImm(u16),
}

/// An instruction: a mnemonic with its operand slots.
#[derive(Debug, PartialEq, Eq, Clone)]
pub enum Verb {
    Mov(Operand, Operand),
    Jmp(Operand),
    Jz(Operand, Operand),
    Jnz(Operand, Operand),
    Add(Operand, Operand),
    Sub(Operand, Operand),
    And(Operand, Operand),
    Or(Operand, Operand),
    Not(Operand),
    Shl(Operand, Operand),
    Shr(Operand, Operand),
    Call(Operand),
    Ret,
    Dbg(Operand),
    DbgRegs,
    Nop,
    Halt,
}

/// An encoder-side failure: an accessor met an operand of the wrong kind, or
/// a verb carries an operand combination outside the encoding table. Each
/// variant carries the textual rendering of the offending operand or verb.
#[derive(Debug, PartialEq, Eq, Clone)]
pub enum EncodeError {
    WrongOperandKind(String),
    UnsupportedOperands(String),
}

/// One of the 16 general-purpose registers, identified by a 4-bit id.
#[derive(Debug, PartialEq, Eq, Clone, Copy)]
pub enum Reg {
    R0,
    R1,
    R2,
    R3,
    R4,
    R5,
    R6,
    R7,
    R8,
    R9,
    R10,
    R11,
    R12,
    R13,
    R14,
    R15,
}

/// The 4-bit identifier of a register.
pub open spec fn reg_id(r: Reg) -> u8 {
    match r {
        Reg::R0 => 0,
        Reg::R1 => 1,
        Reg::R2 => 2,
        Reg::R3 => 3,
        Reg::R4 => 4,
        Reg::R5 => 5,
        Reg::R6 => 6,
        Reg::R7 => 7,
        Reg::R8 => 8,
        Reg::R9 => 9,
        Reg::R10 => 10,
        Reg::R11 => 11,
        Reg::R12 => 12,
        Reg::R13 => 13,
        Reg::R14 => 14,
        Reg::R15 => 15,
    }
}

impl Reg {
    /// The register's 4-bit id, always below 16.
    pub fn to_id(&self) -> (r: u8)
        ensures
            r == reg_id(*self),
            r < 16,
    {
        match self {
            Reg::R0 => 0,
            Reg::R1 => 1,
            Reg::R2 => 2,
            Reg::R3 => 3,
            Reg::R4 => 4,
            Reg::R5 => 5,
            Reg::R6 => 6,
            Reg::R7 => 7,
            Reg::R8 => 8,
            Reg::R9 => 9,
            Reg::R10 => 10,
            Reg::R11 => 11,
            Reg::R12 => 12,
            Reg::R13 => 13,
            Reg::R14 => 14,
            Reg::R15 => 15,
        }
    }

    /// Places the register id in the low nibble of `b`, keeping the high nibble.
    fn write_into_byte_lower(&self, b: &mut u8)
        ensures
            *final(b) == (*old(b) & 0xF0) | reg_id(*self),
    {
        *b &= 0xF0;
        *b |= self.to_id();
    }

    /// Places the register id in the high nibble of `b`, keeping the low nibble.
    fn write_into_byte_upper(&self, b: &mut u8)
        ensures
            *final(b) == (*old(b) & 0x0F) | ((reg_id(*self) << 4) as u8),
    {
        *b &= 0x0F;
        *b |= self.to_id() << 4;
    }
}

/// The canonical text of a register: `R` followed by its decimal id.
pub open spec fn reg_text(r: Reg) -> Seq<char> {
    match r {
        Reg::R0 => "R0"@,
        Reg::R1 => "R1"@,
        Reg::R2 => "R2"@,
        Reg::R3 => "R3"@,
        Reg::R4 => "R4"@,
        Reg::R5 => "R5"@,
        Reg::R6 => "R6"@,
        Reg::R7 => "R7"@,
        Reg::R8 => "R8"@,
        Reg::R9 => "R9"@,
        Reg::R10 => "R10"@,
        Reg::R11 => "R11"@,
        Reg::R12 => "R12"@,
        Reg::R13 => "R13"@,
        Reg::R14 => "R14"@,
        Reg::R15 => "R15"@,
    }
}

/// The uppercase hex digit for a value below 16.
pub open spec fn hex_digit_char(d: nat) -> char {
    if d == 0 {
        '0'
    } else if d == 1 {
        '1'
    } else if d == 2 {
        '2'
    } else if d == 3 {
        '3'
    } else if d == 4 {
        '4'
    } else if d == 5 {
        '5'
    } else if d == 6 {
        '6'
    } else if d == 7 {
        '7'
    } else if d == 8 {
        '8'
    } else if d == 9 {
        '9'
    } else if d == 10 {
        'A'
    } else if d == 11 {
        'B'
    } else if d == 12 {
        'C'
    } else if d == 13 {
        'D'
    } else if d == 14 {
        'E'
    } else {
        'F'
    }
}

/// The uppercase hex digits of `v`, most significant first, no leading zeros
/// (a lone `0` for zero).
pub open spec fn hex_text(v: nat) -> Seq<char>
    decreases v,
{
    if v < 16 {
        seq![hex_digit_char(v)]
    } else {
        hex_text(v / 16) + seq![hex_digit_char(v % 16)]
    }
}

/// The canonical text of an operand: `R<id>`, `0x<hex>`, the raw label name,
/// `[R<id>]`, or `[0x<hex>]`.
pub open spec fn operand_text(o: Operand) -> Seq<char> {
    match o {
        Operand::Reg(r) => reg_text(r),
        Operand::Imm(v) => "0x"@ + hex_text(v as nat),
        Operand::Label(s) => s@,
        Operand::MemAtReg(r) => "["@ + reg_text(r) + "]"@,
        Operand::MemAtImm(v) => "[0x"@ + hex_text(v as nat) + "]"@,
    }
}

/// The canonical one-line assembly text of a verb: the lowercase mnemonic and
/// its operands, space-separated.
pub open spec fn verb_text(v: Verb) -> Seq<char> {
    match v {
        Verb::Mov(o1, o2) => "mov "@ + operand_text(o1) + " "@ + operand_text(o2),
        Verb::Jmp(o1) => "jmp "@ + operand_text(o1),
        Verb::Jz(o1, o2) => "jz "@ + operand_text(o1) + " "@ + operand_text(o2),
        Verb::Jnz(o1, o2) => "jnz "@ + operand_text(o1) + " "@ + operand_text(o2),
        Verb::Add(o1, o2) => "add "@ + operand_text(o1) + " "@ + operand_text(o2),
        Verb::Sub(o1, o2) => "sub "@ + operand_text(o1) + " "@ + operand_text(o2),
        Verb::And(o1, o2) => "and "@ + operand_text(o1) + " "@ + operand_text(o2),
        Verb::Or(o1, o2) => "or "@ + operand_text(o1) + " "@ + operand_text(o2),
        Verb::Not(o1) => "not "@ + operand_text(o1),
        Verb::Shl(o1, o2) => "shl "@ + operand_text(o1) + " "@ + operand_text(o2),
        Verb::Shr(o1, o2) => "shr "@ + operand_text(o1) + " "@ + operand_text(o2),
        Verb::Call(o1) => "call "@ + operand_text(o1),
        Verb::Ret => "ret"@,
        Verb::Dbg(o1) => "dbg "@ + operand_text(o1),
        Verb::DbgRegs => "dbg"@,
        Verb::Nop => "nop"@,
        Verb::Halt => "halt"@,
    }
}

/// Appends the uppercase hex digit of `d` to `s`.
fn append_hex_digit(s: &mut String, d: u8)
    requires
        d < 16,
    ensures
        final(s)@ == old(s)@ + seq![hex_digit_char(d as nat)],
{
    if d == 0 {
        s.append("0");
        proof {
            reveal_strlit("0");
            assert("0"@ =~= seq![hex_digit_char(d as nat)]);
        }
    } else if d == 1 {
        s.append("1");
        proof {
            reveal_strlit("1");
            assert("1"@ =~= seq![hex_digit_char(d as nat)]);
        }
    } else if d == 2 {
        s.append("2");
        proof {
            reveal_strlit("2");
            assert("2"@ =~= seq![hex_digit_char(d as nat)]);
        }
    } else if d == 3 {
        s.append("3");
        proof {
            reveal_strlit("3");
            assert("3"@ =~= seq![hex_digit_char(d as nat)]);
        }
    } else if d == 4 {
        s.append("4");
        proof {
            reveal_strlit("4");
            assert("4"@ =~= seq![hex_digit_char(d as nat)]);
        }
    } else if d == 5 {
        s.append("5");
        proof {
            reveal_strlit("5");
            assert("5"@ =~= seq![hex_digit_char(d as nat)]);
        }
    } else if d == 6 {
        s.append("6");
        proof {
            reveal_strlit("6");
            assert("6"@ =~= seq![hex_digit_char(d as nat)]);
        }
    } else if d == 7 {
        s.append("7");
        proof {
            reveal_strlit("7");
            assert("7"@ =~= seq![hex_digit_char(d as nat)]);
        }
    } else if d == 8 {
        s.append("8");
        proof {
            reveal_strlit("8");
            assert("8"@ =~= seq![hex_digit_char(d as nat)]);
        }
    } else if d == 9 {
        s.append("9");
        proof {
            reveal_strlit("9");
            assert("9"@ =~= seq![hex_digit_char(d as nat)]);
        }
    } else if d == 10 {
        s.append("A");
        proof {
            reveal_strlit("A");
            assert("A"@ =~= seq![hex_digit_char(d as nat)]);
        }
    } else if d == 11 {
        s.append("B");
        proof {
            reveal_strlit("B");
            assert("B"@ =~= seq![hex_digit_char(d as nat)]);
        }
    } else if d == 12 {
        s.append("C");
        proof {
            reveal_strlit("C");
            assert("C"@ =~= seq![hex_digit_char(d as nat)]);
        }
    } else if d == 13 {
        s.append("D");
        proof {
            reveal_strlit("D");
            assert("D"@ =~= seq![hex_digit_char(d as nat)]);
        }
    } else if d == 14 {
        s.append("E");
        proof {
            reveal_strlit("E");
            assert("E"@ =~= seq![hex_digit_char(d as nat)]);
        }
    } else {
        s.append("F");
        proof {
            reveal_strlit("F");
            assert("F"@ =~= seq![hex_digit_char(d as nat)]);
        }
    }
}

/// Appends the uppercase hex text of `v` (no leading zeros) to `s`.
fn append_hex(s: &mut String, v: u16)
    ensures
        final(s)@ == old(s)@ + hex_text(v as nat),
    decreases v,
{
    if v < 16 {
        append_hex_digit(s, v as u8);
    } else {
        append_hex(s, v / 16);
        append_hex_digit(s, (v % 16) as u8);
        assert(s@ =~= old(s)@ + hex_text(v as nat));
    }
}

impl Reg {
    /// The canonical text of the register, `R<id>`.
    pub fn to_text(&self) -> (r: String)
        ensures
            r@ == reg_text(*self),
    {
        match self {
            Reg::R0 => String::from_str("R0"),
            Reg::R1 => String::from_str("R1"),
            Reg::R2 => String::from_str("R2"),
            Reg::R3 => String::from_str("R3"),
            Reg::R4 => String::from_str("R4"),
            Reg::R5 => String::from_str("R5"),
            Reg::R6 => String::from_str("R6"),
            Reg::R7 => String::from_str("R7"),
            Reg::R8 => String::from_str("R8"),
            Reg::R9 => String::from_str("R9"),
            Reg::R10 => String::from_str("R10"),
            Reg::R11 => String::from_str("R11"),
            Reg::R12 => String::from_str("R12"),
            Reg::R13 => String::from_str("R13"),
            Reg::R14 => String::from_str("R14"),
            Reg::R15 => String::from_str("R15"),
        }
    }
}

impl Operand {
    /// The canonical text of the operand.
    pub fn to_text(&self) -> (r: String)
        ensures
            r@ == operand_text(*self),
    {
        match self {
            Operand::Reg(rg) => rg.to_text(),
            Operand::Imm(v) => {
                let mut s = String::from_str("0x");
                append_hex(&mut s, *v);
                s
            },
            Operand::Label(name) => name.clone(),
            Operand::MemAtReg(rg) => {
                let mut s = String::from_str("[");
                let rt = rg.to_text();
                s.append(rt.as_str());
                s.append("]");
                assert(s@ =~= operand_text(*self));
                s
            },
            Operand::MemAtImm(v) => {
                let mut s = String::from_str("[0x");
                append_hex(&mut s, *v);
                s.append("]");
                assert(s@ =~= operand_text(*self));
                s
            },
        }
    }
}

/// Builds `<mnemonic><operand>` for a one-operand verb.
fn one_operand_text(mnemonic: &str, o1: &Operand) -> (r: String)
    ensures
        r@ == mnemonic@ + operand_text(*o1),
{
    let mut s = String::from_str(mnemonic);
    let t1 = o1.to_text();
    s.append(t1.as_str());
    s
}

/// Builds `<mnemonic><operand> <operand>` for a two-operand verb.
fn two_operand_text(mnemonic: &str, o1: &Operand, o2: &Operand) -> (r: String)
    ensures
        r@ == mnemonic@ + operand_text(*o1) + " "@ + operand_text(*o2),
{
    let mut s = String::from_str(mnemonic);
    let t1 = o1.to_text();
    s.append(t1.as_str());
    s.append(" ");
    let t2 = o2.to_text();
    s.append(t2.as_str());
    assert(s@ =~= mnemonic@ + operand_text(*o1) + " "@ + operand_text(*o2));
    s
}

impl Verb {
    /// The canonical one-line assembly text of the instruction.
    pub fn to_text(&self) -> (r: String)
        ensures
            r@ == verb_text(*self),
    {
        match self {
            Verb::Mov(o1, o2) => two_operand_text("mov ", o1, o2),
            Verb::Jmp(o1) => one_operand_text("jmp ", o1),
            Verb::Jz(o1, o2) => two_operand_text("jz ", o1, o2),
            Verb::Jnz(o1, o2) => two_operand_text("jnz ", o1, o2),
            Verb::Add(o1, o2) => two_operand_text("add ", o1, o2),
            Verb::Sub(o1, o2) => two_operand_text("sub ", o1, o2),
            Verb::And(o1, o2) => two_operand_text("and ", o1, o2),
            Verb::Or(o1, o2) => two_operand_text("or ", o1, o2),
            Verb::Not(o1) => one_operand_text("not ", o1),
            Verb::Shl(o1, o2) => two_operand_text("shl ", o1, o2),
            Verb::Shr(o1, o2) => two_operand_text("shr ", o1, o2),
            Verb::Call(o1) => one_operand_text("call ", o1),
            Verb::Ret => String::from_str("ret"),
            Verb::Dbg(o1) => one_operand_text("dbg ", o1),
            Verb::DbgRegs => String::from_str("dbg"),
            Verb::Nop => String::from_str("nop"),
            Verb::Halt => String::from_str("halt"),
        }
    }
}

impl Operand {
    /// The register held by a register operand; any other kind is a
    /// wrong-operand-kind error carrying the operand's text.
    pub fn to_reg(&self) -> (r: Result<Reg, EncodeError>)
        ensures
            match r {
                Ok(rg) => *self == Operand::Reg(rg),
                Err(e) => !(*self matches Operand::Reg(_)) && (e matches
                    EncodeError::WrongOperandKind(d) && d@ == operand_text(*self)),
            },
    {
        match self {
            Operand::Reg(rg) => Ok(*rg),
            _ => Err(EncodeError::WrongOperandKind(self.to_text())),
        }
    }

    /// The value held by an immediate operand; any other kind is a
    /// wrong-operand-kind error carrying the operand's text.
    pub fn to_imm(&self) -> (r: Result<u16, EncodeError>)
        ensures
            match r {
                Ok(v) => *self == Operand::Imm(v),
                Err(e) => !(*self matches Operand::Imm(_)) && (e matches
                    EncodeError::WrongOperandKind(d) && d@ == operand_text(*self)),
            },
    {
        match self {
            Operand::Imm(v) => Ok(*v),
            _ => Err(EncodeError::WrongOperandKind(self.to_text())),
        }
    }
}

/// The high byte of a big-endian 16-bit immediate.
pub open spec fn imm_hi(v: u16) -> u8 {
    (v >> 8) as u8
}

/// The low byte of a big-endian 16-bit immediate.
pub open spec fn imm_lo(v: u16) -> u8 {
    (v & 0xFF) as u8
}

/// Two register ids packed into one byte: `hi` in the upper nibble, `lo` in
/// the lower.
pub open spec fn reg_pair(hi: Reg, lo: Reg) -> u8 {
    (reg_id(hi) << 4) | reg_id(lo)
}

/// The 3-byte encoding of a verb, or `None` where the verb/operand-kind
/// combination has no binary form (symbolic labels included).
pub open spec fn spec_encoding(v: Verb) -> Option<Seq<u8>> {
    match v {
        Verb::Mov(Operand::Reg(r1), Operand::Imm(imm)) => Some(
            seq![0x10u8 | reg_id(r1), imm_hi(imm), imm_lo(imm)],
        ),
        Verb::Mov(Operand::Reg(r1), Operand::MemAtImm(imm)) => Some(
            seq![0x20u8 | reg_id(r1), imm_hi(imm), imm_lo(imm)],
        ),
        Verb::Mov(Operand::MemAtImm(imm), Operand::Reg(r1)) => Some(
            seq![0x30u8 | reg_id(r1), imm_hi(imm), imm_lo(imm)],
        ),
        Verb::Mov(Operand::Reg(r1), Operand::Reg(r2)) => Some(
            seq![0xF0u8, 0x00u8, reg_pair(r1, r2)],
        ),
        Verb::Mov(Operand::Reg(ra), Operand::MemAtReg(rb)) => Some(
            seq![0xF0u8, 0x01u8, reg_pair(ra, rb)],
        ),
        Verb::Mov(Operand::MemAtReg(ra), Operand::Reg(rb)) => Some(
            seq![0xF0u8, 0x02u8, reg_pair(ra, rb)],
        ),
        Verb::Mov(_, _) => None,
        Verb::Jmp(Operand::Imm(imm)) => Some(seq![0xE3u8, imm_hi(imm), imm_lo(imm)]),
        Verb::Jmp(_) => None,
        Verb::Jz(Operand::Imm(imm), Operand::Reg(r)) => Some(
            seq![0x40u8 | reg_id(r), imm_hi(imm), imm_lo(imm)],
        ),
        Verb::Jz(_, _) => None,
        Verb::Jnz(Operand::Imm(imm), Operand::Reg(r)) => Some(
            seq![0x50u8 | reg_id(r), imm_hi(imm), imm_lo(imm)],
        ),
        Verb::Jnz(_, _) => None,
        Verb::Add(Operand::Reg(r1), Operand::Reg(r2)) => Some(
            seq![0xF0u8, 0x20u8, reg_pair(r1, r2)],
        ),
        Verb::Add(Operand::Reg(r1), Operand::Imm(imm)) => Some(
            seq![0xA0u8 | reg_id(r1), imm_hi(imm), imm_lo(imm)],
        ),
        Verb::Add(_, _) => None,
        Verb::Sub(Operand::Reg(r1), Operand::Reg(r2)) => Some(
            seq![0xF0u8, 0x21u8, reg_pair(r1, r2)],
        ),
        Verb::Sub(Operand::Reg(r1), Operand::Imm(imm)) => Some(
            seq![0xB0u8 | reg_id(r1), imm_hi(imm), imm_lo(imm)],
        ),
        Verb::Sub(_, _) => None,
        Verb::And(Operand::Reg(r1), Operand::Reg(r2)) => Some(
            seq![0xF0u8, 0x22u8, reg_pair(r1, r2)],
        ),
        Verb::And(Operand::Reg(r1), Operand::Imm(imm)) => Some(
            seq![0xC0u8 | reg_id(r1), imm_hi(imm), imm_lo(imm)],
        ),
        Verb::And(_, _) => None,
        Verb::Or(Operand::Reg(r1), Operand::Reg(r2)) => Some(
            seq![0xF0u8, 0x23u8, reg_pair(r1, r2)],
        ),
        Verb::Or(Operand::Reg(r1), Operand::Imm(imm)) => Some(
            seq![0xD0u8 | reg_id(r1), imm_hi(imm), imm_lo(imm)],
        ),
        Verb::Or(_, _) => None,
        Verb::Not(Operand::Reg(r)) => Some(seq![0xF0u8, 0x24u8, reg_id(r) << 4]),
        Verb::Not(_) => None,
        Verb::Shl(Operand::Reg(r1), Operand::Reg(r2)) => Some(
            seq![0xF0u8, 0x31u8, reg_pair(r1, r2)],
        ),
        Verb::Shl(Operand::Reg(r), Operand::Imm(imm)) => Some(
            seq![0xF0u8, 0x30u8, (reg_id(r) << 4) | ((imm & 0xF) as u8)],
        ),
        Verb::Shl(_, _) => None,
        Verb::Shr(Operand::Reg(r1), Operand::Reg(r2)) => Some(
            seq![0xF0u8, 0x33u8, reg_pair(r1, r2)],
        ),
        Verb::Shr(Operand::Reg(r), Operand::Imm(imm)) => Some(
            seq![0xF0u8, 0x32u8, (reg_id(r) << 4) | ((imm & 0xF) as u8)],
        ),
        Verb::Shr(_, _) => None,
        Verb::Call(Operand::Imm(imm)) => Some(seq![0xE4u8, imm_hi(imm), imm_lo(imm)]),
        Verb::Call(_) => None,
        Verb::Ret => Some(seq![0xFFu8, 0xFFu8, 0xF0u8]),
        Verb::Dbg(Operand::Imm(imm)) => Some(seq![0xE0u8, imm_hi(imm), imm_lo(imm)]),
        Verb::Dbg(_) => None,
        Verb::DbgRegs => Some(seq![0xE1u8, 0x00u8, 0x00u8]),
        Verb::Nop => Some(seq![0x00u8, 0x00u8, 0x00u8]),
        Verb::Halt => Some(seq![0xFFu8, 0xFFu8, 0xFFu8]),
    }
}

/// For an unencodable verb, the operand (if any) on which an accessor is the
/// first to meet the wrong kind; the order matches the encoder's checks
/// (for Jz/Jnz the register slot is checked before the target).
pub open spec fn wrong_kind_operand(v: Verb) -> Option<Operand> {
    match v {
        Verb::Jmp(o1) => if !(o1 matches Operand::Imm(_)) {
            Some(o1)
        } else {
            None
        },
        Verb::Jz(o1, o2) => if !(o2 matches Operand::Reg(_)) {
            Some(o2)
        } else if !(o1 matches Operand::Imm(_)) {
            Some(o1)
        } else {
            None
        },
        Verb::Jnz(o1, o2) => if !(o2 matches Operand::Reg(_)) {
            Some(o2)
        } else if !(o1 matches Operand::Imm(_)) {
            Some(o1)
        } else {
            None
        },
        Verb::Not(o1) => if !(o1 matches Operand::Reg(_)) {
            Some(o1)
        } else {
            None
        },
        Verb::Call(o1) => if !(o1 matches Operand::Imm(_)) {
            Some(o1)
        } else {
            None
        },
        Verb::Dbg(o1) => if !(o1 matches Operand::Imm(_)) {
            Some(o1)
        } else {
            None
        },
        _ => None,
    }
}

/// What the encoder reports of an unencodable verb: a wrong-operand-kind
/// error carrying the offending operand's text where an accessor fails, else
/// an unsupported-combination error carrying the verb's text.
pub open spec fn encode_err_matches(v: Verb, e: EncodeError) -> bool {
    match wrong_kind_operand(v) {
        Some(o) => e matches EncodeError::WrongOperandKind(d) && d@ == operand_text(o),
        None => e matches EncodeError::UnsupportedOperands(d) && d@ == verb_text(v),
    }
}

/// The big-endian bytes of a 16-bit immediate.
fn imm_bytes(v: u16) -> (r: (u8, u8))
    ensures
        r.0 == imm_hi(v),
        r.1 == imm_lo(v),
{
    ((v >> 8) as u8, (v & 0xFF) as u8)
}

/// Places the low 4 bits of `imm` in the low nibble of `b`, keeping the high
/// nibble; the rest of the immediate is dropped by design.
pub fn write_imm_to_byte_lower(imm: u16, b: &mut u8)
    ensures
        *final(b) == (*old(b) & 0xF0) | ((imm & 0xF) as u8),
{
    assert((((imm & 0xFF) as u8) & 0x0F) == ((imm & 0xF) as u8)) by (bit_vector);
    *b &= 0xF0;
    *b |= ((imm & 0xFF) as u8) & 0x0F;
}

/// Every register id fits in a nibble.
pub proof fn lemma_reg_id_bound(r: Reg)
    ensures
        reg_id(r) < 16,
{
}

/// An opcode byte whose low nibble is free, with the register id placed there.
fn opcode_with_reg(base: u8, r: &Reg) -> (b: u8)
    requires
        base % 16 == 0,
    ensures
        b == base | reg_id(*r),
{
    let mut b: u8 = base;
    r.write_into_byte_lower(&mut b);
    proof {
        lemma_reg_id_bound(*r);
        let id = reg_id(*r);
        assert(b == base | id) by (bit_vector)
            requires
                b == (base & 0xF0) | id,
                id < 16,
                base % 16 == 0,
        ;
    }
    b
}

/// Two register ids packed into one byte, `hi` above `lo`.
fn reg_pair_byte(hi: &Reg, lo: &Reg) -> (b: u8)
    ensures
        b == reg_pair(*hi, *lo),
{
    let mut b: u8 = 0;
    hi.write_into_byte_upper(&mut b);
    let ghost mid: u8 = b;
    lo.write_into_byte_lower(&mut b);
    proof {
        lemma_reg_id_bound(*hi);
        lemma_reg_id_bound(*lo);
        let id1 = reg_id(*hi);
        let id2 = reg_id(*lo);
        assert(b == (id1 << 4) | id2) by (bit_vector)
            requires
                mid == (0u8 & 0x0F) | ((id1 << 4) as u8),
                b == (mid & 0xF0) | id2,
                id1 < 16,
                id2 < 16,
        ;
    }
    b
}

impl Verb {
    /// Encodes a fully resolved instruction into its 3-byte binary form, or
    /// reports which operand or combination made encoding impossible.
    pub fn to_bytes(&self) -> (r: Result<[u8; 3], EncodeError>)
        ensures
            match r {
                Ok(bytes) => spec_encoding(*self) matches Some(enc) && bytes@ == enc,
                Err(e) => spec_encoding(*self) is None && encode_err_matches(*self, e),
            },
    {
        match self {
            Verb::Mov(Operand::Reg(r1), Operand::Imm(imm)) => {
                let b0 = opcode_with_reg(0x10, r1);
                let (b1, b2) = imm_bytes(*imm);
                let bytes: [u8; 3] = [b0, b1, b2];
                assert(bytes@ =~= spec_encoding(*self).unwrap());
                Ok(bytes)
            },
            Verb::Mov(Operand::Reg(r1), Operand::MemAtImm(imm)) => {
                let b0 = opcode_with_reg(0x20, r1);
                let (b1, b2) = imm_bytes(*imm);
                let bytes: [u8; 3] = [b0, b1, b2];
                assert(bytes@ =~= spec_encoding(*self).unwrap());
                Ok(bytes)
            },
            Verb::Mov(Operand::MemAtImm(imm), Operand::Reg(r1)) => {
                let b0 = opcode_with_reg(0x30, r1);
                let (b1, b2) = imm_bytes(*imm);
                let bytes: [u8; 3] = [b0, b1, b2];
                assert(bytes@ =~= spec_encoding(*self).unwrap());
                Ok(bytes)
            },
            Verb::Mov(Operand::Reg(r1), Operand::Reg(r2)) => {
                let bytes: [u8; 3] = [0xF0, 0x00, reg_pair_byte(r1, r2)];
                assert(bytes@ =~= spec_encoding(*self).unwrap());
                Ok(bytes)
            },
            Verb::Mov(Operand::Reg(ra), Operand::MemAtReg(rb)) => {
                let bytes: [u8; 3] = [0xF0, 0x01, reg_pair_byte(ra, rb)];
                assert(bytes@ =~= spec_encoding(*self).unwrap());
                Ok(bytes)
            },
            Verb::Mov(Operand::MemAtReg(ra), Operand::Reg(rb)) => {
                let bytes: [u8; 3] = [0xF0, 0x02, reg_pair_byte(ra, rb)];
                assert(bytes@ =~= spec_encoding(*self).unwrap());
                Ok(bytes)
            },
            Verb::Mov(_, _) => Err(EncodeError::UnsupportedOperands(self.to_text())),
            Verb::Jmp(Operand::Imm(imm)) => {
                let (b1, b2) = imm_bytes(*imm);
                let bytes: [u8; 3] = [0xE3, b1, b2];
                assert(bytes@ =~= spec_encoding(*self).unwrap());
                Ok(bytes)
            },
            Verb::Jmp(o1) => {
                match o1.to_imm() {
                    Err(e) => Err(e),
                    Ok(_) => {
                        proof {
                            assert(false);
                        }
                        Err(EncodeError::UnsupportedOperands(String::new()))
                    },
                }
            },
            Verb::Jz(Operand::Imm(imm), Operand::Reg(rg)) => {
                let b0 = opcode_with_reg(0x40, rg);
                let (b1, b2) = imm_bytes(*imm);
                let bytes: [u8; 3] = [b0, b1, b2];
                assert(bytes@ =~= spec_encoding(*self).unwrap());
                Ok(bytes)
            },
            Verb::Jz(o1, o2) => {
                match o2.to_reg() {
                    Err(e) => Err(e),
                    Ok(_) => match o1.to_imm() {
                        Err(e) => Err(e),
                        Ok(_) => {
                            proof {
                                assert(false);
                            }
                            Err(EncodeError::UnsupportedOperands(String::new()))
                        },
                    },
                }
            },
            Verb::Jnz(Operand::Imm(imm), Operand::Reg(rg)) => {
                let b0 = opcode_with_reg(0x50, rg);
                let (b1, b2) = imm_bytes(*imm);
                let bytes: [u8; 3] = [b0, b1, b2];
                assert(bytes@ =~= spec_encoding(*self).unwrap());
                Ok(bytes)
            },
            Verb::Jnz(o1, o2) => {
                match o2.to_reg() {
                    Err(e) => Err(e),
                    Ok(_) => match o1.to_imm() {
                        Err(e) => Err(e),
                        Ok(_) => {
                            proof {
                                assert(false);
                            }
                            Err(EncodeError::UnsupportedOperands(String::new()))
                        },
                    },
                }
            },
            Verb::Add(Operand::Reg(r1), Operand::Reg(r2)) => {
                let bytes: [u8; 3] = [0xF0, 0x20, reg_pair_byte(r1, r2)];
                assert(bytes@ =~= spec_encoding(*self).unwrap());
                Ok(bytes)
            },
            Verb::Add(Operand::Reg(r1), Operand::Imm(imm)) => {
                let b0 = opcode_with_reg(0xA0, r1);
                let (b1, b2) = imm_bytes(*imm);
                let bytes: [u8; 3] = [b0, b1, b2];
                assert(bytes@ =~= spec_encoding(*self).unwrap());
                Ok(bytes)
            },
            Verb::Add(_, _) => Err(EncodeError::UnsupportedOperands(self.to_text())),
            Verb::Sub(Operand::Reg(r1), Operand::Reg(r2)) => {
                let bytes: [u8; 3] = [0xF0, 0x21, reg_pair_byte(r1, r2)];
                assert(bytes@ =~= spec_encoding(*self).unwrap());
                Ok(bytes)
            },
            Verb::Sub(Operand::Reg(r1), Operand::Imm(imm)) => {
                let b0 = opcode_with_reg(0xB0, r1);
                let (b1, b2) = imm_bytes(*imm);
                let bytes: [u8; 3] = [b0, b1, b2];
                assert(bytes@ =~= spec_encoding(*self).unwrap());
                Ok(bytes)
            },
            Verb::Sub(_, _) => Err(EncodeError::UnsupportedOperands(self.to_text())),
            Verb::And(Operand::Reg(r1), Operand::Reg(r2)) => {
                let bytes: [u8; 3] = [0xF0, 0x22, reg_pair_byte(r1, r2)];
                assert(bytes@ =~= spec_encoding(*self).unwrap());
                Ok(bytes)
            },
            Verb::And(Operand::Reg(r1), Operand::Imm(imm)) => {
                let b0 = opcode_with_reg(0xC0, r1);
                let (b1, b2) = imm_bytes(*imm);
                let bytes: [u8; 3] = [b0, b1, b2];
                assert(bytes@ =~= spec_encoding(*self).unwrap());
                Ok(bytes)
            },
            Verb::And(_, _) => Err(EncodeError::UnsupportedOperands(self.to_text())),
            Verb::Or(Operand::Reg(r1), Operand::Reg(r2)) => {
                let bytes: [u8; 3] = [0xF0, 0x23, reg_pair_byte(r1, r2)];
                assert(bytes@ =~= spec_encoding(*self).unwrap());
                Ok(bytes)
            },
            Verb::Or(Operand::Reg(r1), Operand::Imm(imm)) => {
                let b0 = opcode_with_reg(0xD0, r1);
                let (b1, b2) = imm_bytes(*imm);
                let bytes: [u8; 3] = [b0, b1, b2];
                assert(bytes@ =~= spec_encoding(*self).unwrap());
                Ok(bytes)
            },
            Verb::Or(_, _) => Err(EncodeError::UnsupportedOperands(self.to_text())),
            Verb::Not(Operand::Reg(rg)) => {
                let bytes: [u8; 3] = [0xF0, 0x24, reg_upper_byte(rg)];
                assert(bytes@ =~= spec_encoding(*self).unwrap());
                Ok(bytes)
            },
            Verb::Not(o1) => {
                match o1.to_reg() {
                    Err(e) => Err(e),
                    Ok(_) => {
                        proof {
                            assert(false);
                        }
                        Err(EncodeError::UnsupportedOperands(String::new()))
                    },
                }
            },
            Verb::Shl(Operand::Reg(r1), Operand::Reg(r2)) => {
                let bytes: [u8; 3] = [0xF0, 0x31, reg_pair_byte(r1, r2)];
                assert(bytes@ =~= spec_encoding(*self).unwrap());
                Ok(bytes)
            },
            Verb::Shl(Operand::Reg(rg), Operand::Imm(imm)) => {
                let mut b2 = reg_upper_byte(rg);
                write_imm_to_byte_lower(*imm, &mut b2);
                proof {
                    lemma_reg_id_bound(*rg);
                    let id = reg_id(*rg);
                    let iv = *imm;
                    assert(b2 == (id << 4) | ((iv & 0xF) as u8)) by (bit_vector)
                        requires
                            b2 == (((id << 4) as u8) & 0xF0) | ((iv & 0xF) as u8),
                            id < 16,
                    ;
                }
                let bytes: [u8; 3] = [0xF0, 0x30, b2];
                assert(bytes@ =~= spec_encoding(*self).unwrap());
                Ok(bytes)
            },
            Verb::Shl(_, _) => Err(EncodeError::UnsupportedOperands(self.to_text())),
            Verb::Shr(Operand::Reg(r1), Operand::Reg(r2)) => {
                let bytes: [u8; 3] = [0xF0, 0x33, reg_pair_byte(r1, r2)];
                assert(bytes@ =~= spec_encoding(*self).unwrap());
                Ok(bytes)
            },
            Verb::Shr(Operand::Reg(rg), Operand::Imm(imm)) => {
                let mut b2 = reg_upper_byte(rg);
                write_imm_to_byte_lower(*imm, &mut b2);
                proof {
                    lemma_reg_id_bound(*rg);
                    let id = reg_id(*rg);
                    let iv = *imm;
                    assert(b2 == (id << 4) | ((iv & 0xF) as u8)) by (bit_vector)
                        requires
                            b2 == (((id << 4) as u8) & 0xF0) | ((iv & 0xF) as u8),
                            id < 16,
                    ;
                }
                let bytes: [u8; 3] = [0xF0, 0x32, b2];
                assert(bytes@ =~= spec_encoding(*self).unwrap());
                Ok(bytes)
            },
            Verb::Shr(_, _) => Err(EncodeError::UnsupportedOperands(self.to_text())),
            Verb::Call(Operand::Imm(imm)) => {
                let (b1, b2) = imm_bytes(*imm);
                let bytes: [u8; 3] = [0xE4, b1, b2];
                assert(bytes@ =~= spec_encoding(*self).unwrap());
                Ok(bytes)
            },
            Verb::Call(o1) => {
                match o1.to_imm() {
                    Err(e) => Err(e),
                    Ok(_) => {
                        proof {
                            assert(false);
                        }
                        Err(EncodeError::UnsupportedOperands(String::new()))
                    },
                }
            },
            Verb::Ret => {
                let bytes: [u8; 3] = [0xFF, 0xFF, 0xF0];
                assert(bytes@ =~= spec_encoding(*self).unwrap());
                Ok(bytes)
            },
            Verb::Dbg(Operand::Imm(imm)) => {
                let (b1, b2) = imm_bytes(*imm);
                let bytes: [u8; 3] = [0xE0, b1, b2];
                assert(bytes@ =~= spec_encoding(*self).unwrap());
                Ok(bytes)
            },
            Verb::Dbg(o1) => {
                match o1.to_imm() {
                    Err(e) => Err(e),
                    Ok(_) => {
                        proof {
                            assert(false);
                        }
                        Err(EncodeError::UnsupportedOperands(String::new()))
                    },
                }
            },
            Verb::DbgRegs => {
                let bytes: [u8; 3] = [0xE1, 0x00, 0x00];
                assert(bytes@ =~= spec_encoding(*self).unwrap());
                Ok(bytes)
            },
            Verb::Nop => {
                let bytes: [u8; 3] = [0x00, 0x00, 0x00];
                assert(bytes@ =~= spec_encoding(*self).unwrap());
                Ok(bytes)
            },
            Verb::Halt => {
                let bytes: [u8; 3] = [0xFF, 0xFF, 0xFF];
                assert(bytes@ =~= spec_encoding(*self).unwrap());
                Ok(bytes)
            },
        }
    }
}

/// A register id alone in the upper nibble, lower nibble zero.
fn reg_upper_byte(r: &Reg) -> (b: u8)
    ensures
        b == reg_id(*r) << 4,
{
    let mut b: u8 = 0;
    r.write_into_byte_upper(&mut b);
    proof {
        let id = reg_id(*r);
        assert(b == id << 4) by (bit_vector)
            requires
                b == (0u8 & 0x0F) | ((id << 4) as u8),
        ;
    }
    b
}

/// A byte as exactly two uppercase hex digits.
pub open spec fn byte_hex(b: u8) -> Seq<char> {
    seq![hex_digit_char((b >> 4) as nat), hex_digit_char((b & 0x0F) as nat)]
}

/// The listing line of an encodable verb: the three bytes as zero-padded
/// uppercase hex joined by `_`, then two spaces, `//`, a space and the verb's
/// assembly text.
pub open spec fn hex_line_text(v: Verb) -> Seq<char>
    recommends
        spec_encoding(v) is Some,
{
    let enc = spec_encoding(v).unwrap();
    byte_hex(enc[0]) + "_"@ + byte_hex(enc[1]) + "_"@ + byte_hex(enc[2]) + "  // "@ + verb_text(v)
}

/// Appends the two hex digits of `b` to `s`.
fn append_byte_hex(s: &mut String, b: u8)
    ensures
        final(s)@ == old(s)@ + byte_hex(b),
{
    assert(b >> 4 < 16 && b & 0x0F < 16) by (bit_vector);
    append_hex_digit(s, b >> 4);
    append_hex_digit(s, b & 0x0F);
    assert(s@ =~= old(s)@ + byte_hex(b));
}

impl Verb {
    /// The object-listing line for the instruction: its encoding as
    /// `XX_XX_XX  // <assembly text>`; fails exactly where encoding fails.
    pub fn as_hex_file_line(&self) -> (r: Result<String, EncodeError>)
        ensures
            match r {
                Ok(s) => spec_encoding(*self) is Some && s@ == hex_line_text(*self),
                Err(e) => spec_encoding(*self) is None && encode_err_matches(*self, e),
            },
    {
        match self.to_bytes() {
            Err(e) => Err(e),
            Ok(bytes) => {
                let mut s = String::new();
                append_byte_hex(&mut s, bytes[0]);
                s.append("_");
                append_byte_hex(&mut s, bytes[1]);
                s.append("_");
                append_byte_hex(&mut s, bytes[2]);
                s.append("  // ");
                let t = self.to_text();
                s.append(t.as_str());
                assert(s@ =~= hex_line_text(*self));
                Ok(s)
            },
        }
    }
}

} // verus!
