use vstd::prelude::*;
use crate::arch_def::{Architecture, Instruction, OperandKind, Symbol};
use crate::parse::PlausibleOperator;
use crate::sample_isa::{collect_pair, collect_triple, parse_register, register_number};

verus! {

/// SISA-I: a 16-bit teaching instruction set with eight registers. Each
/// instruction is one little-endian word: a 4-bit opcode on top, then register
/// fields of three bits and immediates of six or eight bits.
#[derive(Clone, Copy, Debug)]
pub struct SisaI;

#[derive(Clone, Copy, Debug, PartialEq, Eq, Structural)]
pub enum SisaIInstruction {
    LogicArithmetic(u8),
    Comparison(u8),
    Addi,
    Ld,
    St,
    Movi,
    Movhi,
    Bz,
    Bnz,
    In,
    Out,
}

#[derive(Clone, Copy, Debug, PartialEq, Eq, Structural)]
pub enum SisaIOperandKind {
    Reg,
    Imm6s,
    Imm8s,
    Imm8u,
}

#[derive(Clone, Copy, Debug, PartialEq, Eq, Structural)]
pub enum SisaIOperand {
    Reg(u8),
    Imm6(u8),
    Imm8(u8),
}

#[derive(Clone, Copy, Debug, PartialEq, Eq, Structural)]
pub enum SisaISymbol {
    Reg(u8),
}

impl Architecture for SisaI {
    type Symbol = SisaISymbol;
    type OperandKind = SisaIOperandKind;
    type Instruction = SisaIInstruction;
}

impl Symbol for SisaISymbol {
    /// `r0` to `r7`.
    open spec fn spec_parse(text: Seq<char>) -> Option<SisaISymbol> {
        match register_number(text) {
            Some(n) => if n < 8 {
                Some(SisaISymbol::Reg(n))
            } else {
                None
            },
            None => None,
        }
    }

    fn parse(text: &str) -> (r: Option<SisaISymbol>) {
        match parse_register(text) {
            Some(n) => if n < 8 {
                Some(SisaISymbol::Reg(n))
            } else {
                None
            },
            None => None,
        }
    }
}

/// The byte that holds `v` in two's complement, for `v` in -128..=255.
pub open spec fn byte_of(v: int) -> u8 {
    if v < 0 {
        (v + 256) as u8
    } else {
        v as u8
    }
}

impl OperandKind<SisaISymbol> for SisaIOperandKind {
    type Operand = SisaIOperand;

    /// Signed immediates of six and eight bits, an unsigned one of eight.
    open spec fn spec_parse(&self, op: PlausibleOperator<SisaISymbol>) -> Option<SisaIOperand> {
        match (*self, op) {
            (SisaIOperandKind::Reg, PlausibleOperator::Symbol(SisaISymbol::Reg(r))) => Some(SisaIOperand::Reg(r)),
            (SisaIOperandKind::Imm6s, PlausibleOperator::Value(v)) => if -32 <= v < 32 {
                Some(SisaIOperand::Imm6(byte_of(v as int)))
            } else {
                None
            },
            (SisaIOperandKind::Imm8s, PlausibleOperator::Value(v)) => if -128 <= v < 128 {
                Some(SisaIOperand::Imm8(byte_of(v as int)))
            } else {
                None
            },
            (SisaIOperandKind::Imm8u, PlausibleOperator::Value(v)) => if 0 <= v < 256 {
                Some(SisaIOperand::Imm8(v as u8))
            } else {
                None
            },
            _ => None,
        }
    }

    fn parse(&self, op: PlausibleOperator<SisaISymbol>) -> (r: Option<SisaIOperand>) {
        match (self, op) {
            (SisaIOperandKind::Reg, PlausibleOperator::Symbol(SisaISymbol::Reg(r))) => Some(SisaIOperand::Reg(r)),
            (SisaIOperandKind::Imm6s, PlausibleOperator::Value(v)) => if -32 <= v && v < 32 {
                Some(SisaIOperand::Imm6((if v < 0 { v + 256 } else { v }) as u8))
            } else {
                None
            },
            (SisaIOperandKind::Imm8s, PlausibleOperator::Value(v)) => if -128 <= v && v < 128 {
                Some(SisaIOperand::Imm8((if v < 0 { v + 256 } else { v }) as u8))
            } else {
                None
            },
            (SisaIOperandKind::Imm8u, PlausibleOperator::Value(v)) => if 0 <= v && v < 256 {
                Some(SisaIOperand::Imm8(v as u8))
            } else {
                None
            },
            _ => None,
        }
    }

    fn matches(&self, op: &PlausibleOperator<SisaISymbol>) -> (r: bool) {
        match (self, op) {
            (SisaIOperandKind::Reg, PlausibleOperator::Symbol(SisaISymbol::Reg(_))) => true,
            (SisaIOperandKind::Imm6s, PlausibleOperator::Value(v)) => -32 <= *v && *v < 32,
            (SisaIOperandKind::Imm8s, PlausibleOperator::Value(v)) => -128 <= *v && *v < 128,
            (SisaIOperandKind::Imm8u, PlausibleOperator::Value(v)) => 0 <= *v && *v < 256,
            _ => false,
        }
    }
}

/// The opcode, in the top four bits of the word.
pub open spec fn opcode(inst: SisaIInstruction) -> int {
    match inst {
        SisaIInstruction::LogicArithmetic(_) => 0,
        SisaIInstruction::Comparison(_) => 1,
        SisaIInstruction::Addi => 2,
        SisaIInstruction::Ld => 3,
        SisaIInstruction::St => 4,
        SisaIInstruction::Movi | SisaIInstruction::Movhi => 5,
        SisaIInstruction::Bz | SisaIInstruction::Bnz => 6,
        SisaIInstruction::In | SisaIInstruction::Out => 7,
    }
}

/// Bit 8 tells apart the two instructions that share an opcode and operands.
pub open spec fn variant_bit(inst: SisaIInstruction) -> int {
    match inst {
        SisaIInstruction::Movhi | SisaIInstruction::Bnz | SisaIInstruction::Out => 1,
        _ => 0,
    }
}

/// A register field of three bits, placed by multiplying with `unit`.
pub open spec fn reg_field(r: u8, unit: int) -> int {
    (r as int % 8) * unit
}

/// The low bits of the word: the operand fields, and the function field of the
/// arithmetic, logic and comparison instructions. Operands of the wrong kinds
/// or number have none.
pub open spec fn operand_fields(inst: SisaIInstruction, ops: Seq<SisaIOperand>) -> Option<int> {
    match inst {
        SisaIInstruction::LogicArithmetic(3) => if ops.len() == 2 {
            match (ops[0], ops[1]) {
                (SisaIOperand::Reg(rd), SisaIOperand::Reg(ra)) => Some(3 * 8 + reg_field(ra, 64) + reg_field(rd, 512)),
                _ => None,
            }
        } else {
            None
        },
        SisaIInstruction::LogicArithmetic(f) | SisaIInstruction::Comparison(f) => if ops.len() == 3 {
            match (ops[0], ops[1], ops[2]) {
                (SisaIOperand::Reg(rd), SisaIOperand::Reg(ra), SisaIOperand::Reg(rb)) =>
                    Some(reg_field(rb, 1) + reg_field(f, 8) + reg_field(ra, 64) + reg_field(rd, 512)),
                _ => None,
            }
        } else {
            None
        },
        SisaIInstruction::Addi => if ops.len() == 3 {
            match (ops[0], ops[1], ops[2]) {
                (SisaIOperand::Reg(rd), SisaIOperand::Reg(ra), SisaIOperand::Imm6(imm)) =>
                    Some(imm as int % 64 + reg_field(ra, 64) + reg_field(rd, 512)),
                _ => None,
            }
        } else {
            None
        },
        SisaIInstruction::Ld => if ops.len() == 3 {
            match (ops[0], ops[1], ops[2]) {
                (SisaIOperand::Reg(rd), SisaIOperand::Imm6(off), SisaIOperand::Reg(ra)) =>
                    Some(off as int % 64 + reg_field(ra, 64) + reg_field(rd, 512)),
                _ => None,
            }
        } else {
            None
        },
        SisaIInstruction::St => if ops.len() == 3 {
            match (ops[0], ops[1], ops[2]) {
                (SisaIOperand::Imm6(off), SisaIOperand::Reg(ra), SisaIOperand::Reg(rb)) =>
                    Some(off as int % 64 + reg_field(ra, 64) + reg_field(rb, 512)),
                _ => None,
            }
        } else {
            None
        },
        SisaIInstruction::Out => if ops.len() == 2 {
            match (ops[0], ops[1]) {
                (SisaIOperand::Imm8(imm), SisaIOperand::Reg(r)) => Some(imm as int + reg_field(r, 512)),
                _ => None,
            }
        } else {
            None
        },
        _ => if ops.len() == 2 {
            match (ops[0], ops[1]) {
                (SisaIOperand::Reg(r), SisaIOperand::Imm8(imm)) => Some(imm as int + reg_field(r, 512)),
                _ => None,
            }
        } else {
            None
        },
    }
}

/// The instruction word.
pub open spec fn word(inst: SisaIInstruction, ops: Seq<SisaIOperand>) -> Option<int> {
    match operand_fields(inst, ops) {
        Some(fields) => Some(opcode(inst) * 4096 + variant_bit(inst) * 256 + fields),
        None => None,
    }
}

/// The low bits of the word, as `operand_fields` gives them.
fn fields_of(inst: SisaIInstruction, ops: Vec<SisaIOperand>) -> (r: Option<u32>)
    ensures
        match operand_fields(inst, ops@) {
            Some(f) => r is Some && r->Some_0 as int == f && f < 256 * 16,
            None => r is None,
        },
{
    match inst {
        SisaIInstruction::LogicArithmetic(3) => match collect_pair(ops) {
            Some((SisaIOperand::Reg(rd), SisaIOperand::Reg(ra))) => Some(3 * 8 + (ra as u32 % 8) * 64 + (rd as u32 % 8) * 512),
            _ => None,
        },
        SisaIInstruction::LogicArithmetic(f) | SisaIInstruction::Comparison(f) => match collect_triple(ops) {
            Some((SisaIOperand::Reg(rd), SisaIOperand::Reg(ra), SisaIOperand::Reg(rb))) =>
                Some((rb as u32 % 8) + (f as u32 % 8) * 8 + (ra as u32 % 8) * 64 + (rd as u32 % 8) * 512),
            _ => None,
        },
        SisaIInstruction::Addi => match collect_triple(ops) {
            Some((SisaIOperand::Reg(rd), SisaIOperand::Reg(ra), SisaIOperand::Imm6(imm))) =>
                Some(imm as u32 % 64 + (ra as u32 % 8) * 64 + (rd as u32 % 8) * 512),
            _ => None,
        },
        SisaIInstruction::Ld => match collect_triple(ops) {
            Some((SisaIOperand::Reg(rd), SisaIOperand::Imm6(off), SisaIOperand::Reg(ra))) =>
                Some(off as u32 % 64 + (ra as u32 % 8) * 64 + (rd as u32 % 8) * 512),
            _ => None,
        },
        SisaIInstruction::St => match collect_triple(ops) {
            Some((SisaIOperand::Imm6(off), SisaIOperand::Reg(ra), SisaIOperand::Reg(rb))) =>
                Some(off as u32 % 64 + (ra as u32 % 8) * 64 + (rb as u32 % 8) * 512),
            _ => None,
        },
        SisaIInstruction::Out => match collect_pair(ops) {
            Some((SisaIOperand::Imm8(imm), SisaIOperand::Reg(r))) => Some(imm as u32 + (r as u32 % 8) * 512),
            _ => None,
        },
        _ => match collect_pair(ops) {
            Some((SisaIOperand::Reg(r), SisaIOperand::Imm8(imm))) => Some(imm as u32 + (r as u32 % 8) * 512),
            _ => None,
        },
    }
}

impl Instruction<SisaIOperandKind, SisaIOperand> for SisaIInstruction {
    open spec fn spec_name(&self) -> Seq<char> {
        match self {
            SisaIInstruction::LogicArithmetic(0) => "and"@,
            SisaIInstruction::LogicArithmetic(1) => "or"@,
            SisaIInstruction::LogicArithmetic(2) => "xor"@,
            SisaIInstruction::LogicArithmetic(3) => "not"@,
            SisaIInstruction::LogicArithmetic(4) => "add"@,
            SisaIInstruction::LogicArithmetic(5) => "sub"@,
            SisaIInstruction::LogicArithmetic(6) => "sha"@,
            SisaIInstruction::LogicArithmetic(7) => "shl"@,
            SisaIInstruction::Comparison(0) => "cmplt"@,
            SisaIInstruction::Comparison(1) => "cmple"@,
            SisaIInstruction::Comparison(3) => "cmpeq"@,
            SisaIInstruction::Comparison(4) => "cmpltu"@,
            SisaIInstruction::Comparison(5) => "cmpleu"@,
            SisaIInstruction::Addi => "addi"@,
            SisaIInstruction::Ld => "ld"@,
            SisaIInstruction::St => "st"@,
            SisaIInstruction::Movi => "movi"@,
            SisaIInstruction::Movhi => "movhi"@,
            SisaIInstruction::Bz => "bz"@,
            SisaIInstruction::Bnz => "bnz"@,
            SisaIInstruction::In => "in"@,
            SisaIInstruction::Out => "out"@,
            _ => ""@,
        }
    }

    open spec fn spec_operands(&self) -> Seq<SisaIOperandKind> {
        match self {
            SisaIInstruction::LogicArithmetic(3) => seq![SisaIOperandKind::Reg, SisaIOperandKind::Reg],
            SisaIInstruction::LogicArithmetic(_) | SisaIInstruction::Comparison(_) =>
                seq![SisaIOperandKind::Reg, SisaIOperandKind::Reg, SisaIOperandKind::Reg],
            SisaIInstruction::Addi => seq![SisaIOperandKind::Reg, SisaIOperandKind::Reg, SisaIOperandKind::Imm6s],
            SisaIInstruction::Ld => seq![SisaIOperandKind::Reg, SisaIOperandKind::Imm6s, SisaIOperandKind::Reg],
            SisaIInstruction::St => seq![SisaIOperandKind::Imm6s, SisaIOperandKind::Reg, SisaIOperandKind::Reg],
            SisaIInstruction::In => seq![SisaIOperandKind::Reg, SisaIOperandKind::Imm8u],
            SisaIInstruction::Out => seq![SisaIOperandKind::Imm8u, SisaIOperandKind::Reg],
            _ => seq![SisaIOperandKind::Reg, SisaIOperandKind::Imm8s],
        }
    }

    /// The word, low byte first; operands of the wrong kinds or number give no bytes.
    open spec fn spec_emit(&self, operands: Seq<SisaIOperand>) -> Seq<u8> {
        match word(*self, operands) {
            Some(w) => seq![(w % 256) as u8, (w / 256) as u8],
            None => seq![],
        }
    }

    open spec fn spec_catalog() -> Seq<SisaIInstruction> {
        seq![
            SisaIInstruction::LogicArithmetic(0),
            SisaIInstruction::LogicArithmetic(0),
            SisaIInstruction::LogicArithmetic(1),
            SisaIInstruction::LogicArithmetic(2),
            SisaIInstruction::LogicArithmetic(3),
            SisaIInstruction::LogicArithmetic(4),
            SisaIInstruction::LogicArithmetic(5),
            SisaIInstruction::LogicArithmetic(6),
            SisaIInstruction::LogicArithmetic(7),
            SisaIInstruction::Comparison(0),
            SisaIInstruction::Comparison(1),
            SisaIInstruction::Comparison(3),
            SisaIInstruction::Comparison(4),
            SisaIInstruction::Comparison(5),
            SisaIInstruction::Addi,
            SisaIInstruction::Ld,
            SisaIInstruction::St,
            SisaIInstruction::Movi,
            SisaIInstruction::Movhi,
            SisaIInstruction::Bz,
            SisaIInstruction::Bnz,
            SisaIInstruction::In,
            SisaIInstruction::Out,
        ]
    }

    fn name(&self) -> (r: &str) {
        match self {
            SisaIInstruction::LogicArithmetic(0) => "and",
            SisaIInstruction::LogicArithmetic(1) => "or",
            SisaIInstruction::LogicArithmetic(2) => "xor",
            SisaIInstruction::LogicArithmetic(3) => "not",
            SisaIInstruction::LogicArithmetic(4) => "add",
            SisaIInstruction::LogicArithmetic(5) => "sub",
            SisaIInstruction::LogicArithmetic(6) => "sha",
            SisaIInstruction::LogicArithmetic(7) => "shl",
            SisaIInstruction::Comparison(0) => "cmplt",
            SisaIInstruction::Comparison(1) => "cmple",
            SisaIInstruction::Comparison(3) => "cmpeq",
            SisaIInstruction::Comparison(4) => "cmpltu",
            SisaIInstruction::Comparison(5) => "cmpleu",
            SisaIInstruction::Addi => "addi",
            SisaIInstruction::Ld => "ld",
            SisaIInstruction::St => "st",
            SisaIInstruction::Movi => "movi",
            SisaIInstruction::Movhi => "movhi",
            SisaIInstruction::Bz => "bz",
            SisaIInstruction::Bnz => "bnz",
            SisaIInstruction::In => "in",
            SisaIInstruction::Out => "out",
            _ => "",
        }
    }

    fn operands(&self) -> (r: Vec<SisaIOperandKind>) {
        let r = match self {
            SisaIInstruction::LogicArithmetic(3) => vec![SisaIOperandKind::Reg, SisaIOperandKind::Reg],
            SisaIInstruction::LogicArithmetic(_) | SisaIInstruction::Comparison(_) =>
                vec![SisaIOperandKind::Reg, SisaIOperandKind::Reg, SisaIOperandKind::Reg],
            SisaIInstruction::Addi => vec![SisaIOperandKind::Reg, SisaIOperandKind::Reg, SisaIOperandKind::Imm6s],
            SisaIInstruction::Ld => vec![SisaIOperandKind::Reg, SisaIOperandKind::Imm6s, SisaIOperandKind::Reg],
            SisaIInstruction::St => vec![SisaIOperandKind::Imm6s, SisaIOperandKind::Reg, SisaIOperandKind::Reg],
            SisaIInstruction::In => vec![SisaIOperandKind::Reg, SisaIOperandKind::Imm8u],
            SisaIInstruction::Out => vec![SisaIOperandKind::Imm8u, SisaIOperandKind::Reg],
            _ => vec![SisaIOperandKind::Reg, SisaIOperandKind::Imm8s],
        };
        assert(r@ =~= self.spec_operands());
        r
    }

    fn emit(&self, operands: Vec<SisaIOperand>) -> (r: Vec<u8>) {
        let op: u32 = match self {
            SisaIInstruction::LogicArithmetic(_) => 0,
            SisaIInstruction::Comparison(_) => 1,
            SisaIInstruction::Addi => 2,
            SisaIInstruction::Ld => 3,
            SisaIInstruction::St => 4,
            SisaIInstruction::Movi | SisaIInstruction::Movhi => 5,
            SisaIInstruction::Bz | SisaIInstruction::Bnz => 6,
            SisaIInstruction::In | SisaIInstruction::Out => 7,
        };
        let variant: u32 = match self {
            SisaIInstruction::Movhi | SisaIInstruction::Bnz | SisaIInstruction::Out => 1,
            _ => 0,
        };
        let ghost ops = operands@;
        match fields_of(*self, operands) {
            Some(fields) => {
                let w = op * 4096 + variant * 256 + fields;
                let r = vec![(w % 256) as u8, (w / 256) as u8];
                assert(r@ =~= self.spec_emit(ops));
                r
            },
            None => {
                let r: Vec<u8> = Vec::new();
                assert(r@ =~= self.spec_emit(ops));
                r
            },
        }
    }

    fn enumerate() -> (r: Vec<SisaIInstruction>) {
        let r = vec![
            SisaIInstruction::LogicArithmetic(0),
            SisaIInstruction::LogicArithmetic(0),
            SisaIInstruction::LogicArithmetic(1),
            SisaIInstruction::LogicArithmetic(2),
            SisaIInstruction::LogicArithmetic(3),
            SisaIInstruction::LogicArithmetic(4),
            SisaIInstruction::LogicArithmetic(5),
            SisaIInstruction::LogicArithmetic(6),
            SisaIInstruction::LogicArithmetic(7),
            SisaIInstruction::Comparison(0),
            SisaIInstruction::Comparison(1),
            SisaIInstruction::Comparison(3),
            SisaIInstruction::Comparison(4),
            SisaIInstruction::Comparison(5),
            SisaIInstruction::Addi,
            SisaIInstruction::Ld,
            SisaIInstruction::St,
            SisaIInstruction::Movi,
            SisaIInstruction::Movhi,
            SisaIInstruction::Bz,
            SisaIInstruction::Bnz,
            SisaIInstruction::In,
            SisaIInstruction::Out,
        ];
        assert(r@ =~= Self::spec_catalog());
        r
    }
}

} // verus!
