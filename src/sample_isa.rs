use vstd::prelude::*;
use itertools::Itertools;
use crate::arch_def::{Architecture, Instruction, OperandKind, Symbol};
use crate::parse::PlausibleOperator;
use crate::tokenize::{all_digits, digits_value, lemma_digits_nonneg, parse_literal};

verus! {

/// A small instruction set: `xor reg, reg, reg`; `addi reg, reg, imm` and
/// `addi reg, imm` with the destination as source; `halt`; `jump imm`.
/// Every instruction takes five bytes.
#[derive(Clone, Copy, Debug)]
pub struct TestArch;

#[derive(Clone, Copy, Debug, PartialEq, Eq, Structural)]
pub enum TestInstructions {
    Xor,
    Addi,
    AddiImplicit,
    Halt,
    Jump,
}

#[derive(Clone, Copy, Debug, PartialEq, Eq, Structural)]
pub enum TestOperandKinds {
    Register,
    Immediate,
}

#[derive(Clone, Copy, Debug, PartialEq, Eq, Structural)]
pub enum TestOperands {
    Register(u8),
    Immediate(i16),
}

#[derive(Clone, Copy, Debug, PartialEq, Eq, Structural)]
pub enum TestSymbols {
    Register(u8),
}

impl Architecture for TestArch {
    type Symbol = TestSymbols;
    type OperandKind = TestOperandKinds;
    type Instruction = TestInstructions;
}

/// Relies on itertools::Itertools::collect_tuple: the two items, in order, of
/// a list that holds exactly two.
#[verifier::external_body]
pub(crate) fn collect_pair<T>(items: Vec<T>) -> (r: Option<(T, T)>)
    ensures
        match r {
            Some((x, y)) => items@.len() == 2 && x == items@[0] && y == items@[1],
            None => items@.len() != 2,
        },
{
    items.into_iter().collect_tuple()
}

/// Relies on itertools::Itertools::collect_tuple: the three items, in order, of
/// a list that holds exactly three.
#[verifier::external_body]
pub(crate) fn collect_triple<T>(items: Vec<T>) -> (r: Option<(T, T, T)>)
    ensures
        match r {
            Some((x, y, z)) => items@.len() == 3 && x == items@[0] && y == items@[1] && z == items@[2],
            None => items@.len() != 3,
        },
{
    items.into_iter().collect_tuple()
}

/// A register is named `r` and a decimal number up to 255.
pub open spec fn register_number(text: Seq<char>) -> Option<u8> {
    if text.len() > 1 && text[0] == 'r' && all_digits(text.drop_first()) && digits_value(text.drop_first()) <= 255 {
        Some(digits_value(text.drop_first()) as u8)
    } else {
        None
    }
}

/// Reads a register name: `r` and a decimal number up to 255.
pub fn parse_register(text: &str) -> (r: Option<u8>)
    ensures
        r == register_number(text@),
{
    let n = text.unicode_len();
    if n < 2 || text.get_char(0) != 'r' {
        return None;
    }
    let rest = text.substring_char(1, n);
    assert(rest@ =~= text@.drop_first());
    let mut i: usize = 0;
    while i < n - 1
        invariant
            rest@ == text@.drop_first(),
            rest@.len() == n - 1,
            i <= n - 1,
            forall|j: int| 0 <= j < i ==> #[trigger] crate::tokenize::is_digit(rest@[j]),
        decreases n - 1 - i,
    {
        let c = rest.get_char(i);
        if c < '0' || c > '9' {
            return None;
        }
        i = i + 1;
    }
    assert(all_digits(rest@));
    assert(crate::tokenize::is_digit(rest@[0]));
    proof {
        lemma_digits_nonneg(rest@);
    }
    match parse_literal(rest) {
        Some(v) => {
            if 0 <= v && v <= 255 {
                Some(v as u8)
            } else {
                None
            }
        },
        None => {
            assert(digits_value(rest@) > isize::MAX);
            None
        },
    }
}

impl Symbol for TestSymbols {
    open spec fn spec_parse(text: Seq<char>) -> Option<TestSymbols> {
        match register_number(text) {
            Some(n) => Some(TestSymbols::Register(n)),
            None => None,
        }
    }

    fn parse(text: &str) -> (r: Option<TestSymbols>) {
        match parse_register(text) {
            Some(n) => Some(TestSymbols::Register(n)),
            None => None,
        }
    }
}

impl OperandKind<TestSymbols> for TestOperandKinds {
    type Operand = TestOperands;

    open spec fn spec_parse(&self, op: PlausibleOperator<TestSymbols>) -> Option<TestOperands> {
        match (*self, op) {
            (TestOperandKinds::Register, PlausibleOperator::Symbol(TestSymbols::Register(r))) => Some(TestOperands::Register(r)),
            (TestOperandKinds::Immediate, PlausibleOperator::Value(v)) => if i16::MIN <= v <= i16::MAX {
                Some(TestOperands::Immediate(v as i16))
            } else {
                None
            },
            _ => None,
        }
    }

    fn parse(&self, op: PlausibleOperator<TestSymbols>) -> (r: Option<TestOperands>) {
        match (self, op) {
            (TestOperandKinds::Register, PlausibleOperator::Symbol(TestSymbols::Register(r))) => Some(TestOperands::Register(r)),
            (TestOperandKinds::Immediate, PlausibleOperator::Value(v)) => if i16::MIN as isize <= v && v <= i16::MAX as isize {
                Some(TestOperands::Immediate(v as i16))
            } else {
                None
            },
            _ => None,
        }
    }

    fn matches(&self, op: &PlausibleOperator<TestSymbols>) -> (r: bool) {
        match (self, op) {
            (TestOperandKinds::Register, PlausibleOperator::Symbol(TestSymbols::Register(_))) => true,
            (TestOperandKinds::Immediate, PlausibleOperator::Value(v)) => i16::MIN as isize <= *v && *v <= i16::MAX as isize,
            _ => false,
        }
    }
}

/// The low byte of an immediate in two's complement.
pub open spec fn low_byte(v: i16) -> u8 {
    (v as u16 % 256) as u8
}

/// The high byte of an immediate in two's complement.
pub open spec fn high_byte(v: i16) -> u8 {
    (v as u16 / 256) as u8
}

impl Instruction<TestOperandKinds, TestOperands> for TestInstructions {
    open spec fn spec_name(&self) -> Seq<char> {
        match self {
            TestInstructions::Xor => "xor"@,
            TestInstructions::Addi => "addi"@,
            TestInstructions::AddiImplicit => "addi"@,
            TestInstructions::Halt => "halt"@,
            TestInstructions::Jump => "jump"@,
        }
    }

    open spec fn spec_operands(&self) -> Seq<TestOperandKinds> {
        match self {
            TestInstructions::Xor => seq![TestOperandKinds::Register, TestOperandKinds::Register, TestOperandKinds::Register],
            TestInstructions::Addi => seq![TestOperandKinds::Register, TestOperandKinds::Register, TestOperandKinds::Immediate],
            TestInstructions::AddiImplicit => seq![TestOperandKinds::Register, TestOperandKinds::Immediate],
            TestInstructions::Halt => seq![],
            TestInstructions::Jump => seq![TestOperandKinds::Immediate],
        }
    }

    /// The five bytes of the encoding; operands of the wrong kinds or number
    /// give no bytes.
    open spec fn spec_emit(&self, operands: Seq<TestOperands>) -> Seq<u8> {
        match self {
            TestInstructions::Xor => if operands.len() == 3 {
                match (operands[0], operands[1], operands[2]) {
                    (TestOperands::Register(rd), TestOperands::Register(rs1), TestOperands::Register(rs2)) => seq![0u8, rd, rs1, rs2, 0u8],
                    _ => seq![],
                }
            } else {
                seq![]
            },
            TestInstructions::Addi => if operands.len() == 3 {
                match (operands[0], operands[1], operands[2]) {
                    (TestOperands::Register(rd), TestOperands::Register(rs1), TestOperands::Immediate(imm)) => seq![1u8, rd, rs1, low_byte(imm), high_byte(imm)],
                    _ => seq![],
                }
            } else {
                seq![]
            },
            TestInstructions::AddiImplicit => if operands.len() == 2 {
                match (operands[0], operands[1]) {
                    (TestOperands::Register(rd), TestOperands::Immediate(imm)) => seq![1u8, rd, rd, low_byte(imm), high_byte(imm)],
                    _ => seq![],
                }
            } else {
                seq![]
            },
            TestInstructions::Halt => if operands.len() == 0 {
                seq![2u8, 0u8, 0u8, 0u8, 0u8]
            } else {
                seq![]
            },
            TestInstructions::Jump => if operands.len() == 1 {
                match operands[0] {
                    TestOperands::Immediate(imm) => seq![3u8, low_byte(imm), high_byte(imm), 0u8, 0u8],
                    _ => seq![],
                }
            } else {
                seq![]
            },
        }
    }

    open spec fn spec_catalog() -> Seq<TestInstructions> {
        seq![
            TestInstructions::Xor,
            TestInstructions::Addi,
            TestInstructions::AddiImplicit,
            TestInstructions::Halt,
            TestInstructions::Jump,
        ]
    }

    fn name(&self) -> (r: &str) {
        match self {
            TestInstructions::Xor => "xor",
            TestInstructions::Addi => "addi",
            TestInstructions::AddiImplicit => "addi",
            TestInstructions::Halt => "halt",
            TestInstructions::Jump => "jump",
        }
    }

    fn operands(&self) -> (r: Vec<TestOperandKinds>) {
        let r = match self {
            TestInstructions::Xor => vec![TestOperandKinds::Register, TestOperandKinds::Register, TestOperandKinds::Register],
            TestInstructions::Addi => vec![TestOperandKinds::Register, TestOperandKinds::Register, TestOperandKinds::Immediate],
            TestInstructions::AddiImplicit => vec![TestOperandKinds::Register, TestOperandKinds::Immediate],
            TestInstructions::Halt => vec![],
            TestInstructions::Jump => vec![TestOperandKinds::Immediate],
        };
        assert(r@ =~= self.spec_operands());
        r
    }

    fn emit(&self, operands: Vec<TestOperands>) -> (r: Vec<u8>) {
        let ghost ops = operands@;
        let n = operands.len();
        let r = match self {
            TestInstructions::Xor => match collect_triple(operands) {
                Some((TestOperands::Register(rd), TestOperands::Register(rs1), TestOperands::Register(rs2))) => vec![0u8, rd, rs1, rs2, 0u8],
                _ => vec![],
            },
            TestInstructions::Addi => match collect_triple(operands) {
                Some((TestOperands::Register(rd), TestOperands::Register(rs1), TestOperands::Immediate(imm))) =>
                    vec![1u8, rd, rs1, (imm as u16 % 256) as u8, (imm as u16 / 256) as u8],
                _ => vec![],
            },
            TestInstructions::AddiImplicit => match collect_pair(operands) {
                Some((TestOperands::Register(rd), TestOperands::Immediate(imm))) =>
                    vec![1u8, rd, rd, (imm as u16 % 256) as u8, (imm as u16 / 256) as u8],
                _ => vec![],
            },
            TestInstructions::Halt => if n == 0 {
                vec![2u8, 0u8, 0u8, 0u8, 0u8]
            } else {
                vec![]
            },
            TestInstructions::Jump => if n == 1 {
                match operands[0] {
                    TestOperands::Immediate(imm) => vec![3u8, (imm as u16 % 256) as u8, (imm as u16 / 256) as u8, 0u8, 0u8],
                    _ => vec![],
                }
            } else {
                vec![]
            },
        };
        assert(r@ =~= self.spec_emit(ops));
        r
    }

    fn enumerate() -> (r: Vec<TestInstructions>) {
        let r = vec![
            TestInstructions::Xor,
            TestInstructions::Addi,
            TestInstructions::AddiImplicit,
            TestInstructions::Halt,
            TestInstructions::Jump,
        ];
        assert(r@ =~= Self::spec_catalog());
        r
    }
}

/// An instruction set whose catalog is ambiguous on purpose: both variants of
/// `ld` take one immediate, and the one enumerated first is the one used.
#[derive(Clone, Copy, Debug)]
pub struct OverlapArch;

#[derive(Clone, Copy, Debug, PartialEq, Eq, Structural)]
pub enum OverlapInstructions {
    LdFirst,
    LdSecond,
}

impl Architecture for OverlapArch {
    type Symbol = TestSymbols;
    type OperandKind = TestOperandKinds;
    type Instruction = OverlapInstructions;
}

impl Instruction<TestOperandKinds, TestOperands> for OverlapInstructions {
    open spec fn spec_name(&self) -> Seq<char> {
        "ld"@
    }

    open spec fn spec_operands(&self) -> Seq<TestOperandKinds> {
        seq![TestOperandKinds::Immediate]
    }

    /// A byte that tells the variants apart, then the immediate's low byte.
    open spec fn spec_emit(&self, operands: Seq<TestOperands>) -> Seq<u8> {
        let tag: u8 = match self {
            OverlapInstructions::LdFirst => 0xA1,
            OverlapInstructions::LdSecond => 0xA2,
        };
        if operands.len() == 1 {
            match operands[0] {
                TestOperands::Immediate(imm) => seq![tag, low_byte(imm)],
                _ => seq![],
            }
        } else {
            seq![]
        }
    }

    open spec fn spec_catalog() -> Seq<OverlapInstructions> {
        seq![OverlapInstructions::LdFirst, OverlapInstructions::LdSecond]
    }

    fn name(&self) -> (r: &str) {
        "ld"
    }

    fn operands(&self) -> (r: Vec<TestOperandKinds>) {
        let r = vec![TestOperandKinds::Immediate];
        assert(r@ =~= self.spec_operands());
        r
    }

    fn emit(&self, operands: Vec<TestOperands>) -> (r: Vec<u8>) {
        let tag: u8 = match self {
            OverlapInstructions::LdFirst => 0xA1,
            OverlapInstructions::LdSecond => 0xA2,
        };
        let r = if operands.len() == 1 {
            match operands[0] {
                TestOperands::Immediate(imm) => vec![tag, (imm as u16 % 256) as u8],
                _ => vec![],
            }
        } else {
            vec![]
        };
        assert(r@ =~= self.spec_emit(operands@));
        r
    }

    fn enumerate() -> (r: Vec<OverlapInstructions>) {
        let r = vec![OverlapInstructions::LdFirst, OverlapInstructions::LdSecond];
        assert(r@ =~= Self::spec_catalog());
        r
    }
}

} // verus!
