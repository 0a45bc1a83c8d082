use vstd::prelude::*;
use crate::parse::PlausibleOperator;

verus! {

/// A register name, or another symbol that an architecture defines.
pub trait Symbol: Sized {
    /// The symbol that `text` names, if any.
    spec fn spec_parse(text: Seq<char>) -> Option<Self>;

    fn parse(text: &str) -> (r: Option<Self>)
        ensures
            r == Self::spec_parse(text@),
    ;
}

/// A kind of operand (a register, an immediate of some width) over the symbols `S`.
pub trait OperandKind<S>: Sized {
    /// The typed operand value.
    type Operand;

    /// The operand value that `op` gives for this kind, if it is acceptable.
    spec fn spec_parse(&self, op: PlausibleOperator<S>) -> Option<Self::Operand>;

    fn parse(&self, op: PlausibleOperator<S>) -> (r: Option<Self::Operand>)
        ensures
            r == self.spec_parse(op),
    ;

    /// Agrees with `parse` by its contract: it holds exactly where `parse` succeeds.
    fn matches(&self, op: &PlausibleOperator<S>) -> (r: bool)
        ensures
            r == self.spec_parse(*op) is Some,
    ;
}

/// A variant of an instruction: its mnemonic, its operand-kind signature
/// (kinds `K`), and its encoding of operand values `O`.
pub trait Instruction<K, O>: Sized + Copy {
    spec fn spec_name(&self) -> Seq<char>;

    spec fn spec_operands(&self) -> Seq<K>;

    spec fn spec_emit(&self, operands: Seq<O>) -> Seq<u8>;

    /// The whole catalog of variants, in enumeration order.
    spec fn spec_catalog() -> Seq<Self>;

    fn name(&self) -> (r: &str)
        ensures
            r@ == self.spec_name(),
    ;

    fn operands(&self) -> (r: Vec<K>)
        ensures
            r@ == self.spec_operands(),
    ;

    fn emit(&self, operands: Vec<O>) -> (r: Vec<u8>)
        ensures
            r@ == self.spec_emit(operands@),
    ;

    fn enumerate() -> (r: Vec<Self>)
        ensures
            r@ == Self::spec_catalog(),
    ;
}

/// An instruction set: its symbols, operand kinds and instructions.
pub trait Architecture: Sized {
    type Symbol: Symbol;
    type OperandKind: OperandKind<Self::Symbol>;
    type Instruction: Instruction<Self::OperandKind, <Self::OperandKind as OperandKind<Self::Symbol>>::Operand>;
}

/// The typed operand values of an architecture.
pub type OperandOf<A> = <<A as Architecture>::OperandKind as OperandKind<<A as Architecture>::Symbol>>::Operand;

/// The catalog of an architecture, in enumeration order.
pub open spec fn catalog<A: Architecture>() -> Seq<A::Instruction> {
    <A::Instruction as Instruction<A::OperandKind, OperandOf<A>>>::spec_catalog()
}

pub open spec fn name_of<A: Architecture>(inst: A::Instruction) -> Seq<char> {
    inst.spec_name()
}

pub open spec fn signature_of<A: Architecture>(inst: A::Instruction) -> Seq<A::OperandKind> {
    inst.spec_operands()
}

pub open spec fn encoding_of<A: Architecture>(inst: A::Instruction, operands: Seq<OperandOf<A>>) -> Seq<u8> {
    inst.spec_emit(operands)
}

/// Each operand kind of the signature accepts the operand at its position, and
/// the two have the same length.
pub open spec fn signature_fits<S, K: OperandKind<S>>(kinds: Seq<K>, ops: Seq<PlausibleOperator<S>>) -> bool {
    &&& kinds.len() == ops.len()
    &&& forall|i: int| 0 <= i < kinds.len() ==> (#[trigger] kinds[i]).spec_parse(ops[i]) is Some
}

} // verus!
