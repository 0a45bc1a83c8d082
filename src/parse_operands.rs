use vstd::prelude::*;
use core::marker::PhantomData;
use crate::arch_def::{signature_of, Architecture, Instruction, OperandKind, OperandOf};
use crate::error::AssemblerError;
use crate::parse::{fits, ASTNode, ASTNodeView, PlausibleOperator};
use crate::pass::{reversed, views, AssemblerPass, StepResult};

verus! {

/// The typed operands of `ops` under the signature of `inst`: each operand as
/// its kind parses it, where the signature fits.
pub open spec fn typed_operands<A: Architecture>(
    inst: A::Instruction,
    ops: Seq<PlausibleOperator<A::Symbol>>,
) -> Option<Seq<OperandOf<A>>> {
    if fits::<A>(inst, ops) {
        Some(Seq::new(ops.len(), |i: int| signature_of::<A>(inst)[i].spec_parse(ops[i])->Some_0))
    } else {
        None
    }
}

/// A statement whose operands have their types.
pub enum ASTNodeOperandsParsed<A: Architecture> {
    Instruction(A::Instruction, Vec<OperandOf<A>>),
}

/// The model of a statement with typed operands.
pub enum ASTNodeOperandsParsedView<A: Architecture> {
    Instruction(A::Instruction, Seq<OperandOf<A>>),
}

impl<A: Architecture> View for ASTNodeOperandsParsed<A> {
    type V = ASTNodeOperandsParsedView<A>;

    open spec fn view(&self) -> ASTNodeOperandsParsedView<A> {
        match self {
            ASTNodeOperandsParsed::Instruction(inst, ops) => ASTNodeOperandsParsedView::Instruction(*inst, ops@),
        }
    }
}

/// Types each operand by the kind at its position in the signature of `instruction`.
pub fn parse_operands<A: Architecture>(
    instruction: A::Instruction,
    operands: Vec<PlausibleOperator<A::Symbol>>,
) -> (r: Result<Vec<OperandOf<A>>, AssemblerError>)
    ensures
        match typed_operands::<A>(instruction, operands@) {
            Some(t) => r is Ok && r->Ok_0@ == t,
            None => r is Err && r->Err_0 == AssemblerError::Operand,
        },
{
    let kinds = instruction.operands();
    let n = operands.len();
    if kinds.len() != n {
        return Err(AssemblerError::Operand);
    }
    let ghost ops = operands@;
    let mut pending = reversed(operands);
    let mut typed: Vec<OperandOf<A>> = Vec::new();
    let mut i: usize = 0;
    while i < n
        invariant
            kinds@ == signature_of::<A>(instruction),
            n == kinds@.len(),
            n == ops.len(),
            ops == operands@,
            i <= n,
            i + pending@.len() == n,
            forall|j: int| 0 <= j < pending@.len() ==> pending@[j] == ops[n - 1 - j],
            typed@.len() == i,
            forall|j: int| 0 <= j < i ==> (#[trigger] kinds@[j]).spec_parse(ops[j]) == Some(typed@[j]),
        decreases n - i,
    {
        assert(pending@.last() == ops[i as int]);
        let op = pending.pop().unwrap();
        match kinds[i].parse(op) {
            Some(v) => {
                typed.push(v);
            },
            None => {
                assert(!fits::<A>(instruction, ops));
                return Err(AssemblerError::Operand);
            },
        }
        i = i + 1;
    }
    proof {
        assert(fits::<A>(instruction, ops));
        let t = typed_operands::<A>(instruction, ops)->Some_0;
        assert(typed@ =~= t);
    }
    Ok(typed)
}

/// The operand validator: statements in, statements with typed operands out.
pub struct ParseOperandsPass<A: Architecture> {
    phantom_architecture: PhantomData<A>,
}

impl<A: Architecture> View for ParseOperandsPass<A> {
    type V = ();

    open spec fn view(&self) -> () {
        ()
    }
}

impl<A: Architecture> Default for ParseOperandsPass<A> {
    fn default() -> (r: Self)
        ensures
            r@ == (),
    {
        ParseOperandsPass { phantom_architecture: PhantomData }
    }
}

/// One step of the validator on a statement.
pub open spec fn parse_operands_step<A: Architecture>(item: ASTNodeView<A>) -> StepResult<(), ASTNodeOperandsParsedView<A>> {
    match item {
        ASTNodeView::Instruction(inst, ops) => match typed_operands::<A>(inst, ops) {
            Some(t) => Ok(((), seq![ASTNodeOperandsParsedView::Instruction(inst, t)])),
            None => Err(AssemblerError::Operand),
        },
    }
}

impl<A: Architecture> AssemblerPass for ParseOperandsPass<A> {
    type Input = ASTNode<A>;
    type Output = ASTNodeOperandsParsed<A>;

    open spec fn spec_apply(state: (), item: ASTNodeView<A>) -> StepResult<(), ASTNodeOperandsParsedView<A>> {
        parse_operands_step::<A>(item)
    }

    open spec fn spec_finish(state: ()) -> StepResult<(), ASTNodeOperandsParsedView<A>> {
        Ok(((), seq![]))
    }

    fn apply(&mut self, item: ASTNode<A>) -> (r: Result<Vec<ASTNodeOperandsParsed<A>>, AssemblerError>) {
        match item {
            ASTNode::Instruction(inst, ops) => {
                let typed = parse_operands::<A>(inst, ops)?;
                let node = ASTNodeOperandsParsed::Instruction(inst, typed);
                let out = vec![node];
                assert(views(out@) =~= seq![node@]);
                Ok(out)
            },
        }
    }

    fn finish(&mut self) -> (r: Result<Vec<ASTNodeOperandsParsed<A>>, AssemblerError>) {
        let out: Vec<ASTNodeOperandsParsed<A>> = Vec::new();
        assert(views(out@) =~= Seq::<ASTNodeOperandsParsedView<A>>::empty());
        Ok(out)
    }
}

} // verus!
