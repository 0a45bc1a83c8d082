use vstd::prelude::*;
use core::marker::PhantomData;
use crate::arch_def::{encoding_of, Architecture, Instruction, OperandOf};
use crate::error::AssemblerError;
use crate::parse_operands::{ASTNodeOperandsParsed, ASTNodeOperandsParsedView};
use crate::pass::{views, AssemblerPass, StepResult};

verus! {

/// The emitter: statements with typed operands in, bytes out.
pub struct EmitPass<A: Architecture> {
    phantom_architecture: PhantomData<A>,
}

impl<A: Architecture> View for EmitPass<A> {
    type V = ();

    open spec fn view(&self) -> () {
        ()
    }
}

impl<A: Architecture> Default for EmitPass<A> {
    fn default() -> (r: Self)
        ensures
            r@ == (),
    {
        EmitPass { phantom_architecture: PhantomData }
    }
}

/// One step of the emitter: the encoding of the statement.
pub open spec fn emit_step<A: Architecture>(item: ASTNodeOperandsParsedView<A>) -> StepResult<(), u8> {
    match item {
        ASTNodeOperandsParsedView::Instruction(inst, ops) => Ok(((), encoding_of::<A>(inst, ops))),
    }
}

impl<A: Architecture> AssemblerPass for EmitPass<A> {
    type Input = ASTNodeOperandsParsed<A>;
    type Output = u8;

    open spec fn spec_apply(state: (), item: ASTNodeOperandsParsedView<A>) -> StepResult<(), u8> {
        emit_step::<A>(item)
    }

    open spec fn spec_finish(state: ()) -> StepResult<(), u8> {
        Ok(((), seq![]))
    }

    fn apply(&mut self, item: ASTNodeOperandsParsed<A>) -> (r: Result<Vec<u8>, AssemblerError>) {
        match item {
            ASTNodeOperandsParsed::Instruction(inst, ops) => {
                let bytes = inst.emit(ops);
                assert(views(bytes@) =~= bytes@);
                Ok(bytes)
            },
        }
    }

    fn finish(&mut self) -> (r: Result<Vec<u8>, AssemblerError>) {
        let out: Vec<u8> = Vec::new();
        assert(views(out@) =~= Seq::<u8>::empty());
        Ok(out)
    }
}

} // verus!
