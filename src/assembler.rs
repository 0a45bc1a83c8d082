use vstd::prelude::*;
use crate::arch_def::Architecture;
use crate::emit::EmitPass;
use crate::error::AssemblerError;
use crate::parse::{ParsePass, ParserStateView};
use crate::parse_operands::ParseOperandsPass;
use crate::pass::{apply_all, apply_all_partial, run_all, run_partial, AssemblerPass, StepResult};
use crate::retokenize::RetokenizePass;
use crate::tokenize::{tokenize_finish, tokenize_step, TokenView, TokenizePass, TokenizerStateView};

verus! {

/// The whole assembler: source characters in, machine-code bytes out.
pub struct AssemblerPasses<A: Architecture> {
    pub tokenize: TokenizePass,
    pub retokenize: RetokenizePass<A>,
    pub parse: ParsePass<A>,
    pub parse_operands: ParseOperandsPass<A>,
    pub emit: EmitPass<A>,
}

/// The model of the assembler's state: the lexer's and the parser's, the only
/// stages that hold any.
pub struct AssemblerState<A: Architecture> {
    pub tokenize: TokenizerStateView,
    pub parse: ParserStateView<A>,
}

impl<A: Architecture> View for AssemblerPasses<A> {
    type V = AssemblerState<A>;

    open spec fn view(&self) -> AssemblerState<A> {
        AssemblerState { tokenize: self.tokenize@, parse: self.parse@ }
    }
}

/// The state the assembler starts in.
pub open spec fn initial_state<A: Architecture>() -> AssemblerState<A> {
    AssemblerState { tokenize: TokenizerStateView::Initial, parse: ParserStateView::Initial }
}

/// The stages after the lexer, fed `tokens` from parser state `parse`; with
/// `flush`, each stage is flushed after its input, in pipeline order.
pub open spec fn downstream<A: Architecture>(
    parse: ParserStateView<A>,
    tokens: Seq<TokenView>,
    flush: bool,
) -> Result<(ParserStateView<A>, Seq<u8>), AssemblerError> {
    let run_r = if flush { run_all::<RetokenizePass<A>>((), tokens) } else { run_partial::<RetokenizePass<A>>((), tokens) };
    match run_r {
        Err(e) => Err(e),
        Ok((_, arch_tokens)) => {
            let run_p = if flush { run_all::<ParsePass<A>>(parse, arch_tokens) } else { run_partial::<ParsePass<A>>(parse, arch_tokens) };
            match run_p {
                Err(e) => Err(e),
                Ok((p, nodes)) => {
                    let run_o = if flush { run_all::<ParseOperandsPass<A>>((), nodes) } else { run_partial::<ParseOperandsPass<A>>((), nodes) };
                    match run_o {
                        Err(e) => Err(e),
                        Ok((_, typed)) => {
                            let run_e = if flush { run_all::<EmitPass<A>>((), typed) } else { run_partial::<EmitPass<A>>((), typed) };
                            match run_e {
                                Err(e) => Err(e),
                                Ok((_, bytes)) => Ok((p, bytes)),
                            }
                        },
                    }
                },
            }
        },
    }
}

/// One step of the assembler on a source character.
pub open spec fn assemble_step<A: Architecture>(state: AssemblerState<A>, c: char) -> StepResult<AssemblerState<A>, u8> {
    match tokenize_step(state.tokenize, c) {
        Err(e) => Err(e),
        Ok((t, tokens)) => match downstream::<A>(state.parse, tokens, false) {
            Err(e) => Err(e),
            Ok((p, bytes)) => Ok((AssemblerState { tokenize: t, parse: p }, bytes)),
        },
    }
}

/// The assembler's flush at end of input: the lexer's, drained through every
/// later stage, each of which is flushed in turn.
pub open spec fn assemble_finish<A: Architecture>(state: AssemblerState<A>) -> StepResult<AssemblerState<A>, u8> {
    match tokenize_finish(state.tokenize) {
        Err(e) => Err(e),
        Ok((t, tokens)) => match downstream::<A>(state.parse, tokens, true) {
            Err(e) => Err(e),
            Ok((p, bytes)) => Ok((AssemblerState { tokenize: t, parse: p }, bytes)),
        },
    }
}

/// What assembling `text` from the start gives: the bytes, or the first error.
pub open spec fn assemble_spec<A: Architecture>(text: Seq<char>) -> Result<Seq<u8>, AssemblerError> {
    match run_all::<AssemblerPasses<A>>(initial_state::<A>(), text) {
        Ok((_, bytes)) => Ok(bytes),
        Err(e) => Err(e),
    }
}

impl<A: Architecture> Default for AssemblerPasses<A> {
    fn default() -> (r: Self)
        ensures
            r@ == initial_state::<A>(),
    {
        AssemblerPasses {
            tokenize: TokenizePass::default(),
            retokenize: RetokenizePass::default(),
            parse: ParsePass::default(),
            parse_operands: ParseOperandsPass::default(),
            emit: EmitPass::default(),
        }
    }
}

impl<A: Architecture> AssemblerPass for AssemblerPasses<A> {
    type Input = char;
    type Output = u8;

    open spec fn spec_apply(state: AssemblerState<A>, item: char) -> StepResult<AssemblerState<A>, u8> {
        assemble_step::<A>(state, item)
    }

    open spec fn spec_finish(state: AssemblerState<A>) -> StepResult<AssemblerState<A>, u8> {
        assemble_finish::<A>(state)
    }

    fn apply(&mut self, item: char) -> (r: Result<Vec<u8>, AssemblerError>) {
        let tokens = self.tokenize.apply(item)?;
        let arch_tokens = apply_all_partial(&mut self.retokenize, tokens)?;
        let nodes = apply_all_partial(&mut self.parse, arch_tokens)?;
        let typed = apply_all_partial(&mut self.parse_operands, nodes)?;
        let bytes = apply_all_partial(&mut self.emit, typed)?;
        assert(crate::pass::views(bytes@) =~= bytes@);
        Ok(bytes)
    }

    fn finish(&mut self) -> (r: Result<Vec<u8>, AssemblerError>) {
        let tokens = self.tokenize.finish()?;
        let arch_tokens = apply_all(&mut self.retokenize, tokens)?;
        let nodes = apply_all(&mut self.parse, arch_tokens)?;
        let typed = apply_all(&mut self.parse_operands, nodes)?;
        let bytes = apply_all(&mut self.emit, typed)?;
        assert(crate::pass::views(bytes@) =~= bytes@);
        Ok(bytes)
    }
}

/// Assembles `text` with a fresh assembler.
pub fn assemble<A: Architecture>(text: Vec<char>) -> (r: Result<Vec<u8>, AssemblerError>)
    ensures
        match assemble_spec::<A>(text@) {
            Ok(bytes) => r is Ok && r->Ok_0@ == bytes,
            Err(e) => r is Err && r->Err_0 == e,
        },
{
    let mut passes = AssemblerPasses::<A>::default();
    let r = apply_all(&mut passes, text);
    proof {
        assert(crate::pass::views(text@) =~= text@);
        if r is Ok {
            assert(crate::pass::views(r->Ok_0@) =~= r->Ok_0@);
        }
    }
    r
}

} // verus!
