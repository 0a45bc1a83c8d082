use vstd::prelude::*;
use crate::arch_def::{catalog, name_of, signature_of, Architecture};
use crate::assembler::{assemble_spec, assemble_step, downstream, initial_state, AssemblerPasses, AssemblerState};
use crate::emit::EmitPass;
use crate::parse::ParsePass;
use crate::parse_operands::{ASTNodeOperandsParsedView, ParseOperandsPass};
use crate::retokenize::{ArchToken, RetokenizePass};
use crate::tokenize::TokenView;
use crate::error::AssemblerError;
use crate::parse::{finish_statement, first_fitting, fits, resolve_statement, ASTNodeView, InInstructionView, ParserStateView, PlausibleOperator};
use crate::pass::{run_all, run_partial, AssemblerPass, InputView, OutputView};
use crate::tokenize::{is_separator, is_white_space, tokenize_step, TokenizerStateView};

verus! {

/// Assembling is a function of the text: the same text gives the same bytes,
/// or the same error.
pub proof fn lemma_assembly_deterministic<A: Architecture>(a: Seq<char>, b: Seq<char>)
    requires
        a == b,
    ensures
        assemble_spec::<A>(a) == assemble_spec::<A>(b),
{
}

/// The entry that resolution picks, searching from `from`, is named `name`,
/// fits `ops`, and no entry before it from `from` on does both.
pub proof fn lemma_first_fitting_is_first<A: Architecture>(
    entries: Seq<A::Instruction>,
    name: Seq<char>,
    ops: Seq<PlausibleOperator<A::Symbol>>,
    from: int,
)
    requires
        0 <= from,
    ensures
        match first_fitting::<A>(entries, name, ops, from) {
            Some(i) => {
                &&& from <= i < entries.len()
                &&& name_of::<A>(entries[i]) == name
                &&& fits::<A>(entries[i], ops)
                &&& forall|j: int| from <= j < i ==> !(name_of::<A>(entries[j]) == name && fits::<A>(#[trigger] entries[j], ops))
            },
            None => forall|j: int| from <= j < entries.len() ==> !(name_of::<A>(entries[j]) == name && fits::<A>(#[trigger] entries[j], ops)),
        },
    decreases entries.len() - from,
{
    if from < entries.len() {
        lemma_first_fitting_is_first::<A>(entries, name, ops, from + 1);
    }
}

/// A statement resolves to exactly one catalog entry: the first, in
/// enumeration order, that has its mnemonic and whose signature fits its
/// operands. Where no entry does, resolution fails.
pub proof fn lemma_resolution_first_match_wins<A: Architecture>(
    name: Seq<char>,
    ops: Seq<PlausibleOperator<A::Symbol>>,
)
    ensures
        match resolve_statement::<A>(name, ops) {
            Ok(ASTNodeView::Instruction(inst, operands)) => {
                &&& operands == ops
                &&& exists|i: int| {
                    &&& 0 <= i < catalog::<A>().len()
                    &&& catalog::<A>()[i] == inst
                    &&& name_of::<A>(inst) == name
                    &&& fits::<A>(inst, ops)
                    &&& forall|j: int| 0 <= j < i ==> !(name_of::<A>(catalog::<A>()[j]) == name && fits::<A>(#[trigger] catalog::<A>()[j], ops))
                }
            },
            Err(e) => {
                &&& e == AssemblerError::UnresolvableInstruction
                &&& forall|j: int| 0 <= j < catalog::<A>().len() ==> !(name_of::<A>(catalog::<A>()[j]) == name && fits::<A>(#[trigger] catalog::<A>()[j], ops))
            },
        },
{
    lemma_first_fitting_is_first::<A>(catalog::<A>(), name, ops, 0);
}

/// A statement whose operand count is that of no catalog entry with its
/// mnemonic fails with `UnresolvableInstruction`.
pub proof fn lemma_arity_strict<A: Architecture>(s: InInstructionView<A>)
    requires
        s.can_finish,
        forall|i: int| 0 <= i < catalog::<A>().len() && name_of::<A>(catalog::<A>()[i]) == name_of::<A>(s.instruction)
            ==> signature_of::<A>(#[trigger] catalog::<A>()[i]).len() != s.operators.len(),
    ensures
        finish_statement::<A>(s) == Err::<ASTNodeView<A>, AssemblerError>(AssemblerError::UnresolvableInstruction),
{
    lemma_first_fitting_is_first::<A>(catalog::<A>(), name_of::<A>(s.instruction), s.operators, 0);
    match first_fitting::<A>(catalog::<A>(), name_of::<A>(s.instruction), s.operators, 0) {
        Some(i) => {
            assert(signature_of::<A>(catalog::<A>()[i]).len() != s.operators.len());
        },
        None => {},
    }
}

/// Feeding `a` then `b` is feeding `a`, then feeding `b` from where `a` left off.
pub proof fn lemma_run_partial_concat<P: AssemblerPass>(p: P::V, a: Seq<InputView<P>>, b: Seq<InputView<P>>)
    ensures
        run_partial::<P>(p, a + b) == match run_partial::<P>(p, a) {
            Ok((q, out_a)) => match run_partial::<P>(q, b) {
                Ok((r, out_b)) => Ok((r, out_a + out_b)),
                Err(e) => Err(e),
            },
            Err(e) => Err(e),
        },
    decreases b.len(),
{
    if b.len() == 0 {
        assert(a + b =~= a);
        match run_partial::<P>(p, a) {
            Ok((q, out_a)) => {
                assert(out_a + Seq::<OutputView<P>>::empty() =~= out_a);
            },
            Err(e) => {},
        }
    } else {
        assert((a + b).drop_last() =~= a + b.drop_last());
        assert((a + b).last() == b.last());
        lemma_run_partial_concat::<P>(p, a, b.drop_last());
        match run_partial::<P>(p, a) {
            Ok((q, out_a)) => match run_partial::<P>(q, b.drop_last()) {
                Ok((r, out_b)) => match P::spec_apply(r, b.last()) {
                    Ok((r2, more)) => {
                        assert(out_a + out_b + more =~= out_a + (out_b + more));
                    },
                    Err(e) => {},
                },
                Err(e) => {},
            },
            Err(e) => {},
        }
    }
}

/// The stages after the lexer, fed no tokens, keep their state and put out nothing.
proof fn lemma_downstream_of_nothing<A: Architecture>(parse: ParserStateView<A>)
    ensures
        downstream::<A>(parse, Seq::empty(), false) == Ok::<(ParserStateView<A>, Seq<u8>), AssemblerError>((parse, Seq::empty())),
{
    assert(run_partial::<RetokenizePass<A>>((), Seq::empty()) == Ok::<((), Seq<ArchToken<A>>), AssemblerError>(((), Seq::empty())));
    assert(run_partial::<ParsePass<A>>(parse, Seq::empty()) == Ok::<(ParserStateView<A>, Seq<ASTNodeView<A>>), AssemblerError>((parse, Seq::empty())));
    assert(run_partial::<ParseOperandsPass<A>>((), Seq::empty()) == Ok::<((), Seq<ASTNodeOperandsParsedView<A>>), AssemblerError>(((), Seq::empty())));
    assert(run_partial::<EmitPass<A>>((), Seq::empty()) == Ok::<((), Seq<u8>), AssemblerError>(((), Seq::empty())));
}

/// Whitespace read between tokens changes nothing: the assembler stays in its
/// state and puts out nothing.
pub proof fn lemma_space_between_tokens<A: Architecture>(s: AssemblerState<A>, w: char)
    requires
        s.tokenize is Initial,
        is_white_space(w),
        !is_separator(w),
    ensures
        assemble_step::<A>(s, w) == Ok::<(AssemblerState<A>, Seq<u8>), AssemblerError>((s, Seq::empty())),
{
    lemma_downstream_of_nothing::<A>(s.parse);
}

/// A line break read between statements changes nothing: the assembler stays
/// in its state and puts out nothing.
pub proof fn lemma_blank_line<A: Architecture>(s: AssemblerState<A>, c: char)
    requires
        s.tokenize is Initial,
        s.parse is Initial,
        is_separator(c),
    ensures
        assemble_step::<A>(s, c) == Ok::<(AssemblerState<A>, Seq<u8>), AssemblerError>((s, Seq::empty())),
{
    let toks = seq![TokenView::LineFeed];
    let arch = seq![ArchToken::<A>::LineFeed];
    assert(toks.drop_last() =~= Seq::<TokenView>::empty());
    assert(run_partial::<RetokenizePass<A>>((), Seq::empty()) == Ok::<((), Seq<ArchToken<A>>), AssemblerError>(((), Seq::empty())));
    assert(Seq::empty() + arch =~= arch);
    assert(run_partial::<RetokenizePass<A>>((), toks) == Ok::<((), Seq<ArchToken<A>>), AssemblerError>(((), arch)));
    assert(arch.drop_last() =~= Seq::<ArchToken<A>>::empty());
    assert(run_partial::<ParsePass<A>>(ParserStateView::Initial, Seq::empty()) == Ok::<(ParserStateView<A>, Seq<ASTNodeView<A>>), AssemblerError>((ParserStateView::Initial, Seq::empty())));
    assert(Seq::<ASTNodeView<A>>::empty() + Seq::empty() =~= Seq::<ASTNodeView<A>>::empty());
    assert(run_partial::<ParsePass<A>>(ParserStateView::Initial, arch) == Ok::<(ParserStateView<A>, Seq<ASTNodeView<A>>), AssemblerError>((ParserStateView::Initial, Seq::empty())));
    assert(run_partial::<ParseOperandsPass<A>>((), Seq::empty()) == Ok::<((), Seq<ASTNodeOperandsParsedView<A>>), AssemblerError>(((), Seq::empty())));
    assert(run_partial::<EmitPass<A>>((), Seq::empty()) == Ok::<((), Seq<u8>), AssemblerError>(((), Seq::empty())));
}

/// Where the text read so far leaves no token pending (after a separator, a
/// comma or other whitespace), inserting a whitespace character that is not
/// a line break there leaves the result of assembling unchanged.
pub proof fn lemma_whitespace_insensitive<A: Architecture>(a: Seq<char>, w: char, b: Seq<char>)
    requires
        is_white_space(w),
        !is_separator(w),
        run_partial::<AssemblerPasses<A>>(initial_state::<A>(), a) is Ok,
        run_partial::<AssemblerPasses<A>>(initial_state::<A>(), a)->Ok_0.0.tokenize is Initial,
    ensures
        assemble_spec::<A>(a + seq![w] + b) == assemble_spec::<A>(a + b),
{
    let init = initial_state::<A>();
    let (s, out_a) = run_partial::<AssemblerPasses<A>>(init, a)->Ok_0;
    lemma_space_between_tokens::<A>(s, w);
    lemma_run_partial_concat::<AssemblerPasses<A>>(init, a, seq![w]);
    assert(seq![w].drop_last() =~= Seq::<char>::empty());
    assert(seq![w].last() == w);
    assert(run_partial::<AssemblerPasses<A>>(s, Seq::empty()) == Ok::<(AssemblerState<A>, Seq<u8>), AssemblerError>((s, Seq::empty())));
    assert(run_partial::<AssemblerPasses<A>>(s, seq![w]) == Ok::<(AssemblerState<A>, Seq<u8>), AssemblerError>((s, Seq::empty() + Seq::empty())));
    assert(out_a + (Seq::<u8>::empty() + Seq::empty()) =~= out_a);
    lemma_run_partial_concat::<AssemblerPasses<A>>(init, a + seq![w], b);
    lemma_run_partial_concat::<AssemblerPasses<A>>(init, a, b);
}

/// Where the text read so far leaves neither a token nor a statement pending,
/// inserting a line break there leaves the result of assembling unchanged.
pub proof fn lemma_blank_lines_insensitive<A: Architecture>(a: Seq<char>, c: char, b: Seq<char>)
    requires
        is_separator(c),
        run_partial::<AssemblerPasses<A>>(initial_state::<A>(), a) is Ok,
        run_partial::<AssemblerPasses<A>>(initial_state::<A>(), a)->Ok_0.0.tokenize is Initial,
        run_partial::<AssemblerPasses<A>>(initial_state::<A>(), a)->Ok_0.0.parse is Initial,
    ensures
        assemble_spec::<A>(a + seq![c] + b) == assemble_spec::<A>(a + b),
{
    let init = initial_state::<A>();
    let (s, out_a) = run_partial::<AssemblerPasses<A>>(init, a)->Ok_0;
    lemma_blank_line::<A>(s, c);
    lemma_run_partial_concat::<AssemblerPasses<A>>(init, a, seq![c]);
    assert(seq![c].drop_last() =~= Seq::<char>::empty());
    assert(seq![c].last() == c);
    assert(run_partial::<AssemblerPasses<A>>(s, Seq::empty()) == Ok::<(AssemblerState<A>, Seq<u8>), AssemblerError>((s, Seq::empty())));
    assert(run_partial::<AssemblerPasses<A>>(s, seq![c]) == Ok::<(AssemblerState<A>, Seq<u8>), AssemblerError>((s, Seq::empty() + Seq::empty())));
    assert(out_a + (Seq::<u8>::empty() + Seq::empty()) =~= out_a);
    lemma_run_partial_concat::<AssemblerPasses<A>>(init, a + seq![c], b);
    lemma_run_partial_concat::<AssemblerPasses<A>>(init, a, b);
}

/// A single identifier or literal, fed to the stages after the lexer, puts
/// out no statement, and what follows it is then read from where it left off.
proof fn lemma_downstream_after_operand<A: Architecture>(p: ParserStateView<A>, t: TokenView, x: Seq<TokenView>)
    requires
        t is Symbol || t is Value,
        x == Seq::<TokenView>::empty() || x == seq![TokenView::LineFeed] || x == seq![TokenView::Comma],
    ensures
        downstream::<A>(p, seq![t] + x, false) == match downstream::<A>(p, seq![t], false) {
            Ok((pa, b1)) => match downstream::<A>(pa, x, false) {
                Ok((pb, b2)) => Ok((pb, b1 + b2)),
                Err(e) => Err(e),
            },
            Err(e) => Err(e),
        },
{
    let one = seq![t];
    assert(one.drop_last() =~= Seq::<TokenView>::empty());
    assert(run_partial::<RetokenizePass<A>>((), Seq::empty()) == Ok::<((), Seq<ArchToken<A>>), AssemblerError>(((), Seq::empty())));
    lemma_run_partial_concat::<RetokenizePass<A>>((), one, x);
    match run_partial::<RetokenizePass<A>>((), one) {
        Err(e) => {},
        Ok((_, a1)) => {
            assert(a1 =~= Seq::empty() + a1);
            assert(a1.len() == 1);
            let a = a1[0];
            assert(!(a is LineFeed) && !(a is Comma));
            assert(a1.drop_last() =~= Seq::<ArchToken<A>>::empty());
            assert(a1.last() == a);
            assert(run_partial::<ParsePass<A>>(p, Seq::empty()) == Ok::<(ParserStateView<A>, Seq<ASTNodeView<A>>), AssemblerError>((p, Seq::empty())));
            if x.len() > 0 {
                assert(x.drop_last() =~= Seq::<TokenView>::empty());
            }
            match run_partial::<RetokenizePass<A>>((), x) {
                Err(e) => {},
                Ok((_, a2)) => {
                    lemma_run_partial_concat::<ParsePass<A>>(p, a1, a2);
                    match run_partial::<ParsePass<A>>(p, a1) {
                        Err(e) => {},
                        Ok((pa, n1)) => {
                            assert(n1 =~= Seq::<ASTNodeView<A>>::empty());
                            match run_partial::<ParsePass<A>>(pa, a2) {
                                Err(e) => {},
                                Ok((pb, n2)) => {
                                    assert(n1 + n2 =~= n2);
                                    assert(run_partial::<ParseOperandsPass<A>>((), n1) == Ok::<((), Seq<ASTNodeOperandsParsedView<A>>), AssemblerError>(((), Seq::empty())));
                                    assert(run_partial::<EmitPass<A>>((), Seq::empty()) == Ok::<((), Seq<u8>), AssemblerError>(((), Seq::empty())));
                                    match run_partial::<ParseOperandsPass<A>>((), n2) {
                                        Err(e) => {},
                                        Ok((_, o2)) => match run_partial::<EmitPass<A>>((), o2) {
                                            Err(e) => {},
                                            Ok((_, b2)) => {
                                                assert(Seq::<u8>::empty() + b2 =~= b2);
                                            },
                                        },
                                    }
                                },
                            }
                        },
                    }
                },
            }
        },
    }
}

/// Whitespace just before a comma, a line break or more whitespace changes
/// nothing: reading both from any state is reading the second alone.
pub proof fn lemma_space_before_delimiter<A: Architecture>(s: AssemblerState<A>, w: char, c: char)
    requires
        is_white_space(w),
        !is_separator(w),
        is_separator(c) || is_white_space(c) || c == ',',
    ensures
        run_partial::<AssemblerPasses<A>>(s, seq![w, c]) == run_partial::<AssemblerPasses<A>>(s, seq![c]),
{
    let two = seq![w, c];
    let one = seq![c];
    assert(two.drop_last() =~= seq![w]);
    assert(seq![w].drop_last() =~= Seq::<char>::empty());
    assert(one.drop_last() =~= Seq::<char>::empty());
    assert(run_partial::<AssemblerPasses<A>>(s, Seq::empty()) == Ok::<(AssemblerState<A>, Seq<u8>), AssemblerError>((s, Seq::empty())));
    if s.tokenize is Initial {
        lemma_space_between_tokens::<A>(s, w);
        assert(Seq::<u8>::empty() + Seq::empty() =~= Seq::<u8>::empty());
        assert(run_partial::<AssemblerPasses<A>>(s, seq![w]) == Ok::<(AssemblerState<A>, Seq<u8>), AssemblerError>((s, Seq::empty())));
        match assemble_step::<A>(s, c) {
            Ok((s2, b)) => {
                assert(Seq::<u8>::empty() + b =~= b);
            },
            Err(e) => {},
        }
    } else {
        let x: Seq<TokenView> = if is_separator(c) {
            seq![TokenView::LineFeed]
        } else if is_white_space(c) {
            Seq::empty()
        } else {
            seq![TokenView::Comma]
        };
        match crate::tokenize::pending_token(s.tokenize) {
            Err(e) => {},
            Ok(None) => {},
            Ok(Some(t)) => {
                assert(seq![t] + Seq::<TokenView>::empty() =~= seq![t]);
                lemma_downstream_after_operand::<A>(s.parse, t, x);
                assert(tokenize_step(s.tokenize, c) == Ok::<(TokenizerStateView, Seq<TokenView>), AssemblerError>((TokenizerStateView::Initial, seq![t] + x)));
                assert(tokenize_step(s.tokenize, w) == Ok::<(TokenizerStateView, Seq<TokenView>), AssemblerError>((TokenizerStateView::Initial, seq![t] + Seq::empty())));
                assert(tokenize_step(TokenizerStateView::Initial, c) == Ok::<(TokenizerStateView, Seq<TokenView>), AssemblerError>((TokenizerStateView::Initial, x)));
                match downstream::<A>(s.parse, seq![t], false) {
                    Err(e) => {
                        assert(assemble_step::<A>(s, w) == Err::<(AssemblerState<A>, Seq<u8>), AssemblerError>(e));
                        assert(assemble_step::<A>(s, c) == Err::<(AssemblerState<A>, Seq<u8>), AssemblerError>(e));
                    },
                    Ok((pa, b1)) => {
                        let s1 = AssemblerState::<A> { tokenize: TokenizerStateView::Initial, parse: pa };
                        assert(assemble_step::<A>(s, w) == Ok::<(AssemblerState<A>, Seq<u8>), AssemblerError>((s1, b1)));
                        assert(Seq::<u8>::empty() + b1 =~= b1);
                        assert(run_partial::<AssemblerPasses<A>>(s, seq![w]) == Ok::<(AssemblerState<A>, Seq<u8>), AssemblerError>((s1, b1)));
                        match downstream::<A>(pa, x, false) {
                            Err(e) => {
                                assert(assemble_step::<A>(s1, c) == Err::<(AssemblerState<A>, Seq<u8>), AssemblerError>(e));
                            },
                            Ok((pb, b2)) => {
                                let s2 = AssemblerState::<A> { tokenize: TokenizerStateView::Initial, parse: pb };
                                assert(assemble_step::<A>(s1, c) == Ok::<(AssemblerState<A>, Seq<u8>), AssemblerError>((s2, b2)));
                                assert(assemble_step::<A>(s, c) == Ok::<(AssemblerState<A>, Seq<u8>), AssemblerError>((s2, b1 + b2)));
                                assert(Seq::<u8>::empty() + (b1 + b2) =~= b1 + b2);
                            },
                        }
                    },
                }
            },
        }
    }
}

/// Removing whitespace that stands just before a comma, a line break or more
/// whitespace leaves the result of assembling unchanged, wherever in the text
/// it stands.
pub proof fn lemma_space_before_delimiter_insensitive<A: Architecture>(a: Seq<char>, w: char, c: char, b: Seq<char>)
    requires
        is_white_space(w),
        !is_separator(w),
        is_separator(c) || is_white_space(c) || c == ',',
    ensures
        assemble_spec::<A>(a + seq![w, c] + b) == assemble_spec::<A>(a + seq![c] + b),
{
    let init = initial_state::<A>();
    lemma_run_partial_concat::<AssemblerPasses<A>>(init, a, seq![w, c]);
    lemma_run_partial_concat::<AssemblerPasses<A>>(init, a, seq![c]);
    match run_partial::<AssemblerPasses<A>>(init, a) {
        Ok((s, out_a)) => {
            lemma_space_before_delimiter::<A>(s, w, c);
        },
        Err(e) => {},
    }
    lemma_run_partial_concat::<AssemblerPasses<A>>(init, a + seq![w, c], b);
    lemma_run_partial_concat::<AssemblerPasses<A>>(init, a + seq![c], b);
}

/// A single identifier or literal, fed to the stages after the lexer and then
/// flushed, gives what feeding it and then flushing from where it left off gives.
proof fn lemma_flush_after_operand<A: Architecture>(p: ParserStateView<A>, t: TokenView)
    requires
        t is Symbol || t is Value,
    ensures
        downstream::<A>(p, seq![t], true) == match downstream::<A>(p, seq![t], false) {
            Ok((pa, b1)) => match downstream::<A>(pa, Seq::empty(), true) {
                Ok((pb, b2)) => Ok((pb, b1 + b2)),
                Err(e) => Err(e),
            },
            Err(e) => Err(e),
        },
{
    let one = seq![t];
    let none = Seq::<TokenView>::empty();
    assert(one.drop_last() =~= none);
    assert(run_partial::<RetokenizePass<A>>((), none) == Ok::<((), Seq<ArchToken<A>>), AssemblerError>(((), Seq::empty())));
    match run_partial::<RetokenizePass<A>>((), one) {
        Err(e) => {},
        Ok((_, a1)) => {
            assert(a1 =~= Seq::empty() + a1);
            assert(a1 + Seq::<ArchToken<A>>::empty() =~= a1);
            assert(a1.len() == 1);
            let a = a1[0];
            assert(a1.drop_last() =~= Seq::<ArchToken<A>>::empty());
            assert(a1.last() == a);
            assert(run_partial::<ParsePass<A>>(p, Seq::empty()) == Ok::<(ParserStateView<A>, Seq<ASTNodeView<A>>), AssemblerError>((p, Seq::empty())));
            match run_partial::<ParsePass<A>>(p, a1) {
                Err(e) => {},
                Ok((pa, n1)) => {
                    assert(n1 =~= Seq::<ASTNodeView<A>>::empty());
                    assert(run_partial::<ParsePass<A>>(pa, Seq::empty()) == Ok::<(ParserStateView<A>, Seq<ASTNodeView<A>>), AssemblerError>((pa, Seq::empty())));
                    assert(run_partial::<ParseOperandsPass<A>>((), n1) == Ok::<((), Seq<ASTNodeOperandsParsedView<A>>), AssemblerError>(((), Seq::empty())));
                    assert(run_partial::<EmitPass<A>>((), Seq::empty()) == Ok::<((), Seq<u8>), AssemblerError>(((), Seq::empty())));
                    match crate::parse::parse_finish::<A>(pa) {
                        Err(e) => {},
                        Ok((pb, n2)) => {
                            assert(n1 + n2 =~= n2);
                            assert(Seq::<ASTNodeView<A>>::empty() + n2 =~= n2);
                            match run_partial::<ParseOperandsPass<A>>((), n2) {
                                Err(e) => {},
                                Ok((_, o2)) => {
                                    assert(o2 + Seq::<ASTNodeOperandsParsedView<A>>::empty() =~= o2);
                                    match run_partial::<EmitPass<A>>((), o2) {
                                        Err(e) => {},
                                        Ok((_, b2)) => {
                                            assert(b2 + Seq::<u8>::empty() =~= b2);
                                            assert(Seq::<u8>::empty() + b2 =~= b2);
                                        },
                                    }
                                },
                            }
                        },
                    }
                },
            }
        },
    }
}

/// Whitespace at the very end of the text changes nothing.
pub proof fn lemma_trailing_space_insensitive<A: Architecture>(a: Seq<char>, w: char)
    requires
        is_white_space(w),
        !is_separator(w),
    ensures
        assemble_spec::<A>(a + seq![w]) == assemble_spec::<A>(a),
{
    let init = initial_state::<A>();
    assert((a + seq![w]).drop_last() =~= a);
    assert((a + seq![w]).last() == w);
    match run_partial::<AssemblerPasses<A>>(init, a) {
        Err(e) => {},
        Ok((s, out_a)) => {
            if s.tokenize is Initial {
                lemma_space_between_tokens::<A>(s, w);
                assert(out_a + Seq::<u8>::empty() =~= out_a);
            } else {
                match crate::tokenize::pending_token(s.tokenize) {
                    Err(e) => {},
                    Ok(None) => {},
                    Ok(Some(t)) => {
                        assert(seq![t] + Seq::<TokenView>::empty() =~= seq![t]);
                        lemma_flush_after_operand::<A>(s.parse, t);
                        match downstream::<A>(s.parse, seq![t], false) {
                            Err(e) => {},
                            Ok((pa, b1)) => {
                                let s1 = AssemblerState::<A> { tokenize: TokenizerStateView::Initial, parse: pa };
                                assert(assemble_step::<A>(s, w) == Ok::<(AssemblerState<A>, Seq<u8>), AssemblerError>((s1, b1)));
                                match downstream::<A>(pa, Seq::empty(), true) {
                                    Err(e) => {},
                                    Ok((pb, b2)) => {
                                        assert(out_a + b1 + b2 =~= out_a + (b1 + b2));
                                    },
                                }
                            },
                        }
                    },
                }
            }
        },
    }
}

/// Inserting one whitespace character other than a line break changes nothing
/// wherever it does not split a token: where the text before it leaves no
/// token pending, where a comma, a line break or more whitespace follows it,
/// or at the end of the text. Runs of whitespace follow one character at a time.
pub proof fn lemma_space_insertion<A: Architecture>(a: Seq<char>, w: char, b: Seq<char>)
    requires
        is_white_space(w),
        !is_separator(w),
        ({
            let before = run_partial::<AssemblerPasses<A>>(initial_state::<A>(), a);
            ||| before is Ok && before->Ok_0.0.tokenize is Initial
            ||| b.len() > 0 && (is_separator(b[0]) || is_white_space(b[0]) || b[0] == ',')
            ||| b.len() == 0
        }),
    ensures
        assemble_spec::<A>(a + seq![w] + b) == assemble_spec::<A>(a + b),
{
    let before = run_partial::<AssemblerPasses<A>>(initial_state::<A>(), a);
    if before is Ok && before->Ok_0.0.tokenize is Initial {
        lemma_whitespace_insensitive::<A>(a, w, b);
    } else if b.len() == 0 {
        assert(a + seq![w] + b =~= a + seq![w]);
        assert(a + b =~= a);
        lemma_trailing_space_insensitive::<A>(a, w);
    } else {
        let c = b[0];
        let rest = b.drop_first();
        assert(a + seq![w] + b =~= a + seq![w, c] + rest);
        assert(a + b =~= a + seq![c] + rest);
        lemma_space_before_delimiter_insensitive::<A>(a, w, c, rest);
    }
}

} // verus!
