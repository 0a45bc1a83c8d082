use vstd::prelude::*;
use core::marker::PhantomData;
use crate::arch_def::{catalog, name_of, Architecture, Instruction, OperandOf, Symbol};
use crate::error::AssemblerError;
use crate::pass::{views, AssemblerPass, StepResult};
use crate::tokenize::{Token, TokenView};

verus! {

/// A lexical token after the architecture has resolved its identifiers.
pub enum ArchToken<A: Architecture> {
    Instruction(A::Instruction),
    Symbol(A::Symbol),
    Value(isize),
    Comma,
    LineFeed,
}

impl<A: Architecture> View for ArchToken<A> {
    type V = ArchToken<A>;

    open spec fn view(&self) -> ArchToken<A> {
        *self
    }
}

/// The index of the first entry of `entries`, from `from` on, named `name`.
pub open spec fn first_named<A: Architecture>(entries: Seq<A::Instruction>, name: Seq<char>, from: int) -> Option<int>
    decreases entries.len() - from,
{
    if from < 0 || from >= entries.len() {
        None
    } else if name_of::<A>(entries[from]) == name {
        Some(from)
    } else {
        first_named::<A>(entries, name, from + 1)
    }
}

/// What an identifier stands for: the first catalog entry of that name, else
/// the architecture's symbol of that text.
pub open spec fn resolve_identifier<A: Architecture>(text: Seq<char>) -> Result<ArchToken<A>, AssemblerError> {
    match first_named::<A>(catalog::<A>(), text, 0) {
        Some(i) => Ok(ArchToken::Instruction(catalog::<A>()[i])),
        None => match A::Symbol::spec_parse(text) {
            Some(s) => Ok(ArchToken::Symbol(s)),
            None => Err(AssemblerError::UnresolvedSymbol),
        },
    }
}

/// One step of the resolver on a lexical token.
pub open spec fn retokenize_step<A: Architecture>(item: TokenView) -> StepResult<(), ArchToken<A>> {
    match item {
        TokenView::Symbol(text) => match resolve_identifier::<A>(text) {
            Ok(t) => Ok(((), seq![t])),
            Err(e) => Err(e),
        },
        TokenView::Value(v) => Ok(((), seq![ArchToken::Value(v)])),
        TokenView::Comma => Ok(((), seq![ArchToken::Comma])),
        TokenView::LineFeed => Ok(((), seq![ArchToken::LineFeed])),
    }
}

/// Whether the two texts are the same, character for character.
pub fn same_text(a: &str, b: &str) -> (r: bool)
    ensures
        r == (a@ == b@),
{
    let n = a.unicode_len();
    if n != b.unicode_len() {
        return false;
    }
    let mut i: usize = 0;
    while i < n
        invariant
            n == a@.len(),
            n == b@.len(),
            i <= n,
            forall|j: int| 0 <= j < i ==> a@[j] == b@[j],
        decreases n - i,
    {
        if a.get_char(i) != b.get_char(i) {
            return false;
        }
        i = i + 1;
    }
    assert(a@ =~= b@);
    true
}

/// The resolver: lexical tokens in, architecture tokens out.
pub struct RetokenizePass<A: Architecture> {
    phantom_architecture: PhantomData<A>,
}

impl<A: Architecture> View for RetokenizePass<A> {
    type V = ();

    open spec fn view(&self) -> () {
        ()
    }
}

impl<A: Architecture> Default for RetokenizePass<A> {
    fn default() -> (r: Self)
        ensures
            r@ == (),
    {
        RetokenizePass { phantom_architecture: PhantomData }
    }
}

impl<A: Architecture> RetokenizePass<A> {
    /// Resolves an identifier against the catalog, then against the
    /// architecture's symbols.
    pub fn parse_symbol(symbol: String) -> (r: Result<ArchToken<A>, AssemblerError>)
        ensures
            r == resolve_identifier::<A>(symbol@),
    {
        let entries = <A::Instruction as Instruction<A::OperandKind, OperandOf<A>>>::enumerate();
        let mut i: usize = 0;
        while i < entries.len()
            invariant
                entries@ == catalog::<A>(),
                i <= entries@.len(),
                first_named::<A>(entries@, symbol@, 0) == first_named::<A>(entries@, symbol@, i as int),
            decreases entries@.len() - i,
        {
            let inst = entries[i];
            if same_text(inst.name(), symbol.as_str()) {
                return Ok(ArchToken::Instruction(inst));
            }
            i = i + 1;
        }
        match A::Symbol::parse(symbol.as_str()) {
            Some(s) => Ok(ArchToken::Symbol(s)),
            None => Err(AssemblerError::UnresolvedSymbol),
        }
    }
}

impl<A: Architecture> AssemblerPass for RetokenizePass<A> {
    type Input = Token;
    type Output = ArchToken<A>;

    open spec fn spec_apply(state: (), item: TokenView) -> StepResult<(), ArchToken<A>> {
        retokenize_step::<A>(item)
    }

    open spec fn spec_finish(state: ()) -> StepResult<(), ArchToken<A>> {
        Ok(((), seq![]))
    }

    fn apply(&mut self, item: Token) -> (r: Result<Vec<ArchToken<A>>, AssemblerError>) {
        let t = match item {
            Token::Symbol(symbol) => Self::parse_symbol(symbol)?,
            Token::Value(v) => ArchToken::Value(v),
            Token::Comma => ArchToken::Comma,
            Token::LineFeed => ArchToken::LineFeed,
        };
        let out = vec![t];
        assert(views(out@) =~= seq![t]);
        Ok(out)
    }

    fn finish(&mut self) -> (r: Result<Vec<ArchToken<A>>, AssemblerError>) {
        let out: Vec<ArchToken<A>> = Vec::new();
        assert(views(out@) =~= Seq::<ArchToken<A>>::empty());
        Ok(out)
    }
}

} // verus!
