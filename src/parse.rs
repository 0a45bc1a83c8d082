use vstd::prelude::*;
use itertools::{EitherOrBoth, Itertools};
use crate::arch_def::{catalog, name_of, signature_fits, signature_of, Architecture, Instruction, OperandKind, OperandOf};
use crate::error::AssemblerError;
use crate::pass::{views, AssemblerPass, StepResult};
use crate::retokenize::ArchToken;
use crate::retokenize::same_text;

verus! {

/// An operand before its kind is known: a symbol of the architecture, or an integer.
pub enum PlausibleOperator<S> {
    Symbol(S),
    Value(isize),
}

/// Relies on itertools::Itertools::zip_longest, on the positions of two lists
/// of lengths `n` and `m`: while both have an item, a pair of both; after the
/// shorter ends, the longer one's positions alone.
#[verifier::external_body]
fn zip_longest_positions(n: usize, m: usize) -> (r: Vec<(Option<usize>, Option<usize>)>)
    ensures
        r@.len() == (if n >= m { n } else { m }),
        forall|i: int| 0 <= i < r@.len() ==> #[trigger] r@[i] == (
            if i < n { Some(i as usize) } else { None },
            if i < m { Some(i as usize) } else { None },
        ),
{
    (0..n).zip_longest(0..m).map(|pair| match pair {
        EitherOrBoth::Both(a, b) => (Some(a), Some(b)),
        EitherOrBoth::Left(a) => (Some(a), None),
        EitherOrBoth::Right(b) => (None, Some(b)),
    }).collect()
}

/// Whether the signature `kinds` fits the operands `ops`: as long as they are,
/// and each kind accepts the operand at its position.
pub fn operands_fit<S, K: OperandKind<S>>(kinds: &Vec<K>, ops: &Vec<PlausibleOperator<S>>) -> (r: bool)
    ensures
        r == signature_fits(kinds@, ops@),
{
    let pairs = zip_longest_positions(kinds.len(), ops.len());
    let mut i: usize = 0;
    while i < pairs.len()
        invariant
            pairs@.len() == (if kinds@.len() >= ops@.len() { kinds@.len() } else { ops@.len() }),
            forall|j: int| 0 <= j < pairs@.len() ==> #[trigger] pairs@[j] == (
                if j < kinds@.len() { Some(j as usize) } else { None },
                if j < ops@.len() { Some(j as usize) } else { None },
            ),
            i <= pairs@.len(),
            i <= kinds@.len(),
            i <= ops@.len(),
            forall|j: int| 0 <= j < i ==> (#[trigger] kinds@[j]).spec_parse(ops@[j]) is Some,
        decreases pairs@.len() - i,
    {
        let pair = pairs[i];
        match pair {
            (Some(a), Some(b)) => {
                if !kinds[a].matches(&ops[b]) {
                    return false;
                }
            },
            _ => {
                return false;
            },
        }
        i = i + 1;
    }
    true
}

/// A parsed statement: the instruction variant and its operands, not yet typed.
pub enum ASTNode<A: Architecture> {
    Instruction(A::Instruction, Vec<PlausibleOperator<A::Symbol>>),
}

/// The model of a parsed statement.
pub enum ASTNodeView<A: Architecture> {
    Instruction(A::Instruction, Seq<PlausibleOperator<A::Symbol>>),
}

impl<A: Architecture> View for ASTNode<A> {
    type V = ASTNodeView<A>;

    open spec fn view(&self) -> ASTNodeView<A> {
        match self {
            ASTNode::Instruction(inst, ops) => ASTNodeView::Instruction(*inst, ops@),
        }
    }
}

/// The catalog entry `inst` fits `ops`.
pub open spec fn fits<A: Architecture>(inst: A::Instruction, ops: Seq<PlausibleOperator<A::Symbol>>) -> bool {
    signature_fits::<A::Symbol, A::OperandKind>(signature_of::<A>(inst), ops)
}

/// The index of the first entry of `entries`, from `from` on, that is named
/// `name` and fits `ops`.
pub open spec fn first_fitting<A: Architecture>(
    entries: Seq<A::Instruction>,
    name: Seq<char>,
    ops: Seq<PlausibleOperator<A::Symbol>>,
    from: int,
) -> Option<int>
    decreases entries.len() - from,
{
    if from < 0 || from >= entries.len() {
        None
    } else if name_of::<A>(entries[from]) == name && fits::<A>(entries[from], ops) {
        Some(from)
    } else {
        first_fitting::<A>(entries, name, ops, from + 1)
    }
}

/// The statement that mnemonic `name` with operands `ops` resolves to: the
/// first catalog entry, in enumeration order, of that name whose signature fits.
pub open spec fn resolve_statement<A: Architecture>(
    name: Seq<char>,
    ops: Seq<PlausibleOperator<A::Symbol>>,
) -> Result<ASTNodeView<A>, AssemblerError> {
    match first_fitting::<A>(catalog::<A>(), name, ops, 0) {
        Some(i) => Ok(ASTNodeView::Instruction(catalog::<A>()[i], ops)),
        None => Err(AssemblerError::UnresolvableInstruction),
    }
}

/// A statement being read: its mnemonic, the operands so far, and what may come next.
pub struct InInstruction<A: Architecture> {
    pub instruction: A::Instruction,
    pub operators: Vec<PlausibleOperator<A::Symbol>>,
    pub can_accept_operator: bool,
    pub can_finish: bool,
}

/// The model of a statement being read.
pub struct InInstructionView<A: Architecture> {
    pub instruction: A::Instruction,
    pub operators: Seq<PlausibleOperator<A::Symbol>>,
    pub can_accept_operator: bool,
    pub can_finish: bool,
}

impl<A: Architecture> View for InInstruction<A> {
    type V = InInstructionView<A>;

    open spec fn view(&self) -> InInstructionView<A> {
        InInstructionView {
            instruction: self.instruction,
            operators: self.operators@,
            can_accept_operator: self.can_accept_operator,
            can_finish: self.can_finish,
        }
    }
}

/// The statement a finished `s` denotes, or why there is none.
pub open spec fn finish_statement<A: Architecture>(s: InInstructionView<A>) -> Result<ASTNodeView<A>, AssemblerError> {
    if s.can_finish {
        resolve_statement::<A>(name_of::<A>(s.instruction), s.operators)
    } else {
        Err(AssemblerError::Syntax)
    }
}

/// `r` is the outcome that `expected` describes.
pub open spec fn node_agrees<A: Architecture>(
    expected: Result<ASTNodeView<A>, AssemblerError>,
    r: Result<ASTNode<A>, AssemblerError>,
) -> bool {
    match expected {
        Ok(n) => r is Ok && r->Ok_0@ == n,
        Err(e) => r is Err && r->Err_0 == e,
    }
}

impl<A: Architecture> InInstruction<A> {
    /// A statement that has read its mnemonic.
    pub fn start(instruction: A::Instruction) -> (r: Self)
        ensures
            r@ == (InInstructionView::<A> {
                instruction,
                operators: Seq::empty(),
                can_accept_operator: true,
                can_finish: true,
            }),
    {
        InInstruction { instruction, operators: Vec::new(), can_accept_operator: true, can_finish: true }
    }

    /// The statement with one more operand.
    pub fn with_operator(self, operator: PlausibleOperator<A::Symbol>) -> (r: Self)
        ensures
            r@ == (InInstructionView::<A> {
                instruction: self.instruction,
                operators: self@.operators.push(operator),
                can_accept_operator: false,
                can_finish: true,
            }),
    {
        let mut operators = self.operators;
        operators.push(operator);
        InInstruction { instruction: self.instruction, operators, can_accept_operator: false, can_finish: true }
    }

    /// The statement after a comma: an operand must follow.
    pub fn with_comma(self) -> (r: Self)
        ensures
            r@ == (InInstructionView::<A> {
                can_accept_operator: true,
                can_finish: false,
                ..self@
            }),
    {
        InInstruction {
            instruction: self.instruction,
            operators: self.operators,
            can_accept_operator: true,
            can_finish: false,
        }
    }

    /// Ends the statement and resolves it against the catalog.
    pub fn finish(self) -> (r: Result<ASTNode<A>, AssemblerError>)
        ensures
            node_agrees(finish_statement::<A>(self@), r),
    {
        if !self.can_finish {
            return Err(AssemblerError::Syntax);
        }
        let entries = <A::Instruction as Instruction<A::OperandKind, OperandOf<A>>>::enumerate();
        let name = self.instruction.name();
        let mut i: usize = 0;
        while i < entries.len()
            invariant
                entries@ == catalog::<A>(),
                name@ == name_of::<A>(self.instruction),
                i <= entries@.len(),
                self.can_finish,
                first_fitting::<A>(entries@, name@, self.operators@, 0)
                    == first_fitting::<A>(entries@, name@, self.operators@, i as int),
            decreases entries@.len() - i,
        {
            let candidate = entries[i];
            if same_text(candidate.name(), name) {
                let kinds = candidate.operands();
                if operands_fit(&kinds, &self.operators) {
                    return Ok(ASTNode::Instruction(candidate, self.operators));
                }
            }
            i = i + 1;
        }
        Err(AssemblerError::UnresolvableInstruction)
    }
}

/// What the parser holds between tokens.
pub enum ParserState<A: Architecture> {
    Initial,
    InInstruction(InInstruction<A>),
}

/// The model of the parser's state.
pub enum ParserStateView<A: Architecture> {
    Initial,
    InInstruction(InInstructionView<A>),
}

impl<A: Architecture> View for ParserState<A> {
    type V = ParserStateView<A>;

    open spec fn view(&self) -> ParserStateView<A> {
        match self {
            ParserState::Initial => ParserStateView::Initial,
            ParserState::InInstruction(s) => ParserStateView::InInstruction(s@),
        }
    }
}

impl<A: Architecture> ParserState<A> {
    /// The statement pending at end of input, if any.
    pub fn finish(self) -> (r: Result<Option<ASTNode<A>>, AssemblerError>)
        ensures
            match self@ {
                ParserStateView::Initial => r is Ok && r->Ok_0 is None,
                ParserStateView::InInstruction(s) => match finish_statement::<A>(s) {
                    Ok(n) => r is Ok && r->Ok_0 is Some && r->Ok_0->Some_0@ == n,
                    Err(e) => r is Err && r->Err_0 == e,
                },
            },
    {
        match self {
            ParserState::Initial => Ok(None),
            ParserState::InInstruction(s) => {
                let node = s.finish()?;
                Ok(Some(node))
            },
        }
    }

    /// The pending statement; a state that holds none is a syntax error here.
    pub fn finish_or_error(self) -> (r: Result<ASTNode<A>, AssemblerError>)
        ensures
            match self@ {
                ParserStateView::Initial => r is Err && r->Err_0 == AssemblerError::Syntax,
                ParserStateView::InInstruction(s) => node_agrees(finish_statement::<A>(s), r),
            },
    {
        match self.finish()? {
            Some(node) => Ok(node),
            None => Err(AssemblerError::Syntax),
        }
    }
}

/// One step of the parser on an architecture token.
pub open spec fn parse_step<A: Architecture>(
    state: ParserStateView<A>,
    item: ArchToken<A>,
) -> StepResult<ParserStateView<A>, ASTNodeView<A>> {
    match state {
        ParserStateView::Initial => match item {
            ArchToken::LineFeed => Ok((ParserStateView::Initial, seq![])),
            ArchToken::Instruction(inst) => Ok((
                ParserStateView::InInstruction(InInstructionView {
                    instruction: inst,
                    operators: Seq::empty(),
                    can_accept_operator: true,
                    can_finish: true,
                }),
                seq![],
            )),
            _ => Err(AssemblerError::Syntax),
        },
        ParserStateView::InInstruction(s) => match item {
            ArchToken::Symbol(sym) if s.can_accept_operator => Ok((
                ParserStateView::InInstruction(InInstructionView {
                    operators: s.operators.push(PlausibleOperator::Symbol(sym)),
                    can_accept_operator: false,
                    can_finish: true,
                    ..s
                }),
                seq![],
            )),
            ArchToken::Value(v) if s.can_accept_operator => Ok((
                ParserStateView::InInstruction(InInstructionView {
                    operators: s.operators.push(PlausibleOperator::Value(v)),
                    can_accept_operator: false,
                    can_finish: true,
                    ..s
                }),
                seq![],
            )),
            ArchToken::Comma if !s.can_accept_operator => Ok((
                ParserStateView::InInstruction(InInstructionView {
                    can_accept_operator: true,
                    can_finish: false,
                    ..s
                }),
                seq![],
            )),
            ArchToken::LineFeed if s.can_finish => match finish_statement::<A>(s) {
                Ok(n) => Ok((ParserStateView::Initial, seq![n])),
                Err(e) => Err(e),
            },
            _ => Err(AssemblerError::Syntax),
        },
    }
}

/// The flush of the parser at end of input.
pub open spec fn parse_finish<A: Architecture>(state: ParserStateView<A>) -> StepResult<ParserStateView<A>, ASTNodeView<A>> {
    match state {
        ParserStateView::Initial => Ok((ParserStateView::Initial, seq![])),
        ParserStateView::InInstruction(s) => match finish_statement::<A>(s) {
            Ok(n) => Ok((ParserStateView::Initial, seq![n])),
            Err(e) => Err(e),
        },
    }
}

/// The parser: architecture tokens in, one statement per line out.
pub struct ParsePass<A: Architecture> {
    pub state: ParserState<A>,
}

impl<A: Architecture> View for ParsePass<A> {
    type V = ParserStateView<A>;

    open spec fn view(&self) -> ParserStateView<A> {
        self.state@
    }
}

impl<A: Architecture> Default for ParsePass<A> {
    fn default() -> (r: Self)
        ensures
            r@ == ParserStateView::<A>::Initial,
    {
        ParsePass { state: ParserState::Initial }
    }
}

impl<A: Architecture> AssemblerPass for ParsePass<A> {
    type Input = ArchToken<A>;
    type Output = ASTNode<A>;

    open spec fn spec_apply(state: ParserStateView<A>, item: ArchToken<A>) -> StepResult<ParserStateView<A>, ASTNodeView<A>> {
        parse_step::<A>(state, item)
    }

    open spec fn spec_finish(state: ParserStateView<A>) -> StepResult<ParserStateView<A>, ASTNodeView<A>> {
        parse_finish::<A>(state)
    }

    fn apply(&mut self, item: ArchToken<A>) -> (r: Result<Vec<ASTNode<A>>, AssemblerError>) {
        let mut state = ParserState::Initial;
        core::mem::swap(&mut self.state, &mut state);
        let none: Vec<ASTNode<A>> = Vec::new();
        assert(views(none@) =~= Seq::<ASTNodeView<A>>::empty());
        match state {
            ParserState::Initial => match item {
                ArchToken::LineFeed => Ok(none),
                ArchToken::Instruction(inst) => {
                    self.state = ParserState::InInstruction(InInstruction::start(inst));
                    Ok(none)
                },
                _ => Err(AssemblerError::Syntax),
            },
            ParserState::InInstruction(s) => match item {
                ArchToken::Symbol(sym) => {
                    if !s.can_accept_operator {
                        return Err(AssemblerError::Syntax);
                    }
                    self.state = ParserState::InInstruction(s.with_operator(PlausibleOperator::Symbol(sym)));
                    Ok(none)
                },
                ArchToken::Value(v) => {
                    if !s.can_accept_operator {
                        return Err(AssemblerError::Syntax);
                    }
                    self.state = ParserState::InInstruction(s.with_operator(PlausibleOperator::Value(v)));
                    Ok(none)
                },
                ArchToken::Comma => {
                    if s.can_accept_operator {
                        return Err(AssemblerError::Syntax);
                    }
                    self.state = ParserState::InInstruction(s.with_comma());
                    Ok(none)
                },
                ArchToken::LineFeed => {
                    if !s.can_finish {
                        return Err(AssemblerError::Syntax);
                    }
                    let node = ParserState::InInstruction(s).finish_or_error()?;
                    let out = vec![node];
                    assert(views(out@) =~= seq![node@]);
                    Ok(out)
                },
                ArchToken::Instruction(_) => Err(AssemblerError::Syntax),
            },
        }
    }

    fn finish(&mut self) -> (r: Result<Vec<ASTNode<A>>, AssemblerError>) {
        let mut state = ParserState::Initial;
        core::mem::swap(&mut self.state, &mut state);
        match state.finish()? {
            Some(node) => {
                let out = vec![node];
                assert(views(out@) =~= seq![node@]);
                Ok(out)
            },
            None => {
                let out: Vec<ASTNode<A>> = Vec::new();
                assert(views(out@) =~= Seq::<ASTNodeView<A>>::empty());
                Ok(out)
            },
        }
    }
}

} // verus!
