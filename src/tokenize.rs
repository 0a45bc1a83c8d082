use vstd::prelude::*;
use crate::error::AssemblerError;
use crate::pass::{step_agrees, views, AssemblerPass, StepResult};

verus! {

/// Whether `c` has the Unicode `White_Space` property: tab, line feed,
/// vertical tab, form feed, carriage return, space, next line, no-break space,
/// ogham space mark, the spaces U+2000 to U+200A, line and paragraph
/// separators, narrow no-break space, medium mathematical space, and
/// ideographic space.
pub open spec fn is_white_space(c: char) -> bool {
    let u = c as u32;
    ||| 0x9 <= u <= 0xD
    ||| u == 0x20
    ||| u == 0x85
    ||| u == 0xA0
    ||| u == 0x1680
    ||| 0x2000 <= u <= 0x200A
    ||| u == 0x2028
    ||| u == 0x2029
    ||| u == 0x202F
    ||| u == 0x205F
    ||| u == 0x3000
}

/// Whether `c` has the Unicode `Alphabetic` property.
pub uninterp spec fn is_alphabetic_char(c: char) -> bool;

/// Whether `c` is alphabetic or numeric in the Unicode sense.
pub uninterp spec fn is_alphanumeric_char(c: char) -> bool;

/// Relies on char::is_whitespace: whether the character has the Unicode
/// `White_Space` property.
#[verifier::external_body]
fn white_space(c: char) -> (r: bool)
    ensures
        r == is_white_space(c),
{
    c.is_whitespace()
}

/// Relies on char::is_alphabetic: it tests the character alone.
#[verifier::external_body]
fn alphabetic(c: char) -> (r: bool)
    ensures
        r == is_alphabetic_char(c),
{
    c.is_alphabetic()
}

/// Relies on char::is_alphanumeric: it tests the character alone.
#[verifier::external_body]
fn alphanumeric(c: char) -> (r: bool)
    ensures
        r == is_alphanumeric_char(c),
{
    c.is_alphanumeric()
}

/// Relies on `From<char> for String`: a string of that one character.
#[verifier::external_body]
fn string_of(c: char) -> (r: String)
    ensures
        r@ == seq![c],
{
    String::from(c)
}

/// Relies on String::push: appends the character at the end.
#[verifier::external_body]
fn push_char(s: &mut String, c: char)
    ensures
        final(s)@ == old(s)@.push(c),
{
    s.push(c);
}

/// An ASCII decimal digit.
pub open spec fn is_digit(c: char) -> bool {
    '0' <= c && c <= '9'
}

/// A character that ends a statement.
pub open spec fn is_separator(c: char) -> bool {
    c == '\n' || c == ';'
}

pub open spec fn all_digits(s: Seq<char>) -> bool {
    forall|i: int| 0 <= i < s.len() ==> is_digit(#[trigger] s[i])
}

/// The number that a string of decimal digits denotes.
pub open spec fn digits_value(s: Seq<char>) -> int
    decreases s.len(),
{
    if s.len() == 0 {
        0
    } else {
        digits_value(s.drop_last()) * 10 + (s.last() as int - '0' as int)
    }
}

/// The integer that a literal denotes: decimal digits, with an optional leading
/// minus sign, and at least one digit.
pub open spec fn literal_value(s: Seq<char>) -> Option<int> {
    if s.len() > 0 && s[0] == '-' {
        let d = s.drop_first();
        if d.len() > 0 && all_digits(d) {
            Some(-digits_value(d))
        } else {
            None
        }
    } else if s.len() > 0 && all_digits(s) {
        Some(digits_value(s))
    } else {
        None
    }
}

/// The literal's value where it denotes an integer that `isize` holds.
pub open spec fn literal_isize(s: Seq<char>) -> Option<isize> {
    match literal_value(s) {
        Some(v) => if isize::MIN <= v <= isize::MAX {
            Some(v as isize)
        } else {
            None
        },
        None => None,
    }
}

/// A lexical token.
pub enum Token {
    Symbol(String),
    Value(isize),
    Comma,
    LineFeed,
}

/// The model of a lexical token.
pub enum TokenView {
    Symbol(Seq<char>),
    Value(isize),
    Comma,
    LineFeed,
}

impl View for Token {
    type V = TokenView;

    open spec fn view(&self) -> TokenView {
        match self {
            Token::Symbol(s) => TokenView::Symbol(s@),
            Token::Value(v) => TokenView::Value(*v),
            Token::Comma => TokenView::Comma,
            Token::LineFeed => TokenView::LineFeed,
        }
    }
}

/// What the lexer holds between characters: nothing, or the text of a symbol
/// or of an integer literal read so far.
pub enum TokenizerState {
    Initial,
    InSymbol(String),
    InValue(String),
}

/// The model of the lexer's state.
pub enum TokenizerStateView {
    Initial,
    InSymbol(Seq<char>),
    InValue(Seq<char>),
}

impl View for TokenizerState {
    type V = TokenizerStateView;

    open spec fn view(&self) -> TokenizerStateView {
        match self {
            TokenizerState::Initial => TokenizerStateView::Initial,
            TokenizerState::InSymbol(s) => TokenizerStateView::InSymbol(s@),
            TokenizerState::InValue(s) => TokenizerStateView::InValue(s@),
        }
    }
}

/// The token pending in `state`, if any, or the error of a malformed literal.
pub open spec fn pending_token(state: TokenizerStateView) -> Result<Option<TokenView>, AssemblerError> {
    match state {
        TokenizerStateView::Initial => Ok(None),
        TokenizerStateView::InSymbol(s) => Ok(Some(TokenView::Symbol(s))),
        TokenizerStateView::InValue(s) => match literal_isize(s) {
            Some(v) => Ok(Some(TokenView::Value(v))),
            None => Err(AssemblerError::Tokenize),
        },
    }
}

/// The pending token of a state that holds one, then `rest`.
pub open spec fn flush_then(state: TokenizerStateView, rest: Seq<TokenView>) -> StepResult<TokenizerStateView, TokenView> {
    match pending_token(state) {
        Ok(Some(t)) => Ok((TokenizerStateView::Initial, seq![t] + rest)),
        Ok(None) => Err(AssemblerError::Tokenize),
        Err(e) => Err(e),
    }
}

/// One step of the lexer on the character `c`.
pub open spec fn tokenize_step(state: TokenizerStateView, c: char) -> StepResult<TokenizerStateView, TokenView> {
    tokenize_step_classified(state, c, is_white_space(c), is_alphabetic_char(c), is_alphanumeric_char(c))
}

/// One step of the lexer on the character `c`, given whether `c` is white
/// space, alphabetic, and alphanumeric.
pub open spec fn tokenize_step_classified(
    state: TokenizerStateView,
    c: char,
    space: bool,
    alpha: bool,
    alnum: bool,
) -> StepResult<TokenizerStateView, TokenView> {
    if state is Initial && is_separator(c) {
        Ok((TokenizerStateView::Initial, seq![TokenView::LineFeed]))
    } else if state is Initial && space {
        Ok((TokenizerStateView::Initial, seq![]))
    } else if state is Initial && c == ',' {
        Ok((TokenizerStateView::Initial, seq![TokenView::Comma]))
    } else if is_separator(c) {
        flush_then(state, seq![TokenView::LineFeed])
    } else if space {
        flush_then(state, seq![])
    } else if c == ',' {
        flush_then(state, seq![TokenView::Comma])
    } else {
        match state {
            TokenizerStateView::Initial => if alpha {
                Ok((TokenizerStateView::InSymbol(seq![c]), seq![]))
            } else if is_digit(c) || c == '-' {
                Ok((TokenizerStateView::InValue(seq![c]), seq![]))
            } else {
                Err(AssemblerError::Tokenize)
            },
            TokenizerStateView::InSymbol(s) => if alnum {
                Ok((TokenizerStateView::InSymbol(s.push(c)), seq![]))
            } else {
                Err(AssemblerError::Tokenize)
            },
            TokenizerStateView::InValue(s) => if is_digit(c) {
                Ok((TokenizerStateView::InValue(s.push(c)), seq![]))
            } else {
                Err(AssemblerError::Tokenize)
            },
        }
    }
}

/// The flush at end of input: the pending token, if any.
pub open spec fn tokenize_finish(state: TokenizerStateView) -> StepResult<TokenizerStateView, TokenView> {
    match pending_token(state) {
        Ok(Some(t)) => Ok((TokenizerStateView::Initial, seq![t])),
        Ok(None) => Ok((TokenizerStateView::Initial, seq![])),
        Err(e) => Err(e),
    }
}

/// `r` is the outcome `expected` describes, token for token.
pub open spec fn pending_agrees(expected: Result<Option<TokenView>, AssemblerError>, r: Result<Option<Token>, AssemblerError>) -> bool {
    match (expected, r) {
        (Ok(Some(t)), Ok(Some(x))) => x@ == t,
        (Ok(None), Ok(None)) => true,
        (Err(e), Err(f)) => e == f,
        _ => false,
    }
}

impl TokenizerState {
    /// The token pending in this state, if any; a malformed literal is an error.
    pub fn finish(&self) -> (r: Result<Option<Token>, AssemblerError>)
        ensures
            pending_agrees(pending_token(self@), r),
    {
        match self {
            TokenizerState::Initial => Ok(None),
            TokenizerState::InSymbol(s) => Ok(Some(Token::Symbol(s.clone()))),
            TokenizerState::InValue(s) => match parse_literal(s.as_str()) {
                Some(v) => Ok(Some(Token::Value(v))),
                None => Err(AssemblerError::Tokenize),
            },
        }
    }

    /// The pending token; a state that holds none is an error here.
    pub fn finish_or_error(&self) -> (r: Result<Token, AssemblerError>)
        ensures
            match pending_token(self@) {
                Ok(Some(t)) => r is Ok && r->Ok_0@ == t,
                Ok(None) => r == Err::<Token, AssemblerError>(AssemblerError::Tokenize),
                Err(e) => r == Err::<Token, AssemblerError>(e),
            },
    {
        match self.finish()? {
            Some(t) => Ok(t),
            None => Err(AssemblerError::Tokenize),
        }
    }
}

/// The lexer: characters in, lexical tokens out.
pub struct TokenizePass {
    pub state: TokenizerState,
}

impl View for TokenizePass {
    type V = TokenizerStateView;

    open spec fn view(&self) -> TokenizerStateView {
        self.state@
    }
}

impl Default for TokenizePass {
    fn default() -> (r: Self)
        ensures
            r@ == TokenizerStateView::Initial,
    {
        TokenizePass { state: TokenizerState::Initial }
    }
}

impl AssemblerPass for TokenizePass {
    type Input = char;
    type Output = Token;

    open spec fn spec_apply(state: TokenizerStateView, item: char) -> StepResult<TokenizerStateView, TokenView> {
        tokenize_step(state, item)
    }

    open spec fn spec_finish(state: TokenizerStateView) -> StepResult<TokenizerStateView, TokenView> {
        tokenize_finish(state)
    }

    fn apply(&mut self, item: char) -> (r: Result<Vec<Token>, AssemblerError>) {
        let space = white_space(item);
        let alpha = alphabetic(item);
        let alnum = alphanumeric(item);
        tokenize_classified(&mut self.state, item, space, alpha, alnum)
    }

    fn finish(&mut self) -> (r: Result<Vec<Token>, AssemblerError>) {
        let pending = self.state.finish()?;
        self.state = TokenizerState::Initial;
        match pending {
            Some(t) => {
                let out = vec![t];
                assert(views(out@) =~= seq![t@]);
                Ok(out)
            },
            None => {
                let out: Vec<Token> = Vec::new();
                assert(views(out@) =~= Seq::<TokenView>::empty());
                Ok(out)
            },
        }
    }
}

/// One step of the lexer on `item`, given whether it is white space,
/// alphabetic, and alphanumeric.
pub fn tokenize_classified(
    state: &mut TokenizerState,
    item: char,
    space: bool,
    alpha: bool,
    alnum: bool,
) -> (r: Result<Vec<Token>, AssemblerError>)
    ensures
        step_agrees(tokenize_step_classified(old(state)@, item, space, alpha, alnum), final(state)@, r),
{
    let separator = item == '\n' || item == ';';
    let initial = match *state {
        TokenizerState::Initial => true,
        _ => false,
    };
    if initial && separator {
        let out = vec![Token::LineFeed];
        assert(views(out@) =~= seq![TokenView::LineFeed]);
        return Ok(out);
    }
    if initial && space {
        let out: Vec<Token> = Vec::new();
        assert(views(out@) =~= Seq::<TokenView>::empty());
        return Ok(out);
    }
    if initial && item == ',' {
        let out = vec![Token::Comma];
        assert(views(out@) =~= seq![TokenView::Comma]);
        return Ok(out);
    }
    if separator || space || item == ',' {
        let t = state.finish_or_error()?;
        *state = TokenizerState::Initial;
        let mut out = vec![t];
        if separator {
            out.push(Token::LineFeed);
            assert(views(out@) =~= seq![t@] + seq![TokenView::LineFeed]);
        } else if space {
            assert(views(out@) =~= seq![t@] + Seq::<TokenView>::empty());
        } else {
            out.push(Token::Comma);
            assert(views(out@) =~= seq![t@] + seq![TokenView::Comma]);
        }
        return Ok(out);
    }
    let out: Vec<Token> = Vec::new();
    assert(views(out@) =~= Seq::<TokenView>::empty());
    match &*state {
        TokenizerState::Initial => {
            if alpha {
                *state = TokenizerState::InSymbol(string_of(item));
                Ok(out)
            } else if ('0' <= item && item <= '9') || item == '-' {
                *state = TokenizerState::InValue(string_of(item));
                Ok(out)
            } else {
                Err(AssemblerError::Tokenize)
            }
        },
        TokenizerState::InSymbol(s) => {
            if alnum {
                let mut text = s.clone();
                push_char(&mut text, item);
                *state = TokenizerState::InSymbol(text);
                Ok(out)
            } else {
                Err(AssemblerError::Tokenize)
            }
        },
        TokenizerState::InValue(s) => {
            if '0' <= item && item <= '9' {
                let mut text = s.clone();
                push_char(&mut text, item);
                *state = TokenizerState::InValue(text);
                Ok(out)
            } else {
                Err(AssemblerError::Tokenize)
            }
        },
    }
}

/// A longer run of digits never denotes less.
proof fn lemma_digits_grow(s: Seq<char>, n: int)
    requires
        0 <= n <= s.len(),
        all_digits(s),
    ensures
        digits_value(s.subrange(0, n)) <= digits_value(s),
        0 <= digits_value(s.subrange(0, n)),
    decreases s.len() - n,
{
    if n < s.len() {
        lemma_digits_grow(s, n + 1);
        let p = s.subrange(0, n + 1);
        assert(p.drop_last() =~= s.subrange(0, n));
        assert(is_digit(s[n]));
    } else {
        assert(s.subrange(0, n) =~= s);
        lemma_digits_nonneg(s);
    }
}

/// A string of digits denotes a natural number.
pub proof fn lemma_digits_nonneg(s: Seq<char>)
    requires
        all_digits(s),
    ensures
        0 <= digits_value(s),
    decreases s.len(),
{
    if s.len() > 0 {
        assert(all_digits(s.drop_last()));
        assert(is_digit(s[s.len() - 1]));
        lemma_digits_nonneg(s.drop_last());
    }
}

/// Reads an integer literal: decimal digits after an optional minus sign.
pub fn parse_literal(text: &str) -> (r: Option<isize>)
    ensures
        r == literal_isize(text@),
{
    let n = text.unicode_len();
    if n == 0 {
        return None;
    }
    let negative = text.get_char(0) == '-';
    let start: usize = if negative { 1 } else { 0 };
    if start == n {
        return None;
    }
    let ghost digits = text@.subrange(start as int, n as int);
    let mut acc: isize = 0;
    let mut i: usize = start;
    while i < n
        invariant
            start <= i <= n,
            n == text@.len(),
            start < n,
            negative == (text@[0] == '-'),
            start == (if negative { 1usize } else { 0usize }),
            digits == text@.subrange(start as int, n as int),
            all_digits(text@.subrange(start as int, i as int)),
            acc == (if negative { -digits_value(text@.subrange(start as int, i as int)) } else { digits_value(text@.subrange(start as int, i as int)) }),
        decreases n - i,
    {
        let c = text.get_char(i);
        let ghost prefix = text@.subrange(start as int, i as int + 1);
        proof {
            assert(prefix.drop_last() =~= text@.subrange(start as int, i as int));
            assert(prefix.last() == c);
        }
        if c < '0' || c > '9' {
            proof {
                assert(digits[i - start] == c);
                if negative {
                    assert(text@.drop_first() =~= digits);
                } else {
                    assert(text@ =~= digits);
                }
            }
            return None;
        }
        assert(all_digits(prefix));
        let d = (c as u32 - '0' as u32) as isize;
        let next = if negative {
            match acc.checked_mul(10) {
                Some(m) => m.checked_sub(d),
                None => None,
            }
        } else {
            match acc.checked_mul(10) {
                Some(m) => m.checked_add(d),
                None => None,
            }
        };
        match next {
            Some(v) => {
                acc = v;
            },
            None => {
                proof {
                    lemma_digits_nonneg(prefix.drop_last());
                    if all_digits(digits) {
                        lemma_digits_grow(digits, i + 1 - start);
                        assert(digits.subrange(0, i + 1 - start) =~= prefix);
                    }
                    if negative {
                        assert(text@.drop_first() =~= digits);
                    } else {
                        assert(text@ =~= digits);
                    }
                }
                return None;
            },
        }
        i = i + 1;
    }
    proof {
        assert(text@.subrange(start as int, n as int) =~= digits);
        if negative {
            assert(text@.drop_first() =~= digits);
        } else {
            assert(text@ =~= digits);
        }
    }
    Some(acc)
}

} // verus!
