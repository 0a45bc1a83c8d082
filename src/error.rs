use vstd::prelude::*;

verus! {

/// The ways in which assembling a program can fail. The first failure ends the run.
#[derive(Clone, Copy, Debug, PartialEq, Eq, Structural)]
pub enum AssemblerError {
    /// A character that the lexer cannot accept in its current state, or an
    /// integer literal that does not fit the value type.
    Tokenize,
    /// An identifier that is neither a mnemonic nor a symbol of the architecture.
    UnresolvedSymbol,
    /// A token that the statement grammar does not allow where it stands.
    Syntax,
    /// No catalog entry has the statement's mnemonic and operand shape.
    UnresolvableInstruction,
    /// An operand that its operand kind refuses.
    Operand,
}

} // verus!
