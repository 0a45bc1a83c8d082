use nara_assembler::assembler::{assemble, AssemblerPasses};
use nara_assembler::error::AssemblerError;
use nara_assembler::parse::{operands_fit, InInstruction, ParserState, PlausibleOperator};
use nara_assembler::parse_operands::parse_operands;
use nara_assembler::pass::{apply_all, apply_all_partial, AssemblerPass};
use nara_assembler::retokenize::{ArchToken, RetokenizePass};
use nara_assembler::sample_isa::{OverlapArch, TestArch, TestInstructions, TestOperandKinds, TestOperands, TestSymbols};
use nara_assembler::arch_def::{Instruction, OperandKind, Symbol};
use nara_assembler::tokenize::{parse_literal, tokenize_classified, Token, TokenizePass, TokenizerState};

fn run(text: &str) -> Result<Vec<u8>, AssemblerError> {
    assemble::<TestArch>(text.chars().collect())
}

#[test]
fn xor_of_registers() {
    assert_eq!(run("xor r0, r0, r0\n"), Ok(vec![0x00, 0x00, 0x00, 0x00, 0x00]));
}

#[test]
fn addi_with_three_operands() {
    assert_eq!(run("addi r0, r0, 1\n"), Ok(vec![0x01, 0x00, 0x00, 0x01, 0x00]));
}

#[test]
fn addi_with_implicit_destination() {
    assert_eq!(run("addi r0, 1\n"), Ok(vec![0x01, 0x00, 0x00, 0x01, 0x00]));
    assert_eq!(run("addi r0, 1\n"), run("addi r0, r0, 1\n"));
}

#[test]
fn statements_split_by_semicolon_without_final_line_break() {
    assert_eq!(
        run("halt; jump -1"),
        Ok(vec![0x02, 0x00, 0x00, 0x00, 0x00, 0x03, 0xFF, 0xFF, 0x00, 0x00])
    );
}

#[test]
fn dangling_comma_is_a_syntax_error() {
    assert_eq!(run("addi r0,\n"), Err(AssemblerError::Syntax));
}

#[test]
fn dangling_comma_at_end_of_input_is_a_syntax_error() {
    assert_eq!(run("addi r0,"), Err(AssemblerError::Syntax));
}

#[test]
fn unknown_identifier_is_unresolved() {
    assert_eq!(run("foo r0\n"), Err(AssemblerError::UnresolvedSymbol));
}

#[test]
fn whole_program() {
    let input = "
        xor r0, r0, r0
        addi r0, r0, 1
        addi r0, 1
        halt; jump -1
    ";
    let mut passes = AssemblerPasses::<TestArch>::default();
    let bytes = apply_all(&mut passes, input.chars().collect()).unwrap();
    assert_eq!(
        bytes,
        vec![
            0, 0, 0, 0, 0, 1, 0, 0, 1, 0, 1, 0, 0, 1, 0, 2, 0, 0, 0, 0, 3, 0xFF, 0xFF, 0, 0
        ]
    );
}

#[test]
fn same_text_gives_same_bytes() {
    let text = "xor r1, r2, r3\naddi r4, -7\njump 300\n";
    assert_eq!(run(text), run(text));
    assert_eq!(run(text), Ok(vec![0, 1, 2, 3, 0, 1, 4, 4, 0xF9, 0xFF, 3, 0x2C, 0x01, 0, 0]));
}

#[test]
fn spaces_and_blank_lines_do_not_matter() {
    let plain = run("xor r1,r2,r3\nhalt");
    assert_eq!(run("  xor   r1 ,  r2,\tr3  \n\n\n   halt  \n\n"), plain);
    assert_eq!(run("\n\nxor r1, r2, r3;;halt;"), plain);
    assert_eq!(run("xor r1,r2,r3\nhalt \t "), plain);
    assert!(plain.is_ok());
}

#[test]
fn operand_count_must_match_a_variant() {
    assert_eq!(run("xor r0, r0\n"), Err(AssemblerError::UnresolvableInstruction));
    assert_eq!(run("halt r0\n"), Err(AssemblerError::UnresolvableInstruction));
    assert_eq!(run("addi r0\n"), Err(AssemblerError::UnresolvableInstruction));
    assert_eq!(run("jump\n"), Err(AssemblerError::UnresolvableInstruction));
}

#[test]
fn operand_kind_must_match() {
    assert_eq!(run("jump r1\n"), Err(AssemblerError::UnresolvableInstruction));
    assert_eq!(run("xor r0, r0, 5\n"), Err(AssemblerError::UnresolvableInstruction));
}

#[test]
fn immediate_at_its_bounds() {
    assert_eq!(run("jump 32767"), Ok(vec![3, 0xFF, 0x7F, 0, 0]));
    assert_eq!(run("jump -32768"), Ok(vec![3, 0x00, 0x80, 0, 0]));
    assert_eq!(run("jump 32768"), Err(AssemblerError::UnresolvableInstruction));
    assert_eq!(run("jump -32769"), Err(AssemblerError::UnresolvableInstruction));
}

#[test]
fn validator_refuses_out_of_range_immediate() {
    let r = parse_operands::<TestArch>(TestInstructions::Jump, vec![PlausibleOperator::Value(32768)]);
    assert_eq!(r, Err(AssemblerError::Operand));
    let r = parse_operands::<TestArch>(TestInstructions::Jump, vec![PlausibleOperator::Value(-32768)]);
    assert_eq!(r, Ok(vec![TestOperands::Immediate(-32768)]));
    let r = parse_operands::<TestArch>(TestInstructions::Halt, vec![PlausibleOperator::Value(1)]);
    assert_eq!(r, Err(AssemblerError::Operand));
}

#[test]
fn illegal_characters_fail_the_lexer() {
    assert_eq!(run("xor r0, r0, r0$\n"), Err(AssemblerError::Tokenize));
    assert_eq!(run("jump 1a\n"), Err(AssemblerError::Tokenize));
    assert_eq!(run("jump 1-2\n"), Err(AssemblerError::Tokenize));
    assert_eq!(run("jump -\n"), Err(AssemblerError::Tokenize));
    assert_eq!(run("jump 99999999999999999999\n"), Err(AssemblerError::Tokenize));
}

#[test]
fn tokens_out_of_place_are_syntax_errors() {
    assert_eq!(run("r0\n"), Err(AssemblerError::Syntax));
    assert_eq!(run("xor r0 r0, r0\n"), Err(AssemblerError::Syntax));
    assert_eq!(run("xor, r0\n"), Err(AssemblerError::Syntax));
    assert_eq!(run("halt halt\n"), Err(AssemblerError::Syntax));
    assert_eq!(run(", halt\n"), Err(AssemblerError::Syntax));
}

#[test]
fn register_numbers() {
    assert_eq!(run("xor r12, r255, r7"), Ok(vec![0, 12, 255, 7, 0]));
    assert_eq!(run("xor r256, r0, r0"), Err(AssemblerError::UnresolvedSymbol));
    assert_eq!(run("xor rx, r0, r0"), Err(AssemblerError::UnresolvedSymbol));
}

#[test]
fn non_ascii_letters_make_identifiers() {
    assert_eq!(run("xör r0, r0, r0\n"), Err(AssemblerError::UnresolvedSymbol));
}

#[test]
fn empty_input_gives_no_bytes() {
    assert_eq!(run(""), Ok(vec![]));
    assert_eq!(run(" \n\n ;\t"), Ok(vec![]));
}

#[test]
fn lexer_emits_tokens_and_flushes() {
    let mut pass = TokenizePass::default();
    let tokens = apply_all_partial(&mut pass, "jump -12,x".chars().collect()).unwrap();
    assert_eq!(tokens.len(), 3);
    assert!(matches!(&tokens[0], Token::Symbol(s) if s == "jump"));
    assert!(matches!(tokens[1], Token::Value(-12)));
    assert!(matches!(tokens[2], Token::Comma));
    let rest = pass.finish().unwrap();
    assert_eq!(rest.len(), 1);
    assert!(matches!(&rest[0], Token::Symbol(s) if s == "x"));
    assert!(pass.finish().unwrap().is_empty());
}

#[test]
fn lexer_state_finish() {
    assert!(matches!(TokenizerState::Initial.finish(), Ok(None)));
    assert!(matches!(TokenizerState::Initial.finish_or_error(), Err(AssemblerError::Tokenize)));
    assert!(matches!(TokenizerState::InValue(String::from("-40")).finish(), Ok(Some(Token::Value(-40)))));
    assert!(matches!(TokenizerState::InValue(String::from("-")).finish(), Err(AssemblerError::Tokenize)));
    assert!(matches!(TokenizerState::InSymbol(String::from("ab")).finish_or_error(), Ok(Token::Symbol(s)) if s == "ab"));
}

#[test]
fn literals() {
    assert_eq!(parse_literal("0"), Some(0));
    assert_eq!(parse_literal("-0"), Some(0));
    assert_eq!(parse_literal("1234"), Some(1234));
    assert_eq!(parse_literal("-9223372036854775808"), Some(isize::MIN));
    assert_eq!(parse_literal("9223372036854775807"), Some(isize::MAX));
    assert_eq!(parse_literal("9223372036854775808"), None);
    assert_eq!(parse_literal(""), None);
    assert_eq!(parse_literal("-"), None);
    assert_eq!(parse_literal("12x"), None);
}

#[test]
fn identifiers_resolve_to_first_named_entry() {
    assert!(matches!(
        RetokenizePass::<TestArch>::parse_symbol(String::from("addi")),
        Ok(ArchToken::Instruction(TestInstructions::Addi))
    ));
    assert!(matches!(
        RetokenizePass::<TestArch>::parse_symbol(String::from("r3")),
        Ok(ArchToken::Symbol(TestSymbols::Register(3)))
    ));
    assert!(matches!(
        RetokenizePass::<TestArch>::parse_symbol(String::from("nop")),
        Err(AssemblerError::UnresolvedSymbol)
    ));
}

#[test]
fn statement_resolution_picks_the_fitting_overload() {
    let s = InInstruction::<TestArch>::start(TestInstructions::Addi)
        .with_operator(PlausibleOperator::Symbol(TestSymbols::Register(2)))
        .with_comma()
        .with_operator(PlausibleOperator::Value(9));
    let node = s.finish().unwrap();
    let nara_assembler::parse::ASTNode::Instruction(inst, ops) = node;
    assert_eq!(inst, TestInstructions::AddiImplicit);
    assert_eq!(ops.len(), 2);

    let s = InInstruction::<TestArch>::start(TestInstructions::Xor)
        .with_operator(PlausibleOperator::Value(1))
        .with_comma();
    assert!(matches!(s.finish(), Err(AssemblerError::Syntax)));
}

#[test]
fn parser_state_finish() {
    assert!(matches!(ParserState::<TestArch>::Initial.finish(), Ok(None)));
    assert!(matches!(ParserState::<TestArch>::Initial.finish_or_error(), Err(AssemblerError::Syntax)));
    let s = InInstruction::<TestArch>::start(TestInstructions::Halt);
    assert!(matches!(ParserState::InInstruction(s).finish(), Ok(Some(_))));
    let s = InInstruction::<TestArch>::start(TestInstructions::Jump);
    assert!(matches!(ParserState::InInstruction(s).finish_or_error(), Err(AssemblerError::UnresolvableInstruction)));
}

#[test]
fn sample_operand_kinds_agree() {
    let imm = TestOperandKinds::Immediate;
    assert!(imm.matches(&PlausibleOperator::Value(-32768)));
    assert!(!imm.matches(&PlausibleOperator::Value(32768)));
    assert_eq!(imm.parse(PlausibleOperator::Value(5)), Some(TestOperands::Immediate(5)));
    assert!(!TestOperandKinds::Register.matches(&PlausibleOperator::Value(0)));
    assert_eq!(TestSymbols::parse("r9"), Some(TestSymbols::Register(9)));
    assert_eq!(TestSymbols::parse("r"), None);
    assert_eq!(TestInstructions::enumerate().len(), 5);
    assert_eq!(TestInstructions::AddiImplicit.name(), "addi");
}

#[test]
fn ambiguous_catalog_takes_first_enumerated() {
    assert_eq!(assemble::<OverlapArch>("ld 5\nld -1".chars().collect()), Ok(vec![0xA1, 5, 0xA1, 0xFF]));
}

#[test]
fn signature_fit_needs_equal_lengths() {
    let kinds = vec![TestOperandKinds::Register, TestOperandKinds::Immediate];
    let reg = || PlausibleOperator::Symbol(TestSymbols::Register(1));
    assert!(operands_fit(&kinds, &vec![reg(), PlausibleOperator::Value(3)]));
    assert!(!operands_fit(&kinds, &vec![reg()]));
    assert!(!operands_fit(&kinds, &vec![reg(), PlausibleOperator::Value(3), PlausibleOperator::Value(4)]));
    assert!(!operands_fit(&kinds, &vec![PlausibleOperator::Value(3), reg()]));
    assert!(operands_fit::<TestSymbols, TestOperandKinds>(&vec![], &vec![]));
}

#[test]
fn classified_lexer_step() {
    let mut state = TokenizerState::Initial;
    assert!(tokenize_classified(&mut state, 'x', false, true, true).unwrap().is_empty());
    assert!(tokenize_classified(&mut state, '7', false, false, true).unwrap().is_empty());
    let out = tokenize_classified(&mut state, ' ', true, false, false).unwrap();
    assert_eq!(out.len(), 1);
    assert!(matches!(&out[0], Token::Symbol(s) if s == "x7"));
    assert!(matches!(state, TokenizerState::Initial));
    let out = tokenize_classified(&mut state, ',', false, false, false).unwrap();
    assert!(matches!(out[..], [Token::Comma]));
    assert!(matches!(tokenize_classified(&mut state, '#', false, false, false), Err(AssemblerError::Tokenize)));
}
