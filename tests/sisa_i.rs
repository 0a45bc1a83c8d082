use nara_assembler::assembler::assemble;
use nara_assembler::error::AssemblerError;
use nara_assembler::sisa_i::SisaI;

fn run(text: &str) -> Result<Vec<u8>, AssemblerError> {
    assemble::<SisaI>(text.chars().collect())
}

#[test]
fn sisa_sample_program() {
    let input = r"
        ld r1, 0, r3
        bz r1, 2
        add r2, r0, r1
        and r1, r2, r3
    ";
    assert_eq!(run(input), Ok(vec![0xC0, 0x32, 0x02, 0x62, 0x21, 0x04, 0x83, 0x02]));
}

#[test]
fn sisa_two_operand_not() {
    assert_eq!(run("not r1, r2"), Ok(vec![0x98, 0x02]));
}

#[test]
fn sisa_variant_bit() {
    assert_eq!(run("movhi r7, -1"), Ok(vec![0xFF, 0x5F]));
    assert_eq!(run("out 255, r1"), Ok(vec![0xFF, 0x73]));
    assert_eq!(run("in r1, 255"), Ok(vec![0xFF, 0x72]));
}

#[test]
fn sisa_six_bit_immediates_at_bounds() {
    assert_eq!(run("addi r1, r1, -32"), Ok(vec![0x60, 0x22]));
    assert_eq!(run("addi r1, r1, 31"), Ok(vec![0x5F, 0x22]));
    assert_eq!(run("addi r1, r1, 32"), Err(AssemblerError::UnresolvableInstruction));
    assert_eq!(run("addi r1, r1, -33"), Err(AssemblerError::UnresolvableInstruction));
    assert_eq!(run("st -1, r2, r3"), Ok(vec![0xBF, 0x46]));
}

#[test]
fn sisa_eight_bit_immediates_at_bounds() {
    assert_eq!(run("movi r0, -128"), Ok(vec![0x80, 0x50]));
    assert_eq!(run("movi r0, 127"), Ok(vec![0x7F, 0x50]));
    assert_eq!(run("movi r0, 128"), Err(AssemblerError::UnresolvableInstruction));
    assert_eq!(run("in r0, -1"), Err(AssemblerError::UnresolvableInstruction));
    assert_eq!(run("in r0, 256"), Err(AssemblerError::UnresolvableInstruction));
}

#[test]
fn sisa_comparison_and_registers() {
    assert_eq!(run("cmpeq r1, r2, r3"), Ok(vec![0x9B, 0x12]));
    assert_eq!(run("add r8, r0, r0"), Err(AssemblerError::UnresolvedSymbol));
    assert_eq!(run("cmpgt r1, r2, r3"), Err(AssemblerError::UnresolvedSymbol));
}
