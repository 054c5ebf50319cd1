use asm16::encoder::{assemble, encode_instruction, encode_line};
use asm16::hex::hex_digits;
use asm16::isa::{get_instr_type, get_opcode, get_register_addr, AsmError, InstrType};
use asm16::immediate::get_imm_data;
use asm16::tokenizer::tokenize;

fn token_strings(line: &str) -> Vec<String> {
    tokenize(line).iter().map(|t| t.iter().collect()).collect()
}

fn chars(tokens: &[&str]) -> Vec<Vec<char>> {
    tokens.iter().map(|t| t.chars().collect()).collect()
}

#[test]
fn addi_positive_immediate() {
    assert_eq!(encode_line("ADDI 10 B1"), Ok(0x0A19));
}

#[test]
fn add_three_registers() {
    assert_eq!(encode_line("ADD B1 B2 B2"), Ok(0x1220));
}

#[test]
fn addi_negative_immediate_keeps_low_byte() {
    assert_eq!(encode_line("ADDI -1 B1"), Ok(0xFF19));
}

#[test]
fn jrl_zero_offset() {
    assert_eq!(encode_line("JRL 0 ZR G11"), Ok(0x00FD));
}

#[test]
fn blt_negative_offset() {
    assert_eq!(encode_line("BLT B1 ZR -4"), Ok(0xFC4F));
}

#[test]
fn unknown_mnemonic() {
    assert_eq!(encode_line("FOO B1 B2 B3"), Err(AsmError::UnknownOpcode));
    assert_eq!(get_opcode("FOO"), Err(AsmError::UnknownOpcode));
}

#[test]
fn mnemonics_are_case_sensitive() {
    assert_eq!(get_opcode("add"), Err(AsmError::UnknownOpcode));
    assert_eq!(get_register_addr("b1"), Err(AsmError::UnknownRegister));
}

#[test]
fn load_packs_low_nibble_of_immediate() {
    assert_eq!(encode_line("LOAD 3 G0 G1"), Ok(0x345A));
    assert_eq!(encode_line("LOAD 19 G0 G1"), Ok(0x345A));
}

#[test]
fn store_masks_immediate_to_a_nibble() {
    assert_eq!(encode_line("STORE G0 G1 21"), Ok(0x455B));
}

#[test]
fn beq_masks_registers_to_two_bits() {
    assert_eq!(encode_line("BEQ G2 B3 300"), Ok(0x2CBE));
}

#[test]
fn jal_negative_immediate() {
    assert_eq!(encode_line("JAL -1 B1 B2"), Ok(0xF12C));
}

#[test]
fn rtype_with_two_operands_is_syntax_error() {
    assert_eq!(encode_line("ADD B1 B2"), Err(AsmError::SyntaxError));
}

#[test]
fn rtype_with_four_operands_is_syntax_error() {
    assert_eq!(encode_line("SUB B1 B2 B3 G0"), Err(AsmError::SyntaxError));
}

#[test]
fn itype_with_three_operands_is_syntax_error() {
    assert_eq!(encode_line("ADDI 1 B1 B2"), Err(AsmError::SyntaxError));
}

#[test]
fn immediate_out_of_range_is_malformed() {
    assert_eq!(get_imm_data("40000"), Err(AsmError::MalformedImmediate));
    assert_eq!(encode_line("ADDI 40000 B1"), Err(AsmError::MalformedImmediate));
}

#[test]
fn immediate_range_edges() {
    assert_eq!(get_imm_data("32767"), Ok(32767));
    assert_eq!(get_imm_data("-32768"), Ok(-32768));
    assert_eq!(get_imm_data("32768"), Err(AsmError::MalformedImmediate));
    assert_eq!(get_imm_data("-32769"), Err(AsmError::MalformedImmediate));
    assert_eq!(get_imm_data("99999999999999999999"), Err(AsmError::MalformedImmediate));
}

#[test]
fn immediate_literal_forms() {
    assert_eq!(get_imm_data("+5"), Ok(5));
    assert_eq!(get_imm_data("007"), Ok(7));
    assert_eq!(get_imm_data("-0"), Ok(0));
    assert_eq!(get_imm_data(""), Err(AsmError::MalformedImmediate));
    assert_eq!(get_imm_data("-"), Err(AsmError::MalformedImmediate));
    assert_eq!(get_imm_data("1a"), Err(AsmError::MalformedImmediate));
    assert_eq!(get_imm_data("B1"), Err(AsmError::MalformedImmediate));
}

#[test]
fn unknown_register_operand() {
    assert_eq!(encode_line("ADD B1 X9 B2"), Err(AsmError::UnknownRegister));
    assert_eq!(get_register_addr("G12"), Err(AsmError::UnknownRegister));
}

#[test]
fn first_bad_operand_decides_the_error() {
    assert_eq!(encode_line("ADDI x Q1"), Err(AsmError::MalformedImmediate));
    assert_eq!(encode_line("STORE Q1 G0 x"), Err(AsmError::UnknownRegister));
}

#[test]
fn opcode_table_and_classes() {
    let rows = [
        ("ADD", 0x0, InstrType::RType),
        ("SUB", 0x1, InstrType::RType),
        ("MUL", 0x2, InstrType::RType),
        ("DIV", 0x3, InstrType::RType),
        ("OR", 0x4, InstrType::RType),
        ("AND", 0x5, InstrType::RType),
        ("XOR", 0x6, InstrType::RType),
        ("SLL", 0x7, InstrType::RType),
        ("SRL", 0x8, InstrType::RType),
        ("ADDI", 0x9, InstrType::IType),
        ("LOAD", 0xA, InstrType::LType),
        ("STORE", 0xB, InstrType::SType),
        ("JAL", 0xC, InstrType::JType),
        ("JRL", 0xD, InstrType::JType),
        ("BEQ", 0xE, InstrType::BType),
        ("BLT", 0xF, InstrType::BType),
    ];
    for (name, op, ty) in rows {
        assert_eq!(get_opcode(name), Ok(op));
        assert_eq!(get_instr_type(op), Ok(ty));
    }
}

#[test]
fn classifier_rejects_wide_values() {
    assert_eq!(get_instr_type(0x10), Err(AsmError::UnknownInstructionType));
    assert_eq!(get_instr_type(0xFFFF), Err(AsmError::UnknownInstructionType));
}

#[test]
fn register_table_is_bijective() {
    let names = [
        "ZR", "B1", "B2", "B3", "G0", "G1", "G2", "G3", "G4", "G5", "G6", "G7", "G8", "G9", "G10",
        "G11",
    ];
    let mut seen = [false; 16];
    for (i, name) in names.iter().enumerate() {
        let a = get_register_addr(name).unwrap();
        assert_eq!(a as usize, i);
        assert!(!seen[a as usize]);
        seen[a as usize] = true;
    }
    assert!(seen.iter().all(|s| *s));
}

#[test]
fn encoding_is_deterministic() {
    let line = "BEQ G2 B3 -7";
    assert_eq!(encode_line(line), encode_line(line));
    assert_eq!(encode_line("ADD B1, B2, B2"), encode_line("ADD B1 B2 B2"));
}

#[test]
fn tokenizer_treats_commas_and_runs_as_separators() {
    assert_eq!(token_strings("ADD B1,B2,  B3"), vec!["ADD", "B1", "B2", "B3"]);
    assert_eq!(token_strings("  ADDI\t-1 ,B1  "), vec!["ADDI", "-1", "B1"]);
    assert!(token_strings("").is_empty());
    assert!(token_strings(" , ").is_empty());
}

#[test]
fn empty_line_has_no_mnemonic() {
    assert_eq!(encode_line(""), Err(AsmError::UnknownOpcode));
}

#[test]
fn encode_from_tokens() {
    assert_eq!(encode_instruction(&chars(&["ADDI", "10", "B1"])), Ok(0x0A19));
    assert_eq!(encode_instruction(&chars(&[])), Err(AsmError::UnknownOpcode));
}

#[test]
fn assemble_sample_program() {
    let code = ["ADDI 10 B1", "ADD B1 B2 B2", "ADDI -1 B1", "BLT B1 ZR -4", "JRL 0 ZR G11"];
    assert_eq!(assemble(&code), Ok(vec![0x0A19, 0x1220, 0xFF19, 0xFC4F, 0x00FD]));
}

#[test]
fn assemble_stops_at_first_bad_line() {
    let code = ["ADDI 10 B1", "ADD B1 B2", "FOO"];
    assert_eq!(assemble(&code), Err(AsmError::SyntaxError));
    assert_eq!(assemble(&[]), Ok(vec![]));
}

#[test]
fn hex_digits_are_upper_case_and_padded() {
    let s: String = hex_digits(0x0A19).into_iter().collect();
    assert_eq!(s, "0A19");
    let s: String = hex_digits(0xFC4F).into_iter().collect();
    assert_eq!(s, "FC4F");
    let s: String = hex_digits(0).into_iter().collect();
    assert_eq!(s, "0000");
}
