//! The fixed tables of the instruction set: mnemonics and their opcodes,
//! the layout family of each opcode, and the register names.
use vstd::prelude::*;
use crate::text::{chars_of, same_chars};

verus! {

/// The layout family of an instruction: how many operands it takes and how
/// they are packed into the word.
#[derive(Debug, Clone, Copy, PartialEq, Eq, Structural)]
pub enum InstrType {
    RType,
    IType,
    LType,
    SType,
    JType,
    BType,
}

/// Why a line could not be encoded.
#[derive(Debug, Clone, Copy, PartialEq, Eq, Structural)]
pub enum AsmError {
    UnknownOpcode,
    UnknownInstructionType,
    UnknownRegister,
    MalformedImmediate,
    SyntaxError,
}

/// The mnemonic bound to each of the sixteen opcodes.
pub open spec fn mnemonic(op: u16) -> Seq<char> {
    if op == 0x0 { seq!['A', 'D', 'D'] }
    else if op == 0x1 { seq!['S', 'U', 'B'] }
    else if op == 0x2 { seq!['M', 'U', 'L'] }
    else if op == 0x3 { seq!['D', 'I', 'V'] }
    else if op == 0x4 { seq!['O', 'R'] }
    else if op == 0x5 { seq!['A', 'N', 'D'] }
    else if op == 0x6 { seq!['X', 'O', 'R'] }
    else if op == 0x7 { seq!['S', 'L', 'L'] }
    else if op == 0x8 { seq!['S', 'R', 'L'] }
    else if op == 0x9 { seq!['A', 'D', 'D', 'I'] }
    else if op == 0xA { seq!['L', 'O', 'A', 'D'] }
    else if op == 0xB { seq!['S', 'T', 'O', 'R', 'E'] }
    else if op == 0xC { seq!['J', 'A', 'L'] }
    else if op == 0xD { seq!['J', 'R', 'L'] }
    else if op == 0xE { seq!['B', 'E', 'Q'] }
    else { seq!['B', 'L', 'T'] }
}

/// The opcode of a mnemonic, if it is one of the sixteen.
pub open spec fn opcode_spec(s: Seq<char>) -> Option<u16> {
    if s == mnemonic(0x0) { Some(0x0u16) }
    else if s == mnemonic(0x1) { Some(0x1u16) }
    else if s == mnemonic(0x2) { Some(0x2u16) }
    else if s == mnemonic(0x3) { Some(0x3u16) }
    else if s == mnemonic(0x4) { Some(0x4u16) }
    else if s == mnemonic(0x5) { Some(0x5u16) }
    else if s == mnemonic(0x6) { Some(0x6u16) }
    else if s == mnemonic(0x7) { Some(0x7u16) }
    else if s == mnemonic(0x8) { Some(0x8u16) }
    else if s == mnemonic(0x9) { Some(0x9u16) }
    else if s == mnemonic(0xA) { Some(0xAu16) }
    else if s == mnemonic(0xB) { Some(0xBu16) }
    else if s == mnemonic(0xC) { Some(0xCu16) }
    else if s == mnemonic(0xD) { Some(0xDu16) }
    else if s == mnemonic(0xE) { Some(0xEu16) }
    else if s == mnemonic(0xF) { Some(0xFu16) }
    else { None }
}

/// Looking a mnemonic up, with the error for one that is not in the table.
pub open spec fn opcode_result(s: Seq<char>) -> Result<u16, AsmError> {
    match opcode_spec(s) {
        Some(op) => Ok(op),
        None => Err(AsmError::UnknownOpcode),
    }
}

/// The layout family of an opcode, by the range it falls in.
pub open spec fn instr_type_spec(op: u16) -> Result<InstrType, AsmError> {
    if op <= 0x8 { Ok(InstrType::RType) }
    else if op == 0x9 { Ok(InstrType::IType) }
    else if op == 0xA { Ok(InstrType::LType) }
    else if op == 0xB { Ok(InstrType::SType) }
    else if op <= 0xD { Ok(InstrType::JType) }
    else if op <= 0xF { Ok(InstrType::BType) }
    else { Err(AsmError::UnknownInstructionType) }
}

/// The name of each of the sixteen register addresses.
pub open spec fn register_name(a: u16) -> Seq<char> {
    if a == 0x0 { seq!['Z', 'R'] }
    else if a == 0x1 { seq!['B', '1'] }
    else if a == 0x2 { seq!['B', '2'] }
    else if a == 0x3 { seq!['B', '3'] }
    else if a == 0x4 { seq!['G', '0'] }
    else if a == 0x5 { seq!['G', '1'] }
    else if a == 0x6 { seq!['G', '2'] }
    else if a == 0x7 { seq!['G', '3'] }
    else if a == 0x8 { seq!['G', '4'] }
    else if a == 0x9 { seq!['G', '5'] }
    else if a == 0xA { seq!['G', '6'] }
    else if a == 0xB { seq!['G', '7'] }
    else if a == 0xC { seq!['G', '8'] }
    else if a == 0xD { seq!['G', '9'] }
    else if a == 0xE { seq!['G', '1', '0'] }
    else { seq!['G', '1', '1'] }
}

/// The address of a register name, if it is one of the sixteen.
pub open spec fn register_spec(s: Seq<char>) -> Option<u16> {
    if s == register_name(0x0) { Some(0x0u16) }
    else if s == register_name(0x1) { Some(0x1u16) }
    else if s == register_name(0x2) { Some(0x2u16) }
    else if s == register_name(0x3) { Some(0x3u16) }
    else if s == register_name(0x4) { Some(0x4u16) }
    else if s == register_name(0x5) { Some(0x5u16) }
    else if s == register_name(0x6) { Some(0x6u16) }
    else if s == register_name(0x7) { Some(0x7u16) }
    else if s == register_name(0x8) { Some(0x8u16) }
    else if s == register_name(0x9) { Some(0x9u16) }
    else if s == register_name(0xA) { Some(0xAu16) }
    else if s == register_name(0xB) { Some(0xBu16) }
    else if s == register_name(0xC) { Some(0xCu16) }
    else if s == register_name(0xD) { Some(0xDu16) }
    else if s == register_name(0xE) { Some(0xEu16) }
    else if s == register_name(0xF) { Some(0xFu16) }
    else { None }
}

/// Looking a register name up, with the error for one that is not in the table.
pub open spec fn register_result(s: Seq<char>) -> Result<u16, AsmError> {
    match register_spec(s) {
        Some(a) => Ok(a),
        None => Err(AsmError::UnknownRegister),
    }
}

/// The opcode spelled by the characters `t`.
pub fn opcode_of(t: &[char]) -> (r: Result<u16, AsmError>)
    ensures
        r == opcode_result(t@),
{
    if same_chars(t, &['A', 'D', 'D']) { Ok(0x0) }
    else if same_chars(t, &['S', 'U', 'B']) { Ok(0x1) }
    else if same_chars(t, &['M', 'U', 'L']) { Ok(0x2) }
    else if same_chars(t, &['D', 'I', 'V']) { Ok(0x3) }
    else if same_chars(t, &['O', 'R']) { Ok(0x4) }
    else if same_chars(t, &['A', 'N', 'D']) { Ok(0x5) }
    else if same_chars(t, &['X', 'O', 'R']) { Ok(0x6) }
    else if same_chars(t, &['S', 'L', 'L']) { Ok(0x7) }
    else if same_chars(t, &['S', 'R', 'L']) { Ok(0x8) }
    else if same_chars(t, &['A', 'D', 'D', 'I']) { Ok(0x9) }
    else if same_chars(t, &['L', 'O', 'A', 'D']) { Ok(0xA) }
    else if same_chars(t, &['S', 'T', 'O', 'R', 'E']) { Ok(0xB) }
    else if same_chars(t, &['J', 'A', 'L']) { Ok(0xC) }
    else if same_chars(t, &['J', 'R', 'L']) { Ok(0xD) }
    else if same_chars(t, &['B', 'E', 'Q']) { Ok(0xE) }
    else if same_chars(t, &['B', 'L', 'T']) { Ok(0xF) }
    else { Err(AsmError::UnknownOpcode) }
}

/// The opcode of the mnemonic `instr`; names are matched exactly, case
/// included.
pub fn get_opcode(instr: &str) -> (r: Result<u16, AsmError>)
    ensures
        r == opcode_result(instr@),
{
    let t = chars_of(instr);
    opcode_of(t.as_slice())
}

/// The layout family of `opcode`; only the sixteen 4-bit values have one.
pub fn get_instr_type(opcode: u16) -> (r: Result<InstrType, AsmError>)
    ensures
        r == instr_type_spec(opcode),
{
    if opcode <= 0x8 {
        Ok(InstrType::RType)
    } else if opcode == 0x9 {
        Ok(InstrType::IType)
    } else if opcode == 0xA {
        Ok(InstrType::LType)
    } else if opcode == 0xB {
        Ok(InstrType::SType)
    } else if opcode <= 0xD {
        Ok(InstrType::JType)
    } else if opcode <= 0xF {
        Ok(InstrType::BType)
    } else {
        Err(AsmError::UnknownInstructionType)
    }
}

/// The register address spelled by the characters `t`.
pub fn register_of(t: &[char]) -> (r: Result<u16, AsmError>)
    ensures
        r == register_result(t@),
{
    if same_chars(t, &['Z', 'R']) { Ok(0x0) }
    else if same_chars(t, &['B', '1']) { Ok(0x1) }
    else if same_chars(t, &['B', '2']) { Ok(0x2) }
    else if same_chars(t, &['B', '3']) { Ok(0x3) }
    else if same_chars(t, &['G', '0']) { Ok(0x4) }
    else if same_chars(t, &['G', '1']) { Ok(0x5) }
    else if same_chars(t, &['G', '2']) { Ok(0x6) }
    else if same_chars(t, &['G', '3']) { Ok(0x7) }
    else if same_chars(t, &['G', '4']) { Ok(0x8) }
    else if same_chars(t, &['G', '5']) { Ok(0x9) }
    else if same_chars(t, &['G', '6']) { Ok(0xA) }
    else if same_chars(t, &['G', '7']) { Ok(0xB) }
    else if same_chars(t, &['G', '8']) { Ok(0xC) }
    else if same_chars(t, &['G', '9']) { Ok(0xD) }
    else if same_chars(t, &['G', '1', '0']) { Ok(0xE) }
    else if same_chars(t, &['G', '1', '1']) { Ok(0xF) }
    else { Err(AsmError::UnknownRegister) }
}

/// The address of the register named `regname`; names are matched exactly,
/// case included.
pub fn get_register_addr(regname: &str) -> (r: Result<u16, AsmError>)
    ensures
        r == register_result(regname@),
{
    let t = chars_of(regname);
    register_of(t.as_slice())
}

} // verus!
