//! Facts about the tables and the encoder as a whole.
use vstd::prelude::*;
use crate::isa::{
    AsmError, InstrType, instr_type_spec, mnemonic, opcode_spec, register_name, register_spec,
};
use crate::immediate::{imm_result, literal_value};
use crate::encoder::{arity, encode_line_spec, encode_spec};
use crate::tokenizer::tokens_of;

verus! {

/// The family that the layout table gives each mnemonic by name.
pub open spec fn family_by_name(s: Seq<char>) -> InstrType {
    if s == seq!['A', 'D', 'D', 'I'] {
        InstrType::IType
    } else if s == seq!['L', 'O', 'A', 'D'] {
        InstrType::LType
    } else if s == seq!['S', 'T', 'O', 'R', 'E'] {
        InstrType::SType
    } else if s == seq!['J', 'A', 'L'] || s == seq!['J', 'R', 'L'] {
        InstrType::JType
    } else if s == seq!['B', 'E', 'Q'] || s == seq!['B', 'L', 'T'] {
        InstrType::BType
    } else {
        InstrType::RType
    }
}

/// Two names that differ in length or in one of their first three
/// characters are different names.
proof fn lemma_names_differ(x: Seq<char>, y: Seq<char>)
    requires
        x.len() != y.len() || (x.len() >= 2 && y.len() >= 2 && (x[0] != y[0] || x[1] != y[1]))
            || (x.len() >= 3 && y.len() >= 3 && x[2] != y[2]),
    ensures
        x != y,
{
}

/// No two opcodes share a mnemonic.
pub proof fn lemma_mnemonics_distinct(a: u16, b: u16)
    requires
        a < 16,
        b < 16,
        a != b,
    ensures
        mnemonic(a) != mnemonic(b),
{
    lemma_names_differ(mnemonic(a), mnemonic(b));
}

/// No two addresses share a register name.
pub proof fn lemma_register_names_distinct(a: u16, b: u16)
    requires
        a < 16,
        b < 16,
        a != b,
    ensures
        register_name(a) != register_name(b),
{
    lemma_names_differ(register_name(a), register_name(b));
}

/// A line's word depends on its tokens alone: two lines with the same tokens
/// (in particular, one line encoded twice) give the same word or the same
/// error.
pub proof fn lemma_encoding_depends_on_tokens(a: Seq<char>, b: Seq<char>)
    requires
        tokens_of(a) == tokens_of(b),
    ensures
        encode_line_spec(a) == encode_line_spec(b),
{
}

/// Each of the sixteen opcodes has its own mnemonic, which looks up to it, and
/// it is classified into the family that its mnemonic's row names.
pub proof fn lemma_opcode_table_round_trip(op: u16)
    requires
        op < 16,
    ensures
        opcode_spec(mnemonic(op)) == Some(op),
        instr_type_spec(op) == Ok::<InstrType, AsmError>(family_by_name(mnemonic(op))),
{
    assert forall|k: u16| k < 16 && k != op implies mnemonic(k) != mnemonic(op) by {
        lemma_mnemonics_distinct(k, op);
    }
    assert(mnemonic(0x9) == seq!['A', 'D', 'D', 'I']);
    assert(mnemonic(0xA) == seq!['L', 'O', 'A', 'D']);
    assert(mnemonic(0xB) == seq!['S', 'T', 'O', 'R', 'E']);
    assert(mnemonic(0xC) == seq!['J', 'A', 'L']);
    assert(mnemonic(0xD) == seq!['J', 'R', 'L']);
    assert(mnemonic(0xE) == seq!['B', 'E', 'Q']);
    assert(mnemonic(0xF) == seq!['B', 'L', 'T']);
}

/// A name that looks up to an opcode is that opcode's mnemonic, and the
/// lookup followed by the classification never fails.
pub proof fn lemma_opcode_lookup_classified(s: Seq<char>)
    requires
        opcode_spec(s) is Some,
    ensures
        opcode_spec(s)->0 < 16,
        mnemonic(opcode_spec(s)->0) == s,
        instr_type_spec(opcode_spec(s)->0) == Ok::<InstrType, AsmError>(family_by_name(s)),
{
    lemma_opcode_table_round_trip(opcode_spec(s)->0);
}

/// The register table is a bijection between the sixteen names and the
/// addresses 0x0 to 0xF.
pub proof fn lemma_register_table_bijective(a: u16, b: u16, s: Seq<char>)
    requires
        a < 16,
        b < 16,
    ensures
        register_spec(register_name(a)) == Some(a),
        a != b ==> register_name(a) != register_name(b),
        register_spec(s) is Some ==> register_spec(s)->0 < 16 && register_name(
            register_spec(s)->0,
        ) == s,
{
    if a != b {
        lemma_register_names_distinct(a, b);
    }
    assert forall|k: u16| k < 16 && k != a implies register_name(k) != register_name(a) by {
        lemma_register_names_distinct(k, a);
    }
}

/// An instruction with the wrong number of operands for its family is a
/// syntax error, whatever the operands are.
pub proof fn lemma_wrong_arity_rejected(toks: Seq<Seq<char>>, ty: InstrType)
    requires
        toks.len() > 0,
        opcode_spec(toks[0]) is Some,
        instr_type_spec(opcode_spec(toks[0])->0) == Ok::<InstrType, AsmError>(ty),
        toks.len() != arity(ty) + 1,
    ensures
        encode_spec(toks) == Err::<u16, AsmError>(AsmError::SyntaxError),
{
}

/// A literal whose value lies outside the 16-bit signed range is rejected as
/// malformed.
pub proof fn lemma_out_of_range_immediate(s: Seq<char>)
    requires
        literal_value(s) is Some,
        literal_value(s)->0 < -32768 || literal_value(s)->0 > 32767,
    ensures
        imm_result(s) == Err::<i16, AsmError>(AsmError::MalformedImmediate),
{
}

} // verus!
