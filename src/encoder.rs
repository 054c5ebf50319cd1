//! Packing one tokenized instruction into its 16-bit machine word.
use vstd::prelude::*;
use crate::isa::{
    AsmError, InstrType, get_instr_type, instr_type_spec, opcode_of, opcode_result, register_of,
    register_result,
};
use crate::immediate::{imm_of, imm_result};
use crate::tokenizer::{token_views, tokenize, tokens_of};

verus! {

/// What an operand token names: a register, or an immediate literal.
#[derive(Debug, Clone, Copy, PartialEq, Eq, Structural)]
pub enum OperandKind {
    Register,
    Immediate,
}

/// How many operands an instruction of each family takes.
pub open spec fn arity(ty: InstrType) -> nat {
    match ty {
        InstrType::IType => 2,
        _ => 3,
    }
}

/// The kind of the operand at position `i` (0 is the first after the
/// mnemonic) for each family.
pub open spec fn operand_kind(ty: InstrType, i: int) -> OperandKind {
    match ty {
        InstrType::RType => OperandKind::Register,
        InstrType::IType | InstrType::LType | InstrType::JType => if i == 0 {
            OperandKind::Immediate
        } else {
            OperandKind::Register
        },
        InstrType::SType | InstrType::BType => if i == 2 {
            OperandKind::Immediate
        } else {
            OperandKind::Register
        },
    }
}

/// The field value of one operand token: a register address, or the 16-bit
/// two's complement pattern of an immediate.
pub open spec fn operand_result(k: OperandKind, s: Seq<char>) -> Result<u16, AsmError> {
    match k {
        OperandKind::Register => register_result(s),
        OperandKind::Immediate => match imm_result(s) {
            Ok(v) => Ok(v as u16),
            Err(e) => Err(e),
        },
    }
}

/// The field values of the first `n` operands, resolved left to right; the
/// first operand that fails gives the error.
pub open spec fn resolve_operands(ty: InstrType, ops: Seq<Seq<char>>, n: nat) -> Result<
    Seq<u16>,
    AsmError,
>
    decreases n,
{
    if n == 0 {
        Ok(seq![])
    } else {
        match resolve_operands(ty, ops, (n - 1) as nat) {
            Err(e) => Err(e),
            Ok(vs) => match operand_result(operand_kind(ty, n - 1), ops[n - 1]) {
                Err(e) => Err(e),
                Ok(v) => Ok(vs.push(v)),
            },
        }
    }
}

/// Four 4-bit fields, most significant first.
pub open spec fn nibbles(a: int, b: int, c: int, d: int) -> int {
    a * 4096 + b * 256 + c * 16 + d
}

/// The word for an opcode of family `ty` and its operands' field values `v`.
/// Wider values keep only their low bits in narrower fields.
pub open spec fn pack(ty: InstrType, op: u16, v: Seq<u16>) -> u16 {
    (match ty {
        InstrType::RType => nibbles(v[0] as int, v[1] as int, v[2] as int, op as int),
        InstrType::IType => (v[0] % 256) * 256 + v[1] * 16 + op,
        InstrType::LType | InstrType::JType => nibbles(
            (v[0] % 16) as int,
            v[1] as int,
            v[2] as int,
            op as int,
        ),
        InstrType::SType => nibbles(v[0] as int, v[1] as int, (v[2] % 16) as int, op as int),
        InstrType::BType => (v[2] % 256) * 256 + (v[0] % 4) * 64 + (v[1] % 4) * 16 + op,
    }) as u16
}

/// Encoding a tokenized instruction: the mnemonic, then exactly as many
/// operands as its family takes, each resolved in order. With no tokens at
/// all there is no mnemonic to look up, which is an unknown opcode.
pub open spec fn encode_spec(toks: Seq<Seq<char>>) -> Result<u16, AsmError> {
    if toks.len() == 0 {
        Err(AsmError::UnknownOpcode)
    } else {
        match opcode_result(toks[0]) {
            Err(e) => Err(e),
            Ok(op) => match instr_type_spec(op) {
                Err(e) => Err(e),
                Ok(ty) => if toks.len() != arity(ty) + 1 {
                    Err(AsmError::SyntaxError)
                } else {
                    match resolve_operands(ty, toks.drop_first(), arity(ty)) {
                        Err(e) => Err(e),
                        Ok(v) => Ok(pack(ty, op, v)),
                    }
                },
            },
        }
    }
}

/// Encoding one line of text.
pub open spec fn encode_line_spec(line: Seq<char>) -> Result<u16, AsmError> {
    encode_spec(tokens_of(line))
}

/// Encoding lines in order, stopping at the first that fails.
pub open spec fn assemble_spec(lines: Seq<Seq<char>>) -> Result<Seq<u16>, AsmError>
    decreases lines.len(),
{
    if lines.len() == 0 {
        Ok(seq![])
    } else {
        match assemble_spec(lines.drop_last()) {
            Err(e) => Err(e),
            Ok(ws) => match encode_line_spec(lines.last()) {
                Err(e) => Err(e),
                Ok(w) => Ok(ws.push(w)),
            },
        }
    }
}

proof fn lemma_resolve_error_stays(ty: InstrType, ops: Seq<Seq<char>>, k: nat, m: nat)
    requires
        k <= m,
        resolve_operands(ty, ops, k) is Err,
    ensures
        resolve_operands(ty, ops, m) == resolve_operands(ty, ops, k),
    decreases m,
{
    if m > k {
        lemma_resolve_error_stays(ty, ops, k, (m - 1) as nat);
    }
}

proof fn lemma_assemble_error_stays(lines: Seq<Seq<char>>, k: nat)
    requires
        k <= lines.len(),
        assemble_spec(lines.take(k as int)) is Err,
    ensures
        assemble_spec(lines) == assemble_spec(lines.take(k as int)),
    decreases lines.len(),
{
    if k < lines.len() {
        assert(lines.drop_last().take(k as int) =~= lines.take(k as int));
        lemma_assemble_error_stays(lines.drop_last(), k);
    } else {
        assert(lines.take(k as int) =~= lines);
    }
}

/// The number of operands of family `ty`.
fn arity_of(ty: InstrType) -> (n: usize)
    ensures
        n == arity(ty),
{
    match ty {
        InstrType::IType => 2,
        _ => 3,
    }
}

/// The kind of operand `i` of family `ty`.
fn kind_of(ty: InstrType, i: usize) -> (k: OperandKind)
    ensures
        k == operand_kind(ty, i as int),
{
    match ty {
        InstrType::RType => OperandKind::Register,
        InstrType::IType | InstrType::LType | InstrType::JType => if i == 0 {
            OperandKind::Immediate
        } else {
            OperandKind::Register
        },
        InstrType::SType | InstrType::BType => if i == 2 {
            OperandKind::Immediate
        } else {
            OperandKind::Register
        },
    }
}

/// The field value of the operand token `t` of kind `k`.
fn operand_of(k: OperandKind, t: &[char]) -> (r: Result<u16, AsmError>)
    ensures
        r == operand_result(k, t@),
        k == OperandKind::Register && r is Ok ==> r->Ok_0 < 16,
{
    match k {
        OperandKind::Register => register_of(t),
        OperandKind::Immediate => match imm_of(t) {
            Ok(v) => Ok(v as u16),
            Err(e) => Err(e),
        },
    }
}

/// Packs the fields with shifts and masks, as the hardware reads them.
fn pack_fields(ty: InstrType, op: u16, a: u16, b: u16, c: u16) -> (w: u16)
    requires
        op < 16,
        ty == InstrType::IType ==> b < 16,
        ty == InstrType::RType ==> a < 16 && b < 16 && c < 16,
        ty == InstrType::LType || ty == InstrType::JType ==> b < 16 && c < 16,
        ty == InstrType::SType ==> a < 16 && b < 16,
    ensures
        w == pack(ty, op, seq![a, b, c]),
        ty == InstrType::IType ==> w == pack(ty, op, seq![a, b]),
{
    match ty {
        InstrType::RType => {
            assert(((a << 12u16) | (b << 8u16) | (c << 4u16) | op) == (a * 4096 + b * 256 + c
                * 16 + op) as u16) by (bit_vector)
                requires
                    a < 16 && b < 16 && c < 16 && op < 16,
            ;
            (a << 12) | (b << 8) | (c << 4) | op
        },
        InstrType::IType => {
            assert(((a << 8u16) | (b << 4u16) | op) == ((a % 256) * 256 + b * 16 + op) as u16)
                by (bit_vector)
                requires
                    b < 16 && op < 16,
            ;
            (a << 8) | (b << 4) | op
        },
        InstrType::LType | InstrType::JType => {
            assert(((a << 12u16) | (b << 8u16) | (c << 4u16) | op) == ((a % 16) * 4096 + b * 256
                + c * 16 + op) as u16) by (bit_vector)
                requires
                    b < 16 && c < 16 && op < 16,
            ;
            (a << 12) | (b << 8) | (c << 4) | op
        },
        InstrType::SType => {
            assert(((a << 12u16) | (b << 8u16) | ((0xFu16 & c) << 4u16) | op) == (a * 4096 + b
                * 256 + (c % 16) * 16 + op) as u16) by (bit_vector)
                requires
                    a < 16 && b < 16 && op < 16,
            ;
            (a << 12) | (b << 8) | ((0xF & c) << 4) | op
        },
        InstrType::BType => {
            assert((((0xFFu16 & c) << 8u16) | ((a & 3u16) << 6u16) | ((b & 3u16) << 4u16) | op)
                == ((c % 256) * 256 + (a % 4) * 64 + (b % 4) * 16 + op) as u16) by (bit_vector)
                requires
                    op < 16,
            ;
            ((0xFF & c) << 8) | ((a & 3) << 6) | ((b & 3) << 4) | op
        },
    }
}

/// The word for the tokens of one instruction: the mnemonic first, then its
/// operands.
pub fn encode_instruction(tokens: &Vec<Vec<char>>) -> (r: Result<u16, AsmError>)
    ensures
        r == encode_spec(token_views(tokens@)),
{
    let ghost toks = token_views(tokens@);
    if tokens.len() == 0 {
        return Err(AsmError::UnknownOpcode);
    }
    assert(toks[0] == tokens@[0]@);
    let op = match opcode_of(tokens[0].as_slice()) {
        Ok(op) => op,
        Err(e) => return Err(e),
    };
    let ty = match get_instr_type(op) {
        Ok(ty) => ty,
        Err(e) => return Err(e),
    };
    let n = arity_of(ty);
    if tokens.len() != n + 1 {
        return Err(AsmError::SyntaxError);
    }
    let ghost ops = toks.drop_first();
    let mut vals: Vec<u16> = Vec::new();
    let mut i: usize = 0;
    while i < n
        invariant
            n == arity(ty),
            opcode_result(toks[0]) == Ok::<u16, AsmError>(op),
            instr_type_spec(op) == Ok::<InstrType, AsmError>(ty),
            i <= n,
            tokens@.len() == n + 1,
            toks == token_views(tokens@),
            ops == toks.drop_first(),
            vals@.len() == i,
            resolve_operands(ty, ops, i as nat) == Ok::<Seq<u16>, AsmError>(vals@),
            forall|j: int|
                0 <= j < i && operand_kind(ty, j) == OperandKind::Register ==> #[trigger] vals@[j]
                    < 16,
        decreases n - i,
    {
        assert(ops[i as int] == tokens@[i + 1]@);
        match operand_of(kind_of(ty, i), tokens[i + 1].as_slice()) {
            Ok(v) => {
                vals.push(v);
            },
            Err(e) => {
                proof {
                    lemma_resolve_error_stays(ty, ops, (i + 1) as nat, arity(ty));
                }
                return Err(e);
            },
        }
        i = i + 1;
    }
    let c = if n == 3 {
        vals[2]
    } else {
        0
    };
    let w = pack_fields(ty, op, vals[0], vals[1], c);
    proof {
        if n == 3 {
            assert(vals@ =~= seq![vals@[0], vals@[1], c]);
        } else {
            assert(vals@ =~= seq![vals@[0], vals@[1]]);
        }
    }
    Ok(w)
}

/// The word for one line of text.
pub fn encode_line(line: &str) -> (r: Result<u16, AsmError>)
    ensures
        r == encode_line_spec(line@),
{
    let tokens = tokenize(line);
    encode_instruction(&tokens)
}

/// The words for `lines`, in order; the first line that fails stops the run
/// and gives the error.
pub fn assemble(lines: &[&str]) -> (r: Result<Vec<u16>, AsmError>)
    ensures
        match r {
            Ok(ws) => assemble_spec(lines@.map_values(|l: &str| l@)) == Ok::<
                Seq<u16>,
                AsmError,
            >(ws@),
            Err(e) => assemble_spec(lines@.map_values(|l: &str| l@)) == Err::<Seq<u16>, AsmError>(
                e,
            ),
        },
{
    let ghost all = lines@.map_values(|l: &str| l@);
    let mut out: Vec<u16> = Vec::new();
    let mut i: usize = 0;
    while i < lines.len()
        invariant
            i <= lines@.len(),
            all == lines@.map_values(|l: &str| l@),
            assemble_spec(all.take(i as int)) == Ok::<Seq<u16>, AsmError>(out@),
        decreases lines@.len() - i,
    {
        assert(all.take(i + 1).drop_last() =~= all.take(i as int));
        assert(all.take(i + 1).last() == lines@[i as int]@);
        match encode_line(lines[i]) {
            Ok(w) => {
                out.push(w);
            },
            Err(e) => {
                proof {
                    lemma_assemble_error_stays(all, (i + 1) as nat);
                }
                return Err(e);
            },
        }
        i = i + 1;
    }
    assert(all.take(lines@.len() as int) =~= all);
    Ok(out)
}

} // verus!
