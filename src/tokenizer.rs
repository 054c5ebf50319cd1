//! Splitting an instruction line into its mnemonic and operand tokens.
use vstd::prelude::*;
use crate::text::chars_of;

verus! {

/// Characters that separate tokens: the comma, and ASCII whitespace (space,
/// tab, line feed, form feed, carriage return).
pub open spec fn is_separator(c: char) -> bool {
    c == ',' || c == ' ' || c == '\t' || c == '\n' || c == '\x0C' || c == '\r'
}

/// The tokens of a line: its maximal runs of non-separator characters, in
/// order. Each character either separates, extends the token that the
/// previous character belongs to, or starts a new one.
pub open spec fn tokens_of(s: Seq<char>) -> Seq<Seq<char>>
    decreases s.len(),
{
    if s.len() == 0 {
        seq![]
    } else {
        let prev = tokens_of(s.drop_last());
        let c = s.last();
        if is_separator(c) {
            prev
        } else if s.len() >= 2 && !is_separator(s[s.len() - 2]) {
            prev.drop_last().push(prev.last().push(c))
        } else {
            prev.push(seq![c])
        }
    }
}

/// What a sequence of character vectors spells.
pub open spec fn token_views(v: Seq<Vec<char>>) -> Seq<Seq<char>> {
    v.map_values(|x: Vec<char>| x@)
}

/// The tokens of the characters `t`.
pub fn split_tokens(t: &[char]) -> (r: Vec<Vec<char>>)
    ensures
        token_views(r@) == tokens_of(t@),
{
    let mut out: Vec<Vec<char>> = Vec::new();
    let mut cur: Vec<char> = Vec::new();
    let n = t.len();
    let mut i: usize = 0;
    while i < n
        invariant
            i <= n,
            n == t@.len(),
            tokens_of(t@.take(i as int)) == (if cur@.len() > 0 {
                token_views(out@).push(cur@)
            } else {
                token_views(out@)
            }),
            cur@.len() > 0 <==> (i > 0 && !is_separator(t@[i - 1])),
        decreases n - i,
    {
        let c = t[i];
        let ghost prev_out = out@;
        let ghost prev_cur = cur@;
        proof {
            assert(t@.take(i + 1).drop_last() =~= t@.take(i as int));
            assert(t@.take(i + 1).last() == c);
        }
        if c == ',' || c == ' ' || c == '\t' || c == '\n' || c == '\x0C' || c == '\r' {
            if cur.len() > 0 {
                out.push(cur);
                cur = Vec::new();
                proof {
                    assert(token_views(out@) =~= token_views(prev_out).push(prev_cur));
                }
            }
        } else {
            cur.push(c);
            proof {
                if prev_cur.len() > 0 {
                    assert(t@.take(i + 1)[i - 1] == t@[i - 1]);
                    let p = token_views(prev_out).push(prev_cur);
                    assert(p.drop_last() =~= token_views(prev_out));
                } else {
                    assert(prev_cur.push(c) =~= seq![c]);
                }
            }
        }
        i = i + 1;
    }
    assert(t@.take(n as int) =~= t@);
    if cur.len() > 0 {
        let ghost prev_out = out@;
        let ghost prev_cur = cur@;
        out.push(cur);
        assert(token_views(out@) =~= token_views(prev_out).push(prev_cur));
    }
    out
}

/// The tokens of `line`: commas count as spaces, and runs of separators
/// leave no empty tokens.
pub fn tokenize(line: &str) -> (r: Vec<Vec<char>>)
    ensures
        token_views(r@) == tokens_of(line@),
{
    let t = chars_of(line);
    split_tokens(t.as_slice())
}

} // verus!
