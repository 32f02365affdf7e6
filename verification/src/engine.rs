//! Which lines may be handed to the evaluation engine.
//!
//! The engine cuts names apart at byte offsets, so a letter outside ASCII
//! makes it panic. Its function `rand` panics on an empty range. Its parser
//! recurses once per token, so a long line can exhaust the stack. A line
//! that could lead to any of these is never handed over, and so no body that
//! the engine stores can lead to them either.

use vstd::prelude::*;
use crate::expr::ExprView;
use crate::text::chars_of;

verus! {

/// The longest line that is handed to the engine, in characters.
pub const MAX_QUERY_CHARS: usize = 256;

/// Every character of `s` is an ASCII character.
pub open spec fn is_ascii_text(s: Seq<char>) -> bool {
    forall|i: int| 0 <= i < s.len() ==> (#[trigger] s[i]) as u32 <= 127
}

/// `s` without its spaces, which is how the engine reads a line.
pub open spec fn without_spaces(s: Seq<char>) -> Seq<char>
    decreases s.len(),
{
    if s.len() == 0 {
        s
    } else if s.last() == ' ' {
        without_spaces(s.drop_last())
    } else {
        without_spaces(s.drop_last()).push(s.last())
    }
}

/// The letters `rand` stand at offset `i` of `s`.
pub open spec fn rand_at(s: Seq<char>, i: int) -> bool {
    &&& 0 <= i
    &&& i + 4 <= s.len()
    &&& s[i] == 'r'
    &&& s[i + 1] == 'a'
    &&& s[i + 2] == 'n'
    &&& s[i + 3] == 'd'
}

/// Somewhere in `s` the letters `rand` follow each other, with at most spaces
/// between them.
pub open spec fn names_rand(s: Seq<char>) -> bool {
    exists|i: int| rand_at(without_spaces(s), i)
}

/// The engine can be handed the line `s`: it is not too long, it is all
/// ASCII, and it does not name the function `rand`.
pub open spec fn engine_reads(s: Seq<char>) -> bool {
    &&& s.len() <= MAX_QUERY_CHARS
    &&& is_ascii_text(s)
    &&& !names_rand(s)
}

/// Every name in the expression `e`, of a variable or of a function, is all
/// ASCII and does not name `rand`.
pub open spec fn plain_expr(e: ExprView) -> bool
    decreases e,
{
    match e {
        ExprView::Binary(l, _, r) => plain_expr(*l) && plain_expr(*r),
        ExprView::Unary(_, x) => plain_expr(*x),
        ExprView::Var(name) => is_ascii_text(name) && !names_rand(name),
        ExprView::Func(name, args) => is_ascii_text(name) && !names_rand(name) && forall|i: int|
            0 <= i < args.len() ==> plain_expr(#[trigger] args[i]),
        ExprView::Literal(_) => true,
        ExprView::Union(parts) => forall|i: int|
            0 <= i < parts.len() ==> plain_expr(#[trigger] parts[i]),
    }
}

/// The characters of `chars` that are no spaces, in order.
fn compact(chars: &Vec<char>) -> (out: Vec<char>)
    ensures
        out@ == without_spaces(chars@),
{
    let mut out: Vec<char> = Vec::new();
    let mut i: usize = 0;
    while i < chars.len()
        invariant
            i <= chars.len(),
            out@ == without_spaces(chars@.take(i as int)),
        decreases chars.len() - i,
    {
        assert(chars@.take(i + 1).drop_last() =~= chars@.take(i as int));
        if chars[i] != ' ' {
            out.push(chars[i]);
        }
        i += 1;
    }
    assert(chars@.take(chars.len() as int) =~= chars@);
    out
}

/// Whether the engine can be handed the line `text`.
pub fn is_readable(text: &str) -> (readable: bool)
    ensures
        readable == engine_reads(text@),
{
    let chars = chars_of(text);
    if chars.len() > MAX_QUERY_CHARS {
        return false;
    }
    let mut i: usize = 0;
    while i < chars.len()
        invariant
            i <= chars.len(),
            chars@ == text@,
            forall|k: int| 0 <= k < i ==> (#[trigger] chars@[k]) as u32 <= 127,
        decreases chars.len() - i,
    {
        if chars[i] as u32 > 127 {
            return false;
        }
        i += 1;
    }
    let letters = compact(&chars);
    let mut j: usize = 0;
    while j < letters.len() && letters.len() - j >= 4
        invariant
            chars@ == text@,
            letters@ == without_spaces(chars@),
            is_ascii_text(chars@),
            chars@.len() <= MAX_QUERY_CHARS,
            forall|k: int| 0 <= k < j ==> !rand_at(letters@, k),
        decreases letters.len() - j,
    {
        if letters[j] == 'r' && letters[j + 1] == 'a' && letters[j + 2] == 'n' && letters[j + 3]
            == 'd' {
            assert(rand_at(letters@, j as int));
            return false;
        }
        j += 1;
    }
    true
}

} // verus!
