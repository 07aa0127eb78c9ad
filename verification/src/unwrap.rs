//! The unwrapper: the executable reading of an annotated item as a macro
//! invocation, returning the body's tokens or a position-carrying error.

use vstd::prelude::*;

use crate::shape::invocation_body;
use crate::shape::is_invocation;
use crate::shape::shape_from;
use crate::shape::shape_of;
use crate::shape::Expected;
use crate::shape::Shape;
use crate::token::colon2_at;
use crate::token::group_tokens;
use crate::token::is_body_group;
use crate::token::is_ident;
use crate::token::is_punct;
use crate::token::Delim;
use crate::token::Spacing;
use crate::token::Token;

verus! {

/// The one failure: the annotated item is not a macro invocation.  `pos`
/// is the index of the first token at which the required piece was
/// missing; an index equal to the input's length means the input ended
/// too early.
#[derive(Clone, Copy, Debug, PartialEq, Eq, Structural)]
pub struct ShapeError {
    pub pos: usize,
    pub expected: Expected,
}

impl ShapeError {
    /// A human-readable description of the expected shape, for the
    /// pipeline's diagnostic at the annotated site.
    pub fn message(&self) -> (m: &'static str)
        ensures
            m@.len() > 0,
    {
        let m = match self.expected {
            Expected::Segment => "expected a macro invocation: a path segment must stand here",
            Expected::Bang => "expected a macro invocation: `!` must follow the macro's path",
            Expected::Body => "expected a macro invocation: a delimited token body must follow `!`",
            Expected::End => "expected a macro invocation: nothing may follow the delimited body",
        };
        proof {
            reveal_strlit("expected a macro invocation: a path segment must stand here");
            reveal_strlit("expected a macro invocation: `!` must follow the macro's path");
            reveal_strlit("expected a macro invocation: a delimited token body must follow `!`");
            reveal_strlit("expected a macro invocation: nothing may follow the delimited body");
        }
        m
    }
}

/// An identifier stands at position `i` of `s`.
fn ident_at(s: &Vec<Token>, i: usize) -> (r: bool)
    ensures
        r == (i < s@.len() && is_ident(s@[i as int])),
{
    if i < s.len() {
        match &s[i] {
            Token::Ident(_) => true,
            _ => false,
        }
    } else {
        false
    }
}

/// A `::` path separator stands at positions `i` and `i + 1` of `s`.
fn sep_at(s: &Vec<Token>, i: usize) -> (r: bool)
    ensures
        r == colon2_at(s@, i as int),
{
    if i < s.len() && i + 1 < s.len() {
        let first = match &s[i] {
            Token::Punct(c, sp) => *c == ':' && (match sp {
                Spacing::Joint => true,
                Spacing::Alone => false,
            }),
            _ => false,
        };
        let second = match &s[i + 1] {
            Token::Punct(c, _) => *c == ':',
            _ => false,
        };
        first && second
    } else {
        false
    }
}

/// A `!` stands at position `i` of `s`.
fn bang_at(s: &Vec<Token>, i: usize) -> (r: bool)
    ensures
        r == (i < s@.len() && is_punct(s@[i as int], '!')),
{
    if i < s.len() {
        match &s[i] {
            Token::Punct(c, _) => *c == '!',
            _ => false,
        }
    } else {
        false
    }
}

/// A group with a written delimiter stands at position `i` of `s`.
fn body_at(s: &Vec<Token>, i: usize) -> (r: bool)
    ensures
        r == (i < s@.len() && is_body_group(s@[i as int])),
{
    if i < s.len() {
        match &s[i] {
            Token::Group(d, _) => match d {
                Delim::Paren => true,
                Delim::Brace => true,
                Delim::Bracket => true,
                Delim::Invisible => false,
            },
            _ => false,
        }
    } else {
        false
    }
}

/// Unconditionally removes a call of a function-like macro.
///
/// `item` is the annotated item's token sequence.  When it is a macro
/// invocation — a path, a `!`, and a body with a written delimiter,
/// nothing after it — the body's tokens are returned exactly as they
/// stood, with the invoked path, the bang and the delimiter discarded.
/// On any other shape the one error, a `ShapeError`, reports where the
/// invocation shape broke off, and no tokens are produced.
///
/// `_args`, the attribute's own arguments, is accepted for interface
/// compatibility and ignored: the contract pins the result by `item`
/// alone.
///
/// The output is raw tokens, no longer a macro invocation, so feeding a
/// result back in is not meaningful and nothing is claimed of it.
pub fn remove_macro_call(_args: Vec<Token>, item: Vec<Token>) -> (r: Result<Vec<Token>, ShapeError>)
    ensures
        r is Ok <==> is_invocation(item@),
        r matches Ok(out) ==> out@ == invocation_body(item@),
        shape_of(item@) matches Shape::Mismatch(pos, exp) ==> r matches Err(e) && e.pos as int
            == pos && e.expected == exp,
{
    let n: usize = item.len();
    let mut i: usize = if sep_at(&item, 0) {
        2
    } else {
        0
    };
    loop
        invariant_except_break
            n == item@.len(),
            i <= n,
            shape_of(item@) == shape_from(item@, i as int),
        ensures
            n == item@.len(),
            i < n && is_ident(item@[i as int]),
            !colon2_at(item@, i as int + 1),
            shape_of(item@) == shape_from(item@, i as int),
        decreases n - i,
    {
        if !ident_at(&item, i) {
            assert(shape_from(item@, i as int) == Shape::Mismatch(
                i as int,
                Expected::Segment,
            ));
            return Err(ShapeError { pos: i, expected: Expected::Segment });
        }
        if sep_at(&item, i + 1) {
            i = i + 3;
        } else {
            break;
        }
    }
    if !bang_at(&item, i + 1) {
        assert(shape_from(item@, i as int) == Shape::Mismatch(i as int + 1, Expected::Bang));
        return Err(ShapeError { pos: i + 1, expected: Expected::Bang });
    }
    if !body_at(&item, i + 2) {
        assert(shape_from(item@, i as int) == Shape::Mismatch(i as int + 2, Expected::Body));
        return Err(ShapeError { pos: i + 2, expected: Expected::Body });
    }
    if i + 3 != n {
        assert(shape_from(item@, i as int) == Shape::Mismatch(i as int + 3, Expected::End));
        return Err(ShapeError { pos: i + 3, expected: Expected::End });
    }
    assert(shape_from(item@, i as int) == Shape::Invocation(
        group_tokens(item@[i as int + 2]),
    ));
    let mut rest = item;
    match rest.pop() {
        Some(Token::Group(_, ts)) => Ok(ts),
        _ => unreached(),
    }
}

} // verus!
