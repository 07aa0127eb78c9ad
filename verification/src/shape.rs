//! The macro-invocation grammar.  A token sequence is an invocation when it
//! reads as
//!
//! ```text
//! ::? ident ( :: ident )* ! group
//! ```
//!
//! where the group has a written delimiter — parentheses, braces or
//! brackets — and nothing follows it.  `shape_of` is the whole story: it
//! either yields the body's tokens or says at which position which piece
//! was missing.

use vstd::prelude::*;

use crate::token::colon2_at;
use crate::token::group_tokens;
use crate::token::is_body_group;
use crate::token::is_ident;
use crate::token::is_joint_punct;
use crate::token::is_punct;
use crate::token::Delim;
use crate::token::Spacing;
use crate::token::Token;

verus! {

/// What the grammar required at the position where reading stopped.
#[derive(Clone, Copy, Debug, PartialEq, Eq, Structural)]
pub enum Expected {
    /// A path segment: an identifier, at the start or after `::`.
    Segment,
    /// The `!` that must follow the macro's path.
    Bang,
    /// A parenthesised, braced or bracketed token body after the `!`.
    Body,
    /// The end of the input: nothing may follow the body.
    End,
}

/// The outcome of reading a token sequence as a macro invocation.
pub enum Shape {
    /// The sequence is a macro invocation; the field holds its body's
    /// tokens, exactly as they stood inside the delimiters.
    Invocation(Seq<Token>),
    /// The sequence is not a macro invocation: at the given position —
    /// at most the sequence's length, which stands for its end — the
    /// expected piece was missing.
    Mismatch(int, Expected),
}

/// Reads `s` from position `i`, where a path segment must begin, as
/// `ident ( :: ident )* ! group` ending exactly at the end of `s`.
/// Deterministic: after a segment, a `::` can only continue the path,
/// since `!` is not a colon.
pub open spec fn shape_from(s: Seq<Token>, i: int) -> Shape
    recommends
        0 <= i,
    decreases s.len() - i,
{
    if i < s.len() && is_ident(s[i]) {
        if colon2_at(s, i + 1) {
            shape_from(s, i + 3)
        } else if i + 1 < s.len() && is_punct(s[i + 1], '!') {
            if i + 2 < s.len() && is_body_group(s[i + 2]) {
                if i + 3 == s.len() {
                    Shape::Invocation(group_tokens(s[i + 2]))
                } else {
                    Shape::Mismatch(i + 3, Expected::End)
                }
            } else {
                Shape::Mismatch(i + 2, Expected::Body)
            }
        } else {
            Shape::Mismatch(i + 1, Expected::Bang)
        }
    } else {
        Shape::Mismatch(i, Expected::Segment)
    }
}

/// Reads a whole token sequence as a macro invocation: an optional leading
/// `::`, then segments, the `!`, and the delimited body.
pub open spec fn shape_of(s: Seq<Token>) -> Shape {
    if colon2_at(s, 0) {
        shape_from(s, 2)
    } else {
        shape_from(s, 0)
    }
}

/// The sequence is a macro invocation.
pub open spec fn is_invocation(s: Seq<Token>) -> bool {
    shape_of(s) is Invocation
}

/// The body tokens of a macro invocation; the empty sequence on a
/// mismatch.
pub open spec fn invocation_body(s: Seq<Token>) -> Seq<Token> {
    match shape_of(s) {
        Shape::Invocation(body) => body,
        Shape::Mismatch(_, _) => Seq::empty(),
    }
}

/// `p` is a well-formed segment list: `ident ( :: ident )*`.
pub open spec fn wf_segments(p: Seq<Token>) -> bool
    decreases p.len(),
{
    if p.len() == 1 {
        is_ident(p[0])
    } else if p.len() >= 4 {
        is_ident(p[0]) && colon2_at(p, 1) && wf_segments(p.skip(3))
    } else {
        false
    }
}

/// The four parts of a well-laid-out macro invocation: `lead` is either
/// empty or a leading `::`, `p` is a segment list, `b` the bang, and `g`
/// the body group.
pub open spec fn invocation_layout(lead: Seq<Token>, p: Seq<Token>, b: Token, g: Token) -> bool {
    &&& lead.len() == 0 || (lead.len() == 2 && colon2_at(lead, 0))
    &&& wf_segments(p)
    &&& is_punct(b, '!')
    &&& is_body_group(g)
}

/// Reading from `i` succeeds and yields the group's tokens whenever the
/// tokens from `i` up to the bang at `j` form a segment list and the body
/// group at `j + 1` closes the sequence.
proof fn lemma_shape_from_segments(s: Seq<Token>, i: int, j: int)
    requires
        0 <= i <= j,
        j + 2 == s.len(),
        wf_segments(s.subrange(i, j)),
        is_punct(s[j], '!'),
        is_body_group(s[j + 1]),
    ensures
        shape_from(s, i) == Shape::Invocation(group_tokens(s[j + 1])),
    decreases j - i,
{
    let p = s.subrange(i, j);
    if p.len() == 1 {
        assert(s[i] == p[0]);
        assert(!colon2_at(s, i + 1));
    } else {
        assert(p.len() >= 4);
        assert(s[i] == p[0]);
        assert(is_joint_punct(s[i + 1], ':') && is_punct(s[i + 2], ':')) by {
            assert(p[1] == s[i + 1] && p[2] == s[i + 2]);
        }
        assert(p.skip(3) =~= s.subrange(i + 3, j));
        lemma_shape_from_segments(s, i + 3, j);
    }
}

/// Identity of content, stated over a whole laid-out invocation: whatever
/// the leading `::`, the invoked path, the bang's spacing and the written
/// delimiter, the invocation unwraps to exactly the body group's tokens.
pub proof fn lemma_layout_unwraps(lead: Seq<Token>, p: Seq<Token>, b: Token, g: Token)
    requires
        invocation_layout(lead, p, b, g),
    ensures
        shape_of(lead + p + seq![b, g]) == Shape::Invocation(group_tokens(g)),
{
    let s = lead + p + seq![b, g];
    let j = lead.len() + p.len();
    assert(s.len() == j + 2);
    assert(s[j as int] == b && s[j as int + 1] == g);
    assert(is_ident(p[0]));
    if lead.len() == 0 {
        assert(s[0] == p[0]);
        assert(!colon2_at(s, 0));
        assert(s.subrange(0, p.len() as int) =~= p);
        lemma_shape_from_segments(s, 0, p.len() as int);
    } else {
        assert(s[0] == lead[0] && s[1] == lead[1]);
        assert(colon2_at(s, 0));
        assert(s.subrange(2, j as int) =~= p);
        lemma_shape_from_segments(s, 2, j as int);
    }
}

/// Identity of content for the common single-name case: `name! { body }`
/// (or with parentheses or brackets) unwraps to exactly `body`'s tokens.
pub proof fn lemma_identity_of_content(name: String, bsp: Spacing, d: Delim, body: Vec<Token>)
    requires
        d is Paren || d is Brace || d is Bracket,
    ensures
        shape_of(
            seq![Token::Ident(name), Token::Punct('!', bsp), Token::Group(d, body)],
        ) == Shape::Invocation(body@),
{
    let p = seq![Token::Ident(name)];
    let g = Token::Group(d, body);
    assert(wf_segments(p));
    lemma_layout_unwraps(Seq::empty(), p, Token::Punct('!', bsp), g);
    assert(Seq::<Token>::empty() + p + seq![Token::Punct('!', bsp), g] =~= seq![
        Token::Ident(name),
        Token::Punct('!', bsp),
        Token::Group(d, body),
    ]);
}

/// Name and delimiter irrelevance: two invocations that differ only in
/// their leading `::`, their invoked path, their bang's spacing or their
/// body's written delimiter, but hold the same body tokens, unwrap to the
/// same output.
pub proof fn lemma_name_delimiter_irrelevance(
    lead1: Seq<Token>,
    p1: Seq<Token>,
    b1: Token,
    d1: Delim,
    body1: Vec<Token>,
    lead2: Seq<Token>,
    p2: Seq<Token>,
    b2: Token,
    d2: Delim,
    body2: Vec<Token>,
)
    requires
        invocation_layout(lead1, p1, b1, Token::Group(d1, body1)),
        invocation_layout(lead2, p2, b2, Token::Group(d2, body2)),
        body1@ == body2@,
    ensures
        shape_of(lead1 + p1 + seq![b1, Token::Group(d1, body1)]) == shape_of(
            lead2 + p2 + seq![b2, Token::Group(d2, body2)],
        ),
        shape_of(lead1 + p1 + seq![b1, Token::Group(d1, body1)]) == Shape::Invocation(body1@),
{
    lemma_layout_unwraps(lead1, p1, b1, Token::Group(d1, body1));
    lemma_layout_unwraps(lead2, p2, b2, Token::Group(d2, body2));
}

} // verus!
