//! The token model: a plain representation of the lexical tokens that a
//! compilation pipeline hands to an attribute, rich enough to recognise a
//! macro-invocation shape and to carry everything else through untouched.

use vstd::prelude::*;

verus! {

/// Whether a punctuation character touches the next token in the source,
/// as lexers record it.  `::` is two colons whose first is `Joint`.
#[derive(Clone, Copy, Debug, PartialEq, Eq, Structural)]
pub enum Spacing {
    Alone,
    Joint,
}

/// The delimiter of a token group.  `Invisible` groups carry no written
/// delimiter; they arise from earlier macro expansion.
#[derive(Clone, Copy, Debug, PartialEq, Eq, Structural)]
pub enum Delim {
    Paren,
    Brace,
    Bracket,
    Invisible,
}

/// One lexical token.  Identifier and literal texts are carried opaquely:
/// the unwrapper never reads them, only the top-level arrangement of
/// tokens.
#[derive(Debug, PartialEq, Eq)]
pub enum Token {
    Ident(String),
    Punct(char, Spacing),
    Literal(String),
    Group(Delim, Vec<Token>),
}

/// The token is an identifier.
pub open spec fn is_ident(t: Token) -> bool {
    t matches Token::Ident(_)
}

/// The token is the punctuation character `c`, with either spacing.
pub open spec fn is_punct(t: Token, c: char) -> bool {
    t matches Token::Punct(d, _) && d == c
}

/// The token is the punctuation character `c`, joint with what follows.
pub open spec fn is_joint_punct(t: Token, c: char) -> bool {
    t matches Token::Punct(d, sp) && d == c && sp is Joint
}

/// The token can stand as a macro invocation's body: a group with a
/// written delimiter.
pub open spec fn is_body_group(t: Token) -> bool {
    t matches Token::Group(d, _) && (d is Paren || d is Brace || d is Bracket)
}

/// The tokens a group holds; the empty sequence on any other token.
pub open spec fn group_tokens(t: Token) -> Seq<Token> {
    match t {
        Token::Group(_, ts) => ts@,
        _ => Seq::empty(),
    }
}

/// A `::` path separator stands at positions `i` and `i + 1`: two colons,
/// the first joint, so nothing was written between them.
pub open spec fn colon2_at(s: Seq<Token>, i: int) -> bool {
    &&& 0 <= i
    &&& i + 2 <= s.len()
    &&& is_joint_punct(s[i], ':')
    &&& is_punct(s[i + 1], ':')
}

} // verus!
