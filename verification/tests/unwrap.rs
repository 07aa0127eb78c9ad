use remove_macro_call::remove_macro_call;
use remove_macro_call::shape::Expected;
use remove_macro_call::token::Delim;
use remove_macro_call::token::Spacing;
use remove_macro_call::token::Token;
use remove_macro_call::ShapeError;

fn ident(s: &str) -> Token {
    Token::Ident(String::from(s))
}

fn literal(s: &str) -> Token {
    Token::Literal(String::from(s))
}

fn punct(c: char, joint: bool) -> Token {
    Token::Punct(
        c,
        if joint {
            Spacing::Joint
        } else {
            Spacing::Alone
        },
    )
}

fn bang() -> Token {
    punct('!', false)
}

fn group(d: Delim, ts: Vec<Token>) -> Token {
    Token::Group(d, ts)
}

/// The body of the worked example: `impl Bar for Baz {}`.
fn example_body() -> Vec<Token> {
    vec![
        ident("impl"),
        ident("Bar"),
        ident("for"),
        ident("Baz"),
        group(Delim::Brace, vec![]),
    ]
}

#[test]
fn concrete_example() {
    // foo! { impl Bar for Baz {} }  ==>  impl Bar for Baz {}
    let item = vec![ident("foo"), bang(), group(Delim::Brace, example_body())];
    let out = remove_macro_call(vec![], item);
    assert_eq!(out, Ok(example_body()));
}

#[test]
fn name_is_irrelevant() {
    let a = remove_macro_call(
        vec![],
        vec![ident("foo"), bang(), group(Delim::Brace, example_body())],
    );
    let b = remove_macro_call(
        vec![],
        vec![ident("some_other_macro"), bang(), group(Delim::Brace, example_body())],
    );
    assert_eq!(a, b);
    assert_eq!(a, Ok(example_body()));
}

#[test]
fn delimiter_is_irrelevant() {
    let braces = remove_macro_call(
        vec![],
        vec![ident("m"), bang(), group(Delim::Brace, example_body())],
    );
    let parens = remove_macro_call(
        vec![],
        vec![ident("m"), bang(), group(Delim::Paren, example_body())],
    );
    let brackets = remove_macro_call(
        vec![],
        vec![ident("m"), bang(), group(Delim::Bracket, example_body())],
    );
    assert_eq!(braces, parens);
    assert_eq!(parens, brackets);
    assert_eq!(braces, Ok(example_body()));
}

#[test]
fn attribute_arguments_are_irrelevant() {
    let with_empty_args = remove_macro_call(
        vec![],
        vec![ident("m"), bang(), group(Delim::Brace, example_body())],
    );
    let with_args = remove_macro_call(
        vec![ident("verbose"), punct('=', false), ident("true")],
        vec![ident("m"), bang(), group(Delim::Brace, example_body())],
    );
    assert_eq!(with_empty_args, with_args);

    // The same holds when the item is rejected.
    let bad_with_empty_args = remove_macro_call(vec![], vec![ident("fn")]);
    let bad_with_args = remove_macro_call(vec![literal("7")], vec![ident("fn")]);
    assert_eq!(bad_with_empty_args, bad_with_args);
}

#[test]
fn rejects_function_definition() {
    // fn main() {}  is not a macro invocation: after the first identifier
    // a `!` would have to follow.
    let item = vec![
        ident("fn"),
        ident("main"),
        group(Delim::Paren, vec![]),
        group(Delim::Brace, vec![]),
    ];
    let out = remove_macro_call(vec![], item);
    assert_eq!(out, Err(ShapeError { pos: 1, expected: Expected::Bang }));
}

#[test]
fn path_invocation() {
    // std::vec::vec![1, 2]
    let body = || vec![literal("1"), punct(',', false), literal("2")];
    let item = vec![
        ident("std"),
        punct(':', true),
        punct(':', false),
        ident("vec"),
        punct(':', true),
        punct(':', false),
        ident("vec"),
        bang(),
        group(Delim::Bracket, body()),
    ];
    let out = remove_macro_call(vec![], item);
    assert_eq!(out, Ok(body()));
}

#[test]
fn leading_colons() {
    // ::m! { x }
    let item = vec![
        punct(':', true),
        punct(':', false),
        ident("m"),
        bang(),
        group(Delim::Brace, vec![ident("x")]),
    ];
    let out = remove_macro_call(vec![], item);
    assert_eq!(out, Ok(vec![ident("x")]));
}

#[test]
fn empty_input_is_rejected() {
    let out = remove_macro_call(vec![], vec![]);
    assert_eq!(out, Err(ShapeError { pos: 0, expected: Expected::Segment }));
}

#[test]
fn missing_bang_at_end() {
    let out = remove_macro_call(vec![], vec![ident("m")]);
    assert_eq!(out, Err(ShapeError { pos: 1, expected: Expected::Bang }));
}

#[test]
fn missing_body_at_end() {
    let out = remove_macro_call(vec![], vec![ident("m"), bang()]);
    assert_eq!(out, Err(ShapeError { pos: 2, expected: Expected::Body }));
}

#[test]
fn invisible_group_is_no_body() {
    let item = vec![ident("m"), bang(), group(Delim::Invisible, vec![ident("x")])];
    let out = remove_macro_call(vec![], item);
    assert_eq!(out, Err(ShapeError { pos: 2, expected: Expected::Body }));
}

#[test]
fn trailing_tokens_are_rejected() {
    // m!(x);  — the semicolon is not part of the invocation.
    let item = vec![
        ident("m"),
        bang(),
        group(Delim::Paren, vec![ident("x")]),
        punct(';', false),
    ];
    let out = remove_macro_call(vec![], item);
    assert_eq!(out, Err(ShapeError { pos: 3, expected: Expected::End }));
}

#[test]
fn lone_colons_are_no_separator() {
    // m : : n! {}  — the first colon stands alone, so it is not `::`.
    let item = vec![
        ident("m"),
        punct(':', false),
        punct(':', false),
        ident("n"),
        bang(),
        group(Delim::Brace, vec![]),
    ];
    let out = remove_macro_call(vec![], item);
    assert_eq!(out, Err(ShapeError { pos: 1, expected: Expected::Bang }));
}

#[test]
fn separator_needs_a_segment_after_it() {
    // m::! {}
    let item = vec![
        ident("m"),
        punct(':', true),
        punct(':', false),
        bang(),
        group(Delim::Brace, vec![]),
    ];
    let out = remove_macro_call(vec![], item);
    assert_eq!(out, Err(ShapeError { pos: 3, expected: Expected::Segment }));
}

#[test]
fn empty_body_passes_through() {
    let out = remove_macro_call(vec![], vec![ident("m"), bang(), group(Delim::Paren, vec![])]);
    assert_eq!(out, Ok(vec![]));
}

#[test]
fn body_tokens_are_untouched() {
    // The body is opaque: punctuation, literals, idents and nested groups
    // come out exactly as they went in, even when the body itself looks
    // like another macro invocation.
    let body = || {
        vec![
            ident("inner"),
            bang(),
            group(Delim::Brace, vec![literal("42"), punct(';', true), ident("y")]),
        ]
    };
    let out = remove_macro_call(vec![], vec![ident("outer"), bang(), group(Delim::Brace, body())]);
    assert_eq!(out, Ok(body()));
}

#[test]
fn messages_describe_the_expected_piece() {
    for expected in [Expected::Segment, Expected::Bang, Expected::Body, Expected::End] {
        let e = ShapeError { pos: 0, expected };
        assert!(!e.message().is_empty());
        assert!(e.message().starts_with("expected a macro invocation"));
    }
}
