//! The expansion engine, run on concrete invocations.

use rsmonad::expand::{monad, transmute, ErrorKind};
use rsmonad::tokens::{Delim, Spacing, TokKind, Token};

fn ident(span: u64, text: &str) -> Token {
    Token {
        span,
        kind: TokKind::Ident(text.to_owned()),
    }
}

fn punct(span: u64, c: char) -> Token {
    Token {
        span,
        kind: TokKind::Punct(c, Spacing::Alone),
    }
}

fn group(span: u64, d: Delim, inner: Vec<Token>) -> Token {
    Token {
        span,
        kind: TokKind::Group(d, inner),
    }
}

fn literal(span: u64, text: &str) -> Token {
    Token {
        span,
        kind: TokKind::Literal(text.to_owned()),
    }
}

/// `#[doc = <lit>]` as two tokens.
fn doc_attr(span: u64, lit: &str) -> Vec<Token> {
    vec![
        punct(span, '#'),
        group(
            span,
            Delim::Bracket,
            vec![ident(span, "doc"), punct(span, '='), literal(span, lit)],
        ),
    ]
}

/// The declaration `enum Possibly<A> { Non, Oui(A), }` as tokens.
fn decl(span: u64) -> Vec<Token> {
    vec![
        ident(span, "enum"),
        ident(span, "Possibly"),
        punct(span, '<'),
        ident(span, "A"),
        punct(span, '>'),
        group(
            span,
            Delim::Brace,
            vec![
                ident(span, "Non"),
                punct(span, ','),
                ident(span, "Oui"),
                group(span, Delim::Paren, vec![ident(span, "A")]),
                punct(span, ','),
            ],
        ),
    ]
}

/// `fn bind(self, f) { f(a) }` as tokens, with the argument order settable.
fn bind_op(span: u64, swapped: bool) -> Vec<Token> {
    let args = if swapped {
        vec![ident(77, "f"), punct(span, ','), ident(span, "self")]
    } else {
        vec![ident(span, "self"), punct(span, ','), ident(span, "f")]
    };
    vec![
        ident(span, "fn"),
        ident(span, "bind"),
        group(span, Delim::Paren, args),
        group(span, Delim::Brace, vec![ident(span, "body")]),
    ]
}

/// `fn consume(a) { Oui(a) }` as tokens.
fn consume_op(span: u64) -> Vec<Token> {
    vec![
        ident(span, "fn"),
        ident(span, "consume"),
        group(span, Delim::Paren, vec![ident(span, "a")]),
        group(span, Delim::Brace, vec![ident(span, "body")]),
    ]
}

fn invocation(lead_in: &str, swapped: bool) -> Vec<Token> {
    let mut ts = doc_attr(1, lead_in);
    ts.extend(decl(2));
    ts.extend(bind_op(3, swapped));
    ts.extend(consume_op(4));
    ts
}

#[test]
fn doc_gate_accepts_lead_in() {
    let ts = invocation("\"Encodes possibility\"", false);
    let out = transmute(&ts);
    assert!(out.is_ok());
}

#[test]
fn doc_gate_rejects_missing_lead_in() {
    let ts = invocation("\"Explains possibility\"", false);
    let out = transmute(&ts);
    let err = out.unwrap_err();
    assert_eq!(err.kind, ErrorKind::DocLeadInMissing);
    assert_eq!(err.span, 1);
}

#[test]
fn swapped_bind_arguments_are_rejected() {
    // `fn bind(f, self)` must fail at the first unexpected token: the `f`
    // that stands where `self` was expected.
    let ts = invocation("\"Encodes possibility\"", true);
    let err = transmute(&ts).unwrap_err();
    assert_eq!(err.kind, ErrorKind::ExpectedSelf);
    assert_eq!(err.span, 77);
}

#[test]
fn nested_generics_parse_to_the_true_close() {
    // `enum Wrapper<A, Extra: SomeTrait<Other<A>>> { One(A), }` must not end
    // its generic list at the first inner `>`.
    let span = 9;
    let mut ts = doc_attr(1, "\"Encodes wrapping\"");
    ts.extend(vec![
        ident(span, "enum"),
        ident(span, "Wrapper"),
        punct(span, '<'),
        ident(span, "A"),
        punct(span, ','),
        ident(span, "Extra"),
        punct(span, ':'),
        ident(span, "SomeTrait"),
        punct(span, '<'),
        ident(span, "Other"),
        punct(span, '<'),
        ident(span, "A"),
        punct(span, '>'),
        punct(span, '>'),
        punct(span, '>'),
        group(
            span,
            Delim::Brace,
            vec![
                ident(span, "One"),
                group(span, Delim::Paren, vec![ident(span, "A")]),
                punct(span, ','),
            ],
        ),
    ]);
    ts.extend(bind_op(3, false));
    ts.extend(consume_op(4));
    assert!(transmute(&ts).is_ok());
}

#[test]
fn expansion_starts_with_the_documentation() {
    let ts = invocation("\"Encodes possibility\"", false);
    let out = transmute(&ts).unwrap();
    // The doc attribute is re-emitted verbatim at the front.
    assert_eq!(out[0], punct(1, '#'));
    assert_eq!(out[1], ts[1]);
    // The lint and derive attributes follow.
    assert_eq!(out[2], punct(0, '#'));
}

#[test]
fn law_suite_module_is_snake_cased() {
    // heck's snake-casing names the law module; if the name came back
    // unchanged the module ident would hold an upper-case letter.
    let ts = invocation("\"Encodes possibility\"", false);
    let out = transmute(&ts).unwrap();
    let mut found = false;
    for t in &out {
        if let TokKind::Ident(s) = &t.kind {
            if s == "possibly_monad_laws" {
                found = true;
            }
            assert_ne!(s, "Possibly_monad_laws");
        }
    }
    assert!(found);
}

#[test]
fn failed_expansion_returns_a_compile_error() {
    let ts = invocation("\"Explains possibility\"", false);
    let out = monad(&ts);
    assert_eq!(out.len(), 3);
    assert_eq!(out[0], ident(1, "compile_error"));
    match &out[2].kind {
        TokKind::Group(Delim::Brace, inner) => match &inner[0].kind {
            TokKind::Literal(s) => {
                assert_eq!(s, "\"Expected the first doc comment to begin with `Encodes `\"");
            }
            other => panic!("expected a literal, found {other:?}"),
        },
        other => panic!("expected a brace group, found {other:?}"),
    }
}

#[test]
fn each_structural_diagnostic_points_at_its_token() {
    let doc = doc_attr(1, "\"Encodes trials\"");

    // A lone `#` with nothing after it.
    let ts = vec![punct(5, '#')];
    let e = transmute(&ts).unwrap_err();
    assert_eq!(e.kind, ErrorKind::ExpectedAttr);

    // `#` followed by something that is not a group.
    let ts = vec![punct(5, '#'), ident(6, "oops")];
    let e = transmute(&ts).unwrap_err();
    assert_eq!(e.kind, ErrorKind::ExpectedAttr);
    assert_eq!(e.span, 6);

    // An attribute in the wrong brackets.
    let ts = vec![punct(5, '#'), group(6, Delim::Paren, vec![])];
    let e = transmute(&ts).unwrap_err();
    assert_eq!(e.kind, ErrorKind::ExpectedAttrBrackets);

    // A non-doc attribute before the declaration.
    let ts = vec![
        punct(5, '#'),
        group(6, Delim::Bracket, vec![ident(7, "derive")]),
    ];
    let e = transmute(&ts).unwrap_err();
    assert_eq!(e.kind, ErrorKind::NonDocAttribute);

    // A doc attribute with nothing after the `=`.
    let ts = vec![
        punct(5, '#'),
        group(6, Delim::Bracket, vec![ident(7, "doc"), punct(8, '=')]),
    ];
    let e = transmute(&ts).unwrap_err();
    assert_eq!(e.kind, ErrorKind::MalformedDocAttribute);

    // A stray punctuation character instead of a declaration.
    let mut ts = doc.clone();
    ts.push(punct(9, ';'));
    let e = transmute(&ts).unwrap_err();
    assert_eq!(e.kind, ErrorKind::ExpectedDeclChar);
    assert_eq!(e.span, 9);

    // A declaration keyword with no name after it.
    let mut ts = doc.clone();
    ts.push(ident(9, "enum"));
    let e = transmute(&ts).unwrap_err();
    assert_eq!(e.kind, ErrorKind::ExpectedName);

    // A name with no generic list after it.
    let mut ts = doc.clone();
    ts.extend(vec![ident(9, "enum"), ident(10, "E"), ident(11, "x")]);
    let e = transmute(&ts).unwrap_err();
    assert_eq!(e.kind, ErrorKind::ExpectedGenerics);
    assert_eq!(e.span, 11);

    // A generic list that never closes.
    let mut ts = doc.clone();
    ts.extend(vec![
        ident(9, "enum"),
        ident(10, "E"),
        punct(11, '<'),
        ident(12, "A"),
    ]);
    let e = transmute(&ts).unwrap_err();
    assert_eq!(e.kind, ErrorKind::UnterminatedGenerics);
    assert_eq!(e.span, 11);
    assert!(e.at_end);

    // A generic list with no parameter at all.
    let mut ts = doc.clone();
    ts.extend(vec![
        ident(9, "enum"),
        ident(10, "E"),
        punct(11, '<'),
        punct(12, '>'),
        group(13, Delim::Brace, vec![]),
    ]);
    ts.extend(bind_op(3, false));
    ts.extend(consume_op(4));
    let e = transmute(&ts).unwrap_err();
    assert_eq!(e.kind, ErrorKind::ExpectedGenericArgument);

    // Nesting past the supported depth.
    let mut ts = doc.clone();
    ts.extend(vec![ident(9, "enum"), ident(10, "E"), punct(11, '<')]);
    for _ in 0..255 {
        ts.push(punct(12, '<'));
    }
    let e = transmute(&ts).unwrap_err();
    assert_eq!(e.kind, ErrorKind::GenericsTooDeep);

    // No body block after the generics.
    let mut ts = doc.clone();
    ts.extend(vec![
        ident(9, "enum"),
        ident(10, "E"),
        punct(11, '<'),
        ident(12, "A"),
        punct(13, '>'),
        ident(14, "nope"),
    ]);
    let e = transmute(&ts).unwrap_err();
    assert_eq!(e.kind, ErrorKind::ExpectedBody);
    assert_eq!(e.span, 14);

    // A tuple-struct body without its semicolon.
    let mut ts = doc.clone();
    ts.extend(vec![
        ident(9, "struct"),
        ident(10, "S"),
        punct(11, '<'),
        ident(12, "A"),
        punct(13, '>'),
        group(14, Delim::Paren, vec![ident(15, "A")]),
        ident(16, "oops"),
    ]);
    let e = transmute(&ts).unwrap_err();
    assert_eq!(e.kind, ErrorKind::ExpectedSemicolon);
    assert_eq!(e.span, 16);

    // A kind keyword that is neither `struct` nor `enum`.
    let mut ts = doc.clone();
    ts.extend(vec![
        ident(9, "union"),
        ident(10, "U"),
        punct(11, '<'),
        ident(12, "A"),
        punct(13, '>'),
        group(14, Delim::Brace, vec![]),
    ]);
    let e = transmute(&ts).unwrap_err();
    assert_eq!(e.kind, ErrorKind::ExpectedStructOrEnum);
    assert_eq!(e.span, 9);

    // An enum body that does not read as variants.
    let mut ts = doc.clone();
    ts.extend(vec![
        ident(9, "enum"),
        ident(10, "E"),
        punct(11, '<'),
        ident(12, "A"),
        punct(13, '>'),
        group(14, Delim::Brace, vec![punct(15, ';')]),
    ]);
    let e = transmute(&ts).unwrap_err();
    assert_eq!(e.kind, ErrorKind::MalformedEnumBody);
    assert_eq!(e.span, 15);

    // A struct body that does not read as fields.
    let mut ts = doc.clone();
    ts.extend(vec![
        ident(9, "struct"),
        ident(10, "S"),
        punct(11, '<'),
        ident(12, "A"),
        punct(13, '>'),
        group(14, Delim::Brace, vec![ident(15, "x"), ident(16, "y")]),
    ]);
    let e = transmute(&ts).unwrap_err();
    assert_eq!(e.kind, ErrorKind::MalformedStructBody);
}

#[test]
fn each_operation_diagnostic_points_at_its_token() {
    let mut good = doc_attr(1, "\"Encodes trials\"");
    good.extend(decl(2));

    // No `fn` after the declaration.
    let mut ts = good.clone();
    ts.push(ident(20, "nope"));
    let e = transmute(&ts).unwrap_err();
    assert_eq!(e.kind, ErrorKind::ExpectedFn);
    assert_eq!(e.span, 20);

    // `fn` followed by the wrong name.
    let mut ts = good.clone();
    ts.extend(vec![ident(20, "fn"), ident(21, "map")]);
    let e = transmute(&ts).unwrap_err();
    assert_eq!(e.kind, ErrorKind::ExpectedBind);
    assert_eq!(e.span, 21);

    // `fn bind` with arguments in the wrong brackets.
    let mut ts = good.clone();
    ts.extend(vec![
        ident(20, "fn"),
        ident(21, "bind"),
        group(22, Delim::Brace, vec![]),
    ]);
    let e = transmute(&ts).unwrap_err();
    assert_eq!(e.kind, ErrorKind::ExpectedBindArgs);

    // `fn bind(self f)`: the comma is missing.
    let mut ts = good.clone();
    ts.extend(vec![
        ident(20, "fn"),
        ident(21, "bind"),
        group(
            22,
            Delim::Paren,
            vec![ident(23, "self"), ident(24, "f")],
        ),
    ]);
    let e = transmute(&ts).unwrap_err();
    assert_eq!(e.kind, ErrorKind::ExpectedComma);
    assert_eq!(e.span, 24);

    // `fn bind(self, 3)`: the second argument is not a name.
    let mut ts = good.clone();
    ts.extend(vec![
        ident(20, "fn"),
        ident(21, "bind"),
        group(
            22,
            Delim::Paren,
            vec![
                ident(23, "self"),
                punct(24, ','),
                literal(25, "3"),
            ],
        ),
    ]);
    let e = transmute(&ts).unwrap_err();
    assert_eq!(e.kind, ErrorKind::ExpectedF);
    assert_eq!(e.span, 25);

    // `fn bind(self, f)` with no body.
    let mut ts = good.clone();
    ts.extend(vec![
        ident(20, "fn"),
        ident(21, "bind"),
        group(
            22,
            Delim::Paren,
            vec![ident(23, "self"), punct(24, ','), ident(25, "f")],
        ),
        ident(26, "nope"),
    ]);
    let e = transmute(&ts).unwrap_err();
    assert_eq!(e.kind, ErrorKind::ExpectedOpBody);
    assert_eq!(e.span, 26);

    // A second function that is not `consume`.
    let mut ts = good.clone();
    ts.extend(bind_op(3, false));
    ts.extend(vec![ident(30, "fn"), ident(31, "unsume")]);
    let e = transmute(&ts).unwrap_err();
    assert_eq!(e.kind, ErrorKind::ExpectedConsume);
    assert_eq!(e.span, 31);

    // `fn consume` with arguments in the wrong brackets.
    let mut ts = good.clone();
    ts.extend(bind_op(3, false));
    ts.extend(vec![
        ident(30, "fn"),
        ident(31, "consume"),
        group(32, Delim::Bracket, vec![]),
    ]);
    let e = transmute(&ts).unwrap_err();
    assert_eq!(e.kind, ErrorKind::ExpectedConsumeArgs);

    // `fn consume(3)`: the argument is not a name.
    let mut ts = good.clone();
    ts.extend(bind_op(3, false));
    ts.extend(vec![
        ident(30, "fn"),
        ident(31, "consume"),
        group(32, Delim::Paren, vec![literal(33, "3")]),
    ]);
    let e = transmute(&ts).unwrap_err();
    assert_eq!(e.kind, ErrorKind::ExpectedA);
    assert_eq!(e.span, 33);
}
