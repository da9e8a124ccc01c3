//! The synthesis engine: given the parsed declaration and the two captured
//! operation bodies, assembles the derived output — the re-declared type with
//! injected attributes, the variant re-export, the Functor, Applicative and
//! Monad implementations (the first two derived compositionally from `bind`
//! and `consume`, never hand-written), the operator overloads, a random-value
//! generator implementation, and a law-checking test module.
//!
//! Every emitted stream is defined once as a specification sequence; each
//! executable emitter is proved to produce exactly that sequence.

use crate::expand::{
    BindOp, ConsumeOp, Decl, Param, Shape, SpecBindOp, SpecConsumeOp, SpecDecl, SpecField,
    SpecParam, SpecShape, SpecVariant, Variant,
};
use crate::tokens::{
    push_group, push_ident, push_punct, push_punct_joint, s_group, s_ident, s_punct,
    s_punct_joint, stream_view, Delim, SpecToken, TokKind, Token,
};
use vstd::prelude::*;

verus! {

broadcast use crate::tokens::lemma_stream_view_len, crate::tokens::lemma_stream_view_index, crate::expand::lemma_seq_view_len, crate::expand::lemma_seq_view_index;

/// A path separator `::`.
pub open spec fn s_colon2() -> Seq<SpecToken> {
    seq![s_punct_joint(':'), s_punct(':')]
}

/// An arrow `->`.
pub open spec fn s_arrow() -> Seq<SpecToken> {
    seq![s_punct_joint('-'), s_punct('>')]
}

/// The generic arguments `A, G2, ...`: every parameter's name, commas
/// between.
pub open spec fn spec_type_args(ps: Seq<SpecParam>, i: int) -> Seq<SpecToken>
    decreases ps.len() - i,
    when 0 <= i <= ps.len()
{
    if i >= ps.len() {
        Seq::empty()
    } else if i + 1 == ps.len() {
        seq![s_ident(ps[i].name)]
    } else {
        seq![s_ident(ps[i].name), s_punct(',')] + spec_type_args(ps, i + 1)
    }
}

/// The generic arguments with the payload position substituted: `B, G2, ...`.
pub open spec fn spec_type_args_b(ps: Seq<SpecParam>) -> Seq<SpecToken>
    recommends
        ps.len() >= 1,
{
    if ps.len() == 1 {
        seq![s_ident("B"@)]
    } else {
        seq![s_ident("B"@), s_punct(',')] + spec_type_args(ps, 1)
    }
}

/// The full parameter list `A: Bound, G2: Bound2, ...`: every parameter's
/// name with its bound tokens, verbatim, commas between.
pub open spec fn spec_params_full(ps: Seq<SpecParam>, i: int) -> Seq<SpecToken>
    decreases ps.len() - i,
    when 0 <= i <= ps.len()
{
    if i >= ps.len() {
        Seq::empty()
    } else if i + 1 == ps.len() {
        seq![s_ident(ps[i].name)] + ps[i].tail
    } else {
        seq![s_ident(ps[i].name)] + ps[i].tail + seq![s_punct(',')] + spec_params_full(ps, i + 1)
    }
}

/// A fresh payload parameter carrying the first parameter's bounds: `B` plus
/// the payload parameter's own bound tokens.
pub open spec fn spec_b_param(ps: Seq<SpecParam>) -> Seq<SpecToken>
    recommends
        ps.len() >= 1,
{
    seq![s_ident("B"@)] + ps[0].tail
}

/// The type itself with its arguments: `Name<A, G2, ...>`.
pub open spec fn spec_self_ty(name: Seq<char>, ps: Seq<SpecParam>) -> Seq<SpecToken> {
    seq![s_ident(name), s_punct('<')] + spec_type_args(ps, 0) + seq![s_punct('>')]
}

/// The emitted `#[allow(...)]` attribute that quiets exhaustiveness lints on
/// the re-declared type.
pub open spec fn spec_exhaustion() -> Seq<SpecToken> {
    seq![
        s_punct('#'),
        s_group(
            Delim::Bracket,
            seq![
                s_ident("allow"@),
                s_group(
                    Delim::Paren,
                    seq![s_ident("clippy"@)] + s_colon2() + seq![
                        s_ident("non_exhaustive_enums"@),
                        s_punct(','),
                        s_ident("clippy"@),
                    ] + s_colon2() + seq![s_ident("non_exhaustive_structs"@)],
                ),
            ],
        ),
    ]
}

/// The emitted `#[derive(...)]` attribute: the common traits every derived
/// type carries.
pub open spec fn spec_derives() -> Seq<SpecToken> {
    seq![
        s_punct('#'),
        s_group(
            Delim::Bracket,
            seq![
                s_ident("derive"@),
                s_group(
                    Delim::Paren,
                    seq![
                        s_ident("Clone"@),
                        s_punct(','),
                        s_ident("Debug"@),
                        s_punct(','),
                        s_ident("Eq"@),
                        s_punct(','),
                        s_ident("Hash"@),
                        s_punct(','),
                        s_ident("Ord"@),
                        s_punct(','),
                        s_ident("PartialEq"@),
                        s_punct(','),
                        s_ident("PartialOrd"@),
                    ],
                ),
            ],
        ),
    ]
}

/// The variant names `V1 , V2 , ...`, one trailing comma after each, for the
/// re-export shortcut.
pub open spec fn spec_variant_names(vs: Seq<crate::expand::SpecVariant>, i: int) -> Seq<SpecToken>
    decreases vs.len() - i,
    when 0 <= i <= vs.len()
{
    if i >= vs.len() {
        Seq::empty()
    } else {
        seq![s_ident(vs[i].name), s_punct(',')] + spec_variant_names(vs, i + 1)
    }
}

/// The re-export shortcut for an enum: `[pub] use Name::{V1, V2, ...};`,
/// letting call sites write bare variant names.
pub open spec fn spec_reexport(d: SpecDecl) -> Seq<SpecToken> {
    (if d.is_public {
        seq![s_ident("pub"@)]
    } else {
        Seq::empty()
    }) + seq![s_ident("use"@), s_ident(d.name)] + s_colon2() + seq![
        s_group(Delim::Brace, spec_variant_names(d.variants, 0)),
        s_punct(';'),
    ]
}

/// Emit `::`.
pub fn emit_colon2(out: &mut Vec<Token>)
    ensures
        stream_view(final(out)@) == stream_view(old(out)@) + s_colon2(),
{
    push_punct_joint(out, ':');
    push_punct(out, ':');
    proof {
        assert(stream_view(out@) =~= stream_view(old(out)@) + s_colon2());
    }
}

/// Emit `->`.
pub fn emit_arrow(out: &mut Vec<Token>)
    ensures
        stream_view(final(out)@) == stream_view(old(out)@) + s_arrow(),
{
    push_punct_joint(out, '-');
    push_punct(out, '>');
    proof {
        assert(stream_view(out@) =~= stream_view(old(out)@) + s_arrow());
    }
}

/// Emit the generic arguments `A, G2, ...`.
pub fn emit_type_args(out: &mut Vec<Token>, ps: &Vec<Param>, i0: usize)
    requires
        i0 <= ps@.len(),
    ensures
        stream_view(final(out)@) == stream_view(old(out)@) + spec_type_args(
            crate::expand::seq_view(ps@),
            i0 as int,
        ),
    decreases ps@.len() - i0,
{
    if i0 >= ps.len() {
        proof {
            assert(stream_view(out@) =~= stream_view(old(out)@) + spec_type_args(
                crate::expand::seq_view(ps@),
                i0 as int,
            ));
        }
        return ;
    }
    push_ident(out, ps[i0].name.as_str());
    if i0 + 1 < ps.len() {
        push_punct(out, ',');
        emit_type_args(out, ps, i0 + 1);
    }
    proof {
        assert(stream_view(out@) =~= stream_view(old(out)@) + spec_type_args(
            crate::expand::seq_view(ps@),
            i0 as int,
        ));
    }
}

/// Emit the substituted generic arguments `B, G2, ...`.
pub fn emit_type_args_b(out: &mut Vec<Token>, ps: &Vec<Param>)
    requires
        ps@.len() >= 1,
    ensures
        stream_view(final(out)@) == stream_view(old(out)@) + spec_type_args_b(
            crate::expand::seq_view(ps@),
        ),
{
    push_ident(out, "B");
    if ps.len() > 1 {
        push_punct(out, ',');
        emit_type_args(out, ps, 1);
    }
    proof {
        assert(stream_view(out@) =~= stream_view(old(out)@) + spec_type_args_b(
            crate::expand::seq_view(ps@),
        ));
    }
}

/// Emit the full parameter list `A: Bound, G2: Bound2, ...`.
pub fn emit_params_full(out: &mut Vec<Token>, ps: &Vec<Param>, i0: usize)
    requires
        i0 <= ps@.len(),
    ensures
        stream_view(final(out)@) == stream_view(old(out)@) + spec_params_full(
            crate::expand::seq_view(ps@),
            i0 as int,
        ),
    decreases ps@.len() - i0,
{
    if i0 >= ps.len() {
        proof {
            assert(stream_view(out@) =~= stream_view(old(out)@) + spec_params_full(
                crate::expand::seq_view(ps@),
                i0 as int,
            ));
        }
        return ;
    }
    push_ident(out, ps[i0].name.as_str());
    crate::tokens::push_range(out, &ps[i0].tail, 0, ps[i0].tail.len());
    proof {
        assert(stream_view(ps[i0 as int].tail@).subrange(
            0,
            ps[i0 as int].tail@.len() as int,
        ) =~= stream_view(ps[i0 as int].tail@));
    }
    if i0 + 1 < ps.len() {
        push_punct(out, ',');
        emit_params_full(out, ps, i0 + 1);
    }
    proof {
        assert(stream_view(out@) =~= stream_view(old(out)@) + spec_params_full(
            crate::expand::seq_view(ps@),
            i0 as int,
        ));
    }
}

/// Emit `B` with the payload parameter's bounds.
pub fn emit_b_param(out: &mut Vec<Token>, ps: &Vec<Param>)
    requires
        ps@.len() >= 1,
    ensures
        stream_view(final(out)@) == stream_view(old(out)@) + spec_b_param(
            crate::expand::seq_view(ps@),
        ),
{
    push_ident(out, "B");
    crate::tokens::push_range(out, &ps[0].tail, 0, ps[0].tail.len());
    proof {
        assert(stream_view(ps[0].tail@).subrange(0, ps[0].tail@.len() as int) =~= stream_view(
            ps[0].tail@,
        ));
        assert(stream_view(out@) =~= stream_view(old(out)@) + spec_b_param(
            crate::expand::seq_view(ps@),
        ));
    }
}

/// Emit `Name<A, G2, ...>`.
pub fn emit_self_ty(out: &mut Vec<Token>, name: &String, ps: &Vec<Param>)
    ensures
        stream_view(final(out)@) == stream_view(old(out)@) + spec_self_ty(
            name@,
            crate::expand::seq_view(ps@),
        ),
{
    push_ident(out, name.as_str());
    push_punct(out, '<');
    emit_type_args(out, ps, 0);
    push_punct(out, '>');
    proof {
        assert(stream_view(out@) =~= stream_view(old(out)@) + spec_self_ty(
            name@,
            crate::expand::seq_view(ps@),
        ));
    }
}

/// Emit the exhaustiveness-lint attribute.
pub fn emit_exhaustion(out: &mut Vec<Token>)
    ensures
        stream_view(final(out)@) == stream_view(old(out)@) + spec_exhaustion(),
{
    let mut inner: Vec<Token> = Vec::new();
    push_ident(&mut inner, "clippy");
    emit_colon2(&mut inner);
    push_ident(&mut inner, "non_exhaustive_enums");
    push_punct(&mut inner, ',');
    push_ident(&mut inner, "clippy");
    emit_colon2(&mut inner);
    push_ident(&mut inner, "non_exhaustive_structs");
    proof {
        assert(stream_view(inner@) =~= seq![s_ident("clippy"@)] + s_colon2() + seq![
            s_ident("non_exhaustive_enums"@),
            s_punct(','),
            s_ident("clippy"@),
        ] + s_colon2() + seq![s_ident("non_exhaustive_structs"@)]);
    }
    let mut attr: Vec<Token> = Vec::new();
    push_ident(&mut attr, "allow");
    push_group(&mut attr, Delim::Paren, inner);
    proof {
        assert(stream_view(attr@) =~= spec_exhaustion()[1].kind->Group_1);
    }
    push_punct(out, '#');
    push_group(out, Delim::Bracket, attr);
    proof {
        assert(stream_view(out@) =~= stream_view(old(out)@) + spec_exhaustion());
    }
}

/// Emit the derive attribute.
pub fn emit_derives(out: &mut Vec<Token>)
    ensures
        stream_view(final(out)@) == stream_view(old(out)@) + spec_derives(),
{
    let mut inner: Vec<Token> = Vec::new();
    push_ident(&mut inner, "Clone");
    push_punct(&mut inner, ',');
    push_ident(&mut inner, "Debug");
    push_punct(&mut inner, ',');
    push_ident(&mut inner, "Eq");
    push_punct(&mut inner, ',');
    push_ident(&mut inner, "Hash");
    push_punct(&mut inner, ',');
    push_ident(&mut inner, "Ord");
    push_punct(&mut inner, ',');
    push_ident(&mut inner, "PartialEq");
    push_punct(&mut inner, ',');
    push_ident(&mut inner, "PartialOrd");
    proof {
        assert(stream_view(inner@) =~= seq![
            s_ident("Clone"@),
            s_punct(','),
            s_ident("Debug"@),
            s_punct(','),
            s_ident("Eq"@),
            s_punct(','),
            s_ident("Hash"@),
            s_punct(','),
            s_ident("Ord"@),
            s_punct(','),
            s_ident("PartialEq"@),
            s_punct(','),
            s_ident("PartialOrd"@),
        ]);
    }
    let mut attr: Vec<Token> = Vec::new();
    push_ident(&mut attr, "derive");
    push_group(&mut attr, Delim::Paren, inner);
    proof {
        assert(stream_view(attr@) =~= spec_derives()[1].kind->Group_1);
    }
    push_punct(out, '#');
    push_group(out, Delim::Bracket, attr);
    proof {
        assert(stream_view(out@) =~= stream_view(old(out)@) + spec_derives());
    }
}

/// Emit the variant names with trailing commas.
pub fn emit_variant_names(out: &mut Vec<Token>, vs: &Vec<Variant>, i0: usize)
    requires
        i0 <= vs@.len(),
    ensures
        stream_view(final(out)@) == stream_view(old(out)@) + spec_variant_names(
            crate::expand::seq_view(vs@),
            i0 as int,
        ),
    decreases vs@.len() - i0,
{
    if i0 >= vs.len() {
        proof {
            assert(stream_view(out@) =~= stream_view(old(out)@) + spec_variant_names(
                crate::expand::seq_view(vs@),
                i0 as int,
            ));
        }
        return ;
    }
    push_ident(out, vs[i0].name.as_str());
    push_punct(out, ',');
    emit_variant_names(out, vs, i0 + 1);
    proof {
        assert(stream_view(out@) =~= stream_view(old(out)@) + spec_variant_names(
            crate::expand::seq_view(vs@),
            i0 as int,
        ));
    }
}

/// Emit the enum re-export shortcut.
pub fn emit_reexport(out: &mut Vec<Token>, d: &Decl)
    requires
        d.is_enum,
    ensures
        stream_view(final(out)@) == stream_view(old(out)@) + spec_reexport(d@),
{
    if d.is_public {
        push_ident(out, "pub");
    }
    push_ident(out, "use");
    push_ident(out, d.name.as_str());
    emit_colon2(out);
    let mut names: Vec<Token> = Vec::new();
    emit_variant_names(&mut names, &d.variants, 0);
    push_group(out, Delim::Brace, names);
    push_punct(out, ';');
    proof {
        assert(stream_view(out@) =~~= stream_view(old(out)@) + spec_reexport(d@));
    }
}

/// The `#[inline(always)]` attribute that each synthesized method carries.
pub open spec fn spec_inline_attr() -> Seq<SpecToken> {
    seq![
        s_punct('#'),
        s_group(
            Delim::Bracket,
            seq![s_ident("inline"@), s_group(Delim::Paren, seq![s_ident("always"@)])],
        ),
    ]
}

/// `Name<B, G2, ...>`: the type with its payload position substituted.
pub open spec fn spec_ty_b(name: Seq<char>, ps: Seq<SpecParam>) -> Seq<SpecToken> {
    seq![s_ident(name), s_punct('<')] + spec_type_args_b(ps) + seq![s_punct('>')]
}

/// The header `impl<...> Trait<...> for Name<...>` shared by the typeclass
/// implementations, which all thread every generic parameter.
pub open spec fn spec_impl_header(name: Seq<char>, ps: Seq<SpecParam>, tn: Seq<char>) -> Seq<
    SpecToken,
> {
    seq![s_ident("impl"@), s_punct('<')] + spec_params_full(ps, 0) + seq![
        s_punct('>'),
        s_ident(tn),
        s_punct('<'),
    ] + spec_type_args(ps, 0) + seq![s_punct('>'), s_ident("for"@)] + spec_self_ty(name, ps)
}

/// The associated type `type Trait<B: ...> = Name<B, ...>;` that rebinds the
/// payload position, one per typeclass level.
pub open spec fn spec_assoc_ty(tn: Seq<char>, name: Seq<char>, ps: Seq<SpecParam>) -> Seq<
    SpecToken,
> {
    seq![s_ident("type"@), s_ident(tn), s_punct('<')] + spec_b_param(ps) + seq![
        s_punct('>'),
        s_punct('='),
    ] + spec_ty_b(name, ps) + seq![s_punct(';')]
}

/// The body of the derived `fmap`: `self.bind(move |a| consume(f(a)))` —
/// Functor is never hand-written, it is bind followed by consume.
pub open spec fn spec_fmap_body() -> Seq<SpecToken> {
    seq![
        s_ident("self"@),
        s_punct('.'),
        s_ident("bind"@),
        s_group(
            Delim::Paren,
            seq![
                s_ident("move"@),
                s_punct('|'),
                s_ident("a"@),
                s_punct('|'),
                s_ident("consume"@),
                s_group(
                    Delim::Paren,
                    seq![s_ident("f"@), s_group(Delim::Paren, seq![s_ident("a"@)])],
                ),
            ],
        ),
    ]
}

/// The derived `fmap` method.
pub open spec fn spec_fmap_fn(ps: Seq<SpecParam>) -> Seq<SpecToken> {
    spec_inline_attr() + seq![s_ident("fn"@), s_ident("fmap"@), s_punct('<')] + spec_b_param(ps)
        + seq![
        s_punct(','),
        s_ident("F"@),
        s_punct(':'),
        s_ident("Fn"@),
        s_group(Delim::Paren, seq![s_ident(ps[0].name)]),
    ] + s_arrow() + seq![
        s_ident("B"@),
        s_punct('>'),
        s_group(
            Delim::Paren,
            seq![
                s_ident("self"@),
                s_punct(','),
                s_ident("f"@),
                s_punct(':'),
                s_ident("F"@),
            ],
        ),
    ] + s_arrow() + seq![s_ident("Self"@)] + s_colon2() + seq![
        s_ident("Functor"@),
        s_punct('<'),
        s_ident("B"@),
        s_punct('>'),
        s_group(Delim::Brace, spec_fmap_body()),
    ]
}

/// The whole derived Functor implementation.
pub open spec fn spec_functor_impl(d: SpecDecl) -> Seq<SpecToken> {
    spec_impl_header(d.name, d.params, "Functor"@) + seq![
        s_group(
            Delim::Brace,
            spec_assoc_ty("Functor"@, d.name, d.params) + spec_fmap_fn(d.params),
        ),
    ]
}

/// The body of the derived `tie`:
/// `self.bind(move |a| af.bind(move |f| consume(f(a))))`.
pub open spec fn spec_tie_body() -> Seq<SpecToken> {
    seq![
        s_ident("self"@),
        s_punct('.'),
        s_ident("bind"@),
        s_group(
            Delim::Paren,
            seq![
                s_ident("move"@),
                s_punct('|'),
                s_ident("a"@),
                s_punct('|'),
                s_ident("af"@),
                s_punct('.'),
                s_ident("bind"@),
                s_group(
                    Delim::Paren,
                    seq![
                        s_ident("move"@),
                        s_punct('|'),
                        s_ident("f"@),
                        s_punct('|'),
                        s_ident("consume"@),
                        s_group(
                            Delim::Paren,
                            seq![s_ident("f"@), s_group(Delim::Paren, seq![s_ident("a"@)])],
                        ),
                    ],
                ),
            ],
        ),
    ]
}

/// The derived `tie` method.
pub open spec fn spec_tie_fn(ps: Seq<SpecParam>) -> Seq<SpecToken> {
    spec_inline_attr() + seq![
        s_ident("fn"@),
        s_ident("tie"@),
        s_punct('<'),
        s_ident("F"@),
        s_punct(':'),
        s_ident("Fn"@),
        s_group(Delim::Paren, seq![s_ident(ps[0].name)]),
    ] + s_arrow() + seq![s_ident("B"@), s_punct(',')] + spec_b_param(ps) + seq![
        s_punct('>'),
        s_group(
            Delim::Paren,
            seq![s_ident("self"@), s_punct(','), s_ident("af"@), s_punct(':'), s_ident("Self"@)]
                + s_colon2() + seq![
                s_ident("Applicative"@),
                s_punct('<'),
                s_ident("F"@),
                s_punct('>'),
            ],
        ),
    ] + s_arrow() + seq![s_ident("Self"@)] + s_colon2() + seq![
        s_ident("Applicative"@),
        s_punct('<'),
        s_ident("B"@),
        s_punct('>'),
        s_group(Delim::Brace, spec_tie_body()),
    ]
}

/// The whole derived Applicative implementation.
pub open spec fn spec_applicative_impl(d: SpecDecl) -> Seq<SpecToken> {
    spec_impl_header(d.name, d.params, "Applicative"@) + seq![
        s_group(
            Delim::Brace,
            spec_assoc_ty("Applicative"@, d.name, d.params) + spec_tie_fn(d.params),
        ),
    ]
}

/// `Self::Monad<B>`, the synthesized higher-kinded return type of `bind`.
pub open spec fn spec_self_monad_b() -> Seq<SpecToken> {
    seq![s_ident("Self"@)] + s_colon2() + seq![
        s_ident("Monad"@),
        s_punct('<'),
        s_ident("B"@),
        s_punct('>'),
    ]
}

/// The `bind` method: the user's verbatim body under the synthesized
/// signature `fn bind<B, F: Fn(A) -> Self::Monad<B>>(self, f: F) ->
/// Self::Monad<B>`, attributes captured from the argument list re-emitted.
pub open spec fn spec_bind_fn(ps: Seq<SpecParam>, b: SpecBindOp) -> Seq<SpecToken> {
    spec_inline_attr() + seq![s_ident("fn"@), s_ident("bind"@), s_punct('<')] + spec_b_param(ps)
        + seq![
        s_punct(','),
        s_ident("F"@),
        s_punct(':'),
        s_ident("Fn"@),
        s_group(Delim::Paren, seq![s_ident(ps[0].name)]),
    ] + s_arrow() + spec_self_monad_b() + seq![
        s_punct('>'),
        s_group(
            Delim::Paren,
            b.self_attrs + seq![s_ident("self"@), s_punct(',')] + b.f_attrs + seq![
                s_ident(b.f_name),
                s_punct(':'),
                s_ident("F"@),
            ],
        ),
    ] + s_arrow() + spec_self_monad_b() + seq![b.body]
}

/// The `consume` method: the user's verbatim body under the synthesized
/// signature `fn consume(a: A) -> Self`.
pub open spec fn spec_consume_fn(ps: Seq<SpecParam>, c: SpecConsumeOp) -> Seq<SpecToken> {
    spec_inline_attr() + seq![
        s_ident("fn"@),
        s_ident("consume"@),
        s_group(
            Delim::Paren,
            c.a_attrs + seq![s_ident(c.a_name), s_punct(':'), s_ident(ps[0].name)],
        ),
    ] + s_arrow() + seq![s_ident("Self"@), c.body]
}

/// The whole Monad implementation, holding both user bodies.
pub open spec fn spec_monad_impl(d: SpecDecl, b: SpecBindOp, c: SpecConsumeOp) -> Seq<SpecToken> {
    spec_impl_header(d.name, d.params, "Monad"@) + seq![
        s_group(
            Delim::Brace,
            spec_assoc_ty("Monad"@, d.name, d.params) + spec_bind_fn(d.params, b)
                + spec_consume_fn(d.params, c),
        ),
    ]
}

/// The header shared by the operator overloads, which use only the payload
/// parameter: `impl<A: ..., B: ..., F: Fn(A) -> RET> core::ops::OP<RHS> for
/// Name<A>`.
pub open spec fn spec_op_header(
    ps: Seq<SpecParam>,
    fn_ret: Seq<SpecToken>,
    op: Seq<char>,
    rhs: Seq<SpecToken>,
    name: Seq<char>,
) -> Seq<SpecToken> {
    seq![s_ident("impl"@), s_punct('<'), s_ident(ps[0].name)] + ps[0].tail + seq![s_punct(',')]
        + spec_b_param(ps) + seq![
        s_punct(','),
        s_ident("F"@),
        s_punct(':'),
        s_ident("Fn"@),
        s_group(Delim::Paren, seq![s_ident(ps[0].name)]),
    ] + s_arrow() + fn_ret + seq![s_punct('>'), s_ident("core"@)] + s_colon2() + seq![
        s_ident("ops"@),
    ] + s_colon2() + seq![s_ident(op), s_punct('<')] + rhs + seq![
        s_punct('>'),
        s_ident("for"@),
        s_ident(name),
        s_punct('<'),
        s_ident(ps[0].name),
        s_punct('>'),
    ]
}

/// `<Self as Trait<A>>::Trait<B>;` — the operator's output type, named
/// through the matching typeclass level.
pub open spec fn spec_op_output(tn: Seq<char>, ps: Seq<SpecParam>) -> Seq<SpecToken> {
    seq![
        s_ident("type"@),
        s_ident("Output"@),
        s_punct('='),
        s_punct('<'),
        s_ident("Self"@),
        s_ident("as"@),
        s_ident(tn),
        s_punct('<'),
        s_ident(ps[0].name),
        s_punct('>'),
        s_punct('>'),
    ] + s_colon2() + seq![s_ident(tn), s_punct('<'), s_ident("B"@), s_punct('>'), s_punct(';')]
}

/// An operator method: a thin forward such as `fn shr(self, f: F) ->
/// Self::Output { self.bind(f) }`.
pub open spec fn spec_op_fn(op_fn: Seq<char>, arg: Seq<char>, target: Seq<char>) -> Seq<SpecToken> {
    spec_inline_attr() + seq![
        s_ident("fn"@),
        s_ident(op_fn),
        s_group(
            Delim::Paren,
            seq![s_ident("self"@), s_punct(','), s_ident(arg), s_punct(':'), s_ident("F"@)],
        ),
    ] + s_arrow() + seq![s_ident("Self"@)] + s_colon2() + seq![
        s_ident("Output"@),
        s_group(
            Delim::Brace,
            seq![
                s_ident("self"@),
                s_punct('.'),
                s_ident(target),
                s_group(Delim::Paren, seq![s_ident(arg)]),
            ],
        ),
    ]
}

/// The `>>` overload standing in for Haskell's `>>=`: forwards to `bind`.
pub open spec fn spec_shr_impl(d: SpecDecl) -> Seq<SpecToken> {
    spec_op_header(d.params, spec_ty_b(d.name, d.params.take(1)), "Shr"@, seq![s_ident("F"@)], d.name)
        + seq![
        s_group(
            Delim::Brace,
            spec_op_output("Monad"@, d.params) + spec_op_fn("shr"@, "f"@, "bind"@),
        ),
    ]
}

/// The `%` overload standing in for Haskell's `<$>`: forwards to `fmap`.
pub open spec fn spec_rem_impl(d: SpecDecl) -> Seq<SpecToken> {
    spec_op_header(d.params, seq![s_ident("B"@)], "Rem"@, seq![s_ident("F"@)], d.name) + seq![
        s_group(
            Delim::Brace,
            spec_op_output("Functor"@, d.params) + spec_op_fn("rem"@, "f"@, "fmap"@),
        ),
    ]
}

/// The `*` overload standing in for Haskell's `<*>`: forwards to `tie`.
pub open spec fn spec_mul_impl(d: SpecDecl) -> Seq<SpecToken> {
    spec_op_header(
        d.params,
        seq![s_ident("B"@)],
        "Mul"@,
        seq![s_ident(d.name), s_punct('<'), s_ident("F"@), s_punct('>')],
        d.name,
    ) + seq![
        s_group(
            Delim::Brace,
            spec_op_output("Applicative"@, d.params) + spec_op_fn("mul"@, "af"@, "tie"@),
        ),
    ]
}

/// The name heck's `to_snake_case` gives to a type name: the module that
/// holds the law suite is named after it. The result depends on the
/// characters alone.
pub uninterp spec fn snake_of(s: Seq<char>) -> Seq<char>;

/// Relies on heck's `to_snake_case` for the law-module naming convention.
#[verifier::external_body]
fn to_snake(s: &String) -> (r: String)
    ensures
        r@ == snake_of(s@),
{
    heck::ToSnakeCase::to_snake_case(s.as_str())
}

/// `< TY as quickcheck::Arbitrary >::arbitrary(g)` for one field type.
pub open spec fn spec_arb_call(ty: Seq<SpecToken>, g: Seq<char>) -> Seq<SpecToken> {
    seq![s_punct('<')] + ty + seq![s_ident("as"@), s_ident("quickcheck"@)] + s_colon2() + seq![
        s_ident("Arbitrary"@),
        s_punct('>'),
    ] + s_colon2() + seq![s_ident("arbitrary"@), s_group(Delim::Paren, seq![s_ident(g)])]
}

/// Arbitrary values for a positional field list, one per type, trailing
/// commas.
pub open spec fn spec_arb_unnamed(tys: Seq<Seq<SpecToken>>, i: int, g: Seq<char>) -> Seq<SpecToken>
    decreases tys.len() - i,
    when 0 <= i <= tys.len()
{
    if i >= tys.len() {
        Seq::empty()
    } else {
        spec_arb_call(tys[i], g) + seq![s_punct(',')] + spec_arb_unnamed(tys, i + 1, g)
    }
}

/// Arbitrary values for a named field list: `name: <TY as ...>::arbitrary(g),`.
pub open spec fn spec_arb_named(fs: Seq<SpecField>, i: int, g: Seq<char>) -> Seq<SpecToken>
    decreases fs.len() - i,
    when 0 <= i <= fs.len()
{
    if i >= fs.len() {
        Seq::empty()
    } else {
        seq![s_ident(fs[i].name), s_punct(':')] + spec_arb_call(fs[i].ty, g) + seq![s_punct(',')]
            + spec_arb_named(fs, i + 1, g)
    }
}

/// The expression that builds one random value of the given head (a variant
/// name, or `Self`) and shape.
pub open spec fn spec_arb_expr(head: Seq<char>, shape: SpecShape, g: Seq<char>) -> Seq<SpecToken> {
    match shape {
        SpecShape::Unit => seq![s_ident(head)],
        SpecShape::Unnamed(tys) => seq![
            s_ident(head),
            s_group(Delim::Paren, spec_arb_unnamed(tys, 0, g)),
        ],
        SpecShape::Named(fs) => seq![
            s_ident(head),
            s_group(Delim::Brace, spec_arb_named(fs, 0, g)),
        ],
    }
}

/// `fn(&mut quickcheck::Gen) -> Self`, the function-pointer type the variant
/// builders are cast to.
pub open spec fn spec_gen_fn_ty() -> Seq<SpecToken> {
    seq![
        s_ident("fn"@),
        s_group(
            Delim::Paren,
            seq![s_punct('&'), s_ident("mut"@), s_ident("quickcheck"@)] + s_colon2() + seq![
                s_ident("Gen"@),
            ],
        ),
    ] + s_arrow() + seq![s_ident("Self"@)]
}

/// One variant-builder closure, parenthesized and cast:
/// `(move |gen| Expr) as fn(&mut quickcheck::Gen) -> Self,`.
pub open spec fn spec_arb_closures(vs: Seq<SpecVariant>, i: int) -> Seq<SpecToken>
    decreases vs.len() - i,
    when 0 <= i <= vs.len()
{
    if i >= vs.len() {
        Seq::empty()
    } else {
        seq![
            s_group(
                Delim::Paren,
                seq![s_ident("move"@), s_punct('|'), s_ident("gen"@), s_punct('|')]
                    + spec_arb_expr(vs[i].name, vs[i].shape, "gen"@),
            ),
            s_ident("as"@),
        ] + spec_gen_fn_ty() + seq![s_punct(',')] + spec_arb_closures(vs, i + 1)
    }
}

/// The body of `arbitrary` for an enum: pick one variant builder at random
/// and run it.
pub open spec fn spec_arb_enum_body(vs: Seq<SpecVariant>) -> Seq<SpecToken> {
    seq![s_ident("g"@), s_punct('.'), s_ident("choose"@)] + s_colon2() + seq![s_punct('<')]
        + spec_gen_fn_ty() + seq![
        s_punct('>'),
        s_group(
            Delim::Paren,
            seq![s_punct('&'), s_group(Delim::Bracket, spec_arb_closures(vs, 0))],
        ),
        s_punct('.'),
        s_ident("unwrap"@),
        s_group(Delim::Paren, Seq::empty()),
        s_group(Delim::Paren, seq![s_ident("g"@)]),
    ]
}

/// The whole random-value generator implementation:
/// `impl<A: quickcheck::Arbitrary> quickcheck::Arbitrary for Name<A> { ... }`.
pub open spec fn spec_arbitrary_impl(d: SpecDecl) -> Seq<SpecToken> {
    seq![s_ident("impl"@), s_punct('<'), s_ident(d.params[0].name), s_punct(':'), s_ident(
        "quickcheck"@,
    )] + s_colon2() + seq![s_ident("Arbitrary"@), s_punct('>'), s_ident("quickcheck"@)]
        + s_colon2() + seq![
        s_ident("Arbitrary"@),
        s_ident("for"@),
        s_ident(d.name),
        s_punct('<'),
        s_ident(d.params[0].name),
        s_punct('>'),
        s_group(
            Delim::Brace,
            seq![
                s_ident("fn"@),
                s_ident("arbitrary"@),
                s_group(
                    Delim::Paren,
                    seq![s_ident("g"@), s_punct(':'), s_punct('&'), s_ident("mut"@), s_ident(
                        "quickcheck"@,
                    )] + s_colon2() + seq![s_ident("Gen"@)],
                ),
            ] + s_arrow() + seq![
                s_ident("Self"@),
                s_group(
                    Delim::Brace,
                    if d.is_enum {
                        spec_arb_enum_body(d.variants)
                    } else {
                        spec_arb_expr("Self"@, d.shape, "g"@)
                    },
                ),
            ],
        ),
    ]
}

/// `rsmonad :: monad_laws ::`, the path to the law library in the emitted
/// test suite.
pub open spec fn spec_laws_path() -> Seq<SpecToken> {
    seq![s_ident("rsmonad"@)] + s_colon2() + seq![s_ident("monad_laws"@)] + s_colon2()
}

/// `UnderInvestigation < A >`.
pub open spec fn spec_ui_a() -> Seq<SpecToken> {
    seq![s_ident("UnderInvestigation"@), s_punct('<'), s_ident("A"@), s_punct('>')]
}

/// `& rsmonad::monad_laws::hash_consume::<UnderInvestigation<A>, A>`.
pub open spec fn spec_hc_ref() -> Seq<SpecToken> {
    seq![s_punct('&')] + spec_laws_path() + seq![s_ident("hash_consume"@)] + s_colon2() + seq![
        s_punct('<'),
    ] + spec_ui_a() + seq![s_punct(','), s_ident("A"@), s_punct('>')]
}

/// The three law-checking properties the emitted module runs.
pub open spec fn spec_laws_props() -> Seq<SpecToken> {
    seq![
        s_ident("fn"@),
        s_ident("prop_left_identity"@),
        s_group(Delim::Paren, seq![s_ident("a"@), s_punct(':'), s_ident("A"@)]),
    ] + s_arrow() + seq![
        s_ident("bool"@),
        s_group(
            Delim::Brace,
            spec_laws_path() + seq![s_ident("left_identity"@)] + s_colon2() + seq![
                s_punct('<'),
                s_ident("_"@),
                s_punct(','),
                s_ident("_"@),
                s_punct(','),
            ] + spec_ui_a() + seq![
                s_punct(','),
                s_ident("_"@),
                s_punct('>'),
                s_group(Delim::Paren, seq![s_ident("a"@), s_punct(',')] + spec_hc_ref()),
            ],
        ),
        s_ident("fn"@),
        s_ident("prop_right_identity"@),
        s_group(Delim::Paren, seq![s_ident("m"@), s_punct(':')] + spec_ui_a()),
    ] + s_arrow() + seq![
        s_ident("bool"@),
        s_group(
            Delim::Brace,
            spec_laws_path() + seq![
                s_ident("right_identity"@),
                s_group(Delim::Paren, seq![s_ident("m"@)]),
            ],
        ),
        s_ident("fn"@),
        s_ident("prop_associativity"@),
        s_group(Delim::Paren, seq![s_ident("m"@), s_punct(':')] + spec_ui_a()),
    ] + s_arrow() + seq![
        s_ident("bool"@),
        s_group(
            Delim::Brace,
            spec_laws_path() + seq![
                s_ident("associativity"@),
                s_group(
                    Delim::Paren,
                    seq![s_ident("m"@), s_punct(',')] + spec_hc_ref() + seq![s_punct(',')]
                        + spec_hc_ref(),
                ),
            ],
        ),
    ]
}

/// The deterministically named law-suite module: the type name snake-cased
/// with a role suffix, holding the property invocations at the canonical
/// `u64` payload.
pub open spec fn spec_laws_module(d: SpecDecl) -> Seq<SpecToken> {
    seq![
        s_ident("mod"@),
        s_ident(snake_of(d.name) + "_monad_laws"@),
        s_group(
            Delim::Brace,
            seq![s_ident("use"@), s_ident("super"@)] + s_colon2() + seq![
                s_punct('*'),
                s_punct(';'),
                s_ident("use"@),
                s_ident("super"@),
            ] + s_colon2() + seq![
                s_ident(d.name),
                s_ident("as"@),
                s_ident("UnderInvestigation"@),
                s_punct(';'),
                s_ident("use"@),
                s_ident("u64"@),
                s_ident("as"@),
                s_ident("A"@),
                s_punct(';'),
                s_ident("quickcheck"@),
            ] + s_colon2() + seq![
                s_ident("quickcheck"@),
                s_punct('!'),
                s_group(Delim::Brace, spec_laws_props()),
            ],
        ),
    ]
}

/// The whole synthesized output: the re-emitted documentation, the injected
/// attributes and re-declared type, the re-export shortcut for enums, the
/// three typeclass implementations, the operator overloads, the random-value
/// generator, and the law suite.
pub open spec fn spec_synthesize(
    prefix: Seq<SpecToken>,
    d: SpecDecl,
    b: SpecBindOp,
    c: SpecConsumeOp,
) -> Seq<SpecToken> {
    prefix + spec_exhaustion() + spec_derives() + d.tokens + (if d.is_enum {
        spec_reexport(d)
    } else {
        Seq::empty()
    }) + spec_functor_impl(d) + spec_applicative_impl(d) + spec_monad_impl(d, b, c)
        + spec_shr_impl(d) + spec_rem_impl(d) + spec_mul_impl(d) + spec_arbitrary_impl(d)
        + spec_laws_module(d)
}

/// Emit `#[inline(always)]`.
pub fn emit_inline_attr(out: &mut Vec<Token>)
    ensures
        stream_view(final(out)@) == stream_view(old(out)@) + spec_inline_attr(),
{
    let mut paren: Vec<Token> = Vec::new();
    push_ident(&mut paren, "always");
    let mut attr: Vec<Token> = Vec::new();
    push_ident(&mut attr, "inline");
    push_group(&mut attr, Delim::Paren, paren);
    proof {
        assert(stream_view(attr@) =~= spec_inline_attr()[1].kind->Group_1);
    }
    push_punct(out, '#');
    push_group(out, Delim::Bracket, attr);
    proof {
        assert(stream_view(out@) =~= stream_view(old(out)@) + spec_inline_attr());
    }
}

/// Emit `Name<B, G2, ...>`.
pub fn emit_ty_b(out: &mut Vec<Token>, name: &String, ps: &Vec<Param>)
    requires
        ps@.len() >= 1,
    ensures
        stream_view(final(out)@) == stream_view(old(out)@) + spec_ty_b(
            name@,
            crate::expand::seq_view(ps@),
        ),
{
    push_ident(out, name.as_str());
    push_punct(out, '<');
    emit_type_args_b(out, ps);
    push_punct(out, '>');
    proof {
        assert(stream_view(out@) =~= stream_view(old(out)@) + spec_ty_b(
            name@,
            crate::expand::seq_view(ps@),
        ));
    }
}

/// Emit the shared impl header.
pub fn emit_impl_header(out: &mut Vec<Token>, name: &String, ps: &Vec<Param>, tn: &str)
    ensures
        stream_view(final(out)@) == stream_view(old(out)@) + spec_impl_header(
            name@,
            crate::expand::seq_view(ps@),
            tn@,
        ),
{
    push_ident(out, "impl");
    push_punct(out, '<');
    emit_params_full(out, ps, 0);
    push_punct(out, '>');
    push_ident(out, tn);
    push_punct(out, '<');
    emit_type_args(out, ps, 0);
    push_punct(out, '>');
    push_ident(out, "for");
    emit_self_ty(out, name, ps);
    proof {
        assert(stream_view(out@) =~= stream_view(old(out)@) + spec_impl_header(
            name@,
            crate::expand::seq_view(ps@),
            tn@,
        ));
    }
}

/// Emit the payload-rebinding associated type.
pub fn emit_assoc_ty(out: &mut Vec<Token>, tn: &str, name: &String, ps: &Vec<Param>)
    requires
        ps@.len() >= 1,
    ensures
        stream_view(final(out)@) == stream_view(old(out)@) + spec_assoc_ty(
            tn@,
            name@,
            crate::expand::seq_view(ps@),
        ),
{
    push_ident(out, "type");
    push_ident(out, tn);
    push_punct(out, '<');
    emit_b_param(out, ps);
    push_punct(out, '>');
    push_punct(out, '=');
    emit_ty_b(out, name, ps);
    push_punct(out, ';');
    proof {
        assert(stream_view(out@) =~= stream_view(old(out)@) + spec_assoc_ty(
            tn@,
            name@,
            crate::expand::seq_view(ps@),
        ));
    }
}

/// Emit the derived `fmap` body.
fn emit_fmap_body(out: &mut Vec<Token>)
    ensures
        stream_view(final(out)@) == stream_view(old(out)@) + spec_fmap_body(),
{
    let mut fa: Vec<Token> = Vec::new();
    push_ident(&mut fa, "a");
    proof {
        assert(stream_view(fa@) =~= seq![s_ident("a"@)]);
    }
    let mut fcall: Vec<Token> = Vec::new();
    push_ident(&mut fcall, "f");
    push_group(&mut fcall, Delim::Paren, fa);
    proof {
        assert(stream_view(fcall@) =~= seq![
            s_ident("f"@),
            s_group(Delim::Paren, seq![s_ident("a"@)]),
        ]);
    }
    let mut closure: Vec<Token> = Vec::new();
    push_ident(&mut closure, "move");
    push_punct(&mut closure, '|');
    push_ident(&mut closure, "a");
    push_punct(&mut closure, '|');
    push_ident(&mut closure, "consume");
    push_group(&mut closure, Delim::Paren, fcall);
    proof {
        assert(stream_view(closure@) =~= spec_fmap_body()[3].kind->Group_1);
    }
    push_ident(out, "self");
    push_punct(out, '.');
    push_ident(out, "bind");
    push_group(out, Delim::Paren, closure);
    proof {
        assert(stream_view(out@) =~= stream_view(old(out)@) + spec_fmap_body());
    }
}

/// Emit the derived `fmap` method.
fn emit_fmap_fn(out: &mut Vec<Token>, ps: &Vec<Param>)
    requires
        ps@.len() >= 1,
    ensures
        stream_view(final(out)@) == stream_view(old(out)@) + spec_fmap_fn(
            crate::expand::seq_view(ps@),
        ),
{
    broadcast use crate::expand::lemma_seq_view_index;

    emit_inline_attr(out);
    push_ident(out, "fn");
    push_ident(out, "fmap");
    push_punct(out, '<');
    emit_b_param(out, ps);
    push_punct(out, ',');
    push_ident(out, "F");
    push_punct(out, ':');
    push_ident(out, "Fn");
    let mut arg: Vec<Token> = Vec::new();
    push_ident(&mut arg, ps[0].name.as_str());
    proof {
        assert(stream_view(arg@) =~= seq![s_ident(crate::expand::seq_view(ps@)[0].name)]);
    }
    push_group(out, Delim::Paren, arg);
    emit_arrow(out);
    push_ident(out, "B");
    push_punct(out, '>');
    let mut args: Vec<Token> = Vec::new();
    push_ident(&mut args, "self");
    push_punct(&mut args, ',');
    push_ident(&mut args, "f");
    push_punct(&mut args, ':');
    push_ident(&mut args, "F");
    proof {
        assert(stream_view(args@) =~= seq![
            s_ident("self"@),
            s_punct(','),
            s_ident("f"@),
            s_punct(':'),
            s_ident("F"@),
        ]);
    }
    push_group(out, Delim::Paren, args);
    emit_arrow(out);
    push_ident(out, "Self");
    emit_colon2(out);
    push_ident(out, "Functor");
    push_punct(out, '<');
    push_ident(out, "B");
    push_punct(out, '>');
    let mut body: Vec<Token> = Vec::new();
    emit_fmap_body(&mut body);
    proof {
        assert(stream_view(body@) =~= spec_fmap_body());
    }
    push_group(out, Delim::Brace, body);
    proof {
        assert(stream_view(out@) =~= stream_view(old(out)@) + spec_fmap_fn(
            crate::expand::seq_view(ps@),
        ));
    }
}

/// Emit the whole derived Functor implementation.
pub fn emit_functor_impl(out: &mut Vec<Token>, d: &Decl)
    requires
        d.params@.len() >= 1,
    ensures
        stream_view(final(out)@) == stream_view(old(out)@) + spec_functor_impl(d@),
{
    emit_impl_header(out, &d.name, &d.params, "Functor");
    let mut body: Vec<Token> = Vec::new();
    emit_assoc_ty(&mut body, "Functor", &d.name, &d.params);
    emit_fmap_fn(&mut body, &d.params);
    push_group(out, Delim::Brace, body);
    proof {
        assert(stream_view(out@) =~= stream_view(old(out)@) + spec_functor_impl(d@));
    }
}

/// Emit the derived `tie` body.
fn emit_tie_body(out: &mut Vec<Token>)
    ensures
        stream_view(final(out)@) == stream_view(old(out)@) + spec_tie_body(),
{
    let mut fa: Vec<Token> = Vec::new();
    push_ident(&mut fa, "a");
    proof {
        assert(stream_view(fa@) =~= seq![s_ident("a"@)]);
    }
    let mut fcall: Vec<Token> = Vec::new();
    push_ident(&mut fcall, "f");
    push_group(&mut fcall, Delim::Paren, fa);
    proof {
        assert(stream_view(fcall@) =~= seq![
            s_ident("f"@),
            s_group(Delim::Paren, seq![s_ident("a"@)]),
        ]);
    }
    let mut icl: Vec<Token> = Vec::new();
    push_ident(&mut icl, "move");
    push_punct(&mut icl, '|');
    push_ident(&mut icl, "f");
    push_punct(&mut icl, '|');
    push_ident(&mut icl, "consume");
    push_group(&mut icl, Delim::Paren, fcall);
    proof {
        assert(stream_view(icl@) =~= spec_tie_body()[3].kind->Group_1[7].kind->Group_1);
    }
    let mut ocl: Vec<Token> = Vec::new();
    push_ident(&mut ocl, "move");
    push_punct(&mut ocl, '|');
    push_ident(&mut ocl, "a");
    push_punct(&mut ocl, '|');
    push_ident(&mut ocl, "af");
    push_punct(&mut ocl, '.');
    push_ident(&mut ocl, "bind");
    push_group(&mut ocl, Delim::Paren, icl);
    proof {
        assert(stream_view(ocl@) =~= spec_tie_body()[3].kind->Group_1);
    }
    push_ident(out, "self");
    push_punct(out, '.');
    push_ident(out, "bind");
    push_group(out, Delim::Paren, ocl);
    proof {
        assert(stream_view(out@) =~= stream_view(old(out)@) + spec_tie_body());
    }
}

/// Emit the derived `tie` method.
fn emit_tie_fn(out: &mut Vec<Token>, ps: &Vec<Param>)
    requires
        ps@.len() >= 1,
    ensures
        stream_view(final(out)@) == stream_view(old(out)@) + spec_tie_fn(
            crate::expand::seq_view(ps@),
        ),
{
    broadcast use crate::expand::lemma_seq_view_index;

    emit_inline_attr(out);
    push_ident(out, "fn");
    push_ident(out, "tie");
    push_punct(out, '<');
    push_ident(out, "F");
    push_punct(out, ':');
    push_ident(out, "Fn");
    let mut arg: Vec<Token> = Vec::new();
    push_ident(&mut arg, ps[0].name.as_str());
    proof {
        assert(stream_view(arg@) =~= seq![s_ident(crate::expand::seq_view(ps@)[0].name)]);
    }
    push_group(out, Delim::Paren, arg);
    emit_arrow(out);
    push_ident(out, "B");
    push_punct(out, ',');
    emit_b_param(out, ps);
    push_punct(out, '>');
    let mut args: Vec<Token> = Vec::new();
    push_ident(&mut args, "self");
    push_punct(&mut args, ',');
    push_ident(&mut args, "af");
    push_punct(&mut args, ':');
    push_ident(&mut args, "Self");
    emit_colon2(&mut args);
    push_ident(&mut args, "Applicative");
    push_punct(&mut args, '<');
    push_ident(&mut args, "F");
    push_punct(&mut args, '>');
    proof {
        assert(stream_view(args@) =~= seq![
            s_ident("self"@),
            s_punct(','),
            s_ident("af"@),
            s_punct(':'),
            s_ident("Self"@),
        ] + s_colon2() + seq![s_ident("Applicative"@), s_punct('<'), s_ident("F"@), s_punct('>')]);
    }
    push_group(out, Delim::Paren, args);
    emit_arrow(out);
    push_ident(out, "Self");
    emit_colon2(out);
    push_ident(out, "Applicative");
    push_punct(out, '<');
    push_ident(out, "B");
    push_punct(out, '>');
    let mut body: Vec<Token> = Vec::new();
    emit_tie_body(&mut body);
    proof {
        assert(stream_view(body@) =~= spec_tie_body());
    }
    push_group(out, Delim::Brace, body);
    proof {
        assert(stream_view(out@) =~= stream_view(old(out)@) + spec_tie_fn(
            crate::expand::seq_view(ps@),
        ));
    }
}

/// Emit the whole derived Applicative implementation.
pub fn emit_applicative_impl(out: &mut Vec<Token>, d: &Decl)
    requires
        d.params@.len() >= 1,
    ensures
        stream_view(final(out)@) == stream_view(old(out)@) + spec_applicative_impl(d@),
{
    emit_impl_header(out, &d.name, &d.params, "Applicative");
    let mut body: Vec<Token> = Vec::new();
    emit_assoc_ty(&mut body, "Applicative", &d.name, &d.params);
    emit_tie_fn(&mut body, &d.params);
    push_group(out, Delim::Brace, body);
    proof {
        assert(stream_view(out@) =~= stream_view(old(out)@) + spec_applicative_impl(d@));
    }
}

/// Emit `Self::Monad<B>`.
fn emit_self_monad_b(out: &mut Vec<Token>)
    ensures
        stream_view(final(out)@) == stream_view(old(out)@) + spec_self_monad_b(),
{
    push_ident(out, "Self");
    emit_colon2(out);
    push_ident(out, "Monad");
    push_punct(out, '<');
    push_ident(out, "B");
    push_punct(out, '>');
    proof {
        assert(stream_view(out@) =~= stream_view(old(out)@) + spec_self_monad_b());
    }
}

/// Emit the `bind` method with the user's verbatim body.
fn emit_bind_fn(out: &mut Vec<Token>, ps: &Vec<Param>, b: &BindOp)
    requires
        ps@.len() >= 1,
    ensures
        stream_view(final(out)@) == stream_view(old(out)@) + spec_bind_fn(
            crate::expand::seq_view(ps@),
            b@,
        ),
{
    broadcast use crate::expand::lemma_seq_view_index;

    emit_inline_attr(out);
    push_ident(out, "fn");
    push_ident(out, "bind");
    push_punct(out, '<');
    emit_b_param(out, ps);
    push_punct(out, ',');
    push_ident(out, "F");
    push_punct(out, ':');
    push_ident(out, "Fn");
    let mut arg: Vec<Token> = Vec::new();
    push_ident(&mut arg, ps[0].name.as_str());
    proof {
        assert(stream_view(arg@) =~= seq![s_ident(crate::expand::seq_view(ps@)[0].name)]);
    }
    push_group(out, Delim::Paren, arg);
    emit_arrow(out);
    emit_self_monad_b(out);
    push_punct(out, '>');
    let mut args: Vec<Token> = Vec::new();
    crate::tokens::push_range(&mut args, &b.self_attrs, 0, b.self_attrs.len());
    push_ident(&mut args, "self");
    push_punct(&mut args, ',');
    crate::tokens::push_range(&mut args, &b.f_attrs, 0, b.f_attrs.len());
    push_ident(&mut args, b.f_name.as_str());
    push_punct(&mut args, ':');
    push_ident(&mut args, "F");
    proof {
        assert(stream_view(b.self_attrs@).subrange(
            0,
            b.self_attrs@.len() as int,
        ) =~= stream_view(b.self_attrs@));
        assert(stream_view(b.f_attrs@).subrange(0, b.f_attrs@.len() as int) =~= stream_view(
            b.f_attrs@,
        ));
        assert(stream_view(args@) =~= b@.self_attrs + seq![s_ident("self"@), s_punct(',')]
            + b@.f_attrs + seq![s_ident(b@.f_name), s_punct(':'), s_ident("F"@)]);
    }
    push_group(out, Delim::Paren, args);
    emit_arrow(out);
    emit_self_monad_b(out);
    let body = crate::tokens::clone_token(&b.body);
    proof {
        crate::tokens::lemma_stream_view_push(out@, body);
    }
    out.push(body);
    proof {
        assert(stream_view(out@) =~= stream_view(old(out)@) + spec_bind_fn(
            crate::expand::seq_view(ps@),
            b@,
        ));
    }
}

/// Emit the `consume` method with the user's verbatim body.
fn emit_consume_fn(out: &mut Vec<Token>, ps: &Vec<Param>, c: &ConsumeOp)
    requires
        ps@.len() >= 1,
    ensures
        stream_view(final(out)@) == stream_view(old(out)@) + spec_consume_fn(
            crate::expand::seq_view(ps@),
            c@,
        ),
{
    broadcast use crate::expand::lemma_seq_view_index;

    emit_inline_attr(out);
    push_ident(out, "fn");
    push_ident(out, "consume");
    let mut args: Vec<Token> = Vec::new();
    crate::tokens::push_range(&mut args, &c.a_attrs, 0, c.a_attrs.len());
    push_ident(&mut args, c.a_name.as_str());
    push_punct(&mut args, ':');
    push_ident(&mut args, ps[0].name.as_str());
    proof {
        assert(stream_view(c.a_attrs@).subrange(0, c.a_attrs@.len() as int) =~= stream_view(
            c.a_attrs@,
        ));
        assert(stream_view(args@) =~= c@.a_attrs + seq![
            s_ident(c@.a_name),
            s_punct(':'),
            s_ident(crate::expand::seq_view(ps@)[0].name),
        ]);
    }
    push_group(out, Delim::Paren, args);
    emit_arrow(out);
    push_ident(out, "Self");
    let body = crate::tokens::clone_token(&c.body);
    proof {
        crate::tokens::lemma_stream_view_push(out@, body);
    }
    out.push(body);
    proof {
        assert(stream_view(out@) =~= stream_view(old(out)@) + spec_consume_fn(
            crate::expand::seq_view(ps@),
            c@,
        ));
    }
}

/// Emit the whole Monad implementation.
pub fn emit_monad_impl(out: &mut Vec<Token>, d: &Decl, b: &BindOp, c: &ConsumeOp)
    requires
        d.params@.len() >= 1,
    ensures
        stream_view(final(out)@) == stream_view(old(out)@) + spec_monad_impl(d@, b@, c@),
{
    emit_impl_header(out, &d.name, &d.params, "Monad");
    let mut body: Vec<Token> = Vec::new();
    emit_assoc_ty(&mut body, "Monad", &d.name, &d.params);
    emit_bind_fn(&mut body, &d.params, b);
    emit_consume_fn(&mut body, &d.params, c);
    push_group(out, Delim::Brace, body);
    proof {
        assert(stream_view(out@) =~= stream_view(old(out)@) + spec_monad_impl(d@, b@, c@));
    }
}

/// Emit an operator impl header.
#[verifier::rlimit(100)]
fn emit_op_header(out: &mut Vec<Token>, d: &Decl, ret_b_only: bool, op: &str, rhs_self_f: bool)
    requires
        d.params@.len() >= 1,
    ensures
        stream_view(final(out)@) == stream_view(old(out)@) + spec_op_header(
            crate::expand::seq_view(d.params@),
            if ret_b_only {
                seq![s_ident("B"@)]
            } else {
                spec_ty_b(d.name@, crate::expand::seq_view(d.params@).take(1))
            },
            op@,
            if rhs_self_f {
                seq![s_ident("F"@)]
            } else {
                seq![s_ident(d.name@), s_punct('<'), s_ident("F"@), s_punct('>')]
            },
            d.name@,
        ),
{
    broadcast use crate::expand::lemma_seq_view_index;

    let ps = &d.params;
    push_ident(out, "impl");
    push_punct(out, '<');
    push_ident(out, ps[0].name.as_str());
    crate::tokens::push_range(out, &ps[0].tail, 0, ps[0].tail.len());
    proof {
        assert(stream_view(ps[0].tail@).subrange(0, ps[0].tail@.len() as int) =~= stream_view(
            ps[0].tail@,
        ));
    }
    push_punct(out, ',');
    emit_b_param(out, ps);
    push_punct(out, ',');
    push_ident(out, "F");
    push_punct(out, ':');
    push_ident(out, "Fn");
    let mut arg: Vec<Token> = Vec::new();
    push_ident(&mut arg, ps[0].name.as_str());
    proof {
        assert(stream_view(arg@) =~= seq![s_ident(crate::expand::seq_view(ps@)[0].name)]);
    }
    push_group(out, Delim::Paren, arg);
    emit_arrow(out);
    if ret_b_only {
        push_ident(out, "B");
    } else {
        push_ident(out, d.name.as_str());
        push_punct(out, '<');
        push_ident(out, "B");
        push_punct(out, '>');
        proof {
            assert(crate::expand::seq_view(d.params@).take(1).len() == 1);
            assert(spec_ty_b(d.name@, crate::expand::seq_view(d.params@).take(1)) =~= seq![
                s_ident(d.name@),
                s_punct('<'),
                s_ident("B"@),
                s_punct('>'),
            ]);
        }
    }
    push_punct(out, '>');
    push_ident(out, "core");
    emit_colon2(out);
    push_ident(out, "ops");
    emit_colon2(out);
    push_ident(out, op);
    push_punct(out, '<');
    if rhs_self_f {
        push_ident(out, "F");
    } else {
        push_ident(out, d.name.as_str());
        push_punct(out, '<');
        push_ident(out, "F");
        push_punct(out, '>');
    }
    push_punct(out, '>');
    push_ident(out, "for");
    push_ident(out, d.name.as_str());
    push_punct(out, '<');
    push_ident(out, ps[0].name.as_str());
    push_punct(out, '>');
    proof {
        assert(stream_view(out@) =~= stream_view(old(out)@) + spec_op_header(
            crate::expand::seq_view(d.params@),
            if ret_b_only {
                seq![s_ident("B"@)]
            } else {
                spec_ty_b(d.name@, crate::expand::seq_view(d.params@).take(1))
            },
            op@,
            if rhs_self_f {
                seq![s_ident("F"@)]
            } else {
                seq![s_ident(d.name@), s_punct('<'), s_ident("F"@), s_punct('>')]
            },
            d.name@,
        ));
    }
}

/// Emit the operator's `type Output` item.
fn emit_op_output(out: &mut Vec<Token>, tn: &str, ps: &Vec<Param>)
    requires
        ps@.len() >= 1,
    ensures
        stream_view(final(out)@) == stream_view(old(out)@) + spec_op_output(
            tn@,
            crate::expand::seq_view(ps@),
        ),
{
    broadcast use crate::expand::lemma_seq_view_index;

    push_ident(out, "type");
    push_ident(out, "Output");
    push_punct(out, '=');
    push_punct(out, '<');
    push_ident(out, "Self");
    push_ident(out, "as");
    push_ident(out, tn);
    push_punct(out, '<');
    push_ident(out, ps[0].name.as_str());
    push_punct(out, '>');
    push_punct(out, '>');
    emit_colon2(out);
    push_ident(out, tn);
    push_punct(out, '<');
    push_ident(out, "B");
    push_punct(out, '>');
    push_punct(out, ';');
    proof {
        assert(stream_view(out@) =~= stream_view(old(out)@) + spec_op_output(
            tn@,
            crate::expand::seq_view(ps@),
        ));
    }
}

/// Emit an operator's thin forwarding method.
fn emit_op_fn(out: &mut Vec<Token>, op_fn: &str, arg: &str, target: &str)
    ensures
        stream_view(final(out)@) == stream_view(old(out)@) + spec_op_fn(op_fn@, arg@, target@),
{
    emit_inline_attr(out);
    push_ident(out, "fn");
    push_ident(out, op_fn);
    let mut args: Vec<Token> = Vec::new();
    push_ident(&mut args, "self");
    push_punct(&mut args, ',');
    push_ident(&mut args, arg);
    push_punct(&mut args, ':');
    push_ident(&mut args, "F");
    proof {
        assert(stream_view(args@) =~= seq![
            s_ident("self"@),
            s_punct(','),
            s_ident(arg@),
            s_punct(':'),
            s_ident("F"@),
        ]);
    }
    push_group(out, Delim::Paren, args);
    emit_arrow(out);
    push_ident(out, "Self");
    emit_colon2(out);
    push_ident(out, "Output");
    let mut callarg: Vec<Token> = Vec::new();
    push_ident(&mut callarg, arg);
    proof {
        assert(stream_view(callarg@) =~= seq![s_ident(arg@)]);
    }
    let mut body: Vec<Token> = Vec::new();
    push_ident(&mut body, "self");
    push_punct(&mut body, '.');
    push_ident(&mut body, target);
    push_group(&mut body, Delim::Paren, callarg);
    proof {
        assert(stream_view(body@) =~= seq![
            s_ident("self"@),
            s_punct('.'),
            s_ident(target@),
            s_group(Delim::Paren, seq![s_ident(arg@)]),
        ]);
    }
    push_group(out, Delim::Brace, body);
    proof {
        assert(stream_view(out@) =~= stream_view(old(out)@) + spec_op_fn(op_fn@, arg@, target@));
    }
}

/// Emit the `>>` overload.
pub fn emit_shr_impl(out: &mut Vec<Token>, d: &Decl)
    requires
        d.params@.len() >= 1,
    ensures
        stream_view(final(out)@) == stream_view(old(out)@) + spec_shr_impl(d@),
{
    emit_op_header(out, d, false, "Shr", true);
    let mut body: Vec<Token> = Vec::new();
    emit_op_output(&mut body, "Monad", &d.params);
    emit_op_fn(&mut body, "shr", "f", "bind");
    push_group(out, Delim::Brace, body);
    proof {
        assert(stream_view(out@) =~= stream_view(old(out)@) + spec_shr_impl(d@));
    }
}

/// Emit the `%` overload.
pub fn emit_rem_impl(out: &mut Vec<Token>, d: &Decl)
    requires
        d.params@.len() >= 1,
    ensures
        stream_view(final(out)@) == stream_view(old(out)@) + spec_rem_impl(d@),
{
    emit_op_header(out, d, true, "Rem", true);
    let mut body: Vec<Token> = Vec::new();
    emit_op_output(&mut body, "Functor", &d.params);
    emit_op_fn(&mut body, "rem", "f", "fmap");
    push_group(out, Delim::Brace, body);
    proof {
        assert(stream_view(out@) =~= stream_view(old(out)@) + spec_rem_impl(d@));
    }
}

/// Emit the `*` overload.
pub fn emit_mul_impl(out: &mut Vec<Token>, d: &Decl)
    requires
        d.params@.len() >= 1,
    ensures
        stream_view(final(out)@) == stream_view(old(out)@) + spec_mul_impl(d@),
{
    emit_op_header(out, d, true, "Mul", false);
    let mut body: Vec<Token> = Vec::new();
    emit_op_output(&mut body, "Applicative", &d.params);
    emit_op_fn(&mut body, "mul", "af", "tie");
    push_group(out, Delim::Brace, body);
    proof {
        assert(stream_view(out@) =~= stream_view(old(out)@) + spec_mul_impl(d@));
    }
}

/// Emit `< TY as quickcheck::Arbitrary >::arbitrary(g)`.
fn emit_arb_call(out: &mut Vec<Token>, ty: &Vec<Token>, g: &str)
    ensures
        stream_view(final(out)@) == stream_view(old(out)@) + spec_arb_call(stream_view(ty@), g@),
{
    push_punct(out, '<');
    crate::tokens::push_range(out, ty, 0, ty.len());
    proof {
        assert(stream_view(ty@).subrange(0, ty@.len() as int) =~= stream_view(ty@));
    }
    push_ident(out, "as");
    push_ident(out, "quickcheck");
    emit_colon2(out);
    push_ident(out, "Arbitrary");
    push_punct(out, '>');
    emit_colon2(out);
    push_ident(out, "arbitrary");
    let mut garg: Vec<Token> = Vec::new();
    push_ident(&mut garg, g);
    proof {
        assert(stream_view(garg@) =~= seq![s_ident(g@)]);
    }
    push_group(out, Delim::Paren, garg);
    proof {
        assert(stream_view(out@) =~= stream_view(old(out)@) + spec_arb_call(
            stream_view(ty@),
            g@,
        ));
    }
}

/// Emit the arbitrary values of a positional field list.
fn emit_arb_unnamed(out: &mut Vec<Token>, tys: &Vec<Vec<Token>>, i0: usize, g: &str)
    requires
        i0 <= tys@.len(),
    ensures
        stream_view(final(out)@) == stream_view(old(out)@) + spec_arb_unnamed(
            tys@.map_values(|v: Vec<Token>| stream_view(v@)),
            i0 as int,
            g@,
        ),
    decreases tys@.len() - i0,
{
    let ghost m = tys@.map_values(|v: Vec<Token>| stream_view(v@));
    if i0 >= tys.len() {
        proof {
            assert(stream_view(out@) =~= stream_view(old(out)@) + spec_arb_unnamed(
                m,
                i0 as int,
                g@,
            ));
        }
        return ;
    }
    emit_arb_call(out, &tys[i0], g);
    push_punct(out, ',');
    emit_arb_unnamed(out, tys, i0 + 1, g);
    proof {
        assert(stream_view(out@) =~= stream_view(old(out)@) + spec_arb_unnamed(m, i0 as int, g@));
    }
}

/// Emit the arbitrary values of a named field list.
fn emit_arb_named(out: &mut Vec<Token>, fs: &Vec<crate::expand::Field>, i0: usize, g: &str)
    requires
        i0 <= fs@.len(),
    ensures
        stream_view(final(out)@) == stream_view(old(out)@) + spec_arb_named(
            crate::expand::seq_view(fs@),
            i0 as int,
            g@,
        ),
    decreases fs@.len() - i0,
{
    broadcast use crate::expand::lemma_seq_view_index;

    let ghost m = crate::expand::seq_view(fs@);
    if i0 >= fs.len() {
        proof {
            assert(stream_view(out@) =~= stream_view(old(out)@) + spec_arb_named(m, i0 as int, g@));
        }
        return ;
    }
    push_ident(out, fs[i0].name.as_str());
    push_punct(out, ':');
    emit_arb_call(out, &fs[i0].ty, g);
    push_punct(out, ',');
    emit_arb_named(out, fs, i0 + 1, g);
    proof {
        assert(stream_view(out@) =~= stream_view(old(out)@) + spec_arb_named(m, i0 as int, g@));
    }
}

/// Emit the expression building one random value of the given head and
/// shape.
fn emit_arb_expr(out: &mut Vec<Token>, head: &str, shape: &Shape, g: &str)
    ensures
        stream_view(final(out)@) == stream_view(old(out)@) + spec_arb_expr(head@, shape@, g@),
{
    match shape {
        Shape::Unit => {
            push_ident(out, head);
            proof {
                assert(stream_view(out@) =~= stream_view(old(out)@) + spec_arb_expr(
                    head@,
                    shape@,
                    g@,
                ));
            }
        },
        Shape::Unnamed(tys) => {
            push_ident(out, head);
            let mut inner: Vec<Token> = Vec::new();
            emit_arb_unnamed(&mut inner, tys, 0, g);
            proof {
                assert(stream_view(inner@) =~= spec_arb_unnamed(
                    tys@.map_values(|v: Vec<Token>| stream_view(v@)),
                    0,
                    g@,
                ));
            }
            push_group(out, Delim::Paren, inner);
            proof {
                assert(stream_view(out@) =~= stream_view(old(out)@) + spec_arb_expr(
                    head@,
                    shape@,
                    g@,
                ));
            }
        },
        Shape::Named(fs) => {
            push_ident(out, head);
            let mut inner: Vec<Token> = Vec::new();
            emit_arb_named(&mut inner, fs, 0, g);
            proof {
                assert(stream_view(inner@) =~= spec_arb_named(crate::expand::seq_view(fs@), 0, g@));
            }
            push_group(out, Delim::Brace, inner);
            proof {
                assert(stream_view(out@) =~= stream_view(old(out)@) + spec_arb_expr(
                    head@,
                    shape@,
                    g@,
                ));
            }
        },
    }
}

/// Emit `fn(&mut quickcheck::Gen) -> Self`.
fn emit_gen_fn_ty(out: &mut Vec<Token>)
    ensures
        stream_view(final(out)@) == stream_view(old(out)@) + spec_gen_fn_ty(),
{
    push_ident(out, "fn");
    let mut inner: Vec<Token> = Vec::new();
    push_punct(&mut inner, '&');
    push_ident(&mut inner, "mut");
    push_ident(&mut inner, "quickcheck");
    emit_colon2(&mut inner);
    push_ident(&mut inner, "Gen");
    proof {
        assert(stream_view(inner@) =~= seq![
            s_punct('&'),
            s_ident("mut"@),
            s_ident("quickcheck"@),
        ] + s_colon2() + seq![s_ident("Gen"@)]);
    }
    push_group(out, Delim::Paren, inner);
    emit_arrow(out);
    push_ident(out, "Self");
    proof {
        assert(stream_view(out@) =~= stream_view(old(out)@) + spec_gen_fn_ty());
    }
}

/// Emit the variant-builder closures.
fn emit_arb_closures(out: &mut Vec<Token>, vs: &Vec<Variant>, i0: usize)
    requires
        i0 <= vs@.len(),
    ensures
        stream_view(final(out)@) == stream_view(old(out)@) + spec_arb_closures(
            crate::expand::seq_view(vs@),
            i0 as int,
        ),
    decreases vs@.len() - i0,
{
    broadcast use crate::expand::lemma_seq_view_index;

    let ghost m = crate::expand::seq_view(vs@);
    if i0 >= vs.len() {
        proof {
            assert(stream_view(out@) =~= stream_view(old(out)@) + spec_arb_closures(m, i0 as int));
        }
        return ;
    }
    let mut cl: Vec<Token> = Vec::new();
    push_ident(&mut cl, "move");
    push_punct(&mut cl, '|');
    push_ident(&mut cl, "gen");
    push_punct(&mut cl, '|');
    emit_arb_expr(&mut cl, vs[i0].name.as_str(), &vs[i0].shape, "gen");
    proof {
        assert(stream_view(cl@) =~= seq![
            s_ident("move"@),
            s_punct('|'),
            s_ident("gen"@),
            s_punct('|'),
        ] + spec_arb_expr(m[i0 as int].name, m[i0 as int].shape, "gen"@));
    }
    push_group(out, Delim::Paren, cl);
    push_ident(out, "as");
    emit_gen_fn_ty(out);
    push_punct(out, ',');
    emit_arb_closures(out, vs, i0 + 1);
    proof {
        assert(stream_view(out@) =~= stream_view(old(out)@) + spec_arb_closures(m, i0 as int));
    }
}

/// Emit the enum `arbitrary` body.
fn emit_arb_enum_body(out: &mut Vec<Token>, vs: &Vec<Variant>)
    ensures
        stream_view(final(out)@) == stream_view(old(out)@) + spec_arb_enum_body(
            crate::expand::seq_view(vs@),
        ),
{
    push_ident(out, "g");
    push_punct(out, '.');
    push_ident(out, "choose");
    emit_colon2(out);
    push_punct(out, '<');
    emit_gen_fn_ty(out);
    push_punct(out, '>');
    let mut arr: Vec<Token> = Vec::new();
    emit_arb_closures(&mut arr, vs, 0);
    proof {
        assert(stream_view(arr@) =~= spec_arb_closures(crate::expand::seq_view(vs@), 0));
    }
    let mut refarr: Vec<Token> = Vec::new();
    push_punct(&mut refarr, '&');
    push_group(&mut refarr, Delim::Bracket, arr);
    proof {
        assert(stream_view(refarr@) =~= seq![
            s_punct('&'),
            s_group(Delim::Bracket, spec_arb_closures(crate::expand::seq_view(vs@), 0)),
        ]);
    }
    push_group(out, Delim::Paren, refarr);
    push_punct(out, '.');
    push_ident(out, "unwrap");
    let empty: Vec<Token> = Vec::new();
    push_group(out, Delim::Paren, empty);
    let mut garg: Vec<Token> = Vec::new();
    push_ident(&mut garg, "g");
    proof {
        assert(stream_view(garg@) =~= seq![s_ident("g"@)]);
    }
    push_group(out, Delim::Paren, garg);
    proof {
        assert(stream_view(out@) =~= stream_view(old(out)@) + spec_arb_enum_body(
            crate::expand::seq_view(vs@),
        ));
    }
}

/// Emit the whole random-value generator implementation.
#[verifier::rlimit(100)]
pub fn emit_arbitrary_impl(out: &mut Vec<Token>, d: &Decl)
    requires
        d.params@.len() >= 1,
    ensures
        stream_view(final(out)@) == stream_view(old(out)@) + spec_arbitrary_impl(d@),
{
    broadcast use crate::expand::lemma_seq_view_index;

    push_ident(out, "impl");
    push_punct(out, '<');
    push_ident(out, d.params[0].name.as_str());
    push_punct(out, ':');
    push_ident(out, "quickcheck");
    emit_colon2(out);
    push_ident(out, "Arbitrary");
    push_punct(out, '>');
    push_ident(out, "quickcheck");
    emit_colon2(out);
    push_ident(out, "Arbitrary");
    push_ident(out, "for");
    push_ident(out, d.name.as_str());
    push_punct(out, '<');
    push_ident(out, d.params[0].name.as_str());
    push_punct(out, '>');
    let mut args: Vec<Token> = Vec::new();
    push_ident(&mut args, "g");
    push_punct(&mut args, ':');
    push_punct(&mut args, '&');
    push_ident(&mut args, "mut");
    push_ident(&mut args, "quickcheck");
    emit_colon2(&mut args);
    push_ident(&mut args, "Gen");
    proof {
        assert(stream_view(args@) =~= seq![
            s_ident("g"@),
            s_punct(':'),
            s_punct('&'),
            s_ident("mut"@),
            s_ident("quickcheck"@),
        ] + s_colon2() + seq![s_ident("Gen"@)]);
    }
    let mut fnbody: Vec<Token> = Vec::new();
    if d.is_enum {
        emit_arb_enum_body(&mut fnbody, &d.variants);
        proof {
            assert(stream_view(fnbody@) =~= spec_arb_enum_body(crate::expand::seq_view(
                d.variants@,
            )));
        }
    } else {
        emit_arb_expr(&mut fnbody, "Self", &d.shape, "g");
        proof {
            assert(stream_view(fnbody@) =~= spec_arb_expr("Self"@, d.shape@, "g"@));
        }
    }
    let mut body: Vec<Token> = Vec::new();
    push_ident(&mut body, "fn");
    push_ident(&mut body, "arbitrary");
    push_group(&mut body, Delim::Paren, args);
    emit_arrow(&mut body);
    push_ident(&mut body, "Self");
    push_group(&mut body, Delim::Brace, fnbody);
    proof {
        assert(stream_view(body@) =~= seq![s_ident("fn"@), s_ident("arbitrary"@), s_group(
            Delim::Paren,
            seq![s_ident("g"@), s_punct(':'), s_punct('&'), s_ident("mut"@), s_ident(
                "quickcheck"@,
            )] + s_colon2() + seq![s_ident("Gen"@)],
        )] + s_arrow() + seq![
            s_ident("Self"@),
            s_group(
                Delim::Brace,
                if d@.is_enum {
                    spec_arb_enum_body(d@.variants)
                } else {
                    spec_arb_expr("Self"@, d@.shape, "g"@)
                },
            ),
        ]);
    }
    push_group(out, Delim::Brace, body);
    proof {
        assert(stream_view(out@) =~= stream_view(old(out)@) + spec_arbitrary_impl(d@));
    }
}

/// Emit `rsmonad :: monad_laws ::`.
fn emit_laws_path(out: &mut Vec<Token>)
    ensures
        stream_view(final(out)@) == stream_view(old(out)@) + spec_laws_path(),
{
    push_ident(out, "rsmonad");
    emit_colon2(out);
    push_ident(out, "monad_laws");
    emit_colon2(out);
    proof {
        assert(stream_view(out@) =~= stream_view(old(out)@) + spec_laws_path());
    }
}

/// Emit `UnderInvestigation < A >`.
fn emit_ui_a(out: &mut Vec<Token>)
    ensures
        stream_view(final(out)@) == stream_view(old(out)@) + spec_ui_a(),
{
    push_ident(out, "UnderInvestigation");
    push_punct(out, '<');
    push_ident(out, "A");
    push_punct(out, '>');
    proof {
        assert(stream_view(out@) =~= stream_view(old(out)@) + spec_ui_a());
    }
}

/// Emit the reference to the entropy-chaining function.
fn emit_hc_ref(out: &mut Vec<Token>)
    ensures
        stream_view(final(out)@) == stream_view(old(out)@) + spec_hc_ref(),
{
    push_punct(out, '&');
    emit_laws_path(out);
    push_ident(out, "hash_consume");
    emit_colon2(out);
    push_punct(out, '<');
    emit_ui_a(out);
    push_punct(out, ',');
    push_ident(out, "A");
    push_punct(out, '>');
    proof {
        assert(stream_view(out@) =~= stream_view(old(out)@) + spec_hc_ref());
    }
}

/// Emit the three law-checking properties.
#[verifier::rlimit(100)]
fn emit_laws_props(out: &mut Vec<Token>)
    ensures
        stream_view(final(out)@) == stream_view(old(out)@) + spec_laws_props(),
{
    // prop_left_identity
    push_ident(out, "fn");
    push_ident(out, "prop_left_identity");
    let mut args1: Vec<Token> = Vec::new();
    push_ident(&mut args1, "a");
    push_punct(&mut args1, ':');
    push_ident(&mut args1, "A");
    proof {
        assert(stream_view(args1@) =~= seq![s_ident("a"@), s_punct(':'), s_ident("A"@)]);
    }
    push_group(out, Delim::Paren, args1);
    emit_arrow(out);
    push_ident(out, "bool");
    let mut call1args: Vec<Token> = Vec::new();
    push_ident(&mut call1args, "a");
    push_punct(&mut call1args, ',');
    emit_hc_ref(&mut call1args);
    proof {
        assert(stream_view(call1args@) =~= seq![s_ident("a"@), s_punct(',')] + spec_hc_ref());
    }
    let mut body1: Vec<Token> = Vec::new();
    emit_laws_path(&mut body1);
    push_ident(&mut body1, "left_identity");
    emit_colon2(&mut body1);
    push_punct(&mut body1, '<');
    push_ident(&mut body1, "_");
    push_punct(&mut body1, ',');
    push_ident(&mut body1, "_");
    push_punct(&mut body1, ',');
    emit_ui_a(&mut body1);
    push_punct(&mut body1, ',');
    push_ident(&mut body1, "_");
    push_punct(&mut body1, '>');
    push_group(&mut body1, Delim::Paren, call1args);
    proof {
        assert(stream_view(body1@) =~= spec_laws_props()[6].kind->Group_1);
    }
    push_group(out, Delim::Brace, body1);
    // prop_right_identity
    push_ident(out, "fn");
    push_ident(out, "prop_right_identity");
    let mut args2: Vec<Token> = Vec::new();
    push_ident(&mut args2, "m");
    push_punct(&mut args2, ':');
    emit_ui_a(&mut args2);
    proof {
        assert(stream_view(args2@) =~= seq![s_ident("m"@), s_punct(':')] + spec_ui_a());
    }
    push_group(out, Delim::Paren, args2);
    emit_arrow(out);
    push_ident(out, "bool");
    let mut marg: Vec<Token> = Vec::new();
    push_ident(&mut marg, "m");
    proof {
        assert(stream_view(marg@) =~= seq![s_ident("m"@)]);
    }
    let mut body2: Vec<Token> = Vec::new();
    emit_laws_path(&mut body2);
    push_ident(&mut body2, "right_identity");
    push_group(&mut body2, Delim::Paren, marg);
    proof {
        assert(stream_view(body2@) =~= spec_laws_path() + seq![
            s_ident("right_identity"@),
            s_group(Delim::Paren, seq![s_ident("m"@)]),
        ]);
    }
    push_group(out, Delim::Brace, body2);
    // prop_associativity
    push_ident(out, "fn");
    push_ident(out, "prop_associativity");
    let mut args3: Vec<Token> = Vec::new();
    push_ident(&mut args3, "m");
    push_punct(&mut args3, ':');
    emit_ui_a(&mut args3);
    proof {
        assert(stream_view(args3@) =~= seq![s_ident("m"@), s_punct(':')] + spec_ui_a());
    }
    push_group(out, Delim::Paren, args3);
    emit_arrow(out);
    push_ident(out, "bool");
    let mut call3args: Vec<Token> = Vec::new();
    push_ident(&mut call3args, "m");
    push_punct(&mut call3args, ',');
    emit_hc_ref(&mut call3args);
    push_punct(&mut call3args, ',');
    emit_hc_ref(&mut call3args);
    proof {
        assert(stream_view(call3args@) =~= seq![s_ident("m"@), s_punct(',')] + spec_hc_ref()
            + seq![s_punct(',')] + spec_hc_ref());
    }
    let mut body3: Vec<Token> = Vec::new();
    emit_laws_path(&mut body3);
    push_ident(&mut body3, "associativity");
    push_group(&mut body3, Delim::Paren, call3args);
    proof {
        assert(stream_view(body3@) =~= spec_laws_path() + seq![
            s_ident("associativity"@),
            s_group(
                Delim::Paren,
                seq![s_ident("m"@), s_punct(',')] + spec_hc_ref() + seq![s_punct(',')]
                    + spec_hc_ref(),
            ),
        ]);
    }
    push_group(out, Delim::Brace, body3);
    proof {
        assert(stream_view(out@) =~= stream_view(old(out)@) + spec_laws_props());
    }
}

/// Emit the law-suite module.
#[verifier::rlimit(100)]
pub fn emit_laws_module(out: &mut Vec<Token>, d: &Decl)
    ensures
        stream_view(final(out)@) == stream_view(old(out)@) + spec_laws_module(d@),
{
    push_ident(out, "mod");
    let snake = to_snake(&d.name);
    let modname = snake.concat("_monad_laws");
    push_ident(out, modname.as_str());
    let mut body: Vec<Token> = Vec::new();
    push_ident(&mut body, "use");
    push_ident(&mut body, "super");
    emit_colon2(&mut body);
    push_punct(&mut body, '*');
    push_punct(&mut body, ';');
    push_ident(&mut body, "use");
    push_ident(&mut body, "super");
    emit_colon2(&mut body);
    push_ident(&mut body, d.name.as_str());
    push_ident(&mut body, "as");
    push_ident(&mut body, "UnderInvestigation");
    push_punct(&mut body, ';');
    push_ident(&mut body, "use");
    push_ident(&mut body, "u64");
    push_ident(&mut body, "as");
    push_ident(&mut body, "A");
    push_punct(&mut body, ';');
    push_ident(&mut body, "quickcheck");
    emit_colon2(&mut body);
    push_ident(&mut body, "quickcheck");
    push_punct(&mut body, '!');
    let mut props: Vec<Token> = Vec::new();
    emit_laws_props(&mut props);
    proof {
        assert(stream_view(props@) =~= spec_laws_props());
    }
    push_group(&mut body, Delim::Brace, props);
    proof {
        assert(stream_view(body@) =~= spec_laws_module(d@)[2].kind->Group_1);
    }
    push_group(out, Delim::Brace, body);
    proof {
        assert(stream_view(out@) =~= stream_view(old(out)@) + spec_laws_module(d@));
    }
}

/// Re-emit an enum declaration: the injected lint and derive attributes,
/// the declaration verbatim, and the variant re-export shortcut.
pub fn from_enum(out: &mut Vec<Token>, d: &Decl)
    requires
        d.is_enum,
    ensures
        stream_view(final(out)@) == stream_view(old(out)@) + spec_exhaustion() + spec_derives()
            + d@.tokens + spec_reexport(d@),
{
    emit_exhaustion(out);
    emit_derives(out);
    crate::tokens::push_range(out, &d.tokens, 0, d.tokens.len());
    proof {
        assert(stream_view(d.tokens@).subrange(0, d.tokens@.len() as int) =~= stream_view(
            d.tokens@,
        ));
    }
    emit_reexport(out, d);
}

/// Re-emit a struct declaration: the injected lint and derive attributes,
/// then the declaration verbatim.
pub fn from_struct(out: &mut Vec<Token>, d: &Decl)
    ensures
        stream_view(final(out)@) == stream_view(old(out)@) + spec_exhaustion() + spec_derives()
            + d@.tokens,
{
    emit_exhaustion(out);
    emit_derives(out);
    crate::tokens::push_range(out, &d.tokens, 0, d.tokens.len());
    proof {
        assert(stream_view(d.tokens@).subrange(0, d.tokens@.len() as int) =~= stream_view(
            d.tokens@,
        ));
    }
}

/// Emit the entire synthesized output after the re-emitted documentation.
pub fn emit_synthesis(out: &mut Vec<Token>, d: &Decl, b: &BindOp, c: &ConsumeOp)
    requires
        d.params@.len() >= 1,
    ensures
        stream_view(final(out)@) == spec_synthesize(stream_view(old(out)@), d@, b@, c@),
{
    if d.is_enum {
        from_enum(out, d);
    } else {
        from_struct(out, d);
    }
    emit_functor_impl(out, d);
    emit_applicative_impl(out, d);
    emit_monad_impl(out, d, b, c);
    emit_shr_impl(out, d);
    emit_rem_impl(out, d);
    emit_mul_impl(out, d);
    emit_arbitrary_impl(out, d);
    emit_laws_module(out, d);
    proof {
        assert(stream_view(out@) =~= spec_synthesize(stream_view(old(out)@), d@, b@, c@));
    }
}

} // verus!
