//! The expansion engine: parses a `monad` invocation — leading doc
//! attributes, a data-structure declaration, a `bind` and a `consume` — and
//! assembles the derived trait implementations as a fresh token stream.
//!
//! The grammar is written down once, as specification functions over
//! [`crate::tokens::SpecToken`] sequences; the executable parser is proved to
//! compute exactly what the grammar says, including which diagnostic comes
//! back on which malformed input.

use crate::tokens::{
    clone_token, push_ident, push_punct, push_punct_joint, push_range, s_group, s_ident, s_punct,
    s_punct_joint, spec_is_ident, spec_is_punct, stream_view, Delim, Spacing, SpecTokKind,
    SpecToken, TokKind, Token,
};
use vstd::prelude::*;

verus! {

broadcast use crate::tokens::lemma_stream_view_len, crate::tokens::lemma_stream_view_index;

/// Everything that can be wrong with an invocation. Each variant is one
/// diagnostic; expansion stops at the first.
#[derive(Clone, Copy, PartialEq, Eq, Debug)]
pub enum ErrorKind {
    /// A data-structure definition was expected.
    ExpectedDecl,
    /// A single punctuation character stood where a declaration (or a `#`
    /// starting an attribute) was expected.
    ExpectedDeclChar,
    /// A `#` was not followed by a bracketed attribute group.
    ExpectedAttr,
    /// An attribute group used the wrong brackets.
    ExpectedAttrBrackets,
    /// An attribute before the declaration was not a documentation attribute.
    NonDocAttribute,
    /// A documentation attribute was missing its `= "..."` content.
    MalformedDocAttribute,
    /// The first documentation literal did not begin with the mandated
    /// lead-in phrase.
    DocLeadInMissing,
    /// The declared type's name was expected.
    ExpectedName,
    /// The generic parameter list `<...>` was expected.
    ExpectedGenerics,
    /// The stream ended inside the generic parameter list.
    UnterminatedGenerics,
    /// Generic brackets were nested past the supported depth.
    GenericsTooDeep,
    /// The generic list held no parameter, or one that is not a plain type
    /// parameter.
    ExpectedGenericArgument,
    /// The declaration body block was expected.
    ExpectedBody,
    /// A tuple-struct body must be followed by a semicolon.
    ExpectedSemicolon,
    /// The declaration keyword was neither `struct` nor `enum`.
    ExpectedStructOrEnum,
    /// The enum body did not parse as a variant list.
    MalformedEnumBody,
    /// The struct body did not parse as a field list.
    MalformedStructBody,
    /// The keyword `fn` was expected.
    ExpectedFn,
    /// The name `bind` was expected.
    ExpectedBind,
    /// Parenthesized arguments were expected right after `bind`.
    ExpectedBindArgs,
    /// `bind`'s first argument must be `self`.
    ExpectedSelf,
    /// A comma between `bind`'s two arguments was expected.
    ExpectedComma,
    /// `bind`'s second argument name was expected.
    ExpectedF,
    /// The name `consume` was expected.
    ExpectedConsume,
    /// Parenthesized arguments were expected right after `consume`.
    ExpectedConsumeArgs,
    /// `consume`'s argument name was expected.
    ExpectedA,
    /// A brace-delimited function body was expected.
    ExpectedOpBody,
}

/// One diagnostic: what went wrong, and at which source position. When the
/// stream ended too early, `at_end` is set and `span` points at the last
/// useful token.
#[derive(Clone, Copy, PartialEq, Eq, Debug)]
pub struct ExpandError {
    pub span: u64,
    pub kind: ErrorKind,
    pub at_end: bool,
}

impl ExpandError {
    /// The diagnostic's text.
    pub fn message(&self) -> (r: &'static str)
        ensures
            r@ == spec_message(self.kind),
    {
        match self.kind {
            ErrorKind::ExpectedDecl => "Expected a data structure definition",
            ErrorKind::ExpectedDeclChar => "Expected a data structure definition; found a single character (that is not a '#' before an attribute)",
            ErrorKind::ExpectedAttr => "Expected an attribute",
            ErrorKind::ExpectedAttrBrackets => "Expected an attribute in [...] brackets",
            ErrorKind::NonDocAttribute => "Expected a documentation attribute (only doc comments may precede the definition)",
            ErrorKind::MalformedDocAttribute => "Expected a documentation attribute with contents after `=`",
            ErrorKind::DocLeadInMissing => "Expected the first doc comment to begin with `Encodes `",
            ErrorKind::ExpectedName => "Expected a name",
            ErrorKind::ExpectedGenerics => "Expected generics, e.g. `<A>`",
            ErrorKind::UnterminatedGenerics => "Unterminated generics",
            ErrorKind::GenericsTooDeep => "Call Christopher Nolan: this inception is too deep",
            ErrorKind::ExpectedGenericArgument => "Expected at least one generic argument",
            ErrorKind::ExpectedBody => "Expected a definition block, e.g. `{...}`",
            ErrorKind::ExpectedSemicolon => "Expected a semicolon (after a tuple-struct)",
            ErrorKind::ExpectedStructOrEnum => "Expected either `struct` or `enum`",
            ErrorKind::MalformedEnumBody => "Expected a list of variants",
            ErrorKind::MalformedStructBody => "Expected a list of fields",
            ErrorKind::ExpectedFn => "Expected `fn`",
            ErrorKind::ExpectedBind => "Expected `bind`",
            ErrorKind::ExpectedBindArgs => "Expected arguments immediately after `bind` (no need to repeat the <A: ...> bound)",
            ErrorKind::ExpectedSelf => "Expected `self`",
            ErrorKind::ExpectedComma => "Expected a comma",
            ErrorKind::ExpectedF => "Expected `f`",
            ErrorKind::ExpectedConsume => "Expected `consume`",
            ErrorKind::ExpectedConsumeArgs => "Expected arguments immediately after `consume` (no need to repeat the <A: ...> bound)",
            ErrorKind::ExpectedA => "Expected `a`",
            ErrorKind::ExpectedOpBody => "Expected a function definition block (please don't try to specify return type; it's extremely long and will change as Rust evolves)",
        }
    }
}

/// Shorthand for building a diagnostic in specifications and code alike.
pub open spec fn s_err<T>(span: u64, kind: ErrorKind) -> Result<T, ExpandError> {
    Err(ExpandError { span, kind, at_end: false })
}

/// A diagnostic for a stream that ended too early.
pub open spec fn s_err_end<T>(span: u64, kind: ErrorKind) -> Result<T, ExpandError> {
    Err(ExpandError { span, kind, at_end: true })
}

/// Does this literal text begin with the mandated doc lead-in, `"Encodes `
/// (the literal keeps its opening quote)?
pub open spec fn has_lead_in(text: Seq<char>) -> bool {
    &&& text.len() >= 9
    &&& text[0] == '"'
    &&& text[1] == 'E'
    &&& text[2] == 'n'
    &&& text[3] == 'c'
    &&& text[4] == 'o'
    &&& text[5] == 'd'
    &&& text[6] == 'e'
    &&& text[7] == 's'
    &&& text[8] == ' '
}

/// Is this attribute group's content `doc = <literal>`?
pub open spec fn is_doc_attr(inner: Seq<SpecToken>) -> bool {
    &&& inner.len() == 3
    &&& spec_is_ident(inner[0], "doc"@)
    &&& spec_is_punct(inner[1], '=')
    &&& inner[2].kind is Literal
}

/// The literal text of a doc attribute's content.
pub open spec fn doc_attr_text(inner: Seq<SpecToken>) -> Seq<char> {
    inner[2].kind->Literal_0
}

/// The attribute skipper: walks `# [ ... ]` pairs from position `i` and
/// answers the position of the first token that does not start an attribute.
/// With `gate` set it enforces the documentation convention: every attribute
/// must be a doc attribute, and the first (when `first` is set) must carry
/// the mandated lead-in phrase.
pub open spec fn spec_skip_attrs(s: Seq<SpecToken>, i: int, gate: bool, first: bool) -> Result<
    int,
    ExpandError,
>
    decreases s.len() - i,
    when 0 <= i <= s.len()
{
    if i >= s.len() {
        s_err_end(0, ErrorKind::ExpectedDecl)
    } else {
        match s[i].kind {
            SpecTokKind::Punct(c, _) => {
                if c != '#' {
                    s_err(s[i].span, ErrorKind::ExpectedDeclChar)
                } else if i + 1 >= s.len() {
                    s_err_end(s[i].span, ErrorKind::ExpectedAttr)
                } else {
                    match s[i + 1].kind {
                        SpecTokKind::Group(d, inner) => {
                            if d != Delim::Bracket {
                                s_err(s[i + 1].span, ErrorKind::ExpectedAttrBrackets)
                            } else if gate && !is_doc_attr(inner) {
                                if inner.len() >= 1 && spec_is_ident(inner[0], "doc"@) {
                                    s_err(s[i + 1].span, ErrorKind::MalformedDocAttribute)
                                } else {
                                    s_err(s[i + 1].span, ErrorKind::NonDocAttribute)
                                }
                            } else if gate && first && !has_lead_in(doc_attr_text(inner)) {
                                s_err(inner[2].span, ErrorKind::DocLeadInMissing)
                            } else {
                                spec_skip_attrs(s, i + 2, gate, false)
                            }
                        },
                        _ => s_err(s[i + 1].span, ErrorKind::ExpectedAttr),
                    }
                }
            },
            _ => Ok(i),
        }
    }
}

/// Relies on `str::chars`: how many characters the text holds.
#[verifier::external_body]
fn char_len(s: &str) -> (n: usize)
    ensures
        n == s@.len(),
{
    s.chars().count()
}

/// Relies on `str::chars`: the text's character at the given position.
#[verifier::external_body]
fn char_at(s: &str, i: usize) -> (c: char)
    requires
        i < s@.len(),
    ensures
        c == s@[i as int],
{
    s.chars().nth(i).unwrap_or(' ')
}

/// Check whether a literal's text starts with the doc lead-in.
fn lit_has_lead_in(s: &String) -> (r: bool)
    ensures
        r == has_lead_in(s@),
{
    let st = s.as_str();
    if char_len(st) < 9 {
        return false;
    }
    char_at(st, 0) == '"' && char_at(st, 1) == 'E' && char_at(st, 2) == 'n' && char_at(st, 3)
        == 'c' && char_at(st, 4) == 'o' && char_at(st, 5) == 'd' && char_at(st, 6) == 'e' && char_at(
        st,
        7,
    ) == 's' && char_at(st, 8) == ' '
}

/// The executable attribute skipper. Consumed attributes are copied verbatim
/// onto `out`; the answer is the index of the first non-attribute token.
fn skip_attributes(ts: &Vec<Token>, i0: usize, out: &mut Vec<Token>, gate: bool) -> (r: Result<
    usize,
    ExpandError,
>)
    requires
        i0 <= ts@.len(),
    ensures
        match r {
            Ok(j) => {
                &&& spec_skip_attrs(stream_view(ts@), i0 as int, gate, true) == Ok::<
                    int,
                    ExpandError,
                >(j as int)
                &&& i0 <= j < ts@.len()
                &&& stream_view(final(out)@) == stream_view(old(out)@) + stream_view(
                    ts@,
                ).subrange(i0 as int, j as int)
            },
            Err(e) => spec_skip_attrs(stream_view(ts@), i0 as int, gate, true) == Err::<
                int,
                ExpandError,
            >(e),
        },
{
    let ghost s = stream_view(ts@);
    let mut i: usize = i0;
    let mut first: bool = true;
    loop
        invariant
            i0 <= i <= ts@.len(),
            s == stream_view(ts@),
            spec_skip_attrs(s, i0 as int, gate, true) == spec_skip_attrs(s, i as int, gate, first),
            stream_view(out@) == stream_view(old(out)@) + s.subrange(i0 as int, i as int),
        decreases ts@.len() - i,
    {
        if i >= ts.len() {
            return Err(ExpandError { span: 0, kind: ErrorKind::ExpectedDecl, at_end: true });
        }
        let is_pound = ts[i].is_punct('#');
        match &ts[i].kind {
            TokKind::Punct(c, _) => {
                if !is_pound {
                    return Err(
                        ExpandError { span: ts[i].span, kind: ErrorKind::ExpectedDeclChar, at_end: false },
                    );
                }
            },
            _ => {
                return Ok(i);
            },
        }
        // ts[i] is `#`: an attribute group must follow.
        if i + 1 >= ts.len() {
            return Err(ExpandError { span: ts[i].span, kind: ErrorKind::ExpectedAttr, at_end: true });
        }
        match &ts[i + 1].kind {
            TokKind::Group(d, inner) => {
                if !matches!(d, Delim::Bracket) {
                    return Err(
                        ExpandError {
                            span: ts[i + 1].span,
                            kind: ErrorKind::ExpectedAttrBrackets,
                            at_end: false,
                        },
                    );
                }
                if gate {
                    let doc_named = inner.len() >= 1 && inner[0].is_ident("doc");
                    let shaped = inner.len() == 3 && inner[0].is_ident("doc") && inner[1].is_punct(
                        '=',
                    ) && matches!(&inner[2].kind, TokKind::Literal(_));
                    proof {
                        assert(stream_view(ts@)[i + 1].kind->Group_1 =~= stream_view(inner@));
                        assert(shaped == is_doc_attr(stream_view(inner@)));
                    }
                    if !shaped {
                        if doc_named {
                            return Err(
                                ExpandError {
                                    span: ts[i + 1].span,
                                    kind: ErrorKind::MalformedDocAttribute,
                                    at_end: false,
                                },
                            );
                        } else {
                            return Err(
                                ExpandError {
                                    span: ts[i + 1].span,
                                    kind: ErrorKind::NonDocAttribute,
                                    at_end: false,
                                },
                            );
                        }
                    }
                    if first {
                        match &inner[2].kind {
                            TokKind::Literal(lit) => {
                                if !lit_has_lead_in(lit) {
                                    return Err(
                                        ExpandError {
                                            span: inner[2].span,
                                            kind: ErrorKind::DocLeadInMissing,
                                            at_end: false,
                                        },
                                    );
                                }
                            },
                            _ => {
                                proof {
                                    assert(false);
                                }
                            },
                        }
                    }
                }
            },
            _ => {
                return Err(
                    ExpandError { span: ts[i + 1].span, kind: ErrorKind::ExpectedAttr, at_end: false },
                );
            },
        }
        // Re-emit the attribute pair verbatim and go on.
        push_range(out, ts, i, i + 2);
        proof {
            assert(stream_view(out@) =~= stream_view(old(out)@) + s.subrange(
                i0 as int,
                i + 2 as int,
            ));
        }
        i += 2;
        first = false;
    }
}

/// One generic parameter: its name, and every token that follows it within
/// its slot of the parameter list (its `: Bound + ...` part), verbatim.
pub struct Param {
    pub name: String,
    pub tail: Vec<Token>,
}

/// The image of a [`Param`].
#[verifier::ext_equal]
pub struct SpecParam {
    pub name: Seq<char>,
    pub tail: Seq<SpecToken>,
}

impl View for Param {
    type V = SpecParam;

    open spec fn view(&self) -> SpecParam {
        SpecParam { name: self.name@, tail: stream_view(self.tail@) }
    }
}

/// One named field: its name and its type, verbatim.
pub struct Field {
    pub name: String,
    pub ty: Vec<Token>,
}

/// The image of a [`Field`].
#[verifier::ext_equal]
pub struct SpecField {
    pub name: Seq<char>,
    pub ty: Seq<SpecToken>,
}

impl View for Field {
    type V = SpecField;

    open spec fn view(&self) -> SpecField {
        SpecField { name: self.name@, ty: stream_view(self.ty@) }
    }
}

/// The field shape of a struct or of one enum variant.
pub enum Shape {
    /// No fields at all.
    Unit,
    /// Brace-delimited `name: type` fields.
    Named(Vec<Field>),
    /// Parenthesized positional types.
    Unnamed(Vec<Vec<Token>>),
}

/// The image of a [`Shape`].
#[verifier::ext_equal]
pub enum SpecShape {
    Unit,
    Named(Seq<SpecField>),
    Unnamed(Seq<Seq<SpecToken>>),
}

impl View for Shape {
    type V = SpecShape;

    open spec fn view(&self) -> SpecShape {
        match self {
            Shape::Unit => SpecShape::Unit,
            Shape::Named(fs) => SpecShape::Named(seq_view(fs@)),
            Shape::Unnamed(ts) => SpecShape::Unnamed(
                ts@.map_values(|v: Vec<Token>| stream_view(v@)),
            ),
        }
    }
}

/// One enum variant: its name and its field shape.
pub struct Variant {
    pub name: String,
    pub shape: Shape,
}

/// The image of a [`Variant`].
#[verifier::ext_equal]
pub struct SpecVariant {
    pub name: Seq<char>,
    pub shape: SpecShape,
}

impl View for Variant {
    type V = SpecVariant;

    open spec fn view(&self) -> SpecVariant {
        SpecVariant { name: self.name@, shape: self.shape@ }
    }
}

/// The parsed declaration: what the synthesis engine works from.
pub struct Decl {
    /// Was a `pub` marker present?
    pub is_public: bool,
    /// `enum` rather than `struct`?
    pub is_enum: bool,
    /// The declared type's name.
    pub name: String,
    /// The generic parameters, the payload parameter first.
    pub params: Vec<Param>,
    /// The whole declaration, verbatim, for re-emission.
    pub tokens: Vec<Token>,
    /// The variants of an enum; empty for a struct.
    pub variants: Vec<Variant>,
    /// The field shape of a struct; `Unit` for an enum.
    pub shape: Shape,
}

/// The image of a [`Decl`].
#[verifier::ext_equal]
pub struct SpecDecl {
    pub is_public: bool,
    pub is_enum: bool,
    pub name: Seq<char>,
    pub params: Seq<SpecParam>,
    pub tokens: Seq<SpecToken>,
    pub variants: Seq<SpecVariant>,
    pub shape: SpecShape,
}

impl View for Decl {
    type V = SpecDecl;

    open spec fn view(&self) -> SpecDecl {
        SpecDecl {
            is_public: self.is_public,
            is_enum: self.is_enum,
            name: self.name@,
            params: seq_view(self.params@),
            tokens: stream_view(self.tokens@),
            variants: seq_view(self.variants@),
            shape: self.shape@,
        }
    }
}

/// The image of a sequence of viewable values, element by element.
pub open spec fn seq_view<T: View>(s: Seq<T>) -> Seq<T::V> {
    s.map_values(|x: T| x@)
}

/// The generic-list scanner, from just after the opening `<` with `depth`
/// open brackets (the cap is 255): the position right after the matching
/// closing `>`.
pub open spec fn spec_scan_generics(
    s: Seq<SpecToken>,
    i: int,
    depth: int,
    open_span: u64,
) -> Result<int, ExpandError>
    decreases s.len() - i,
    when 0 <= i <= s.len()
{
    if i >= s.len() {
        s_err_end(open_span, ErrorKind::UnterminatedGenerics)
    } else {
        match s[i].kind {
            SpecTokKind::Punct(c, _) => {
                if c == '<' {
                    if depth >= 255 {
                        s_err(s[i].span, ErrorKind::GenericsTooDeep)
                    } else {
                        spec_scan_generics(s, i + 1, depth + 1, open_span)
                    }
                } else if c == '>' {
                    if depth == 1 {
                        Ok(i + 1)
                    } else {
                        spec_scan_generics(s, i + 1, depth - 1, open_span)
                    }
                } else {
                    spec_scan_generics(s, i + 1, depth, open_span)
                }
            },
            _ => spec_scan_generics(s, i + 1, depth, open_span),
        }
    }
}

/// A scan that comes back `Ok(j)` stopped inside the stream, just after a
/// closing `>`.
pub proof fn lemma_scan_generics_bounds(s: Seq<SpecToken>, i: int, depth: int, open_span: u64)
    requires
        0 <= i <= s.len(),
    ensures
        spec_scan_generics(s, i, depth, open_span) matches Ok(j) ==> i < j <= s.len()
            && spec_is_punct(s[j - 1], '>'),
    decreases s.len() - i,
{
    if i < s.len() {
        lemma_scan_generics_bounds(s, i + 1, depth + 1, open_span);
        lemma_scan_generics_bounds(s, i + 1, depth - 1, open_span);
        lemma_scan_generics_bounds(s, i + 1, depth, open_span);
    }
}

/// Where the parameter slot that starts at `i` ends: at the next comma that
/// sits outside every nested `<...>`, or at the end of the list.
pub open spec fn spec_param_end(g: Seq<SpecToken>, i: int, depth: int) -> int
    decreases g.len() - i,
    when 0 <= i <= g.len()
{
    if i >= g.len() {
        g.len() as int
    } else {
        match g[i].kind {
            SpecTokKind::Punct(c, _) => {
                if c == ',' && depth == 0 {
                    i
                } else if c == '<' {
                    spec_param_end(g, i + 1, depth + 1)
                } else if c == '>' {
                    spec_param_end(g, i + 1, depth - 1)
                } else {
                    spec_param_end(g, i + 1, depth)
                }
            },
            _ => spec_param_end(g, i + 1, depth),
        }
    }
}

pub proof fn lemma_param_end_bounds(g: Seq<SpecToken>, i: int, depth: int)
    requires
        0 <= i <= g.len(),
    ensures
        i <= spec_param_end(g, i, depth) <= g.len(),
    decreases g.len() - i,
{
    if i < g.len() {
        lemma_param_end_bounds(g, i + 1, depth + 1);
        lemma_param_end_bounds(g, i + 1, depth - 1);
        lemma_param_end_bounds(g, i + 1, depth);
    }
}

/// The parameter-list grammar: name-first slots separated by top-level
/// commas, a trailing comma allowed. Every slot must start with a plain
/// identifier.
pub open spec fn spec_parse_params(g: Seq<SpecToken>, i: int) -> Result<Seq<SpecParam>, ExpandError>
    decreases g.len() - i,
    when 0 <= i <= g.len()
    via spec_parse_params_decreases
{
    if i >= g.len() {
        Ok(Seq::empty())
    } else {
        match g[i].kind {
            SpecTokKind::Ident(name) => {
                let e = spec_param_end(g, i + 1, 0);
                let p = SpecParam { name, tail: g.subrange(i + 1, e) };
                let next = if e >= g.len() {
                    g.len() as int
                } else {
                    e + 1
                };
                match spec_parse_params(g, next) {
                    Ok(rest) => Ok(seq![p] + rest),
                    Err(x) => Err(x),
                }
            },
            _ => s_err(g[i].span, ErrorKind::ExpectedGenericArgument),
        }
    }
}

#[via_fn]
proof fn spec_parse_params_decreases(g: Seq<SpecToken>, i: int) {
    if 0 <= i < g.len() {
        lemma_param_end_bounds(g, i + 1, 0);
    }
}

/// Skip `# [ ... ]` attribute pairs inside a body (an enum variant's
/// `#[default]`, a field's doc comment): the position of the first token
/// that does not start one, or a diagnostic of the given kind.
pub open spec fn spec_skip_body_attrs(v: Seq<SpecToken>, i: int, bad: ErrorKind) -> Result<
    int,
    ExpandError,
>
    decreases v.len() - i,
    when 0 <= i <= v.len()
{
    if i >= v.len() {
        Ok(i)
    } else if spec_is_punct(v[i], '#') {
        if i + 1 < v.len() && (v[i + 1].kind matches SpecTokKind::Group(d, _) && d == Delim::Bracket) {
            spec_skip_body_attrs(v, i + 2, bad)
        } else {
            s_err(v[i].span, bad)
        }
    } else {
        Ok(i)
    }
}

pub proof fn lemma_skip_body_attrs_bounds(v: Seq<SpecToken>, i: int, bad: ErrorKind)
    requires
        0 <= i <= v.len(),
    ensures
        spec_skip_body_attrs(v, i, bad) matches Ok(j) ==> i <= j <= v.len(),
    decreases v.len() - i,
{
    if i + 1 < v.len() {
        lemma_skip_body_attrs_bounds(v, i + 2, bad);
    }
}

/// The positional-type list of a tuple shape: types separated by top-level
/// commas, each non-empty, a trailing comma allowed.
pub open spec fn spec_split_types(g: Seq<SpecToken>, i: int, bad: ErrorKind) -> Result<
    Seq<Seq<SpecToken>>,
    ExpandError,
>
    decreases g.len() - i,
    when 0 <= i <= g.len()
    via spec_split_types_decreases
{
    if i >= g.len() {
        Ok(Seq::empty())
    } else {
        let e = spec_param_end(g, i, 0);
        if e == i {
            // An empty slot: a comma with no type before it.
            s_err(g[i].span, bad)
        } else {
            let ty = g.subrange(i, e);
            let next = if e >= g.len() {
                g.len() as int
            } else {
                e + 1
            };
            match spec_split_types(g, next, bad) {
                Ok(rest) => Ok(seq![ty] + rest),
                Err(x) => Err(x),
            }
        }
    }
}

#[via_fn]
proof fn spec_split_types_decreases(g: Seq<SpecToken>, i: int, bad: ErrorKind) {
    if 0 <= i < g.len() {
        lemma_param_end_bounds(g, i, 0);
    }
}

/// The named-field list of a brace shape: `[attributes] [pub] name : type`
/// slots separated by top-level commas, a trailing comma allowed.
pub open spec fn spec_parse_fields(g: Seq<SpecToken>, i: int, bad: ErrorKind) -> Result<
    Seq<SpecField>,
    ExpandError,
>
    decreases g.len() - i,
    when 0 <= i <= g.len()
    via spec_parse_fields_decreases
{
    if i >= g.len() {
        Ok(Seq::empty())
    } else {
        match spec_skip_body_attrs(g, i, bad) {
            Ok(j0) => {
                let j = if j0 < g.len() && spec_is_ident(g[j0], "pub"@) && j0 + 1 < g.len() && g[j0
                    + 1].kind is Ident {
                    j0 + 1
                } else {
                    j0
                };
                if j >= g.len() {
                    s_err_end(0, bad)
                } else {
                    match g[j].kind {
                        SpecTokKind::Ident(name) => {
                            if j + 1 >= g.len() || !spec_is_punct(g[j + 1], ':') {
                                s_err(g[j].span, bad)
                            } else {
                                let e = spec_param_end(g, j + 2, 0);
                                if e == j + 2 {
                                    s_err(g[j + 1].span, bad)
                                } else {
                                    let f = SpecField { name, ty: g.subrange(j + 2, e) };
                                    let next = if e >= g.len() {
                                        g.len() as int
                                    } else {
                                        e + 1
                                    };
                                    match spec_parse_fields(g, next, bad) {
                                        Ok(rest) => Ok(seq![f] + rest),
                                        Err(x) => Err(x),
                                    }
                                }
                            }
                        },
                        _ => s_err(g[j].span, bad),
                    }
                }
            },
            Err(x) => Err(x),
        }
    }
}

#[via_fn]
proof fn spec_parse_fields_decreases(g: Seq<SpecToken>, i: int, bad: ErrorKind) {
    if 0 <= i < g.len() {
        lemma_skip_body_attrs_bounds(g, i, bad);
        match spec_skip_body_attrs(g, i, bad) {
            Ok(j0) => {
                let j = if j0 < g.len() && spec_is_ident(g[j0], "pub"@) && j0 + 1 < g.len() && g[j0
                    + 1].kind is Ident {
                    j0 + 1
                } else {
                    j0
                };
                if 0 <= j + 2 <= g.len() {
                    lemma_param_end_bounds(g, j + 2, 0);
                }
            },
            Err(_) => {},
        }
    }
}

/// The variant list of an enum body: `[attributes] Name [fields] [,]`
/// entries.
pub open spec fn spec_parse_variants(v: Seq<SpecToken>, i: int) -> Result<
    Seq<SpecVariant>,
    ExpandError,
>
    decreases v.len() - i,
    when 0 <= i <= v.len()
    via spec_parse_variants_decreases
{
    if i >= v.len() {
        Ok(Seq::empty())
    } else {
        match spec_skip_body_attrs(v, i, ErrorKind::MalformedEnumBody) {
            Ok(j) => {
                if j >= v.len() {
                    Ok(Seq::empty())
                } else {
                    match v[j].kind {
                        SpecTokKind::Ident(name) => {
                            let shaped = if j + 1 < v.len() && v[j + 1].kind matches
                                SpecTokKind::Group(_, _) {
                                match v[j + 1].kind {
                                    SpecTokKind::Group(d, inner) => {
                                        if d == Delim::Paren {
                                            match spec_split_types(
                                                inner,
                                                0,
                                                ErrorKind::MalformedEnumBody,
                                            ) {
                                                Ok(tys) => Ok((SpecShape::Unnamed(tys), j + 2)),
                                                Err(x) => Err(x),
                                            }
                                        } else if d == Delim::Brace {
                                            match spec_parse_fields(
                                                inner,
                                                0,
                                                ErrorKind::MalformedEnumBody,
                                            ) {
                                                Ok(fs) => Ok((SpecShape::Named(fs), j + 2)),
                                                Err(x) => Err(x),
                                            }
                                        } else {
                                            s_err(v[j + 1].span, ErrorKind::MalformedEnumBody)
                                        }
                                    },
                                    _ => s_err(v[j].span, ErrorKind::MalformedEnumBody),
                                }
                            } else {
                                Ok((SpecShape::Unit, j + 1))
                            };
                            match shaped {
                                Ok((shape, k)) => {
                                    let variant = SpecVariant { name, shape };
                                    if k >= v.len() {
                                        Ok(seq![variant])
                                    } else if spec_is_punct(v[k], ',') {
                                        match spec_parse_variants(v, k + 1) {
                                            Ok(rest) => Ok(seq![variant] + rest),
                                            Err(x) => Err(x),
                                        }
                                    } else {
                                        s_err(v[k].span, ErrorKind::MalformedEnumBody)
                                    }
                                },
                                Err(x) => Err(x),
                            }
                        },
                        _ => s_err(v[j].span, ErrorKind::MalformedEnumBody),
                    }
                }
            },
            Err(x) => Err(x),
        }
    }
}

#[via_fn]
proof fn spec_parse_variants_decreases(v: Seq<SpecToken>, i: int) {
    if 0 <= i < v.len() {
        lemma_skip_body_attrs_bounds(v, i, ErrorKind::MalformedEnumBody);
    }
}

/// The field shape of a struct body group.
pub open spec fn spec_parse_shape(d: Delim, inner: Seq<SpecToken>, span: u64) -> Result<
    SpecShape,
    ExpandError,
> {
    match d {
        Delim::Paren => match spec_split_types(inner, 0, ErrorKind::MalformedStructBody) {
            Ok(tys) => Ok(SpecShape::Unnamed(tys)),
            Err(x) => Err(x),
        },
        Delim::Brace => match spec_parse_fields(inner, 0, ErrorKind::MalformedStructBody) {
            Ok(fs) => Ok(SpecShape::Named(fs)),
            Err(x) => Err(x),
        },
        Delim::Bracket => s_err(span, ErrorKind::MalformedStructBody),
    }
}

/// The parsed `bind`: the attribute streams of its two arguments, the second
/// argument's name, and the captured body group, verbatim.
pub struct BindOp {
    pub self_attrs: Vec<Token>,
    pub f_attrs: Vec<Token>,
    pub f_name: String,
    pub body: Token,
}

/// The image of a [`BindOp`].
#[verifier::ext_equal]
pub struct SpecBindOp {
    pub self_attrs: Seq<SpecToken>,
    pub f_attrs: Seq<SpecToken>,
    pub f_name: Seq<char>,
    pub body: SpecToken,
}

impl View for BindOp {
    type V = SpecBindOp;

    open spec fn view(&self) -> SpecBindOp {
        SpecBindOp {
            self_attrs: stream_view(self.self_attrs@),
            f_attrs: stream_view(self.f_attrs@),
            f_name: self.f_name@,
            body: self.body@,
        }
    }
}

/// The parsed `consume`: its argument's attribute stream and name, and the
/// captured body group, verbatim.
pub struct ConsumeOp {
    pub a_attrs: Vec<Token>,
    pub a_name: String,
    pub body: Token,
}

/// The image of a [`ConsumeOp`].
#[verifier::ext_equal]
pub struct SpecConsumeOp {
    pub a_attrs: Seq<SpecToken>,
    pub a_name: Seq<char>,
    pub body: SpecToken,
}

impl View for ConsumeOp {
    type V = SpecConsumeOp;

    open spec fn view(&self) -> SpecConsumeOp {
        SpecConsumeOp {
            a_attrs: stream_view(self.a_attrs@),
            a_name: self.a_name@,
            body: self.body@,
        }
    }
}

/// The grammar of `fn bind(self, f) { ... }`: fixed names in fixed order,
/// attributes allowed on the arguments, any return type refused by never
/// being looked for, and the body captured verbatim.
pub open spec fn spec_parse_bind(s: Seq<SpecToken>, i: int, prev_span: u64) -> Result<
    (int, SpecBindOp),
    ExpandError,
>
    recommends
        0 <= i,
{
    if i >= s.len() {
        s_err_end(prev_span, ErrorKind::ExpectedFn)
    } else if !spec_is_ident(s[i], "fn"@) {
        s_err(s[i].span, ErrorKind::ExpectedFn)
    } else if i + 1 >= s.len() {
        s_err_end(s[i].span, ErrorKind::ExpectedBind)
    } else if !spec_is_ident(s[i + 1], "bind"@) {
        s_err(s[i + 1].span, ErrorKind::ExpectedBind)
    } else if i + 2 >= s.len() {
        s_err_end(s[i + 1].span, ErrorKind::ExpectedBindArgs)
    } else {
        match s[i + 2].kind {
            SpecTokKind::Group(d, inner) => {
                if d != Delim::Paren {
                    s_err(s[i + 2].span, ErrorKind::ExpectedBindArgs)
                } else {
                    match spec_parse_bind_args(inner) {
                        Ok((self_attrs, f_attrs, f_name)) => {
                            if i + 3 >= s.len() {
                                s_err_end(s[i + 2].span, ErrorKind::ExpectedOpBody)
                            } else {
                                match s[i + 3].kind {
                                    SpecTokKind::Group(bd, _) => {
                                        if bd != Delim::Brace {
                                            s_err(s[i + 3].span, ErrorKind::ExpectedOpBody)
                                        } else {
                                            Ok(
                                                (
                                                    i + 4,
                                                    SpecBindOp {
                                                        self_attrs,
                                                        f_attrs,
                                                        f_name,
                                                        body: s[i + 3],
                                                    },
                                                ),
                                            )
                                        }
                                    },
                                    _ => s_err(s[i + 3].span, ErrorKind::ExpectedOpBody),
                                }
                            }
                        },
                        Err(x) => Err(x),
                    }
                }
            },
            _ => s_err(s[i + 2].span, ErrorKind::ExpectedBindArgs),
        }
    }
}

/// The inside of `bind`'s argument list: `[attrs] self , [attrs] <name>`,
/// anything after the name ignored.
pub open spec fn spec_parse_bind_args(inner: Seq<SpecToken>) -> Result<
    (Seq<SpecToken>, Seq<SpecToken>, Seq<char>),
    ExpandError,
> {
    match spec_skip_attrs(inner, 0, false, true) {
        Ok(j) => {
            if !(inner[j].kind is Ident) {
                s_err(inner[j].span, ErrorKind::ExpectedSelf)
            } else if !spec_is_ident(inner[j], "self"@) {
                s_err(inner[j].span, ErrorKind::ExpectedSelf)
            } else if j + 1 >= inner.len() {
                s_err_end(inner[j].span, ErrorKind::ExpectedComma)
            } else if !(inner[j + 1].kind is Punct) {
                s_err(inner[j + 1].span, ErrorKind::ExpectedComma)
            } else if !spec_is_punct(inner[j + 1], ',') {
                s_err(inner[j + 1].span, ErrorKind::ExpectedComma)
            } else {
                match spec_skip_attrs(inner, j + 2, false, true) {
                    Ok(k) => match inner[k].kind {
                        SpecTokKind::Ident(f_name) => Ok(
                            (inner.subrange(0, j), inner.subrange(j + 2, k), f_name),
                        ),
                        _ => s_err(inner[k].span, ErrorKind::ExpectedF),
                    },
                    Err(x) => Err(x),
                }
            }
        },
        Err(x) => Err(x),
    }
}

/// The grammar of `fn consume(a) { ... }`.
pub open spec fn spec_parse_consume(s: Seq<SpecToken>, i: int, prev_span: u64) -> Result<
    (int, SpecConsumeOp),
    ExpandError,
>
    recommends
        0 <= i,
{
    if i >= s.len() {
        s_err_end(prev_span, ErrorKind::ExpectedFn)
    } else if !spec_is_ident(s[i], "fn"@) {
        s_err(s[i].span, ErrorKind::ExpectedFn)
    } else if i + 1 >= s.len() {
        s_err_end(s[i].span, ErrorKind::ExpectedConsume)
    } else if !spec_is_ident(s[i + 1], "consume"@) {
        s_err(s[i + 1].span, ErrorKind::ExpectedConsume)
    } else if i + 2 >= s.len() {
        s_err_end(s[i + 1].span, ErrorKind::ExpectedConsumeArgs)
    } else {
        match s[i + 2].kind {
            SpecTokKind::Group(d, inner) => {
                if d != Delim::Paren {
                    s_err(s[i + 2].span, ErrorKind::ExpectedConsumeArgs)
                } else {
                    match spec_parse_consume_args(inner) {
                        Ok((a_attrs, a_name)) => {
                            if i + 3 >= s.len() {
                                s_err_end(s[i + 2].span, ErrorKind::ExpectedOpBody)
                            } else {
                                match s[i + 3].kind {
                                    SpecTokKind::Group(bd, _) => {
                                        if bd != Delim::Brace {
                                            s_err(s[i + 3].span, ErrorKind::ExpectedOpBody)
                                        } else {
                                            Ok(
                                                (
                                                    i + 4,
                                                    SpecConsumeOp { a_attrs, a_name, body: s[i + 3] },
                                                ),
                                            )
                                        }
                                    },
                                    _ => s_err(s[i + 3].span, ErrorKind::ExpectedOpBody),
                                }
                            }
                        },
                        Err(x) => Err(x),
                    }
                }
            },
            _ => s_err(s[i + 2].span, ErrorKind::ExpectedConsumeArgs),
        }
    }
}

/// The inside of `consume`'s argument list: `[attrs] <name>`, anything after
/// the name ignored.
pub open spec fn spec_parse_consume_args(inner: Seq<SpecToken>) -> Result<
    (Seq<SpecToken>, Seq<char>),
    ExpandError,
> {
    match spec_skip_attrs(inner, 0, false, true) {
        Ok(j) => match inner[j].kind {
            SpecTokKind::Ident(a_name) => Ok((inner.subrange(0, j), a_name)),
            _ => s_err(inner[j].span, ErrorKind::ExpectedA),
        },
        Err(x) => Err(x),
    }
}

/// The tail of the declaration grammar, once its body group is in hand: the
/// kind keyword decides how the body is read.
pub open spec fn spec_finish_decl(
    s: Seq<SpecToken>,
    i: int,
    end: int,
    is_public: bool,
    kw: Seq<char>,
    kw_span: u64,
    name: Seq<char>,
    params: Seq<SpecParam>,
    d: Delim,
    inner: Seq<SpecToken>,
    body_span: u64,
) -> Result<(int, SpecDecl), ExpandError> {
    if kw == "enum"@ {
        if d != Delim::Brace {
            s_err(body_span, ErrorKind::MalformedEnumBody)
        } else {
            match spec_parse_variants(inner, 0) {
                Ok(vs) => Ok(
                    (
                        end,
                        SpecDecl {
                            is_public,
                            is_enum: true,
                            name,
                            params,
                            tokens: s.subrange(i, end),
                            variants: vs,
                            shape: SpecShape::Unit,
                        },
                    ),
                ),
                Err(x) => Err(x),
            }
        }
    } else if kw == "struct"@ {
        match spec_parse_shape(d, inner, body_span) {
            Ok(sh) => Ok(
                (
                    end,
                    SpecDecl {
                        is_public,
                        is_enum: false,
                        name,
                        params,
                        tokens: s.subrange(i, end),
                        variants: Seq::empty(),
                        shape: sh,
                    },
                ),
            ),
            Err(x) => Err(x),
        }
    } else {
        s_err(kw_span, ErrorKind::ExpectedStructOrEnum)
    }
}

/// The declaration grammar: an optional `pub`, the kind keyword, the name,
/// a bracket-matched generic list with the payload parameter first, and a
/// delimited body (plus a semicolon after a tuple-struct body).
pub open spec fn spec_parse_decl(s: Seq<SpecToken>, i: int) -> Result<(int, SpecDecl), ExpandError>
    recommends
        0 <= i,
{
    if i >= s.len() {
        s_err_end(0, ErrorKind::ExpectedDecl)
    } else if !(s[i].kind is Ident) {
        s_err(s[i].span, ErrorKind::ExpectedDecl)
    } else {
        let is_public = spec_is_ident(s[i], "pub"@);
        let j = if is_public {
            i + 1
        } else {
            i
        };
        if is_public && j >= s.len() {
            s_err_end(s[i].span, ErrorKind::ExpectedDecl)
        } else if is_public && !(s[j].kind is Ident) {
            s_err(s[j].span, ErrorKind::ExpectedDecl)
        } else {
            let kw = s[j].kind->Ident_0;
            let kw_span = s[j].span;
            if j + 1 >= s.len() {
                s_err_end(0, ErrorKind::ExpectedName)
            } else if !(s[j + 1].kind is Ident) {
                s_err(s[j + 1].span, ErrorKind::ExpectedName)
            } else {
                let name = s[j + 1].kind->Ident_0;
                if j + 2 >= s.len() {
                    s_err_end(s[j + 1].span, ErrorKind::ExpectedGenerics)
                } else if !(s[j + 2].kind is Punct) {
                    s_err(s[j + 2].span, ErrorKind::ExpectedGenerics)
                } else if !spec_is_punct(s[j + 2], '<') {
                    s_err(s[j + 2].span, ErrorKind::ExpectedGenerics)
                } else {
                    match spec_scan_generics(s, j + 3, 1, s[j + 2].span) {
                        Ok(close) => match spec_parse_params(s.subrange(j + 3, close - 1), 0) {
                            Ok(params) => {
                                if params.len() == 0 {
                                    s_err(s[j + 2].span, ErrorKind::ExpectedGenericArgument)
                                } else if close >= s.len() {
                                    s_err_end(s[close - 1].span, ErrorKind::ExpectedBody)
                                } else {
                                    match s[close].kind {
                                        SpecTokKind::Group(d, inner) => {
                                            if d == Delim::Paren {
                                                if close + 1 >= s.len() {
                                                    s_err_end(
                                                        s[close].span,
                                                        ErrorKind::ExpectedSemicolon,
                                                    )
                                                } else if !spec_is_punct(s[close + 1], ';') {
                                                    s_err(
                                                        s[close + 1].span,
                                                        ErrorKind::ExpectedSemicolon,
                                                    )
                                                } else {
                                                    spec_finish_decl(
                                                        s,
                                                        i,
                                                        close + 2,
                                                        is_public,
                                                        kw,
                                                        kw_span,
                                                        name,
                                                        params,
                                                        d,
                                                        inner,
                                                        s[close].span,
                                                    )
                                                }
                                            } else {
                                                spec_finish_decl(
                                                    s,
                                                    i,
                                                    close + 1,
                                                    is_public,
                                                    kw,
                                                    kw_span,
                                                    name,
                                                    params,
                                                    d,
                                                    inner,
                                                    s[close].span,
                                                )
                                            }
                                        },
                                        _ => s_err(s[close].span, ErrorKind::ExpectedBody),
                                    }
                                }
                            },
                            Err(x) => Err(x),
                        },
                        Err(x) => Err(x),
                    }
                }
            }
        }
    }
}

/// Reading the image of a sequence of viewable values at one index.
pub broadcast proof fn lemma_seq_view_index<T: View>(s: Seq<T>, i: int)
    requires
        0 <= i < s.len(),
    ensures
        #[trigger] seq_view(s)[i] == s[i]@,
{
}

/// The image of a sequence of viewable values is as long as the sequence.
pub broadcast proof fn lemma_seq_view_len<T: View>(s: Seq<T>)
    ensures
        #[trigger] seq_view(s).len() == s.len(),
{
}

/// How the image of a sequence changes when a value is put in front.
pub proof fn lemma_seq_view_insert_front<T: View>(s: Seq<T>, x: T)
    ensures
        seq_view(s.insert(0, x)) =~= seq![x@] + seq_view(s),
{
    broadcast use lemma_seq_view_index, lemma_seq_view_len;

}

/// The executable generic-list scanner.
fn scan_generics(ts: &Vec<Token>, i0: usize, open_span: u64) -> (r: Result<usize, ExpandError>)
    requires
        i0 <= ts@.len(),
    ensures
        match r {
            Ok(j) => spec_scan_generics(stream_view(ts@), i0 as int, 1, open_span) == Ok::<
                int,
                ExpandError,
            >(j as int) && i0 < j <= ts@.len(),
            Err(e) => spec_scan_generics(stream_view(ts@), i0 as int, 1, open_span) == Err::<
                int,
                ExpandError,
            >(e),
        },
{
    let ghost s = stream_view(ts@);
    let mut i: usize = i0;
    let mut depth: u8 = 1;
    loop
        invariant
            i0 <= i <= ts@.len(),
            1 <= depth,
            s == stream_view(ts@),
            spec_scan_generics(s, i0 as int, 1, open_span) == spec_scan_generics(
                s,
                i as int,
                depth as int,
                open_span,
            ),
        decreases ts@.len() - i,
    {
        if i >= ts.len() {
            return Err(
                ExpandError { span: open_span, kind: ErrorKind::UnterminatedGenerics, at_end: true },
            );
        }
        match &ts[i].kind {
            TokKind::Punct(c, _) => {
                if *c == '<' {
                    if depth == 255 {
                        return Err(
                            ExpandError {
                                span: ts[i].span,
                                kind: ErrorKind::GenericsTooDeep,
                                at_end: false,
                            },
                        );
                    }
                    depth += 1;
                } else if *c == '>' {
                    if depth == 1 {
                        return Ok(i + 1);
                    }
                    depth -= 1;
                }
            },
            _ => {},
        }
        i += 1;
    }
}

/// The executable slot-end scanner for parameter and type lists.
fn param_end(g: &Vec<Token>, i0: usize) -> (e: usize)
    requires
        i0 <= g@.len(),
    ensures
        spec_param_end(stream_view(g@), i0 as int, 0) == e as int,
        i0 <= e <= g@.len(),
{
    let ghost s = stream_view(g@);
    let mut i: usize = i0;
    let mut depth: i128 = 0;
    loop
        invariant
            i0 <= i <= g@.len(),
            s == stream_view(g@),
            -(i - i0) <= depth <= i - i0,
            spec_param_end(s, i0 as int, 0) == spec_param_end(s, i as int, depth as int),
        decreases g@.len() - i,
    {
        if i >= g.len() {
            proof {
                assert(spec_param_end(s, i as int, depth as int) == s.len());
            }
            return i;
        }
        match &g[i].kind {
            TokKind::Punct(c, _) => {
                if *c == ',' && depth == 0 {
                    return i;
                } else if *c == '<' {
                    depth += 1;
                } else if *c == '>' {
                    depth -= 1;
                }
            },
            _ => {},
        }
        i += 1;
    }
}

/// The executable parameter-list parser.
fn parse_params(g: &Vec<Token>, i0: usize) -> (r: Result<Vec<Param>, ExpandError>)
    requires
        i0 <= g@.len(),
    ensures
        match r {
            Ok(ps) => spec_parse_params(stream_view(g@), i0 as int) == Ok::<_, ExpandError>(
                seq_view(ps@),
            ),
            Err(e) => spec_parse_params(stream_view(g@), i0 as int) == Err::<Seq<SpecParam>, _>(e),
        },
    decreases g@.len() - i0,
{
    broadcast use lemma_seq_view_index, lemma_seq_view_len;

    let ghost s = stream_view(g@);
    if i0 >= g.len() {
        proof {
            assert(seq_view(Seq::<Param>::empty()) =~= Seq::<SpecParam>::empty());
        }
        return Ok(Vec::new());
    }
    match &g[i0].kind {
        TokKind::Ident(name) => {
            let e = param_end(g, i0 + 1);
            let mut tail: Vec<Token> = Vec::new();
            push_range(&mut tail, g, i0 + 1, e);
            let p = Param { name: name.clone(), tail };
            let next = if e >= g.len() {
                g.len()
            } else {
                e + 1
            };
            match parse_params(g, next) {
                Ok(mut rest) => {
                    proof {
                        lemma_seq_view_insert_front(rest@, p);
                        assert(stream_view(p.tail@) =~= s.subrange(i0 + 1, e as int));
                        assert(p@ == (SpecParam {
                            name: s[i0 as int].kind->Ident_0,
                            tail: s.subrange(i0 + 1, e as int),
                        }));
                        assert(seq![p@] + seq_view(rest@) =~= seq_view(rest@.insert(0, p)));
                    }
                    rest.insert(0, p);
                    Ok(rest)
                },
                Err(x) => Err(x),
            }
        },
        _ => Err(
            ExpandError { span: g[i0].span, kind: ErrorKind::ExpectedGenericArgument, at_end: false },
        ),
    }
}

/// The executable in-body attribute skipper.
fn skip_body_attrs(v: &Vec<Token>, i0: usize, bad: ErrorKind) -> (r: Result<usize, ExpandError>)
    requires
        i0 <= v@.len(),
    ensures
        match r {
            Ok(j) => spec_skip_body_attrs(stream_view(v@), i0 as int, bad) == Ok::<
                int,
                ExpandError,
            >(j as int) && i0 <= j <= v@.len(),
            Err(e) => spec_skip_body_attrs(stream_view(v@), i0 as int, bad) == Err::<
                int,
                ExpandError,
            >(e),
        },
{
    let ghost s = stream_view(v@);
    let mut i: usize = i0;
    loop
        invariant
            i0 <= i <= v@.len(),
            s == stream_view(v@),
            spec_skip_body_attrs(s, i0 as int, bad) == spec_skip_body_attrs(s, i as int, bad),
        decreases v@.len() - i,
    {
        if i >= v.len() {
            return Ok(i);
        }
        if !v[i].is_punct('#') {
            return Ok(i);
        }
        let shaped = i + 1 < v.len() && matches!(&v[i + 1].kind, TokKind::Group(Delim::Bracket, _));
        if !shaped {
            return Err(ExpandError { span: v[i].span, kind: bad, at_end: false });
        }
        i += 2;
    }
}

/// The executable positional-type list parser.
fn split_types(g: &Vec<Token>, i0: usize, bad: ErrorKind) -> (r: Result<
    Vec<Vec<Token>>,
    ExpandError,
>)
    requires
        i0 <= g@.len(),
    ensures
        match r {
            Ok(tys) => spec_split_types(stream_view(g@), i0 as int, bad) == Ok::<_, ExpandError>(
                tys@.map_values(|v: Vec<Token>| stream_view(v@)),
            ),
            Err(e) => spec_split_types(stream_view(g@), i0 as int, bad) == Err::<
                Seq<Seq<SpecToken>>,
                _,
            >(e),
        },
    decreases g@.len() - i0,
{
    let ghost s = stream_view(g@);
    if i0 >= g.len() {
        proof {
            assert(Seq::<Vec<Token>>::empty().map_values(|v: Vec<Token>| stream_view(v@))
                =~= Seq::<Seq<SpecToken>>::empty());
        }
        return Ok(Vec::new());
    }
    let e = param_end(g, i0);
    if e == i0 {
        return Err(ExpandError { span: g[i0].span, kind: bad, at_end: false });
    }
    let mut ty: Vec<Token> = Vec::new();
    push_range(&mut ty, g, i0, e);
    let next = if e >= g.len() {
        g.len()
    } else {
        e + 1
    };
    match split_types(g, next, bad) {
        Ok(mut rest) => {
            proof {
                let f = |v: Vec<Token>| stream_view(v@);
                assert(stream_view(ty@) =~= s.subrange(i0 as int, e as int));
                assert(rest@.insert(0, ty).map_values(f) =~= seq![stream_view(ty@)]
                    + rest@.map_values(f));
            }
            rest.insert(0, ty);
            Ok(rest)
        },
        Err(x) => Err(x),
    }
}

/// The executable named-field list parser.
fn parse_fields(g: &Vec<Token>, i0: usize, bad: ErrorKind) -> (r: Result<Vec<Field>, ExpandError>)
    requires
        i0 <= g@.len(),
    ensures
        match r {
            Ok(fs) => spec_parse_fields(stream_view(g@), i0 as int, bad) == Ok::<_, ExpandError>(
                seq_view(fs@),
            ),
            Err(e) => spec_parse_fields(stream_view(g@), i0 as int, bad) == Err::<
                Seq<SpecField>,
                _,
            >(e),
        },
    decreases g@.len() - i0,
{
    broadcast use lemma_seq_view_index, lemma_seq_view_len;

    let ghost s = stream_view(g@);
    if i0 >= g.len() {
        proof {
            assert(seq_view(Seq::<Field>::empty()) =~= Seq::<SpecField>::empty());
        }
        return Ok(Vec::new());
    }
    let j0 = match skip_body_attrs(g, i0, bad) {
        Ok(j0) => j0,
        Err(e) => {
            return Err(e);
        },
    };
    let skip_pub = j0 < g.len() && g[j0].is_ident("pub") && j0 + 1 < g.len() && matches!(
        &g[j0 + 1].kind,
        TokKind::Ident(_),
    );
    let j = if skip_pub {
        j0 + 1
    } else {
        j0
    };
    if j >= g.len() {
        return Err(ExpandError { span: 0, kind: bad, at_end: true });
    }
    match &g[j].kind {
        TokKind::Ident(name) => {
            if j + 1 >= g.len() || !g[j + 1].is_punct(':') {
                return Err(ExpandError { span: g[j].span, kind: bad, at_end: false });
            }
            let e = param_end(g, j + 2);
            if e == j + 2 {
                return Err(ExpandError { span: g[j + 1].span, kind: bad, at_end: false });
            }
            let mut ty: Vec<Token> = Vec::new();
            push_range(&mut ty, g, j + 2, e);
            let f = Field { name: name.clone(), ty };
            let next = if e >= g.len() {
                g.len()
            } else {
                e + 1
            };
            match parse_fields(g, next, bad) {
                Ok(mut rest) => {
                    proof {
                        lemma_seq_view_insert_front(rest@, f);
                        assert(stream_view(f.ty@) =~= s.subrange(j + 2, e as int));
                        assert(f@ == (SpecField {
                            name: s[j as int].kind->Ident_0,
                            ty: s.subrange(j + 2, e as int),
                        }));
                        assert(seq![f@] + seq_view(rest@) =~= seq_view(rest@.insert(0, f)));
                    }
                    rest.insert(0, f);
                    Ok(rest)
                },
                Err(x) => Err(x),
            }
        },
        _ => Err(ExpandError { span: g[j].span, kind: bad, at_end: false }),
    }
}

/// The executable variant-list parser.
fn parse_variants(v: &Vec<Token>, i0: usize) -> (r: Result<Vec<Variant>, ExpandError>)
    requires
        i0 <= v@.len(),
    ensures
        match r {
            Ok(vs) => spec_parse_variants(stream_view(v@), i0 as int) == Ok::<_, ExpandError>(
                seq_view(vs@),
            ),
            Err(e) => spec_parse_variants(stream_view(v@), i0 as int) == Err::<
                Seq<SpecVariant>,
                _,
            >(e),
        },
    decreases v@.len() - i0,
{
    broadcast use lemma_seq_view_index, lemma_seq_view_len;

    let ghost s = stream_view(v@);
    if i0 >= v.len() {
        proof {
            assert(seq_view(Seq::<Variant>::empty()) =~= Seq::<SpecVariant>::empty());
        }
        return Ok(Vec::new());
    }
    let j = match skip_body_attrs(v, i0, ErrorKind::MalformedEnumBody) {
        Ok(j) => j,
        Err(e) => {
            return Err(e);
        },
    };
    if j >= v.len() {
        proof {
            assert(seq_view(Seq::<Variant>::empty()) =~= Seq::<SpecVariant>::empty());
        }
        return Ok(Vec::new());
    }
    match &v[j].kind {
        TokKind::Ident(name) => {
            let name = name.clone();
            let mut k: usize = j + 1;
            let shape: Shape;
            if j + 1 < v.len() && matches!(&v[j + 1].kind, TokKind::Group(_, _)) {
                match &v[j + 1].kind {
                    TokKind::Group(d, inner) => {
                        proof {
                            assert(stream_view(v@)[j + 1].kind->Group_1 =~= stream_view(inner@));
                        }
                        match d {
                            Delim::Paren => {
                                match split_types(inner, 0, ErrorKind::MalformedEnumBody) {
                                    Ok(tys) => {
                                        shape = Shape::Unnamed(tys);
                                    },
                                    Err(e) => {
                                        return Err(e);
                                    },
                                }
                            },
                            Delim::Brace => {
                                match parse_fields(inner, 0, ErrorKind::MalformedEnumBody) {
                                    Ok(fs) => {
                                        shape = Shape::Named(fs);
                                    },
                                    Err(e) => {
                                        return Err(e);
                                    },
                                }
                            },
                            Delim::Bracket => {
                                return Err(
                                    ExpandError {
                                        span: v[j + 1].span,
                                        kind: ErrorKind::MalformedEnumBody,
                                        at_end: false,
                                    },
                                );
                            },
                        }
                    },
                    _ => {
                        proof {
                            assert(false);
                        }
                        shape = Shape::Unit;
                    },
                }
                k = j + 2;
            } else {
                shape = Shape::Unit;
            }
            let variant = Variant { name, shape };
            if k >= v.len() {
                let mut out: Vec<Variant> = Vec::new();
                proof {
                    lemma_seq_view_insert_front(Seq::<Variant>::empty(), variant);
                    assert(seq![variant@] + seq_view(Seq::<Variant>::empty()) =~= seq![variant@]);
                    assert(seq_view(Seq::<Variant>::empty().insert(0, variant)) =~= seq![variant@]);
                }
                out.push(variant);
                proof {
                    assert(out@ =~= Seq::<Variant>::empty().insert(0, variant));
                }
                return Ok(out);
            }
            if !v[k].is_punct(',') {
                return Err(
                    ExpandError {
                        span: v[k].span,
                        kind: ErrorKind::MalformedEnumBody,
                        at_end: false,
                    },
                );
            }
            match parse_variants(v, k + 1) {
                Ok(mut rest) => {
                    proof {
                        lemma_seq_view_insert_front(rest@, variant);
                        assert(seq![variant@] + seq_view(rest@) =~= seq_view(
                            rest@.insert(0, variant),
                        ));
                    }
                    rest.insert(0, variant);
                    Ok(rest)
                },
                Err(x) => Err(x),
            }
        },
        _ => Err(ExpandError { span: v[j].span, kind: ErrorKind::MalformedEnumBody, at_end: false }),
    }
}

/// The executable declaration parser.
fn parse_decl(ts: &Vec<Token>, i0: usize) -> (r: Result<(usize, Decl), ExpandError>)
    requires
        i0 <= ts@.len(),
    ensures
        match r {
            Ok((end, d)) => spec_parse_decl(stream_view(ts@), i0 as int) == Ok::<_, ExpandError>(
                (end as int, d@),
            ) && i0 < end <= ts@.len(),
            Err(e) => spec_parse_decl(stream_view(ts@), i0 as int) == Err::<(int, SpecDecl), _>(e),
        },
{
    let ghost s = stream_view(ts@);
    if i0 >= ts.len() {
        return Err(ExpandError { span: 0, kind: ErrorKind::ExpectedDecl, at_end: true });
    }
    if !matches!(&ts[i0].kind, TokKind::Ident(_)) {
        return Err(ExpandError { span: ts[i0].span, kind: ErrorKind::ExpectedDecl, at_end: false });
    }
    let is_public = ts[i0].is_ident("pub");
    let j = if is_public {
        i0 + 1
    } else {
        i0
    };
    if is_public && j >= ts.len() {
        return Err(ExpandError { span: ts[i0].span, kind: ErrorKind::ExpectedDecl, at_end: true });
    }
    if is_public && !matches!(&ts[j].kind, TokKind::Ident(_)) {
        return Err(ExpandError { span: ts[j].span, kind: ErrorKind::ExpectedDecl, at_end: false });
    }
    let kw_is_enum = ts[j].is_ident("enum");
    let kw_is_struct = ts[j].is_ident("struct");
    let kw_span = ts[j].span;
    if j + 1 >= ts.len() {
        return Err(ExpandError { span: 0, kind: ErrorKind::ExpectedName, at_end: true });
    }
    let name: String = match &ts[j + 1].kind {
        TokKind::Ident(n) => n.clone(),
        _ => {
            return Err(
                ExpandError { span: ts[j + 1].span, kind: ErrorKind::ExpectedName, at_end: false },
            );
        },
    };
    if j + 2 >= ts.len() {
        return Err(
            ExpandError { span: ts[j + 1].span, kind: ErrorKind::ExpectedGenerics, at_end: true },
        );
    }
    if !matches!(&ts[j + 2].kind, TokKind::Punct(_, _)) {
        return Err(
            ExpandError { span: ts[j + 2].span, kind: ErrorKind::ExpectedGenerics, at_end: false },
        );
    }
    if !ts[j + 2].is_punct('<') {
        return Err(
            ExpandError { span: ts[j + 2].span, kind: ErrorKind::ExpectedGenerics, at_end: false },
        );
    }
    let open_span = ts[j + 2].span;
    let close = match scan_generics(ts, j + 3, open_span) {
        Ok(c) => c,
        Err(e) => {
            return Err(e);
        },
    };
    let mut gvec: Vec<Token> = Vec::new();
    push_range(&mut gvec, ts, j + 3, close - 1);
    proof {
        assert(stream_view(gvec@) =~= s.subrange(j + 3, close - 1));
    }
    let params = match parse_params(&gvec, 0) {
        Ok(ps) => ps,
        Err(e) => {
            return Err(e);
        },
    };
    if params.len() == 0 {
        proof {
            broadcast use lemma_seq_view_len;

        }
        return Err(
            ExpandError { span: open_span, kind: ErrorKind::ExpectedGenericArgument, at_end: false },
        );
    }
    proof {
        broadcast use lemma_seq_view_len;

    }
    if close >= ts.len() {
        return Err(
            ExpandError { span: ts[close - 1].span, kind: ErrorKind::ExpectedBody, at_end: true },
        );
    }
    let body_span = ts[close].span;
    let end: usize;
    match &ts[close].kind {
        TokKind::Group(d, _) => {
            if matches!(d, Delim::Paren) {
                if close + 1 >= ts.len() {
                    return Err(
                        ExpandError {
                            span: body_span,
                            kind: ErrorKind::ExpectedSemicolon,
                            at_end: true,
                        },
                    );
                }
                if !ts[close + 1].is_punct(';') {
                    return Err(
                        ExpandError {
                            span: ts[close + 1].span,
                            kind: ErrorKind::ExpectedSemicolon,
                            at_end: false,
                        },
                    );
                }
                end = close + 2;
            } else {
                end = close + 1;
            }
        },
        _ => {
            return Err(
                ExpandError { span: body_span, kind: ErrorKind::ExpectedBody, at_end: false },
            );
        },
    }
    // The kind keyword decides how the body group is read.
    let variants: Vec<Variant>;
    let shape: Shape;
    if kw_is_enum {
        match &ts[close].kind {
            TokKind::Group(d, inner) => {
                if !matches!(d, Delim::Brace) {
                    return Err(
                        ExpandError {
                            span: body_span,
                            kind: ErrorKind::MalformedEnumBody,
                            at_end: false,
                        },
                    );
                }
                proof {
                    assert(stream_view(ts@)[close as int].kind->Group_1 =~= stream_view(inner@));
                }
                match parse_variants(inner, 0) {
                    Ok(vs) => {
                        variants = vs;
                        shape = Shape::Unit;
                    },
                    Err(e) => {
                        return Err(e);
                    },
                }
            },
            _ => {
                proof {
                    assert(false);
                }
                variants = Vec::new();
                shape = Shape::Unit;
            },
        }
    } else if kw_is_struct {
        match &ts[close].kind {
            TokKind::Group(d, inner) => {
                proof {
                    assert(stream_view(ts@)[close as int].kind->Group_1 =~= stream_view(inner@));
                }
                match d {
                    Delim::Paren => match split_types(inner, 0, ErrorKind::MalformedStructBody) {
                        Ok(tys) => {
                            variants = Vec::new();
                            shape = Shape::Unnamed(tys);
                        },
                        Err(e) => {
                            return Err(e);
                        },
                    },
                    Delim::Brace => match parse_fields(inner, 0, ErrorKind::MalformedStructBody) {
                        Ok(fs) => {
                            variants = Vec::new();
                            shape = Shape::Named(fs);
                        },
                        Err(e) => {
                            return Err(e);
                        },
                    },
                    Delim::Bracket => {
                        return Err(
                            ExpandError {
                                span: body_span,
                                kind: ErrorKind::MalformedStructBody,
                                at_end: false,
                            },
                        );
                    },
                }
            },
            _ => {
                proof {
                    assert(false);
                }
                variants = Vec::new();
                shape = Shape::Unit;
            },
        }
    } else {
        return Err(
            ExpandError { span: kw_span, kind: ErrorKind::ExpectedStructOrEnum, at_end: false },
        );
    }
    let mut tokens: Vec<Token> = Vec::new();
    push_range(&mut tokens, ts, i0, end);
    let d = Decl { is_public, is_enum: kw_is_enum, name, params, tokens, variants, shape };
    proof {
        assert(stream_view(d.tokens@) =~= s.subrange(i0 as int, end as int));
        let spec_r = spec_parse_decl(s, i0 as int);
        assert(spec_r is Ok);
        let (se, sd) = spec_r->Ok_0;
        assert(se == end as int);
        assert(sd.is_public == d@.is_public);
        assert(sd.is_enum == d@.is_enum);
        assert(sd.name == d@.name);
        assert(sd.params == d@.params);
        assert(sd.tokens == d@.tokens);
        assert(sd.variants == d@.variants);
        assert(sd.shape == d@.shape);
        assert(spec_parse_decl(s, i0 as int) == Ok::<_, ExpandError>((end as int, d@)));
    }
    Ok((end, d))
}

/// The executable parser for `fn bind(self, f) { ... }`.
fn parse_bind(ts: &Vec<Token>, i0: usize, prev_span: u64) -> (r: Result<
    (usize, BindOp),
    ExpandError,
>)
    requires
        i0 <= ts@.len(),
    ensures
        match r {
            Ok((end, b)) => spec_parse_bind(stream_view(ts@), i0 as int, prev_span) == Ok::<
                _,
                ExpandError,
            >((end as int, b@)) && i0 < end <= ts@.len(),
            Err(e) => spec_parse_bind(stream_view(ts@), i0 as int, prev_span) == Err::<
                (int, SpecBindOp),
                _,
            >(e),
        },
{
    let ghost s = stream_view(ts@);
    if i0 >= ts.len() {
        return Err(ExpandError { span: prev_span, kind: ErrorKind::ExpectedFn, at_end: true });
    }
    if !ts[i0].is_ident("fn") {
        return Err(ExpandError { span: ts[i0].span, kind: ErrorKind::ExpectedFn, at_end: false });
    }
    if i0 + 1 >= ts.len() {
        return Err(ExpandError { span: ts[i0].span, kind: ErrorKind::ExpectedBind, at_end: true });
    }
    if !ts[i0 + 1].is_ident("bind") {
        return Err(
            ExpandError { span: ts[i0 + 1].span, kind: ErrorKind::ExpectedBind, at_end: false },
        );
    }
    if i0 + 2 >= ts.len() {
        return Err(
            ExpandError { span: ts[i0 + 1].span, kind: ErrorKind::ExpectedBindArgs, at_end: true },
        );
    }
    let args_span = ts[i0 + 2].span;
    let (self_attrs, f_attrs, f_name) = match &ts[i0 + 2].kind {
        TokKind::Group(d, inner) => {
            if !matches!(d, Delim::Paren) {
                return Err(
                    ExpandError {
                        span: args_span,
                        kind: ErrorKind::ExpectedBindArgs,
                        at_end: false,
                    },
                );
            }
            proof {
                assert(stream_view(ts@)[i0 + 2].kind->Group_1 =~= stream_view(inner@));
            }
            match parse_bind_args(inner) {
                Ok(t) => t,
                Err(e) => {
                    return Err(e);
                },
            }
        },
        _ => {
            return Err(
                ExpandError { span: args_span, kind: ErrorKind::ExpectedBindArgs, at_end: false },
            );
        },
    };
    if i0 + 3 >= ts.len() {
        return Err(ExpandError { span: args_span, kind: ErrorKind::ExpectedOpBody, at_end: true });
    }
    match &ts[i0 + 3].kind {
        TokKind::Group(d, _) => {
            if !matches!(d, Delim::Brace) {
                return Err(
                    ExpandError {
                        span: ts[i0 + 3].span,
                        kind: ErrorKind::ExpectedOpBody,
                        at_end: false,
                    },
                );
            }
        },
        _ => {
            return Err(
                ExpandError {
                    span: ts[i0 + 3].span,
                    kind: ErrorKind::ExpectedOpBody,
                    at_end: false,
                },
            );
        },
    }
    let body = clone_token(&ts[i0 + 3]);
    let b = BindOp { self_attrs, f_attrs, f_name, body };
    proof {
        assert(spec_parse_bind(s, i0 as int, prev_span) == Ok::<_, ExpandError>(
            ((i0 + 4) as int, b@),
        ));
    }
    Ok((i0 + 4, b))
}

/// The executable parser for the inside of `bind`'s argument list.
fn parse_bind_args(inner: &Vec<Token>) -> (r: Result<(Vec<Token>, Vec<Token>, String), ExpandError>)
    ensures
        match r {
            Ok((sa, fa, fname)) => spec_parse_bind_args(stream_view(inner@)) == Ok::<
                _,
                ExpandError,
            >((stream_view(sa@), stream_view(fa@), fname@)),
            Err(e) => spec_parse_bind_args(stream_view(inner@)) == Err::<
                (Seq<SpecToken>, Seq<SpecToken>, Seq<char>),
                _,
            >(e),
        },
{
    let ghost s = stream_view(inner@);
    let n = inner.len();
    let mut self_attrs: Vec<Token> = Vec::new();
    let j = match skip_attributes(inner, 0, &mut self_attrs, false) {
        Ok(j) => j,
        Err(e) => {
            return Err(e);
        },
    };
    proof {
        assert(j < inner@.len());
        assert(stream_view(self_attrs@) =~= s.subrange(0, j as int));
    }
    if !matches!(&inner[j].kind, TokKind::Ident(_)) {
        return Err(
            ExpandError { span: inner[j].span, kind: ErrorKind::ExpectedSelf, at_end: false },
        );
    }
    if !inner[j].is_ident("self") {
        return Err(
            ExpandError { span: inner[j].span, kind: ErrorKind::ExpectedSelf, at_end: false },
        );
    }
    if j + 1 >= n {
        return Err(
            ExpandError { span: inner[j].span, kind: ErrorKind::ExpectedComma, at_end: true },
        );
    }
    if !matches!(&inner[j + 1].kind, TokKind::Punct(_, _)) {
        return Err(
            ExpandError { span: inner[j + 1].span, kind: ErrorKind::ExpectedComma, at_end: false },
        );
    }
    if !inner[j + 1].is_punct(',') {
        return Err(
            ExpandError { span: inner[j + 1].span, kind: ErrorKind::ExpectedComma, at_end: false },
        );
    }
    let mut f_attrs: Vec<Token> = Vec::new();
    let k = match skip_attributes(inner, j + 2, &mut f_attrs, false) {
        Ok(k) => k,
        Err(e) => {
            return Err(e);
        },
    };
    proof {
        assert(stream_view(f_attrs@) =~= s.subrange(j + 2, k as int));
    }
    match &inner[k].kind {
        TokKind::Ident(f_name) => Ok((self_attrs, f_attrs, f_name.clone())),
        _ => Err(ExpandError { span: inner[k].span, kind: ErrorKind::ExpectedF, at_end: false }),
    }
}

/// The executable parser for `fn consume(a) { ... }`.
fn parse_consume(ts: &Vec<Token>, i0: usize, prev_span: u64) -> (r: Result<
    (usize, ConsumeOp),
    ExpandError,
>)
    requires
        i0 <= ts@.len(),
    ensures
        match r {
            Ok((end, c)) => spec_parse_consume(stream_view(ts@), i0 as int, prev_span) == Ok::<
                _,
                ExpandError,
            >((end as int, c@)) && i0 < end <= ts@.len(),
            Err(e) => spec_parse_consume(stream_view(ts@), i0 as int, prev_span) == Err::<
                (int, SpecConsumeOp),
                _,
            >(e),
        },
{
    let ghost s = stream_view(ts@);
    if i0 >= ts.len() {
        return Err(ExpandError { span: prev_span, kind: ErrorKind::ExpectedFn, at_end: true });
    }
    if !ts[i0].is_ident("fn") {
        return Err(ExpandError { span: ts[i0].span, kind: ErrorKind::ExpectedFn, at_end: false });
    }
    if i0 + 1 >= ts.len() {
        return Err(
            ExpandError { span: ts[i0].span, kind: ErrorKind::ExpectedConsume, at_end: true },
        );
    }
    if !ts[i0 + 1].is_ident("consume") {
        return Err(
            ExpandError { span: ts[i0 + 1].span, kind: ErrorKind::ExpectedConsume, at_end: false },
        );
    }
    if i0 + 2 >= ts.len() {
        return Err(
            ExpandError {
                span: ts[i0 + 1].span,
                kind: ErrorKind::ExpectedConsumeArgs,
                at_end: true,
            },
        );
    }
    let args_span = ts[i0 + 2].span;
    let (a_attrs, a_name) = match &ts[i0 + 2].kind {
        TokKind::Group(d, inner) => {
            if !matches!(d, Delim::Paren) {
                return Err(
                    ExpandError {
                        span: args_span,
                        kind: ErrorKind::ExpectedConsumeArgs,
                        at_end: false,
                    },
                );
            }
            proof {
                assert(stream_view(ts@)[i0 + 2].kind->Group_1 =~= stream_view(inner@));
            }
            let mut a_attrs: Vec<Token> = Vec::new();
            let j = match skip_attributes(inner, 0, &mut a_attrs, false) {
                Ok(j) => j,
                Err(e) => {
                    return Err(e);
                },
            };
            proof {
                assert(stream_view(a_attrs@) =~= stream_view(inner@).subrange(0, j as int));
            }
            match &inner[j].kind {
                TokKind::Ident(a_name) => (a_attrs, a_name.clone()),
                _ => {
                    return Err(
                        ExpandError {
                            span: inner[j].span,
                            kind: ErrorKind::ExpectedA,
                            at_end: false,
                        },
                    );
                },
            }
        },
        _ => {
            return Err(
                ExpandError {
                    span: args_span,
                    kind: ErrorKind::ExpectedConsumeArgs,
                    at_end: false,
                },
            );
        },
    };
    if i0 + 3 >= ts.len() {
        return Err(ExpandError { span: args_span, kind: ErrorKind::ExpectedOpBody, at_end: true });
    }
    match &ts[i0 + 3].kind {
        TokKind::Group(d, _) => {
            if !matches!(d, Delim::Brace) {
                return Err(
                    ExpandError {
                        span: ts[i0 + 3].span,
                        kind: ErrorKind::ExpectedOpBody,
                        at_end: false,
                    },
                );
            }
        },
        _ => {
            return Err(
                ExpandError {
                    span: ts[i0 + 3].span,
                    kind: ErrorKind::ExpectedOpBody,
                    at_end: false,
                },
            );
        },
    }
    let body = clone_token(&ts[i0 + 3]);
    let c = ConsumeOp { a_attrs, a_name, body };
    proof {
        assert(spec_parse_consume(s, i0 as int, prev_span) == Ok::<_, ExpandError>(
            ((i0 + 4) as int, c@),
        ));
    }
    Ok((i0 + 4, c))
}

/// The diagnostic's text as a specification sequence, one clause per kind.
pub open spec fn spec_message(k: ErrorKind) -> Seq<char> {
    match k {
        ErrorKind::ExpectedDecl => "Expected a data structure definition"@,
        ErrorKind::ExpectedDeclChar => "Expected a data structure definition; found a single character (that is not a '#' before an attribute)"@,
        ErrorKind::ExpectedAttr => "Expected an attribute"@,
        ErrorKind::ExpectedAttrBrackets => "Expected an attribute in [...] brackets"@,
        ErrorKind::NonDocAttribute => "Expected a documentation attribute (only doc comments may precede the definition)"@,
        ErrorKind::MalformedDocAttribute => "Expected a documentation attribute with contents after `=`"@,
        ErrorKind::DocLeadInMissing => "Expected the first doc comment to begin with `Encodes `"@,
        ErrorKind::ExpectedName => "Expected a name"@,
        ErrorKind::ExpectedGenerics => "Expected generics, e.g. `<A>`"@,
        ErrorKind::UnterminatedGenerics => "Unterminated generics"@,
        ErrorKind::GenericsTooDeep => "Call Christopher Nolan: this inception is too deep"@,
        ErrorKind::ExpectedGenericArgument => "Expected at least one generic argument"@,
        ErrorKind::ExpectedBody => "Expected a definition block, e.g. `{...}`"@,
        ErrorKind::ExpectedSemicolon => "Expected a semicolon (after a tuple-struct)"@,
        ErrorKind::ExpectedStructOrEnum => "Expected either `struct` or `enum`"@,
        ErrorKind::MalformedEnumBody => "Expected a list of variants"@,
        ErrorKind::MalformedStructBody => "Expected a list of fields"@,
        ErrorKind::ExpectedFn => "Expected `fn`"@,
        ErrorKind::ExpectedBind => "Expected `bind`"@,
        ErrorKind::ExpectedBindArgs => "Expected arguments immediately after `bind` (no need to repeat the <A: ...> bound)"@,
        ErrorKind::ExpectedSelf => "Expected `self`"@,
        ErrorKind::ExpectedComma => "Expected a comma"@,
        ErrorKind::ExpectedF => "Expected `f`"@,
        ErrorKind::ExpectedConsume => "Expected `consume`"@,
        ErrorKind::ExpectedConsumeArgs => "Expected arguments immediately after `consume` (no need to repeat the <A: ...> bound)"@,
        ErrorKind::ExpectedA => "Expected `a`"@,
        ErrorKind::ExpectedOpBody => "Expected a function definition block (please don't try to specify return type; it's extremely long and will change as Rust evolves)"@,
    }
}

/// The diagnostic's text as a quoted string literal, with the early-end
/// suffix where it applies.
pub open spec fn spec_quoted_message(e: ExpandError) -> Seq<char> {
    "\""@ + spec_message(e.kind) + (if e.at_end {
        " after this"@
    } else {
        Seq::empty()
    }) + "\""@
}

/// A failed expansion's output: `compile_error ! { "..." }`, every token
/// carrying the offending position.
pub open spec fn spec_compile_error(e: ExpandError) -> Seq<SpecToken> {
    seq![
        SpecToken { span: e.span, kind: SpecTokKind::Ident("compile_error"@) },
        SpecToken { span: e.span, kind: SpecTokKind::Punct('!', Spacing::Alone) },
        SpecToken {
            span: e.span,
            kind: SpecTokKind::Group(
                Delim::Brace,
                seq![
                    SpecToken { span: e.span, kind: SpecTokKind::Literal(spec_quoted_message(e)) },
                ],
            ),
        },
    ]
}

/// The whole transformation: skip and validate the documentation prefix,
/// parse the declaration, parse `bind` and `consume`, and assemble the
/// derived output; the first violation aborts with its diagnostic.
pub open spec fn spec_transmute(s: Seq<SpecToken>) -> Result<Seq<SpecToken>, ExpandError> {
    match spec_skip_attrs(s, 0, true, true) {
        Ok(ds) => match spec_parse_decl(s, ds) {
            Ok((de, d)) => match spec_parse_bind(s, de, s[de - 1].span) {
                Ok((be, b)) => match spec_parse_consume(s, be, s[be - 1].span) {
                    Ok((ce, c)) => Ok(
                        crate::synth::spec_synthesize(s.subrange(0, ds), d, b, c),
                    ),
                    Err(x) => Err(x),
                },
                Err(x) => Err(x),
            },
            Err(x) => Err(x),
        },
        Err(x) => Err(x),
    }
}

/// The executable transformation, proved to compute exactly what the grammar
/// and the synthesis specification say.
pub fn transmute(ts: &Vec<Token>) -> (r: Result<Vec<Token>, ExpandError>)
    ensures
        match r {
            Ok(out) => spec_transmute(stream_view(ts@)) == Ok::<_, ExpandError>(stream_view(out@)),
            Err(e) => spec_transmute(stream_view(ts@)) == Err::<Seq<SpecToken>, _>(e),
        },
{
    let ghost s = stream_view(ts@);
    let mut out: Vec<Token> = Vec::new();
    let ds = match skip_attributes(ts, 0, &mut out, true) {
        Ok(ds) => ds,
        Err(e) => {
            return Err(e);
        },
    };
    let (de, d) = match parse_decl(ts, ds) {
        Ok(p) => p,
        Err(e) => {
            return Err(e);
        },
    };
    proof {
        broadcast use lemma_seq_view_len;

        assert(d@.params.len() >= 1) by {
            if spec_parse_decl(s, ds as int) matches Ok(p) {
            }
        }
    }
    let (be, b) = match parse_bind(ts, de, ts[de - 1].span) {
        Ok(p) => p,
        Err(e) => {
            return Err(e);
        },
    };
    let (ce, c) = match parse_consume(ts, be, ts[be - 1].span) {
        Ok(p) => p,
        Err(e) => {
            return Err(e);
        },
    };
    proof {
        assert(stream_view(out@) =~= s.subrange(0, ds as int));
    }
    crate::synth::emit_synthesis(&mut out, &d, &b, &c);
    Ok(out)
}

/// Build the `compile_error ! { "..." }` stream for a diagnostic.
fn compile_error_tokens(e: &ExpandError) -> (r: Vec<Token>)
    ensures
        stream_view(r@) == spec_compile_error(*e),
{
    let quote = "\"".to_owned();
    let with_msg = quote.concat(e.message());
    let with_suffix = if e.at_end {
        with_msg.concat(" after this")
    } else {
        with_msg
    };
    let msg = with_suffix.concat("\"");
    let mut inner: Vec<Token> = Vec::new();
    let lit = Token { span: e.span, kind: TokKind::Literal(msg) };
    proof {
        crate::tokens::lemma_stream_view_push(inner@, lit);
    }
    inner.push(lit);
    proof {
        assert(stream_view(inner@) =~= seq![
            SpecToken { span: e.span, kind: SpecTokKind::Literal(spec_quoted_message(*e)) },
        ]);
    }
    let mut r: Vec<Token> = Vec::new();
    let t0 = Token { span: e.span, kind: TokKind::Ident("compile_error".to_owned()) };
    proof {
        crate::tokens::lemma_stream_view_push(r@, t0);
    }
    r.push(t0);
    let t1 = Token { span: e.span, kind: TokKind::Punct('!', Spacing::Alone) };
    proof {
        crate::tokens::lemma_stream_view_push(r@, t1);
    }
    r.push(t1);
    let t2 = Token { span: e.span, kind: TokKind::Group(Delim::Brace, inner) };
    proof {
        crate::tokens::lemma_stream_view_push(r@, t2);
    }
    r.push(t2);
    proof {
        assert(stream_view(r@) =~= spec_compile_error(*e));
    }
    r
}

/// What one invocation returns to the compiler: the derived output, or a
/// `compile_error` invocation carrying the diagnostic.
pub open spec fn spec_monad(s: Seq<SpecToken>) -> Seq<SpecToken> {
    match spec_transmute(s) {
        Ok(o) => o,
        Err(e) => spec_compile_error(e),
    }
}

/// The macro entry: write the boilerplate for a monad given the minimal
/// definition, or surface the first diagnostic as a compile error at the
/// invocation site.
pub fn monad(ts: &Vec<Token>) -> (r: Vec<Token>)
    ensures
        stream_view(r@) == spec_monad(stream_view(ts@)),
{
    match transmute(ts) {
        Ok(o) => o,
        Err(e) => compile_error_tokens(&e),
    }
}

/// How many more angle brackets open than close in the token range
/// `[i, j)`.
pub open spec fn angle_delta(s: Seq<SpecToken>, i: int, j: int) -> int
    decreases j - i,
{
    if i >= j {
        0
    } else {
        angle_delta(s, i, j - 1) + (if spec_is_punct(s[j - 1], '<') {
            1int
        } else if spec_is_punct(s[j - 1], '>') {
            -1int
        } else {
            0int
        })
    }
}

/// The generic scanner stops exactly where the nesting counter first
/// reaches zero: a scan that comes back `Ok(j)` closed at `j - 1`, the
/// running depth is zero there and only there, so an inner `>` (one that
/// matches an inner `<`) never ends the list early.
pub proof fn lemma_scan_generics_balance(s: Seq<SpecToken>, i: int, depth: int, open_span: u64)
    requires
        0 <= i <= s.len(),
        depth >= 1,
    ensures
        spec_scan_generics(s, i, depth, open_span) matches Ok(j) ==> {
            &&& depth + angle_delta(s, i, j) == 0
            &&& forall|k: int| i <= k < j ==> depth + angle_delta(s, i, k) >= 1
        },
    decreases s.len() - i,
{
    if i < s.len() {
        lemma_scan_generics_balance(s, i + 1, depth + 1, open_span);
        if depth >= 2 {
            lemma_scan_generics_balance(s, i + 1, depth - 1, open_span);
        }
        lemma_scan_generics_balance(s, i + 1, depth, open_span);
        match spec_scan_generics(s, i, depth, open_span) {
            Ok(j) => {
                lemma_scan_generics_bounds(s, i, depth, open_span);
                assert(angle_delta(s, i, i) == 0);
                assert forall|k: int| i <= k < j implies depth + angle_delta(s, i, k) >= 1 by {
                    if k > i {
                        lemma_angle_delta_shift(s, i, k);
                    }
                }
                lemma_angle_delta_shift(s, i, j);
            },
            Err(_) => {},
        }
    }
}

/// Splitting the count at the first token.
proof fn lemma_angle_delta_shift(s: Seq<SpecToken>, i: int, j: int)
    requires
        0 <= i < j <= s.len(),
    ensures
        angle_delta(s, i, j) == angle_delta(s, i + 1, j) + (if spec_is_punct(s[i], '<') {
            1int
        } else if spec_is_punct(s[i], '>') {
            -1int
        } else {
            0int
        }),
    decreases j - i,
{
    if j > i + 1 {
        lemma_angle_delta_shift(s, i, j - 1);
        assert(angle_delta(s, i, j) == angle_delta(s, i, j - 1) + (if spec_is_punct(s[j - 1], '<') {
            1int
        } else if spec_is_punct(s[j - 1], '>') {
            -1int
        } else {
            0int
        }));
        assert(angle_delta(s, i + 1, j) == angle_delta(s, i + 1, j - 1) + (if spec_is_punct(
            s[j - 1],
            '<',
        ) {
            1int
        } else if spec_is_punct(s[j - 1], '>') {
            -1int
        } else {
            0int
        }));
    } else {
        assert(angle_delta(s, i, j) == angle_delta(s, i, i) + (if spec_is_punct(s[i], '<') {
            1int
        } else if spec_is_punct(s[i], '>') {
            -1int
        } else {
            0int
        }));
        assert(angle_delta(s, i + 1, j) == 0);
    }
}

/// The documentation gate: an invocation whose first attribute is a doc
/// attribute without the mandated lead-in phrase is rejected with the
/// doc-convention diagnostic at the literal, whatever else the input holds.
pub proof fn lemma_doc_gate(s: Seq<SpecToken>)
    requires
        s.len() >= 2,
        spec_is_punct(s[0], '#'),
        s[1].kind matches SpecTokKind::Group(d, inner) && d == Delim::Bracket && is_doc_attr(inner),
        !has_lead_in(doc_attr_text(s[1].kind->Group_1)),
    ensures
        spec_transmute(s) == Err::<Seq<SpecToken>, ExpandError>(
            ExpandError {
                span: s[1].kind->Group_1[2].span,
                kind: ErrorKind::DocLeadInMissing,
                at_end: false,
            },
        ),
{
}

} // verus!
