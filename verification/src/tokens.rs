//! The lexical model the expansion engine works on: a tree of identifiers,
//! punctuation, literals and bracketed groups, each carrying the span of the
//! source position it came from so that diagnostics can point at it.

use vstd::prelude::*;

verus! {

/// Which bracket pair wraps a group of tokens.
#[derive(Clone, Copy, PartialEq, Eq, Debug)]
pub enum Delim {
    Paren,
    Bracket,
    Brace,
}

/// Whether a punctuation character is glued to the next token (as in the first
/// colon of a path separator) or stands alone.
#[derive(Clone, Copy, PartialEq, Eq, Debug)]
pub enum Spacing {
    Alone,
    Joint,
}

/// One token of the stream.
#[derive(PartialEq, Eq, Debug)]
pub struct Token {
    /// An opaque source position, used only for diagnostics. Synthesized
    /// tokens carry span 0.
    pub span: u64,
    pub kind: TokKind,
}

/// The shape of one token.
#[derive(PartialEq, Eq, Debug)]
pub enum TokKind {
    /// An identifier or keyword, with its text.
    Ident(String),
    /// A single punctuation character.
    Punct(char, Spacing),
    /// A literal, with its text exactly as written (a string literal keeps its
    /// quotes).
    Literal(String),
    /// A bracketed sub-stream.
    Group(Delim, Vec<Token>),
}

/// The mathematical image of a [`Token`]: the same tree with text as
/// sequences of characters, so that specifications can build and compare
/// token streams directly.
#[verifier::ext_equal]
pub struct SpecToken {
    pub span: u64,
    pub kind: SpecTokKind,
}

#[verifier::ext_equal]
pub enum SpecTokKind {
    Ident(Seq<char>),
    Punct(char, Spacing),
    Literal(Seq<char>),
    Group(Delim, Seq<SpecToken>),
}

impl View for Token {
    type V = SpecToken;

    open spec fn view(&self) -> SpecToken
        decreases self,
    {
        SpecToken { span: self.span, kind: self.kind.view() }
    }
}

impl View for TokKind {
    type V = SpecTokKind;

    open spec fn view(&self) -> SpecTokKind
        decreases self,
    {
        match self {
            TokKind::Ident(s) => SpecTokKind::Ident(s@),
            TokKind::Punct(c, sp) => SpecTokKind::Punct(*c, *sp),
            TokKind::Literal(s) => SpecTokKind::Literal(s@),
            TokKind::Group(d, ts) => SpecTokKind::Group(*d, stream_view(ts@)),
        }
    }
}

/// The image of a stream is as long as the stream.
pub broadcast proof fn lemma_stream_view_len(s: Seq<Token>)
    ensures
        #[trigger] stream_view(s).len() == s.len(),
    decreases s,
{
    if s.len() > 0 {
        lemma_stream_view_len(s.drop_first());
        assert(stream_view(s) == seq![s[0]@] + stream_view(s.drop_first()));
        assert(stream_view(s).len() == 1 + stream_view(s.drop_first()).len());
    } else {
        assert(stream_view(s) == Seq::<SpecToken>::empty());
    }
}

/// The image of a stream, read at one index.
pub broadcast proof fn lemma_stream_view_index(s: Seq<Token>, i: int)
    requires
        0 <= i < s.len(),
    ensures
        #[trigger] stream_view(s)[i] == s[i]@,
    decreases s,
{
    lemma_stream_view_len(s);
    assert(stream_view(s) == seq![s[0]@] + stream_view(s.drop_first()));
    if i > 0 {
        lemma_stream_view_index(s.drop_first(), i - 1);
        assert(s.drop_first()[i - 1] == s[i]);
        assert(stream_view(s)[i] == stream_view(s.drop_first())[i - 1]);
    } else {
        assert(stream_view(s)[0] == s[0]@);
    }
}

/// How the image of a stream grows when one token is pushed.
pub proof fn lemma_stream_view_push(s: Seq<Token>, t: Token)
    ensures
        stream_view(s.push(t)) =~= stream_view(s).push(t@),
{
    broadcast use lemma_stream_view_len, lemma_stream_view_index;

    assert forall|i: int| 0 <= i < s.len() + 1 implies stream_view(s.push(t))[i] == stream_view(
        s,
    ).push(t@)[i] by {
        if i < s.len() {
            assert(s.push(t)[i] == s[i]);
        } else {
            assert(s.push(t)[i] == t);
        }
    }
}

/// The image of a whole stream.
pub open spec fn stream_view(ts: Seq<Token>) -> Seq<SpecToken>
    decreases ts,
{
    if ts.len() == 0 {
        Seq::empty()
    } else {
        seq![ts[0]@] + stream_view(ts.drop_first())
    }
}

/// An identifier token with the given text.
pub open spec fn s_ident(text: Seq<char>) -> SpecToken {
    SpecToken { span: 0, kind: SpecTokKind::Ident(text) }
}

/// A punctuation token, spaced alone.
pub open spec fn s_punct(c: char) -> SpecToken {
    SpecToken { span: 0, kind: SpecTokKind::Punct(c, Spacing::Alone) }
}

/// A punctuation token glued to the next one.
pub open spec fn s_punct_joint(c: char) -> SpecToken {
    SpecToken { span: 0, kind: SpecTokKind::Punct(c, Spacing::Joint) }
}

/// A group token with the given delimiter and contents.
pub open spec fn s_group(d: Delim, inner: Seq<SpecToken>) -> SpecToken {
    SpecToken { span: 0, kind: SpecTokKind::Group(d, inner) }
}

/// Does this token spell the given identifier?
pub open spec fn spec_is_ident(t: SpecToken, text: Seq<char>) -> bool {
    t.kind matches SpecTokKind::Ident(s) && s == text
}

/// Is this token the given punctuation character (with either spacing)?
pub open spec fn spec_is_punct(t: SpecToken, c: char) -> bool {
    t.kind matches SpecTokKind::Punct(d, _) && d == c
}

impl Token {
    /// Does this token spell the given identifier?
    pub fn is_ident(&self, text: &str) -> (r: bool)
        ensures
            r == spec_is_ident(self@, text@),
    {
        match &self.kind {
            TokKind::Ident(s) => {
                let o = text.to_owned();
                *s == o
            }
            _ => false,
        }
    }

    /// Is this token the given punctuation character (with either spacing)?
    pub fn is_punct(&self, c: char) -> (r: bool)
        ensures
            r == spec_is_punct(self@, c),
    {
        match &self.kind {
            TokKind::Punct(d, _) => *d == c,
            _ => false,
        }
    }
}

/// A deep copy of one token.
#[verifier::loop_isolation(false)]
pub fn clone_token(t: &Token) -> (r: Token)
    ensures
        r@ == t@,
    decreases t,
{
    let span = t.span;
    match &t.kind {
        TokKind::Ident(s) => Token { span, kind: TokKind::Ident(s.clone()) },
        TokKind::Punct(c, sp) => Token { span, kind: TokKind::Punct(*c, *sp) },
        TokKind::Literal(s) => Token { span, kind: TokKind::Literal(s.clone()) },
        TokKind::Group(d, ts) => {
            let mut inner: Vec<Token> = Vec::new();
            let n = ts.len();
            let mut i: usize = 0;
            while i < n
                invariant
                    n == ts.len(),
                    i <= n,
                    inner.len() == i,
                    forall|k: int| 0 <= k < i ==> inner@[k]@ == #[trigger] ts@[k]@,
                decreases n - i,
            {
                proof {
                    assert(decreases_to!(t => t.kind));
                    assert(decreases_to!(t.kind => t.kind->Group_1));
                    assert(decreases_to!(t.kind->Group_1 => t.kind->Group_1@));
                    assert(decreases_to!(t.kind->Group_1@ => t.kind->Group_1@[i as int]));
                    assert(decreases_to!(t => t.kind->Group_1@[i as int]));
                    assert(ts@[i as int] == t.kind->Group_1@[i as int]);
                }
                let c = clone_token(&ts[i]);
                inner.push(c);
                i += 1;
            }
            proof {
                broadcast use lemma_stream_view_len, lemma_stream_view_index;

                assert(stream_view(inner@) =~= stream_view(ts@));
            }
            Token { span, kind: TokKind::Group(*d, inner) }
        }
    }
}

impl Clone for Token {
    fn clone(&self) -> (r: Self)
        ensures
            r@ == self@,
    {
        clone_token(self)
    }
}

/// Push a freshly made identifier token (span 0).
pub fn push_ident(out: &mut Vec<Token>, text: &str)
    ensures
        stream_view(final(out)@) == stream_view(old(out)@).push(s_ident(text@)),
{
    let t = Token { span: 0, kind: TokKind::Ident(text.to_owned()) };
    proof {
        lemma_stream_view_push(out@, t);
    }
    out.push(t);
}

/// Push a freshly made punctuation token, spaced alone (span 0).
pub fn push_punct(out: &mut Vec<Token>, c: char)
    ensures
        stream_view(final(out)@) == stream_view(old(out)@).push(s_punct(c)),
{
    let t = Token { span: 0, kind: TokKind::Punct(c, Spacing::Alone) };
    proof {
        lemma_stream_view_push(out@, t);
    }
    out.push(t);
}

/// Push a freshly made punctuation token glued to the next (span 0).
pub fn push_punct_joint(out: &mut Vec<Token>, c: char)
    ensures
        stream_view(final(out)@) == stream_view(old(out)@).push(s_punct_joint(c)),
{
    let t = Token { span: 0, kind: TokKind::Punct(c, Spacing::Joint) };
    proof {
        lemma_stream_view_push(out@, t);
    }
    out.push(t);
}

/// Copy the token range `[from, to)` of `ts` onto the end of `out`.
pub fn push_range(out: &mut Vec<Token>, ts: &Vec<Token>, from: usize, to: usize)
    requires
        from <= to <= ts@.len(),
    ensures
        stream_view(final(out)@) == stream_view(old(out)@) + stream_view(ts@).subrange(
            from as int,
            to as int,
        ),
{
    proof {
        broadcast use lemma_stream_view_len;

        assert(stream_view(out@) =~= stream_view(out@) + stream_view(ts@).subrange(
            from as int,
            from as int,
        ));
    }
    let mut i: usize = from;
    while i < to
        invariant
            from <= i <= to <= ts@.len(),
            stream_view(out@) == stream_view(old(out)@) + stream_view(ts@).subrange(
                from as int,
                i as int,
            ),
        decreases to - i,
    {
        let c = clone_token(&ts[i]);
        proof {
            lemma_stream_view_push(out@, c);
        }
        out.push(c);
        proof {
            broadcast use lemma_stream_view_len, lemma_stream_view_index;

            assert(stream_view(ts@).subrange(from as int, i + 1) =~= stream_view(ts@).subrange(
                from as int,
                i as int,
            ).push(stream_view(ts@)[i as int]));
            assert(stream_view(out@) =~= stream_view(old(out)@) + stream_view(ts@).subrange(
                from as int,
                i + 1,
            ));
        }
        i += 1;
    }
}

/// Push a freshly made group token (span 0) holding the given stream.
pub fn push_group(out: &mut Vec<Token>, d: Delim, inner: Vec<Token>)
    ensures
        stream_view(final(out)@) == stream_view(old(out)@).push(s_group(d, stream_view(inner@))),
{
    let t = Token { span: 0, kind: TokKind::Group(d, inner) };
    proof {
        lemma_stream_view_push(out@, t);
    }
    out.push(t);
}

} // verus!
