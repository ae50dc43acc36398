use vstd::prelude::*;

use crate::token::{
    first_stop, is_ident, is_punct, lemma_first_stop_agree, span_end, take_span, take_token,
    token_is_ident, token_is_punct, unread_from, Delimiter, SpanEnd, Token,
};

verus! {

/// A type, kept as written: tokens taken verbatim from a declaration, or
/// the source text of a string option.
pub enum Type {
    Tokens(Vec<Token>),
    Source(String),
}

pub enum TypeView {
    Tokens(Seq<Token>),
    Source(Seq<char>),
}

impl View for Type {
    type V = TypeView;

    open spec fn view(&self) -> TypeView {
        match self {
            Type::Tokens(v) => TypeView::Tokens(v@),
            Type::Source(s) => TypeView::Source(s@),
        }
    }
}

/// An outer `#[...]` or inner `#![...]` attribute, with the tokens between the brackets.
pub struct Attribute {
    pub inner: bool,
    pub body: Vec<Token>,
}

impl Attribute {
    /// Whether this is a doc comment, `#[doc ...]`: those stay on the owned
    /// type and are not copied to the borrowed one.
    pub fn is_doc(&self) -> (r: bool)
        ensures
            r == (self.body@.len() > 0 && is_ident(self.body@[0], "doc"@)),
    {
        self.body.len() > 0 && token_is_ident(&self.body[0], "doc")
    }
}

/// `pub`, or `pub(...)` with the tokens between the parentheses.
pub enum Vis {
    Pub,
    PubIn(Vec<Token>),
}

pub struct NamedField {
    pub attrs: Vec<Attribute>,
    pub vis: Option<Vis>,
    pub ident: String,
    pub ty: Type,
}

pub struct UnnamedField {
    pub attrs: Vec<Attribute>,
    pub vis: Option<Vis>,
    pub ty: Type,
}

pub enum Fields {
    Named(Vec<NamedField>),
    Unnamed(Vec<UnnamedField>),
    /// No field list at all: `struct Name;`.
    Unit,
}

/// A struct declaration; generics and where clause are kept verbatim.
pub struct ItemStruct {
    pub attrs: Vec<Attribute>,
    pub vis: Option<Vis>,
    pub ident: String,
    /// The tokens between `<` and `>`.
    pub generics: Option<Vec<Token>>,
    /// The tokens after `where`.
    pub where_clause: Option<Vec<Token>>,
    pub fields: Fields,
}

/// Why a declaration did not parse, with the position of the token at fault.
pub struct ParseError {
    pub position: usize,
}

impl ItemStruct {
    pub open spec fn field_count(&self) -> nat {
        match self.fields {
            Fields::Named(v) => v@.len(),
            Fields::Unnamed(v) => v@.len(),
            Fields::Unit => 0,
        }
    }

    /// Whether the struct has no fields.
    pub fn is_empty(&self) -> (r: bool)
        ensures
            r == (self.field_count() == 0),
    {
        match &self.fields {
            Fields::Named(f) => f.len() == 0,
            Fields::Unnamed(f) => f.len() == 0,
            Fields::Unit => true,
        }
    }
}

/// The attribute at `i` covers `#`, an optional `!` and a bracket group.
pub open spec fn attr_len(toks: Seq<Token>, i: int) -> int {
    if 0 <= i && i + 1 < toks.len() && is_punct(toks[i], '#') {
        if toks[i + 1] matches Token::Group(Delimiter::Bracket, _) {
            2
        } else if is_punct(toks[i + 1], '!') && i + 2 < toks.len() && (toks[i + 2] matches Token::Group(
            Delimiter::Bracket,
            _,
        )) {
            3
        } else {
            0
        }
    } else {
        0
    }
}

/// Where the run of attributes that starts at `i` ends.
pub open spec fn attrs_end(toks: Seq<Token>, i: int) -> int
    decreases toks.len() - i,
{
    if 0 <= i < toks.len() && attr_len(toks, i) > 0 {
        attrs_end(toks, i + attr_len(toks, i))
    } else {
        i
    }
}

/// The attributes in the run that starts at `i`, in order.
pub open spec fn attrs_from(toks: Seq<Token>, i: int) -> Seq<Attribute>
    decreases toks.len() - i,
{
    if 0 <= i < toks.len() && attr_len(toks, i) > 0 {
        match toks[i + attr_len(toks, i) - 1] {
            Token::Group(_, c) => seq![Attribute { inner: attr_len(toks, i) == 3, body: c }]
                + attrs_from(toks, i + attr_len(toks, i)),
            _ => Seq::empty(),
        }
    } else {
        Seq::empty()
    }
}

/// The visibility that may start at `i`.
pub open spec fn vis_at(toks: Seq<Token>, i: int) -> Option<Vis> {
    if 0 <= i < toks.len() && is_ident(toks[i], "pub"@) {
        if i + 1 < toks.len() {
            match toks[i + 1] {
                Token::Group(Delimiter::Parenthesis, c) => Some(Vis::PubIn(c)),
                _ => Some(Vis::Pub),
            }
        } else {
            Some(Vis::Pub)
        }
    } else {
        None
    }
}

/// Where the visibility that may start at `i` ends.
pub open spec fn vis_end(toks: Seq<Token>, i: int) -> int {
    if 0 <= i < toks.len() && is_ident(toks[i], "pub"@) {
        if i + 1 < toks.len() && (toks[i + 1] matches Token::Group(Delimiter::Parenthesis, _)) {
            i + 2
        } else {
            i + 1
        }
    } else {
        i
    }
}

proof fn lemma_attrs_end_ge(toks: Seq<Token>, i: int)
    ensures
        attrs_end(toks, i) >= i,
        0 <= i <= toks.len() ==> attrs_end(toks, i) <= toks.len(),
    decreases toks.len() - i,
{
    if 0 <= i < toks.len() && attr_len(toks, i) > 0 {
        lemma_attrs_end_ge(toks, i + attr_len(toks, i));
    }
}

/// Where the type of the field that starts at `i` begins: after its
/// attributes, its visibility and, for a named field, `name :`.
pub open spec fn type_start(toks: Seq<Token>, i: int, named: bool) -> int {
    let b = vis_end(toks, attrs_end(toks, i));
    if named {
        b + 2
    } else {
        b
    }
}

/// A named field has `name :` before its type.
pub open spec fn has_field_name(toks: Seq<Token>, i: int) -> bool {
    let b = vis_end(toks, attrs_end(toks, i));
    b + 1 < toks.len() && toks[b] is Ident && is_punct(toks[b + 1], ':')
}

/// For each of the comma-separated fields from position `i` on: where the
/// field starts, and where its type starts and ends; `None` where the tokens
/// are not such a list.
pub open spec fn fields_from(toks: Seq<Token>, i: int, named: bool) -> Option<Seq<(int, int, int)>>
    decreases toks.len() - i,
    via fields_from_decreases
{
    if i < 0 || i >= toks.len() {
        Some(Seq::empty())
    } else if named && !has_field_name(toks, i) {
        None
    } else {
        let s = type_start(toks, i, named);
        let e = first_stop(toks, s, SpanEnd::Type, s);
        if e <= s || (e < toks.len() && !is_punct(toks[e], ',')) {
            None
        } else if e < toks.len() {
            match fields_from(toks, e + 1, named) {
                Some(rest) => Some(seq![(i, s, e)] + rest),
                None => None,
            }
        } else {
            Some(seq![(i, s, e)])
        }
    }
}

#[via_fn]
proof fn fields_from_decreases(toks: Seq<Token>, i: int, named: bool) {
    if 0 <= i < toks.len() {
        lemma_attrs_end_ge(toks, i);
    }
}

/// Position of the `struct` keyword of a declaration.
pub open spec fn keyword_at(toks: Seq<Token>) -> int {
    vis_end(toks, attrs_end(toks, 0))
}

fn parse_attrs(toks: &mut Vec<Token>, i: usize, Ghost(orig): Ghost<Seq<Token>>) -> (r: (
    Vec<Attribute>,
    usize,
))
    requires
        i <= orig.len(),
        unread_from(old(toks)@, orig, i as int),
    ensures
        i <= r.1 <= orig.len(),
        r.1 == attrs_end(orig, i as int),
        r.0@ == attrs_from(orig, i as int),
        unread_from(final(toks)@, orig, r.1 as int),
{
    let mut out: Vec<Attribute> = Vec::new();
    let mut k: usize = i;
    let n = toks.len();
    while k < n && k + 1 < n && token_is_punct(&toks[k], '#')
        invariant
            i <= k <= n == orig.len() == toks@.len(),
            unread_from(toks@, orig, k as int),
            attrs_end(orig, i as int) == attrs_end(orig, k as int),
            attrs_from(orig, i as int) == out@ + attrs_from(orig, k as int),
        decreases n - k,
    {
        let inner = token_is_punct(&toks[k + 1], '!');
        let at = if inner {
            k + 2
        } else {
            k + 1
        };
        if at >= n || !(toks[at] matches Token::Group(Delimiter::Bracket, _)) {
            assert(attr_len(orig, k as int) == 0);
            assert(out@ + Seq::<Attribute>::empty() =~= out@);
            return (out, k);
        }
        let body = match take_token(toks, at) {
            Token::Group(_, body) => body,
            _ => Vec::new(),
        };
        let ghost before = out@;
        out.push(Attribute { inner, body });
        proof {
            assert(before + (seq![out@.last()] + attrs_from(orig, at + 1)) =~= out@ + attrs_from(
                orig,
                at + 1,
            ));
        }
        k = at + 1;
    }
    proof {
        if k < n {
            assert(attr_len(orig, k as int) == 0);
        }
    }
    assert(out@ + Seq::<Attribute>::empty() =~= out@);
    (out, k)
}

fn parse_vis(toks: &mut Vec<Token>, i: usize, Ghost(orig): Ghost<Seq<Token>>) -> (r: (
    Option<Vis>,
    usize,
))
    requires
        i <= orig.len(),
        unread_from(old(toks)@, orig, i as int),
    ensures
        i <= r.1 <= orig.len(),
        r.1 == vis_end(orig, i as int),
        r.0 == vis_at(orig, i as int),
        unread_from(final(toks)@, orig, r.1 as int),
{
    let n = toks.len();
    if i < n && token_is_ident(&toks[i], "pub") {
        if i + 1 < n && (toks[i + 1] matches Token::Group(Delimiter::Parenthesis, _)) {
            match take_token(toks, i + 1) {
                Token::Group(_, c) => (Some(Vis::PubIn(c)), i + 2),
                _ => (Some(Vis::Pub), i + 2),
            }
        } else {
            (Some(Vis::Pub), i + 1)
        }
    } else {
        (None, i)
    }
}

/// Parses the type that starts at `i`: it must be non-empty and end at a
/// comma or at the end of the list.
fn parse_field_type(toks: &mut Vec<Token>, i: usize, Ghost(orig): Ghost<Seq<Token>>) -> (r: Result<
    (Type, usize),
    ParseError,
>)
    requires
        i <= orig.len(),
        unread_from(old(toks)@, orig, i as int),
    ensures
        ({
            let e = first_stop(orig, i as int, SpanEnd::Type, i as int);
            (e <= i || (e < orig.len() && !is_punct(orig[e], ','))) <==> r is Err
        }),
        r matches Ok((t, e)) ==> e == first_stop(orig, i as int, SpanEnd::Type, i as int) && i < e
            <= orig.len() && t@ == TypeView::Tokens(orig.subrange(i as int, e as int)) && unread_from(
            final(toks)@,
            orig,
            e as int,
        ) && (e < orig.len() ==> is_punct(orig[e as int], ',')),
{
    let e = span_end(toks, i, SpanEnd::Type);
    proof {
        lemma_first_stop_agree(toks@, orig, i as int, SpanEnd::Type, i as int);
    }
    if e == i {
        return Err(ParseError { position: i });
    }
    if e < toks.len() && !token_is_punct(&toks[e], ',') {
        return Err(ParseError { position: e });
    }
    let ty = take_span(toks, i, e);
    assert(ty@ =~= orig.subrange(i as int, e as int));
    Ok((Type::Tokens(ty), e))
}

pub open spec fn prepend_spans(front: Seq<(int, int, int)>, rest: Option<Seq<(int, int, int)>>) -> Option<
    Seq<(int, int, int)>,
> {
    match rest {
        Some(r) => Some(front + r),
        None => None,
    }
}

/// The named fields hold, in order, the attributes, visibility, names and
/// types that the spans give.
pub open spec fn named_fields_match(v: Seq<NamedField>, toks: Seq<Token>, spans: Seq<(int, int, int)>) -> bool {
    &&& v.len() == spans.len()
    &&& forall|k: int|
        0 <= k < v.len() ==> {
            &&& (#[trigger] v[k]).ty@ == TypeView::Tokens(toks.subrange(spans[k].1, spans[k].2))
            &&& toks[spans[k].1 - 2] == Token::Ident(v[k].ident)
            &&& v[k].attrs@ == attrs_from(toks, spans[k].0)
            &&& v[k].vis == vis_at(toks, attrs_end(toks, spans[k].0))
        }
}

/// The unnamed fields hold, in order, the attributes, visibility and types
/// that the spans give.
pub open spec fn unnamed_fields_match(v: Seq<UnnamedField>, toks: Seq<Token>, spans: Seq<(int, int, int)>) -> bool {
    &&& v.len() == spans.len()
    &&& forall|k: int|
        0 <= k < v.len() ==> {
            &&& (#[trigger] v[k]).ty@ == TypeView::Tokens(toks.subrange(spans[k].1, spans[k].2))
            &&& v[k].attrs@ == attrs_from(toks, spans[k].0)
            &&& v[k].vis == vis_at(toks, attrs_end(toks, spans[k].0))
        }
}

/// Parses a comma-separated field list, named (`name: Type`) or not; a
/// trailing comma is allowed.
pub fn parse_fields(content: Vec<Token>, named: bool) -> (r: Result<Fields, ParseError>)
    ensures
        match fields_from(content@, 0, named) {
            None => r is Err,
            Some(spans) => r matches Ok(f) && match f {
                Fields::Named(v) => named && named_fields_match(v@, content@, spans),
                Fields::Unnamed(v) => !named && unnamed_fields_match(v@, content@, spans),
                Fields::Unit => false,
            },
        },
{
    let ghost orig = content@;
    let mut toks = content;
    let n = toks.len();
    let mut with_names: Vec<NamedField> = Vec::new();
    let mut without: Vec<UnnamedField> = Vec::new();
    let ghost mut spans: Seq<(int, int, int)> = Seq::empty();
    let mut k: usize = 0;
    while k < n
        invariant
            orig == content@,
            k <= n == orig.len() == toks@.len(),
            unread_from(toks@, orig, k as int),
            fields_from(orig, 0, named) == prepend_spans(spans, fields_from(orig, k as int, named)),
            named ==> named_fields_match(with_names@, orig, spans),
            !named ==> unnamed_fields_match(without@, orig, spans),
        decreases n - k,
    {
        let (attrs, a) = parse_attrs(&mut toks, k, Ghost(orig));
        let (vis, b) = parse_vis(&mut toks, a, Ghost(orig));
        let ghost step = fields_from(orig, k as int, named);
        if named {
            if !(b < n && b + 1 < n && (toks[b] matches Token::Ident(_)) && token_is_punct(&toks[b + 1], ':')) {
                assert(step is None);
                return Err(ParseError { position: b });
            }
            let ident = match take_token(&mut toks, b) {
                Token::Ident(s) => s,
                _ => String::new(),
            };
            let (ty, e) = match parse_field_type(&mut toks, b + 2, Ghost(orig)) {
                Ok(x) => x,
                Err(err) => {
                    assert(step is None);
                    return Err(err);
                },
            };
            let ghost before = with_names@;
            with_names.push(NamedField { attrs, vis, ident, ty });
            proof {
                let sp = seq![(k as int, b + 2, e as int)];
                if e < n {
                    if let Some(rest) = fields_from(orig, e + 1, named) {
                        assert(spans + (sp + rest) =~= (spans + sp) + rest);
                    }
                } else {
                    assert((spans + sp) + Seq::<(int, int, int)>::empty() =~= spans + sp);
                }
                spans = spans + sp;
                assert forall|j: int| 0 <= j < with_names@.len() implies {
                    &&& (#[trigger] with_names@[j]).ty@ == TypeView::Tokens(orig.subrange(spans[j].1, spans[j].2))
                    &&& orig[spans[j].1 - 2] == Token::Ident(with_names@[j].ident)
                    &&& with_names@[j].attrs@ == attrs_from(orig, spans[j].0)
                    &&& with_names@[j].vis == vis_at(orig, attrs_end(orig, spans[j].0))
                } by {
                    if j < before.len() {
                        assert(with_names@[j] == before[j]);
                    }
                }
            }
            k = if e < n {
                e + 1
            } else {
                n
            };
        } else {
            let (ty, e) = match parse_field_type(&mut toks, b, Ghost(orig)) {
                Ok(x) => x,
                Err(err) => {
                    assert(step is None);
                    return Err(err);
                },
            };
            let ghost before = without@;
            without.push(UnnamedField { attrs, vis, ty });
            proof {
                let sp = seq![(k as int, b as int, e as int)];
                if e < n {
                    if let Some(rest) = fields_from(orig, e + 1, named) {
                        assert(spans + (sp + rest) =~= (spans + sp) + rest);
                    }
                } else {
                    assert((spans + sp) + Seq::<(int, int, int)>::empty() =~= spans + sp);
                }
                spans = spans + sp;
                assert forall|j: int| 0 <= j < without@.len() implies {
                    &&& (#[trigger] without@[j]).ty@ == TypeView::Tokens(orig.subrange(spans[j].1, spans[j].2))
                    &&& without@[j].attrs@ == attrs_from(orig, spans[j].0)
                    &&& without@[j].vis == vis_at(orig, attrs_end(orig, spans[j].0))
                } by {
                    if j < before.len() {
                        assert(without@[j] == before[j]);
                    }
                }
            }
            k = if e < n {
                e + 1
            } else {
                n
            };
        }
    }
    assert(spans + Seq::<(int, int, int)>::empty() =~= spans);
    if named {
        Ok(Fields::Named(with_names))
    } else {
        Ok(Fields::Unnamed(without))
    }
}

/// Where the parts of a declaration stand.
pub struct DeclShape {
    /// The span between `<` and `>`.
    pub generics: Option<(int, int)>,
    /// The span after `where`.
    pub where_clause: Option<(int, int)>,
    /// Position of the field group, or of the `;` of a fieldless declaration.
    pub fields_at: int,
    /// Whether the fields are named; `None` for a fieldless declaration.
    pub named: Option<bool>,
}

/// The generics that may start at `k`, and where what follows them starts.
pub open spec fn after_generics(toks: Seq<Token>, k: int) -> Option<(Option<(int, int)>, int)> {
    if 0 <= k < toks.len() && is_punct(toks[k], '<') {
        let e = first_stop(toks, k + 1, SpanEnd::Angle, k + 1);
        if e < toks.len() {
            Some((Some((k + 1, e)), e + 1))
        } else {
            None
        }
    } else {
        Some((None, k))
    }
}

/// The where clause that may start at `k`, and where what follows it starts.
pub open spec fn after_where(toks: Seq<Token>, k: int) -> (Option<(int, int)>, int) {
    if 0 <= k < toks.len() && is_ident(toks[k], "where"@) {
        let e = first_stop(toks, k + 1, SpanEnd::Where, k + 1);
        (Some((k + 1, e)), e)
    } else {
        (None, k)
    }
}

/// The field group at `b` ends the declaration, or is followed by `;` alone.
pub open spec fn ends_after(toks: Seq<Token>, b: int) -> bool {
    b + 1 == toks.len() || (b + 2 == toks.len() && is_punct(toks[b + 1], ';'))
}

/// The shape of a struct declaration; `None` where the tokens are not one.
pub open spec fn decl_shape(toks: Seq<Token>) -> Option<DeclShape> {
    let k = keyword_at(toks);
    if !(0 <= k && k + 1 < toks.len() && is_ident(toks[k], "struct"@) && toks[k + 1] is Ident) {
        None
    } else {
        match after_generics(toks, k + 2) {
            None => None,
            Some((g, a)) => {
                let (w, b) = after_where(toks, a);
                if b >= toks.len() {
                    None
                } else if is_punct(toks[b], ';') {
                    if b + 1 == toks.len() {
                        Some(DeclShape { generics: g, where_clause: w, fields_at: b, named: None })
                    } else {
                        None
                    }
                } else {
                    match toks[b] {
                        Token::Group(Delimiter::Brace, c) => if fields_from(c@, 0, true) is Some
                            && ends_after(toks, b) {
                            Some(
                                DeclShape {
                                    generics: g,
                                    where_clause: w,
                                    fields_at: b,
                                    named: Some(true),
                                },
                            )
                        } else {
                            None
                        },
                        Token::Group(Delimiter::Parenthesis, c) => if fields_from(c@, 0, false) is Some
                            && ends_after(toks, b) {
                            Some(
                                DeclShape {
                                    generics: g,
                                    where_clause: w,
                                    fields_at: b,
                                    named: Some(false),
                                },
                            )
                        } else {
                            None
                        },
                        _ => None,
                    }
                }
            },
        }
    }
}

pub open spec fn span_matches(got: Option<Vec<Token>>, toks: Seq<Token>, span: Option<(int, int)>) -> bool {
    match span {
        None => got is None,
        Some((s, e)) => got matches Some(v) && v@ == toks.subrange(s, e),
    }
}

/// The declaration's attributes, visibility, name, generics and where
/// clause are those that its shape gives in `toks`.
pub open spec fn header_matches(item: ItemStruct, toks: Seq<Token>, d: DeclShape) -> bool {
    &&& item.attrs@ == attrs_from(toks, 0)
    &&& item.vis == vis_at(toks, attrs_end(toks, 0))
    &&& toks[keyword_at(toks) + 1] == Token::Ident(item.ident)
    &&& span_matches(item.generics, toks, d.generics)
    &&& span_matches(item.where_clause, toks, d.where_clause)
}

/// The fields are those of the field group that the shape gives in `toks`.
pub open spec fn group_fields_match(fields: Fields, toks: Seq<Token>, d: DeclShape) -> bool {
    match d.named {
        None => fields is Unit,
        Some(named) => match toks[d.fields_at] {
            Token::Group(_, c) => match fields {
                Fields::Named(v) => named && named_fields_match(
                    v@,
                    c@,
                    fields_from(c@, 0, true)->Some_0,
                ),
                Fields::Unnamed(v) => !named && unnamed_fields_match(
                    v@,
                    c@,
                    fields_from(c@, 0, false)->Some_0,
                ),
                Fields::Unit => false,
            },
            _ => false,
        },
    }
}

/// The parsed declaration holds what its shape says, taken from `toks`.
pub open spec fn item_matches(item: ItemStruct, toks: Seq<Token>, d: DeclShape) -> bool {
    header_matches(item, toks, d) && group_fields_match(item.fields, toks, d)
}

/// Parses a struct declaration: attributes, visibility, `struct`, name,
/// generics, where clause, and a brace or parenthesis field list or `;`.
pub fn parse_item_struct(input: Vec<Token>) -> (r: Result<ItemStruct, ParseError>)
    ensures
        match decl_shape(input@) {
            None => r is Err,
            Some(d) => r matches Ok(item) && item_matches(item, input@, d),
        },
{
    let ghost orig = input@;
    let mut toks = input;
    let n = toks.len();
    let (attrs, a) = parse_attrs(&mut toks, 0, Ghost(orig));
    let (vis, b) = parse_vis(&mut toks, a, Ghost(orig));
    if !(b < n && b + 1 < n && token_is_ident(&toks[b], "struct") && (toks[b + 1] matches Token::Ident(_))) {
        return Err(ParseError { position: b });
    }
    let ident = match take_token(&mut toks, b + 1) {
        Token::Ident(s) => s,
        _ => String::new(),
    };
    let mut k: usize = b + 2;
    let mut generics: Option<Vec<Token>> = None;
    if k < n && token_is_punct(&toks[k], '<') {
        let e = span_end(&toks, k + 1, SpanEnd::Angle);
        proof {
            lemma_first_stop_agree(toks@, orig, k + 1, SpanEnd::Angle, k + 1);
        }
        if e >= n {
            return Err(ParseError { position: k });
        }
        let g = take_span(&mut toks, k + 1, e);
        assert(g@ =~= orig.subrange(k + 1, e as int));
        generics = Some(g);
        k = e + 1;
    }
    let mut where_clause: Option<Vec<Token>> = None;
    if k < n && token_is_ident(&toks[k], "where") {
        let e = span_end(&toks, k + 1, SpanEnd::Where);
        proof {
            lemma_first_stop_agree(toks@, orig, k + 1, SpanEnd::Where, k + 1);
        }
        let w = take_span(&mut toks, k + 1, e);
        assert(w@ =~= orig.subrange(k + 1, e as int));
        where_clause = Some(w);
        k = e;
    }
    if k >= n {
        return Err(ParseError { position: k });
    }
    let fields = if token_is_punct(&toks[k], ';') {
        if k + 1 < n {
            return Err(ParseError { position: k + 1 });
        }
        Fields::Unit
    } else {
        let named = toks[k] matches Token::Group(Delimiter::Brace, _);
        if !named && !(toks[k] matches Token::Group(Delimiter::Parenthesis, _)) {
            return Err(ParseError { position: k });
        }
        if !(k + 1 == n || (k + 2 == n && token_is_punct(&toks[k + 1], ';'))) {
            return Err(ParseError { position: k + 1 });
        }
        let content = match take_token(&mut toks, k) {
            Token::Group(_, c) => c,
            _ => Vec::new(),
        };
        match parse_fields(content, named) {
            Ok(f) => f,
            Err(_) => return Err(ParseError { position: k }),
        }
    };
    Ok(ItemStruct { attrs, vis, ident, generics, where_clause, fields })
}

} // verus!
