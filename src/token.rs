use vstd::prelude::*;

verus! {

/// The bracket that encloses a token group.
#[derive(PartialEq, Eq, Structural)]
pub enum Delimiter {
    Parenthesis,
    Brace,
    Bracket,
    Invisible,
}

/// One token tree of the input: a group holds the trees between its brackets.
pub enum Token {
    Ident(String),
    /// A punctuation character, and whether it is joined to the next one.
    Punct(char, bool),
    /// A literal as it is written in the source, quotes included.
    Literal(String),
    Group(Delimiter, Vec<Token>),
}

/// Where a verbatim span ends: at a top-level `>` always, and besides
/// at the tokens that the kind names.
#[derive(PartialEq, Eq, Structural)]
pub enum SpanEnd {
    /// A type: ends at `,` or `;`.
    Type,
    /// The inside of `<...>`: ends at the closing `>` only.
    Angle,
    /// A where clause: ends at `;` or at a brace group.
    Where,
}

pub open spec fn is_ident(t: Token, word: Seq<char>) -> bool {
    match t {
        Token::Ident(s) => s@ == word,
        _ => false,
    }
}

pub open spec fn is_punct(t: Token, c: char) -> bool {
    match t {
        Token::Punct(p, _) => p == c,
        _ => false,
    }
}

/// `<` opens one level of angle brackets.
pub open spec fn opens_at(toks: Seq<Token>, k: int) -> bool {
    is_punct(toks[k], '<')
}

/// `>` closes one, unless it ends an arrow `->` inside the span from `start`.
pub open spec fn closes_at(toks: Seq<Token>, start: int, k: int) -> bool {
    &&& is_punct(toks[k], '>')
    &&& !(k > start && toks[k - 1] == Token::Punct('-', true))
}

/// How many angle brackets are open before position `k`, counting from `start`.
pub open spec fn depth(toks: Seq<Token>, start: int, k: int) -> int
    decreases k - start,
{
    if k <= start {
        0
    } else {
        depth(toks, start, k - 1) + if opens_at(toks, k - 1) {
            1int
        } else if closes_at(toks, start, k - 1) {
            -1int
        } else {
            0int
        }
    }
}

pub open spec fn is_end_token(end: SpanEnd, toks: Seq<Token>, start: int, k: int) -> bool {
    ||| closes_at(toks, start, k)
    ||| match end {
        SpanEnd::Type => is_punct(toks[k], ',') || is_punct(toks[k], ';'),
        SpanEnd::Angle => false,
        SpanEnd::Where => is_punct(toks[k], ';') || toks[k] matches Token::Group(
            Delimiter::Brace,
            _,
        ),
    }
}

/// The span from `start` stops at `k`: an end token outside any angle brackets.
pub open spec fn stops_at(toks: Seq<Token>, start: int, end: SpanEnd, k: int) -> bool {
    depth(toks, start, k) == 0 && is_end_token(end, toks, start, k)
}

/// The first stop of the span from `start` at or after `k`, or the end of the input.
pub open spec fn first_stop(toks: Seq<Token>, start: int, end: SpanEnd, k: int) -> int
    decreases toks.len() - k,
{
    if k >= toks.len() {
        toks.len() as int
    } else if stops_at(toks, start, end, k) {
        k
    } else {
        first_stop(toks, start, end, k + 1)
    }
}

/// Two inputs that agree from `start` on have the same depths there.
proof fn lemma_depth_agree(a: Seq<Token>, b: Seq<Token>, start: int, k: int)
    requires
        0 <= start <= k <= a.len() == b.len(),
        forall|m: int| start <= m < a.len() ==> a[m] == b[m],
    ensures
        depth(a, start, k) == depth(b, start, k),
    decreases k - start,
{
    if k > start {
        lemma_depth_agree(a, b, start, k - 1);
    }
}

/// Two inputs that agree from `start` on have their span from `start` end at
/// the same place.
pub proof fn lemma_first_stop_agree(a: Seq<Token>, b: Seq<Token>, start: int, end: SpanEnd, k: int)
    requires
        0 <= start <= k <= a.len() == b.len(),
        forall|m: int| start <= m < a.len() ==> a[m] == b[m],
    ensures
        first_stop(a, start, end, k) == first_stop(b, start, end, k),
    decreases a.len() - k,
{
    if k < a.len() {
        lemma_depth_agree(a, b, start, k);
        lemma_first_stop_agree(a, b, start, end, k + 1);
    }
}

/// `e` is where the verbatim span from `start` ends: the first stop, or the
/// end of the input where there is none.
pub open spec fn is_span_end(toks: Seq<Token>, start: int, end: SpanEnd, e: int) -> bool {
    &&& start <= e <= toks.len()
    &&& forall|k: int| start <= k < e ==> !stops_at(toks, start, end, k)
    &&& e < toks.len() ==> stops_at(toks, start, end, e)
}

/// Tells whether the token is the punctuation character `c`.
pub fn token_is_punct(t: &Token, c: char) -> (r: bool)
    ensures
        r == is_punct(*t, c),
{
    match t {
        Token::Punct(p, _) => *p == c,
        _ => false,
    }
}

/// Tells whether the token is the identifier `word`.
pub fn token_is_ident(t: &Token, word: &str) -> (r: bool)
    ensures
        r == is_ident(*t, word@),
{
    match t {
        Token::Ident(s) => text_eq(s.as_str(), word),
        _ => false,
    }
}

/// Compares two strings character by character.
pub fn text_eq(a: &str, b: &str) -> (r: bool)
    ensures
        r == (a@ == b@),
{
    let n = a.unicode_len();
    if n != b.unicode_len() {
        return false;
    }
    let mut i: usize = 0;
    while i < n
        invariant
            n == a@.len() == b@.len(),
            i <= n,
            forall|j: int| 0 <= j < i ==> a@[j] == b@[j],
        decreases n - i,
    {
        if a.get_char(i) != b.get_char(i) {
            return false;
        }
        i = i + 1;
    }
    assert(a@ =~= b@);
    true
}

fn opens(toks: &Vec<Token>, k: usize) -> (r: bool)
    requires
        k < toks@.len(),
    ensures
        r == opens_at(toks@, k as int),
{
    token_is_punct(&toks[k], '<')
}

fn closes(toks: &Vec<Token>, start: usize, k: usize) -> (r: bool)
    requires
        k < toks@.len(),
    ensures
        r == closes_at(toks@, start as int, k as int),
{
    if !token_is_punct(&toks[k], '>') {
        return false;
    }
    if k <= start {
        return true;
    }
    match &toks[k - 1] {
        Token::Punct(p, joint) => !(*p == '-' && *joint),
        _ => true,
    }
}

fn ends_span(end: &SpanEnd, toks: &Vec<Token>, start: usize, k: usize) -> (r: bool)
    requires
        k < toks@.len(),
    ensures
        r == is_end_token(*end, toks@, start as int, k as int),
{
    if closes(toks, start, k) {
        return true;
    }
    match end {
        SpanEnd::Type => token_is_punct(&toks[k], ',') || token_is_punct(&toks[k], ';'),
        SpanEnd::Angle => false,
        SpanEnd::Where => token_is_punct(&toks[k], ';') || match &toks[k] {
            Token::Group(Delimiter::Brace, _) => true,
            _ => false,
        },
    }
}

/// Finds where the verbatim span that starts at `start` ends, skipping over
/// nested `<...>` pairs without looking inside them.
pub fn span_end(toks: &Vec<Token>, start: usize, end: SpanEnd) -> (r: usize)
    requires
        start <= toks@.len(),
    ensures
        is_span_end(toks@, start as int, end, r as int),
        r == first_stop(toks@, start as int, end, start as int),
{
    let mut k: usize = start;
    let mut open: usize = 0;
    while k < toks.len()
        invariant
            start <= k <= toks@.len(),
            open as int == depth(toks@, start as int, k as int),
            open <= k - start,
            forall|m: int| start <= m < k ==> !stops_at(toks@, start as int, end, m),
            first_stop(toks@, start as int, end, start as int) == first_stop(
                toks@,
                start as int,
                end,
                k as int,
            ),
        decreases toks@.len() - k,
    {
        if open == 0 && ends_span(&end, toks, start, k) {
            return k;
        }
        if opens(toks, k) {
            open = open + 1;
        } else if closes(toks, start, k) {
            open = open - 1;
        }
        k = k + 1;
    }
    k
}

/// `now` still holds the tokens of `orig` from position `from` on.
pub open spec fn unread_from(now: Seq<Token>, orig: Seq<Token>, from: int) -> bool {
    &&& now.len() == orig.len()
    &&& forall|k: int| from <= k < orig.len() ==> now[k] == orig[k]
}

/// Moves the token at `k` out, leaving a blank in its place.
pub fn take_token(toks: &mut Vec<Token>, k: usize) -> (t: Token)
    requires
        k < old(toks)@.len(),
    ensures
        t == old(toks)@[k as int],
        final(toks)@ == old(toks)@.update(k as int, Token::Punct(' ', false)),
{
    let mut t = Token::Punct(' ', false);
    std::mem::swap(&mut t, &mut toks[k]);
    t
}

/// Moves the tokens from `from` up to `to` out, in order.
pub fn take_span(toks: &mut Vec<Token>, from: usize, to: usize) -> (r: Vec<Token>)
    requires
        from <= to <= old(toks)@.len(),
    ensures
        r@ == old(toks)@.subrange(from as int, to as int),
        unread_from(final(toks)@, old(toks)@, to as int),
{
    let ghost orig = toks@;
    let mut r: Vec<Token> = Vec::new();
    let mut k: usize = from;
    while k < to
        invariant
            from <= k <= to <= orig.len(),
            unread_from(toks@, orig, k as int),
            r@ == orig.subrange(from as int, k as int),
        decreases to - k,
    {
        let t = take_token(toks, k);
        r.push(t);
        k = k + 1;
        assert(r@ =~= orig.subrange(from as int, k as int));
    }
    r
}

} // verus!
