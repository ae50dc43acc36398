use vstd::prelude::*;

use crate::token::{is_punct, take_token, token_is_punct, unread_from, Delimiter, Token};

verus! {

/// One argument of an attribute: `name = "literal"`, `name(...)` or `name`.
pub enum AttrArg {
    NameValue(String, String),
    List(String, Vec<Token>),
    Path(String),
}

impl AttrArg {
    pub open spec fn spec_name(&self) -> Seq<char> {
        match self {
            AttrArg::NameValue(n, _) => n@,
            AttrArg::List(n, _) => n@,
            AttrArg::Path(n) => n@,
        }
    }

    /// The leading identifier, whatever the shape.
    pub fn name(&self) -> (r: &String)
        ensures
            r@ == self.spec_name(),
    {
        match self {
            AttrArg::NameValue(n, _) => n,
            AttrArg::List(n, _) => n,
            AttrArg::Path(n) => n,
        }
    }

    /// The literal, for the name-value shape only.
    pub fn value(&self) -> (r: Option<&String>)
        ensures
            match self {
                AttrArg::NameValue(_, l) => r == Some(l),
                _ => r is None,
            },
    {
        match self {
            AttrArg::NameValue(_, l) => Some(l),
            _ => None,
        }
    }

    /// The tokens inside the parentheses, for the list shape only.
    pub fn list_contents(&self) -> (r: Option<&Vec<Token>>)
        ensures
            match self {
                AttrArg::List(_, c) => r == Some(c),
                _ => r is None,
            },
    {
        match self {
            AttrArg::List(_, c) => Some(c),
            _ => None,
        }
    }
}

/// The argument that starts at `i`, and the position after it.
pub open spec fn arg_at(toks: Seq<Token>, i: int) -> Option<(AttrArg, int)> {
    if 0 <= i < toks.len() {
        match toks[i] {
            Token::Ident(n) => if i + 1 < toks.len() && is_punct(toks[i + 1], '=') {
                if i + 2 < toks.len() {
                    match toks[i + 2] {
                        Token::Literal(l) => Some((AttrArg::NameValue(n, l), i + 3)),
                        _ => None,
                    }
                } else {
                    None
                }
            } else if i + 1 < toks.len() && toks[i + 1] matches Token::Group(
                Delimiter::Parenthesis,
                _,
            ) {
                match toks[i + 1] {
                    Token::Group(_, c) => Some((AttrArg::List(n, c), i + 2)),
                    _ => None,
                }
            } else {
                Some((AttrArg::Path(n), i + 1))
            },
            _ => None,
        }
    } else {
        None
    }
}

pub open spec fn prepend(front: Seq<AttrArg>, rest: Option<Seq<AttrArg>>) -> Option<
    Seq<AttrArg>,
> {
    match rest {
        Some(s) => Some(front + s),
        None => None,
    }
}

/// The comma-separated arguments from position `i` to the end, a trailing
/// comma allowed; `None` where the tokens are not of that shape.
pub open spec fn args_from(toks: Seq<Token>, i: int) -> Option<Seq<AttrArg>>
    decreases toks.len() - i,
{
    if i < 0 || i >= toks.len() {
        Some(Seq::empty())
    } else {
        match arg_at(toks, i) {
            Some((a, j)) => if j >= toks.len() {
                Some(seq![a])
            } else if is_punct(toks[j], ',') && i < j {
                prepend(seq![a], args_from(toks, j + 1))
            } else {
                None
            },
            None => None,
        }
    }
}

/// Why an argument list did not parse, with the position of the token at fault.
pub struct GrammarError {
    pub position: usize,
}

fn parse_arg(toks: &mut Vec<Token>, i: usize, Ghost(orig): Ghost<Seq<Token>>) -> (r: Option<
    (AttrArg, usize),
>)
    requires
        i < orig.len(),
        unread_from(old(toks)@, orig, i as int),
    ensures
        match arg_at(orig, i as int) {
            Some((a, j)) => r matches Some((b, k)) && b == a && k == j && unread_from(
                final(toks)@,
                orig,
                j,
            ),
            None => r is None,
        },
{
    let n_toks = toks.len();
    if !(toks[i] matches Token::Ident(_)) {
        return None;
    }
    let n = match take_token(toks, i) {
        Token::Ident(n) => n,
        _ => return None,
    };
    if i + 1 < toks.len() && token_is_punct(&toks[i + 1], '=') {
        if i + 2 < toks.len() && toks[i + 2] matches Token::Literal(_) {
            match take_token(toks, i + 2) {
                Token::Literal(l) => Some((AttrArg::NameValue(n, l), i + 3)),
                _ => None,
            }
        } else {
            None
        }
    } else if i + 1 < toks.len() && toks[i + 1] matches Token::Group(Delimiter::Parenthesis, _) {
        match take_token(toks, i + 1) {
            Token::Group(_, c) => Some((AttrArg::List(n, c), i + 2)),
            _ => None,
        }
    } else {
        Some((AttrArg::Path(n), i + 1))
    }
}

/// Parses a comma-separated argument list.
pub fn parse_attr_args(input: Vec<Token>) -> (r: Result<Vec<AttrArg>, GrammarError>)
    ensures
        match args_from(input@, 0) {
            Some(s) => r matches Ok(v) && v@ == s,
            None => r is Err,
        },
{
    let ghost orig = input@;
    let mut toks = input;
    let mut out: Vec<AttrArg> = Vec::new();
    let mut i: usize = 0;
    while i < toks.len()
        invariant
            i <= toks@.len(),
            orig == input@,
            unread_from(toks@, orig, i as int),
            args_from(orig, 0) == prepend(out@, args_from(orig, i as int)),
        decreases toks@.len() - i,
    {
        match parse_arg(&mut toks, i, Ghost(orig)) {
            Some((a, j)) => {
                let ghost before = out@;
                out.push(a);
                assert(arg_at(orig, i as int) == Some((a, j as int)));
                if j >= toks.len() {
                    assert(args_from(orig, i as int) == Some(seq![a]));
                    assert(out@ =~= before + seq![a]);
                    return Ok(out);
                }
                if !token_is_punct(&toks[j], ',') {
                    assert(args_from(orig, i as int) is None);
                    return Err(GrammarError { position: j });
                }
                proof {
                    let rest = args_from(orig, j + 1);
                    if let Some(s) = rest {
                        assert(before + (seq![a] + s) =~= out@ + s);
                    }
                }
                i = j + 1;
            },
            None => {
                assert(args_from(orig, i as int) is None);
                return Err(GrammarError { position: i });
            },
        }
    }
    assert(out@ + Seq::<AttrArg>::empty() =~= out@);
    Ok(out)
}

} // verus!
