use vstd::prelude::*;

use crate::attr_grammar::{args_from, parse_attr_args, GrammarError};
use crate::check_mode::finished_check_mode;
use crate::codegen::{
    field_check, inferred_ref_name, is_default_field, type_ident, CodeGen, FieldError, RefCodeGen,
};
use crate::grammar::{group_fields_match, header_matches, item_matches, TypeView};
use crate::grammar::{decl_shape, fields_from, parse_item_struct, DeclShape, ParseError};
use crate::params::{lex_outcome, resolve_pair, resolve_ref, ConfigError, Params, ParamsRef};
use crate::token::Token;

verus! {

/// Why a generator produced nothing; each stage reports its own kind.
pub enum Diagnostic {
    /// The argument list is not a comma-separated list of options.
    Args(GrammarError),
    /// The options do not resolve.
    Config(ConfigError),
    /// The declaration is not a struct declaration.
    Struct(ParseError),
    /// The declaration does not have exactly one field.
    Fields(FieldError),
}

/// The declaration wraps exactly one field; a fieldless one counts as one
/// where `implicit` says it gets the implicit field.
pub open spec fn one_field(toks: Seq<Token>, d: DeclShape, implicit: bool) -> bool {
    match d.named {
        None => implicit,
        Some(named) => match toks[d.fields_at] {
            Token::Group(_, c) => fields_from(c@, 0, named) matches Some(sp) && sp.len() == 1,
            _ => false,
        },
    }
}

/// The owned-pair plan holds the resolved options `p` and the declaration
/// whose shape `d` the tokens `toks` have.
pub open spec fn pair_plan_matches(
    g: CodeGen,
    p: crate::params::ParamsView,
    toks: Seq<Token>,
    d: DeclShape,
) -> bool {
    &&& header_matches(g.body, toks, d)
    &&& (d.named is None ==> is_default_field(g.body.fields))
    &&& (d.named is Some ==> group_fields_match(g.body.fields, toks, d))
    &&& g.check_mode@ == finished_check_mode(p.check_mode, g.body.ident)
    &&& match p.ref_ty {
        None => g.ref_ident@ == inferred_ref_name(g.body.ident@) && g.ref_ty@ == TypeView::Tokens(
            seq![Token::Ident(g.ref_ident)],
        ),
        Some(t) => g.ref_ty@ == t && g.ref_ident@ == type_ident(t),
    }
    &&& g.ref_doc@ == p.ref_doc
    &&& g.ref_attrs@ == p.ref_attrs
    &&& g.owned_attrs@ == p.owned_attrs
    &&& g.impls == p.impls
    &&& g.expose_inner == p.expose_inner
    &&& g.std_lib == p.std_lib
}

/// Runs the owned-pair generator's front end: argument grammar, option
/// resolution, declaration grammar and the plan.
pub fn plan_braid(args: Vec<Token>, input: Vec<Token>) -> (r: Result<CodeGen, Diagnostic>)
    ensures
        args_from(args@, 0) is None ==> r matches Err(Diagnostic::Args(_)),
        args_from(args@, 0) matches Some(list) ==> match resolve_pair(list) {
            Err(e) => r matches Err(Diagnostic::Config(f)) && f == e,
            Ok(p) => {
                &&& (r matches Err(Diagnostic::Config(f)) ==> lex_outcome(
                    p.ref_ty,
                    p.check_mode,
                    Err(f),
                ))
                &&& (!(r matches Err(Diagnostic::Config(_))) ==> {
                    &&& (decl_shape(input@) is None ==> (r matches Err(Diagnostic::Struct(_))))
                    &&& (decl_shape(input@) matches Some(d) ==> (r is Ok <==> one_field(
                        input@,
                        d,
                        true,
                    )) && (r matches Ok(g) ==> pair_plan_matches(g, p, input@, d)))
                })
            },
        },
{
    let list = match parse_attr_args(args) {
        Ok(list) => list,
        Err(e) => return Err(Diagnostic::Args(e)),
    };
    let params = match Params::from_args(list) {
        Ok(p) => p,
        Err(e) => return Err(Diagnostic::Config(e)),
    };
    let body = match parse_item_struct(input) {
        Ok(b) => b,
        Err(e) => return Err(Diagnostic::Struct(e)),
    };
    match params.build(body) {
        Ok(g) => Ok(g),
        Err(e) => Err(Diagnostic::Fields(e)),
    }
}

/// Runs the borrowed-only generator's front end.
pub fn plan_braid_ref(args: Vec<Token>, input: Vec<Token>) -> (r: Result<RefCodeGen, Diagnostic>)
    ensures
        args_from(args@, 0) is None ==> r matches Err(Diagnostic::Args(_)),
        args_from(args@, 0) matches Some(list) ==> match resolve_ref(list) {
            Err(e) => r matches Err(Diagnostic::Config(f)) && f == e,
            Ok(p) => {
                &&& (r matches Err(Diagnostic::Config(f)) ==> lex_outcome(None, p.check_mode, Err(f)))
                &&& (!(r matches Err(Diagnostic::Config(_))) ==> {
                    &&& (decl_shape(input@) is None ==> (r matches Err(Diagnostic::Struct(_))))
                    &&& (decl_shape(input@) matches Some(d) ==> (r is Ok <==> one_field(
                        input@,
                        d,
                        false,
                    )) && (r matches Ok(g) ==> {
                        &&& item_matches(g.body, input@, d)
                        &&& g.check_mode@ == finished_check_mode(p.check_mode, g.body.ident)
                        &&& g.impls == p.impls
                        &&& g.std_lib == p.std_lib
                        &&& field_check(g.body.fields) is Ok
                    }))
                })
            },
        },
{
    let list = match parse_attr_args(args) {
        Ok(list) => list,
        Err(e) => return Err(Diagnostic::Args(e)),
    };
    let params = match ParamsRef::from_args(list) {
        Ok(p) => p,
        Err(e) => return Err(Diagnostic::Config(e)),
    };
    let body = match parse_item_struct(input) {
        Ok(b) => b,
        Err(e) => return Err(Diagnostic::Struct(e)),
    };
    match params.build(body) {
        Ok(g) => Ok(g),
        Err(e) => Err(Diagnostic::Fields(e)),
    }
}

} // verus!
