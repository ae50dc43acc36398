use vstd::prelude::*;

use crate::token::text_eq;

verus! {

/// The option names that the two generators know.
#[derive(PartialEq, Eq, Structural, Clone, Copy, Debug)]
pub enum Symbol {
    Clone,
    Debug,
    Display,
    Ord,
    Serde,
    RefName,
    RefDoc,
    RefAttr,
    OwnedAttr,
    NoStd,
    NoExpose,
    Validator,
    Normalizer,
}

impl Symbol {
    /// The name as it is written in an argument list.
    pub open spec fn text(self) -> Seq<char> {
        match self {
            Symbol::Clone => "clone"@,
            Symbol::Debug => "debug"@,
            Symbol::Display => "display"@,
            Symbol::Ord => "ord"@,
            Symbol::Serde => "serde"@,
            Symbol::RefName => "ref_name"@,
            Symbol::RefDoc => "ref_doc"@,
            Symbol::RefAttr => "ref_attr"@,
            Symbol::OwnedAttr => "owned_attr"@,
            Symbol::NoStd => "no_std"@,
            Symbol::NoExpose => "no_expose"@,
            Symbol::Validator => "validator"@,
            Symbol::Normalizer => "normalizer"@,
        }
    }

    pub fn as_str(&self) -> (r: &'static str)
        ensures
            r@ == self.text(),
    {
        match self {
            Symbol::Clone => "clone",
            Symbol::Debug => "debug",
            Symbol::Display => "display",
            Symbol::Ord => "ord",
            Symbol::Serde => "serde",
            Symbol::RefName => "ref_name",
            Symbol::RefDoc => "ref_doc",
            Symbol::RefAttr => "ref_attr",
            Symbol::OwnedAttr => "owned_attr",
            Symbol::NoStd => "no_std",
            Symbol::NoExpose => "no_expose",
            Symbol::Validator => "validator",
            Symbol::Normalizer => "normalizer",
        }
    }

    /// The option that `name` names, if any.
    pub fn lookup(name: &str) -> (r: Option<Symbol>)
        ensures
            r == symbol_named(name@),
    {
        if text_eq(name, "clone") {
            Some(Symbol::Clone)
        } else if text_eq(name, "debug") {
            Some(Symbol::Debug)
        } else if text_eq(name, "display") {
            Some(Symbol::Display)
        } else if text_eq(name, "ord") {
            Some(Symbol::Ord)
        } else if text_eq(name, "serde") {
            Some(Symbol::Serde)
        } else if text_eq(name, "ref_name") {
            Some(Symbol::RefName)
        } else if text_eq(name, "ref_doc") {
            Some(Symbol::RefDoc)
        } else if text_eq(name, "ref_attr") {
            Some(Symbol::RefAttr)
        } else if text_eq(name, "owned_attr") {
            Some(Symbol::OwnedAttr)
        } else if text_eq(name, "no_std") {
            Some(Symbol::NoStd)
        } else if text_eq(name, "no_expose") {
            Some(Symbol::NoExpose)
        } else if text_eq(name, "validator") {
            Some(Symbol::Validator)
        } else if text_eq(name, "normalizer") {
            Some(Symbol::Normalizer)
        } else {
            None
        }
    }
}

/// The option whose name is `s`, if any.
pub open spec fn symbol_named(s: Seq<char>) -> Option<Symbol> {
    if s == Symbol::Clone.text() {
        Some(Symbol::Clone)
    } else if s == Symbol::Debug.text() {
        Some(Symbol::Debug)
    } else if s == Symbol::Display.text() {
        Some(Symbol::Display)
    } else if s == Symbol::Ord.text() {
        Some(Symbol::Ord)
    } else if s == Symbol::Serde.text() {
        Some(Symbol::Serde)
    } else if s == Symbol::RefName.text() {
        Some(Symbol::RefName)
    } else if s == Symbol::RefDoc.text() {
        Some(Symbol::RefDoc)
    } else if s == Symbol::RefAttr.text() {
        Some(Symbol::RefAttr)
    } else if s == Symbol::OwnedAttr.text() {
        Some(Symbol::OwnedAttr)
    } else if s == Symbol::NoStd.text() {
        Some(Symbol::NoStd)
    } else if s == Symbol::NoExpose.text() {
        Some(Symbol::NoExpose)
    } else if s == Symbol::Validator.text() {
        Some(Symbol::Validator)
    } else if s == Symbol::Normalizer.text() {
        Some(Symbol::Normalizer)
    } else {
        None
    }
}

/// The contents of a string literal written `"..."`; `None` for any other literal.
pub open spec fn string_value(lit: Seq<char>) -> Option<Seq<char>> {
    if lit.len() >= 2 && lit[0] == '"' && lit[lit.len() - 1] == '"' {
        Some(lit.subrange(1, lit.len() - 1))
    } else {
        None
    }
}

/// Reads the contents of a string literal given to option `attr_name`.
pub fn get_lit_str(attr_name: Symbol, lit: &str) -> (r: Result<String, Symbol>)
    ensures
        match string_value(lit@) {
            Some(s) => r matches Ok(v) && v@ == s,
            None => r == Err::<String, Symbol>(attr_name),
        },
{
    let n = lit.unicode_len();
    if n >= 2 && lit.get_char(0) == '"' && lit.get_char(n - 1) == '"' {
        Ok(String::from_str(lit.substring_char(1, n - 1)))
    } else {
        Err(attr_name)
    }
}

/// Relies on `<proc_macro2::TokenStream as FromStr>::from_str` to tell
/// whether the text lexes as Rust tokens. The answer is not a function of
/// the text alone: inside a procedural macro the compiler's lexer decides as
/// well, and it varies with the compiler and the edition, so nothing is
/// promised of it. In this version the call returns for every input: the
/// fallback lexer answers with `Err`, and the compiler's lexer runs under
/// `catch_unwind`.
#[verifier::external_body]
pub(crate) fn lexes(s: &str) -> bool {
    s.parse::<proc_macro2::TokenStream>().is_ok()
}

} // verus!
