use vstd::prelude::*;

use crate::attr_grammar::AttrArg;
use crate::check_mode::{
    after_check_option, opt_type_view, CheckConflict, IndefiniteCheckMode, IndefiniteCheckModeView,
};
use crate::grammar::{Type, TypeView};
use crate::symbol::{get_lit_str, lexes, string_value, symbol_named, Symbol};
use crate::token::{text_eq, Token};

verus! {

/// How a capability with no delegation is provided.
#[derive(PartialEq, Eq, Structural, Clone, Copy, Debug)]
pub enum ImplOption {
    Implement,
    Omit,
}

/// How a capability that the owned type may delegate is provided.
#[derive(PartialEq, Eq, Structural, Clone, Copy, Debug)]
pub enum DelegatingImplOption {
    Implement,
    /// The owned type forwards to the borrowed type's implementation.
    OwnedOnly,
    Omit,
}

impl DelegatingImplOption {
    /// The two-way choice seen as a three-way one.
    pub fn from_plain(o: ImplOption) -> (r: DelegatingImplOption)
        ensures
            r == widen(o),
    {
        match o {
            ImplOption::Implement => DelegatingImplOption::Implement,
            ImplOption::Omit => DelegatingImplOption::Omit,
        }
    }
}

pub open spec fn widen(o: ImplOption) -> DelegatingImplOption {
    match o {
        ImplOption::Implement => DelegatingImplOption::Implement,
        ImplOption::Omit => DelegatingImplOption::Omit,
    }
}

/// The choice for each capability.
#[derive(PartialEq, Eq, Structural, Clone, Copy, Debug)]
pub struct Impls {
    pub clone: ImplOption,
    pub debug: DelegatingImplOption,
    pub display: DelegatingImplOption,
    pub ord: DelegatingImplOption,
    pub serde: ImplOption,
}

/// Everything implemented, serialization left out.
pub open spec fn default_impls() -> Impls {
    Impls {
        clone: ImplOption::Implement,
        debug: DelegatingImplOption::Implement,
        display: DelegatingImplOption::Implement,
        ord: DelegatingImplOption::Implement,
        serde: ImplOption::Omit,
    }
}

impl Impls {
    pub fn new() -> (r: Impls)
        ensures
            r == default_impls(),
    {
        Impls {
            clone: ImplOption::Implement,
            debug: DelegatingImplOption::Implement,
            display: DelegatingImplOption::Implement,
            ord: DelegatingImplOption::Implement,
            serde: ImplOption::Omit,
        }
    }
}

/// Which base library the generated code names.
#[derive(PartialEq, Eq, Structural, Clone, Copy, Debug)]
pub struct StdLib {
    pub no_std: bool,
}

impl StdLib {
    /// The restricted environment: `core` and `alloc`.
    pub fn no_std() -> (r: StdLib)
        ensures
            r.no_std,
    {
        StdLib { no_std: true }
    }

    /// The default environment: `std` for both.
    pub fn standard() -> (r: StdLib)
        ensures
            !r.no_std,
    {
        StdLib { no_std: false }
    }

    pub fn core_crate(&self) -> (r: &'static str)
        ensures
            r@ == (if self.no_std {
                "core"@
            } else {
                "std"@
            }),
    {
        if self.no_std {
            "core"
        } else {
            "std"
        }
    }

    pub fn alloc_crate(&self) -> (r: &'static str)
        ensures
            r@ == (if self.no_std {
                "alloc"@
            } else {
                "std"@
            }),
    {
        if self.no_std {
            "alloc"
        } else {
            "std"
        }
    }
}

/// Why an argument list was refused.
pub enum ConfigError {
    /// An option that this generator does not take, by its name.
    Unsupported(String),
    /// The option needs `= "..."`.
    ExpectedValue(Symbol),
    /// The option needs `(...)`.
    ExpectedList(Symbol),
    /// The option's value is not a string literal.
    NotAString(Symbol),
    /// The option's value is not one of its mode words.
    UnknownMode(Symbol),
    /// The option's value does not lex as Rust tokens.
    BadType(Symbol),
    /// A second validator or normalizer.
    Check(CheckConflict),
}

/// The options of the owned-pair generator.
pub struct Params {
    pub ref_ty: Option<Type>,
    /// Doc-comment literals for the borrowed type, in order.
    pub ref_doc: Vec<String>,
    /// Attribute bodies for the borrowed type only.
    pub ref_attrs: Vec<Vec<Token>>,
    /// Attribute bodies for the owned type only.
    pub owned_attrs: Vec<Vec<Token>>,
    pub std_lib: StdLib,
    pub check_mode: IndefiniteCheckMode,
    pub expose_inner: bool,
    pub impls: Impls,
}

pub struct ParamsView {
    pub ref_ty: Option<TypeView>,
    pub ref_doc: Seq<String>,
    pub ref_attrs: Seq<Vec<Token>>,
    pub owned_attrs: Seq<Vec<Token>>,
    pub std_lib: StdLib,
    pub check_mode: IndefiniteCheckModeView,
    pub expose_inner: bool,
    pub impls: Impls,
}

impl View for Params {
    type V = ParamsView;

    open spec fn view(&self) -> ParamsView {
        ParamsView {
            ref_ty: opt_type_view(self.ref_ty),
            ref_doc: self.ref_doc@,
            ref_attrs: self.ref_attrs@,
            owned_attrs: self.owned_attrs@,
            std_lib: self.std_lib,
            check_mode: self.check_mode@,
            expose_inner: self.expose_inner,
            impls: self.impls,
        }
    }
}

/// The options of the borrowed-only generator.
pub struct ParamsRef {
    pub std_lib: StdLib,
    pub check_mode: IndefiniteCheckMode,
    pub impls: Impls,
}

pub struct ParamsRefView {
    pub std_lib: StdLib,
    pub check_mode: IndefiniteCheckModeView,
    pub impls: Impls,
}

impl View for ParamsRef {
    type V = ParamsRefView;

    open spec fn view(&self) -> ParamsRefView {
        ParamsRefView { std_lib: self.std_lib, check_mode: self.check_mode@, impls: self.impls }
    }
}

pub open spec fn default_params() -> ParamsView {
    ParamsView {
        ref_ty: None,
        ref_doc: Seq::empty(),
        ref_attrs: Seq::empty(),
        owned_attrs: Seq::empty(),
        std_lib: StdLib { no_std: false },
        check_mode: IndefiniteCheckModeView::Unchecked,
        expose_inner: true,
        impls: default_impls(),
    }
}

pub open spec fn default_params_ref() -> ParamsRefView {
    ParamsRefView {
        std_lib: StdLib { no_std: false },
        check_mode: IndefiniteCheckModeView::Unchecked,
        impls: default_impls(),
    }
}

/// The argument's name as the string that it holds.
pub open spec fn arg_name(a: AttrArg) -> String {
    match a {
        AttrArg::NameValue(n, _) => n,
        AttrArg::List(n, _) => n,
        AttrArg::Path(n) => n,
    }
}

/// The string that an option's `= "..."` holds; `None` where it has no `=`.
pub open spec fn word_value(sym: Symbol, a: AttrArg) -> Result<Option<Seq<char>>, ConfigError> {
    match a {
        AttrArg::NameValue(_, l) => match string_value(l@) {
            Some(s) => Ok(Some(s)),
            None => Err(ConfigError::NotAString(sym)),
        },
        _ => Ok(None),
    }
}

/// The type that an option's `= "..."` names, as its source text; `None`
/// where it has no `=`. Whether the text lexes is checked once all options
/// are read (see `source_types_lex`).
pub open spec fn type_value(sym: Symbol, a: AttrArg) -> Result<Option<TypeView>, ConfigError> {
    match word_value(sym, a) {
        Ok(Some(s)) => Ok(Some(TypeView::Source(s))),
        Ok(None) => Ok(None),
        Err(e) => Err(e),
    }
}

/// The option `sym` holds a type given as source text.
pub open spec fn holds_source_type(ref_ty: Option<TypeView>, m: IndefiniteCheckModeView, sym: Symbol) -> bool {
    match sym {
        Symbol::RefName => ref_ty matches Some(TypeView::Source(_)),
        Symbol::Validator => m matches IndefiniteCheckModeView::Validate(Some(TypeView::Source(_))),
        Symbol::Normalizer => m matches IndefiniteCheckModeView::Normalize(
            Some(TypeView::Source(_)),
        ),
        _ => false,
    }
}

pub open spec fn any_source_type(ref_ty: Option<TypeView>, m: IndefiniteCheckModeView) -> bool {
    holds_source_type(ref_ty, m, Symbol::RefName) || holds_source_type(ref_ty, m, Symbol::Validator)
        || holds_source_type(ref_ty, m, Symbol::Normalizer)
}

/// What checking the source types may answer: success, or `BadType` for an
/// option that holds one; success where none does.
pub open spec fn lex_outcome(ref_ty: Option<TypeView>, m: IndefiniteCheckModeView, r: Result<(), ConfigError>) -> bool {
    &&& (r is Ok || (r matches Err(ConfigError::BadType(sym)) && holds_source_type(ref_ty, m, sym)))
    &&& (!any_source_type(ref_ty, m) ==> r is Ok)
}

fn lex_type(sym: Symbol, t: &Option<Type>) -> (r: Result<(), ConfigError>)
    ensures
        r is Ok || (r matches Err(ConfigError::BadType(s)) && s == sym && opt_type_view(*t) matches Some(
            TypeView::Source(_),
        )),
        !(opt_type_view(*t) matches Some(TypeView::Source(_))) ==> r is Ok,
{
    match t {
        Some(Type::Source(s)) => if lexes(s.as_str()) {
            Ok(())
        } else {
            Err(ConfigError::BadType(sym))
        },
        _ => Ok(()),
    }
}

/// Checks that each type given as source text lexes as Rust tokens. The
/// lexer's answer depends on where it runs, so this states what holds of
/// either answer.
fn source_types_lex(ref_ty: &Option<Type>, m: &IndefiniteCheckMode) -> (r: Result<(), ConfigError>)
    ensures
        lex_outcome(opt_type_view(*ref_ty), m@, r),
{
    match lex_type(Symbol::RefName, ref_ty) {
        Ok(()) => {},
        Err(e) => return Err(e),
    }
    match m {
        IndefiniteCheckMode::Validate(t) => lex_type(Symbol::Validator, t),
        IndefiniteCheckMode::Normalize(t) => lex_type(Symbol::Normalizer, t),
        IndefiniteCheckMode::Unchecked => Ok(()),
    }
}

pub open spec fn plain_word(w: Seq<char>) -> Option<ImplOption> {
    if w == "impl"@ {
        Some(ImplOption::Implement)
    } else if w == "omit"@ {
        Some(ImplOption::Omit)
    } else {
        None
    }
}

pub open spec fn delegating_word(w: Seq<char>) -> Option<DelegatingImplOption> {
    if w == "impl"@ {
        Some(DelegatingImplOption::Implement)
    } else if w == "owned"@ {
        Some(DelegatingImplOption::OwnedOnly)
    } else if w == "omit"@ {
        Some(DelegatingImplOption::Omit)
    } else {
        None
    }
}

/// A two-way mode option, which must have a value.
pub open spec fn plain_mode(sym: Symbol, a: AttrArg) -> Result<ImplOption, ConfigError> {
    match word_value(sym, a) {
        Ok(Some(w)) => match plain_word(w) {
            Some(o) => Ok(o),
            None => Err(ConfigError::UnknownMode(sym)),
        },
        Ok(None) => Err(ConfigError::ExpectedValue(sym)),
        Err(e) => Err(e),
    }
}

/// A three-way mode option, which must have a value.
pub open spec fn delegating_mode(sym: Symbol, a: AttrArg) -> Result<
    DelegatingImplOption,
    ConfigError,
> {
    match word_value(sym, a) {
        Ok(Some(w)) => match delegating_word(w) {
            Some(o) => Ok(o),
            None => Err(ConfigError::UnknownMode(sym)),
        },
        Ok(None) => Err(ConfigError::ExpectedValue(sym)),
        Err(e) => Err(e),
    }
}

/// `serde` alone switches serialization on; `serde = "..."` chooses.
pub open spec fn serde_mode(a: AttrArg) -> Result<ImplOption, ConfigError> {
    match word_value(Symbol::Serde, a) {
        Ok(Some(w)) => match plain_word(w) {
            Some(o) => Ok(o),
            None => Err(ConfigError::UnknownMode(Symbol::Serde)),
        },
        Ok(None) => Ok(ImplOption::Implement),
        Err(e) => Err(e),
    }
}

/// The new check mode after a `validator` or `normalizer` option.
pub open spec fn check_step(
    m: IndefiniteCheckModeView,
    sym: Symbol,
    a: AttrArg,
) -> Result<IndefiniteCheckModeView, ConfigError> {
    match after_check_option(m, sym == Symbol::Validator, None) {
        Err(c) => Err(ConfigError::Check(c)),
        Ok(_) => match type_value(sym, a) {
            Ok(t) => match after_check_option(m, sym == Symbol::Validator, t) {
                Ok(m2) => Ok(m2),
                Err(c) => Err(ConfigError::Check(c)),
            },
            Err(e) => Err(e),
        },
    }
}

/// One option applied to the owned-pair options so far.
pub open spec fn pair_step(p: ParamsView, a: AttrArg) -> Result<ParamsView, ConfigError> {
    match symbol_named(a.spec_name()) {
        Some(Symbol::RefName) => match type_value(Symbol::RefName, a) {
            Ok(Some(t)) => Ok(ParamsView { ref_ty: Some(t), ..p }),
            Ok(None) => Err(ConfigError::ExpectedValue(Symbol::RefName)),
            Err(e) => Err(e),
        },
        Some(Symbol::RefDoc) => match a {
            AttrArg::NameValue(_, l) => Ok(ParamsView { ref_doc: p.ref_doc.push(l), ..p }),
            _ => Err(ConfigError::ExpectedValue(Symbol::RefDoc)),
        },
        Some(Symbol::RefAttr) => match a {
            AttrArg::List(_, c) => Ok(ParamsView { ref_attrs: p.ref_attrs.push(c), ..p }),
            _ => Err(ConfigError::ExpectedList(Symbol::RefAttr)),
        },
        Some(Symbol::OwnedAttr) => match a {
            AttrArg::List(_, c) => Ok(ParamsView { owned_attrs: p.owned_attrs.push(c), ..p }),
            _ => Err(ConfigError::ExpectedList(Symbol::OwnedAttr)),
        },
        Some(Symbol::Validator) => match check_step(p.check_mode, Symbol::Validator, a) {
            Ok(m) => Ok(ParamsView { check_mode: m, ..p }),
            Err(e) => Err(e),
        },
        Some(Symbol::Normalizer) => match check_step(p.check_mode, Symbol::Normalizer, a) {
            Ok(m) => Ok(ParamsView { check_mode: m, ..p }),
            Err(e) => Err(e),
        },
        Some(Symbol::Clone) => match plain_mode(Symbol::Clone, a) {
            Ok(o) => Ok(ParamsView { impls: Impls { clone: o, ..p.impls }, ..p }),
            Err(e) => Err(e),
        },
        Some(Symbol::Debug) => match delegating_mode(Symbol::Debug, a) {
            Ok(o) => Ok(ParamsView { impls: Impls { debug: o, ..p.impls }, ..p }),
            Err(e) => Err(e),
        },
        Some(Symbol::Display) => match delegating_mode(Symbol::Display, a) {
            Ok(o) => Ok(ParamsView { impls: Impls { display: o, ..p.impls }, ..p }),
            Err(e) => Err(e),
        },
        Some(Symbol::Ord) => match delegating_mode(Symbol::Ord, a) {
            Ok(o) => Ok(ParamsView { impls: Impls { ord: o, ..p.impls }, ..p }),
            Err(e) => Err(e),
        },
        Some(Symbol::Serde) => match serde_mode(a) {
            Ok(o) => Ok(ParamsView { impls: Impls { serde: o, ..p.impls }, ..p }),
            Err(e) => Err(e),
        },
        Some(Symbol::NoStd) => Ok(ParamsView { std_lib: StdLib { no_std: true }, ..p }),
        Some(Symbol::NoExpose) => Ok(ParamsView { expose_inner: false, ..p }),
        None => Err(ConfigError::Unsupported(arg_name(a))),
    }
}

/// One option applied to the borrowed-only options so far.
pub open spec fn ref_step(p: ParamsRefView, a: AttrArg) -> Result<ParamsRefView, ConfigError> {
    match symbol_named(a.spec_name()) {
        Some(Symbol::Validator) => match check_step(p.check_mode, Symbol::Validator, a) {
            Ok(m) => Ok(ParamsRefView { check_mode: m, ..p }),
            Err(e) => Err(e),
        },
        Some(Symbol::Debug) => match plain_mode(Symbol::Debug, a) {
            Ok(o) => Ok(ParamsRefView { impls: Impls { debug: widen(o), ..p.impls }, ..p }),
            Err(e) => Err(e),
        },
        Some(Symbol::Display) => match plain_mode(Symbol::Display, a) {
            Ok(o) => Ok(ParamsRefView { impls: Impls { display: widen(o), ..p.impls }, ..p }),
            Err(e) => Err(e),
        },
        Some(Symbol::Ord) => match plain_mode(Symbol::Ord, a) {
            Ok(o) => Ok(ParamsRefView { impls: Impls { ord: widen(o), ..p.impls }, ..p }),
            Err(e) => Err(e),
        },
        Some(Symbol::Serde) => match serde_mode(a) {
            Ok(o) => Ok(ParamsRefView { impls: Impls { serde: o, ..p.impls }, ..p }),
            Err(e) => Err(e),
        },
        Some(Symbol::NoStd) => Ok(ParamsRefView { std_lib: StdLib { no_std: true }, ..p }),
        _ => Err(ConfigError::Unsupported(arg_name(a))),
    }
}

/// The owned-pair options that an argument list resolves to, or the first error.
pub open spec fn resolve_pair(args: Seq<AttrArg>) -> Result<ParamsView, ConfigError>
    decreases args.len(),
{
    if args.len() == 0 {
        Ok(default_params())
    } else {
        match resolve_pair(args.drop_last()) {
            Ok(p) => pair_step(p, args.last()),
            Err(e) => Err(e),
        }
    }
}

/// The borrowed-only options that an argument list resolves to, or the first error.
pub open spec fn resolve_ref(args: Seq<AttrArg>) -> Result<ParamsRefView, ConfigError>
    decreases args.len(),
{
    if args.len() == 0 {
        Ok(default_params_ref())
    } else {
        match resolve_ref(args.drop_last()) {
            Ok(p) => ref_step(p, args.last()),
            Err(e) => Err(e),
        }
    }
}

fn read_word(sym: Symbol, a: &AttrArg) -> (r: Result<Option<String>, ConfigError>)
    ensures
        match word_value(sym, *a) {
            Ok(Some(s)) => r matches Ok(Some(v)) && v@ == s,
            Ok(None) => r matches Ok(None),
            Err(e) => r matches Err(f) && f == e,
        },
{
    match a.value() {
        Some(l) => match get_lit_str(sym, l.as_str()) {
            Ok(s) => Ok(Some(s)),
            Err(_) => Err(ConfigError::NotAString(sym)),
        },
        None => Ok(None),
    }
}

fn read_type(sym: Symbol, a: &AttrArg) -> (r: Result<Option<Type>, ConfigError>)
    ensures
        match type_value(sym, *a) {
            Ok(t) => r matches Ok(u) && opt_type_view(u) == t,
            Err(e) => r matches Err(f) && f == e,
        },
{
    match read_word(sym, a) {
        Ok(Some(s)) => Ok(Some(Type::Source(s))),
        Ok(None) => Ok(None),
        Err(e) => Err(e),
    }
}

fn read_plain(sym: Symbol, a: &AttrArg, bare: Option<ImplOption>) -> (r: Result<
    ImplOption,
    ConfigError,
>)
    ensures
        bare is None ==> (match plain_mode(sym, *a) {
            Ok(o) => r matches Ok(p) && p == o,
            Err(e) => r matches Err(f) && f == e,
        }),
        bare == Some(ImplOption::Implement) && sym == Symbol::Serde ==> (match serde_mode(*a) {
            Ok(o) => r matches Ok(p) && p == o,
            Err(e) => r matches Err(f) && f == e,
        }),
{
    match read_word(sym, a) {
        Ok(Some(w)) => if text_eq(w.as_str(), "impl") {
            Ok(ImplOption::Implement)
        } else if text_eq(w.as_str(), "omit") {
            Ok(ImplOption::Omit)
        } else {
            Err(ConfigError::UnknownMode(sym))
        },
        Ok(None) => match bare {
            Some(o) => Ok(o),
            None => Err(ConfigError::ExpectedValue(sym)),
        },
        Err(e) => Err(e),
    }
}

fn read_delegating(sym: Symbol, a: &AttrArg) -> (r: Result<DelegatingImplOption, ConfigError>)
    ensures
        match delegating_mode(sym, *a) {
            Ok(o) => r matches Ok(p) && p == o,
            Err(e) => r matches Err(f) && f == e,
        },
{
    match read_word(sym, a) {
        Ok(Some(w)) => if text_eq(w.as_str(), "impl") {
            Ok(DelegatingImplOption::Implement)
        } else if text_eq(w.as_str(), "owned") {
            Ok(DelegatingImplOption::OwnedOnly)
        } else if text_eq(w.as_str(), "omit") {
            Ok(DelegatingImplOption::Omit)
        } else {
            Err(ConfigError::UnknownMode(sym))
        },
        Ok(None) => Err(ConfigError::ExpectedValue(sym)),
        Err(e) => Err(e),
    }
}

fn apply_check(m: &mut IndefiniteCheckMode, sym: Symbol, a: &AttrArg) -> (r: Result<
    (),
    ConfigError,
>)
    requires
        sym == Symbol::Validator || sym == Symbol::Normalizer,
    ensures
        match check_step(old(m)@, sym, *a) {
            Ok(m2) => r is Ok && final(m)@ == m2,
            Err(e) => r matches Err(f) && f == e,
        },
{
    if !matches!(m, IndefiniteCheckMode::Unchecked) {
        let set = if sym == Symbol::Validator {
            m.try_set_validator(None)
        } else {
            m.try_set_normalizer(None)
        };
        return match set {
            Ok(()) => Ok(()),
            Err(c) => Err(ConfigError::Check(c)),
        };
    }
    let t = match read_type(sym, a) {
        Ok(t) => t,
        Err(e) => return Err(e),
    };
    let set = if sym == Symbol::Validator {
        m.try_set_validator(t)
    } else {
        m.try_set_normalizer(t)
    };
    match set {
        Ok(()) => Ok(()),
        Err(c) => Err(ConfigError::Check(c)),
    }
}

fn unsupported(a: &AttrArg) -> (r: ConfigError)
    ensures
        r == ConfigError::Unsupported(arg_name(*a)),
{
    match a {
        AttrArg::NameValue(n, _) => ConfigError::Unsupported(n.clone()),
        AttrArg::List(n, _) => ConfigError::Unsupported(n.clone()),
        AttrArg::Path(n) => ConfigError::Unsupported(n.clone()),
    }
}

impl Params {
    pub fn new() -> (r: Params)
        ensures
            r@ == default_params(),
    {
        let r = Params {
            ref_ty: None,
            ref_doc: Vec::new(),
            ref_attrs: Vec::new(),
            owned_attrs: Vec::new(),
            std_lib: StdLib::standard(),
            check_mode: IndefiniteCheckMode::Unchecked,
            expose_inner: true,
            impls: Impls::new(),
        };
        assert(r@.ref_doc =~= Seq::<String>::empty());
        assert(r@.ref_attrs =~= Seq::<Vec<Token>>::empty());
        assert(r@.owned_attrs =~= Seq::<Vec<Token>>::empty());
        r
    }

    /// Applies one option.
    fn apply(&mut self, a: AttrArg) -> (r: Result<(), ConfigError>)
        ensures
            match pair_step(old(self)@, a) {
                Ok(p) => r is Ok && final(self)@ == p,
                Err(e) => r matches Err(f) && f == e,
            },
    {
        match Symbol::lookup(a.name().as_str()) {
            Some(Symbol::RefName) => match read_type(Symbol::RefName, &a) {
                Ok(Some(t)) => {
                    self.ref_ty = Some(t);
                    Ok(())
                },
                Ok(None) => Err(ConfigError::ExpectedValue(Symbol::RefName)),
                Err(e) => Err(e),
            },
            Some(Symbol::RefDoc) => match a {
                AttrArg::NameValue(_, l) => {
                    self.ref_doc.push(l);
                    Ok(())
                },
                _ => Err(ConfigError::ExpectedValue(Symbol::RefDoc)),
            },
            Some(Symbol::RefAttr) => match a {
                AttrArg::List(_, c) => {
                    self.ref_attrs.push(c);
                    Ok(())
                },
                _ => Err(ConfigError::ExpectedList(Symbol::RefAttr)),
            },
            Some(Symbol::OwnedAttr) => match a {
                AttrArg::List(_, c) => {
                    self.owned_attrs.push(c);
                    Ok(())
                },
                _ => Err(ConfigError::ExpectedList(Symbol::OwnedAttr)),
            },
            Some(Symbol::Validator) => apply_check(&mut self.check_mode, Symbol::Validator, &a),
            Some(Symbol::Normalizer) => apply_check(&mut self.check_mode, Symbol::Normalizer, &a),
            Some(Symbol::Clone) => match read_plain(Symbol::Clone, &a, None) {
                Ok(o) => {
                    self.impls.clone = o;
                    Ok(())
                },
                Err(e) => Err(e),
            },
            Some(Symbol::Debug) => match read_delegating(Symbol::Debug, &a) {
                Ok(o) => {
                    self.impls.debug = o;
                    Ok(())
                },
                Err(e) => Err(e),
            },
            Some(Symbol::Display) => match read_delegating(Symbol::Display, &a) {
                Ok(o) => {
                    self.impls.display = o;
                    Ok(())
                },
                Err(e) => Err(e),
            },
            Some(Symbol::Ord) => match read_delegating(Symbol::Ord, &a) {
                Ok(o) => {
                    self.impls.ord = o;
                    Ok(())
                },
                Err(e) => Err(e),
            },
            Some(Symbol::Serde) => match read_plain(
                Symbol::Serde,
                &a,
                Some(ImplOption::Implement),
            ) {
                Ok(o) => {
                    self.impls.serde = o;
                    Ok(())
                },
                Err(e) => Err(e),
            },
            Some(Symbol::NoStd) => {
                self.std_lib = StdLib::no_std();
                Ok(())
            },
            Some(Symbol::NoExpose) => {
                self.expose_inner = false;
                Ok(())
            },
            None => Err(unsupported(&a)),
        }
    }

    /// Resolves an argument list of the owned-pair generator, option by
    /// option, then checks that the types given as text lex.
    pub fn from_args(args: Vec<AttrArg>) -> (r: Result<Params, ConfigError>)
        ensures
            match resolve_pair(args@) {
                Ok(p) => match r {
                    Ok(q) => q@ == p,
                    Err(f) => lex_outcome(p.ref_ty, p.check_mode, Err(f)),
                },
                Err(e) => r matches Err(f) && f == e,
            },
    {
        let ghost orig = args@;
        let mut list = args;
        let mut params = Params::new();
        let mut i: usize = 0;
        assert(orig.subrange(0, 0) =~= Seq::<AttrArg>::empty());
        while i < list.len()
            invariant
                orig == args@,
                i <= list@.len() == orig.len(),
                forall|k: int| i <= k < orig.len() ==> list@[k] == orig[k],
                resolve_pair(orig.subrange(0, i as int)) == Ok::<ParamsView, ConfigError>(
                    params@,
                ),
            decreases list@.len() - i,
        {
            let mut a = AttrArg::Path(String::new());
            std::mem::swap(&mut a, &mut list[i]);
            assert(orig.subrange(0, i + 1).drop_last() =~= orig.subrange(0, i as int));
            assert(orig.subrange(0, i + 1).last() == a);
            match params.apply(a) {
                Ok(()) => {},
                Err(e) => {
                    proof {
                        lemma_pair_error_stays(orig, i + 1);
                    }
                    return Err(e);
                },
            }
            i = i + 1;
        }
        assert(orig.subrange(0, i as int) =~= orig);
        match source_types_lex(&params.ref_ty, &params.check_mode) {
            Ok(()) => Ok(params),
            Err(e) => Err(e),
        }
    }
}

impl ParamsRef {
    pub fn new() -> (r: ParamsRef)
        ensures
            r@ == default_params_ref(),
    {
        ParamsRef {
            std_lib: StdLib::standard(),
            check_mode: IndefiniteCheckMode::Unchecked,
            impls: Impls::new(),
        }
    }

    fn apply(&mut self, a: &AttrArg) -> (r: Result<(), ConfigError>)
        ensures
            match ref_step(old(self)@, *a) {
                Ok(p) => r is Ok && final(self)@ == p,
                Err(e) => r matches Err(f) && f == e,
            },
    {
        match Symbol::lookup(a.name().as_str()) {
            Some(Symbol::Validator) => apply_check(&mut self.check_mode, Symbol::Validator, a),
            Some(Symbol::Debug) => match read_plain(Symbol::Debug, a, None) {
                Ok(o) => {
                    self.impls.debug = DelegatingImplOption::from_plain(o);
                    Ok(())
                },
                Err(e) => Err(e),
            },
            Some(Symbol::Display) => match read_plain(Symbol::Display, a, None) {
                Ok(o) => {
                    self.impls.display = DelegatingImplOption::from_plain(o);
                    Ok(())
                },
                Err(e) => Err(e),
            },
            Some(Symbol::Ord) => match read_plain(Symbol::Ord, a, None) {
                Ok(o) => {
                    self.impls.ord = DelegatingImplOption::from_plain(o);
                    Ok(())
                },
                Err(e) => Err(e),
            },
            Some(Symbol::Serde) => match read_plain(Symbol::Serde, a, Some(ImplOption::Implement)) {
                Ok(o) => {
                    self.impls.serde = o;
                    Ok(())
                },
                Err(e) => Err(e),
            },
            Some(Symbol::NoStd) => {
                self.std_lib = StdLib::no_std();
                Ok(())
            },
            _ => Err(unsupported(a)),
        }
    }

    /// Resolves an argument list of the borrowed-only generator, option by
    /// option, then checks that a validator type given as text lexes.
    pub fn from_args(args: Vec<AttrArg>) -> (r: Result<ParamsRef, ConfigError>)
        ensures
            match resolve_ref(args@) {
                Ok(p) => match r {
                    Ok(q) => q@ == p,
                    Err(f) => lex_outcome(None, p.check_mode, Err(f)),
                },
                Err(e) => r matches Err(f) && f == e,
            },
    {
        let mut params = ParamsRef::new();
        let mut i: usize = 0;
        assert(args@.subrange(0, 0) =~= Seq::<AttrArg>::empty());
        while i < args.len()
            invariant
                i <= args@.len(),
                resolve_ref(args@.subrange(0, i as int)) == Ok::<ParamsRefView, ConfigError>(
                    params@,
                ),
            decreases args@.len() - i,
        {
            assert(args@.subrange(0, i + 1).drop_last() =~= args@.subrange(0, i as int));
            assert(args@.subrange(0, i + 1).last() == args@[i as int]);
            match params.apply(&args[i]) {
                Ok(()) => {},
                Err(e) => {
                    proof {
                        lemma_ref_error_stays(args@, i + 1);
                    }
                    return Err(e);
                },
            }
            i = i + 1;
        }
        assert(args@.subrange(0, i as int) =~= args@);
        match source_types_lex(&None, &params.check_mode) {
            Ok(()) => Ok(params),
            Err(e) => Err(e),
        }
    }
}

/// Once a prefix of the arguments fails, the whole list fails with the same error.
pub proof fn lemma_pair_error_stays(args: Seq<AttrArg>, n: int)
    requires
        0 <= n <= args.len(),
        resolve_pair(args.subrange(0, n)) is Err,
    ensures
        resolve_pair(args) == resolve_pair(args.subrange(0, n)),
    decreases args.len() - n,
{
    if n < args.len() {
        assert(args.subrange(0, n + 1).drop_last() =~= args.subrange(0, n));
        lemma_pair_error_stays(args, n + 1);
    } else {
        assert(args.subrange(0, n) =~= args);
    }
}

/// Once a prefix of the arguments fails, the whole list fails with the same error.
pub proof fn lemma_ref_error_stays(args: Seq<AttrArg>, n: int)
    requires
        0 <= n <= args.len(),
        resolve_ref(args.subrange(0, n)) is Err,
    ensures
        resolve_ref(args) == resolve_ref(args.subrange(0, n)),
    decreases args.len() - n,
{
    if n < args.len() {
        assert(args.subrange(0, n + 1).drop_last() =~= args.subrange(0, n));
        lemma_ref_error_stays(args, n + 1);
    } else {
        assert(args.subrange(0, n) =~= args);
    }
}

/// An option name that the owned-pair generator does not know makes the
/// resolution fail; where every option before it was accepted, the error
/// names that option.
pub proof fn lemma_pair_unknown_option(args: Seq<AttrArg>, i: int)
    requires
        0 <= i < args.len(),
        symbol_named(args[i].spec_name()) is None,
    ensures
        resolve_pair(args) is Err,
        resolve_pair(args.subrange(0, i)) is Ok ==> resolve_pair(args) == Err::<
            ParamsView,
            ConfigError,
        >(ConfigError::Unsupported(arg_name(args[i]))),
{
    if resolve_pair(args.subrange(0, i)) is Err {
        lemma_pair_error_stays(args, i);
    } else {
        assert(args.subrange(0, i + 1).drop_last() =~= args.subrange(0, i));
        assert(args.subrange(0, i + 1).last() == args[i]);
        lemma_pair_error_stays(args, i + 1);
    }
}

/// An option name that the borrowed-only generator does not know makes the
/// resolution fail; where every option before it was accepted, the error
/// names that option.
pub proof fn lemma_ref_unknown_option(args: Seq<AttrArg>, i: int)
    requires
        0 <= i < args.len(),
        symbol_named(args[i].spec_name()) is None,
    ensures
        resolve_ref(args) is Err,
        resolve_ref(args.subrange(0, i)) is Ok ==> resolve_ref(args) == Err::<
            ParamsRefView,
            ConfigError,
        >(ConfigError::Unsupported(arg_name(args[i]))),
{
    lemma_ref_owned_only_option(args, i);
}

/// The options that only the owned-pair generator takes.
pub open spec fn owned_pair_only(s: Option<Symbol>) -> bool {
    match s {
        Some(Symbol::Clone) | Some(Symbol::RefName) | Some(Symbol::RefDoc) | Some(
            Symbol::RefAttr,
        ) | Some(Symbol::OwnedAttr) | Some(Symbol::NoExpose) | Some(Symbol::Normalizer) => true,
        Some(_) => false,
        None => true,
    }
}

/// The borrowed-only generator refuses an owned-pair-only option (and an
/// unknown one) as unsupported; where every option before it was accepted,
/// the error names that option.
pub proof fn lemma_ref_owned_only_option(args: Seq<AttrArg>, i: int)
    requires
        0 <= i < args.len(),
        owned_pair_only(symbol_named(args[i].spec_name())),
    ensures
        resolve_ref(args) is Err,
        resolve_ref(args.subrange(0, i)) is Ok ==> resolve_ref(args) == Err::<
            ParamsRefView,
            ConfigError,
        >(ConfigError::Unsupported(arg_name(args[i]))),
{
    if resolve_ref(args.subrange(0, i)) is Err {
        lemma_ref_error_stays(args, i);
    } else {
        assert(args.subrange(0, i + 1).drop_last() =~= args.subrange(0, i));
        assert(args.subrange(0, i + 1).last() == args[i]);
        lemma_ref_error_stays(args, i + 1);
    }
}

pub open spec fn is_check_option(a: AttrArg) -> bool {
    symbol_named(a.spec_name()) == Some(Symbol::Validator) || symbol_named(a.spec_name()) == Some(
        Symbol::Normalizer,
    )
}

/// After an accepted `validator` or `normalizer`, every accepted prefix has a check mode.
proof fn lemma_check_mode_stays_set(args: Seq<AttrArg>, i: int, k: int)
    requires
        0 <= i < k <= args.len(),
        is_check_option(args[i]),
        resolve_pair(args.subrange(0, k)) is Ok,
    ensures
        !(resolve_pair(args.subrange(0, k))->Ok_0.check_mode is Unchecked),
    decreases k - i,
{
    assert(args.subrange(0, k).drop_last() =~= args.subrange(0, k - 1));
    assert(args.subrange(0, k).last() == args[k - 1]);
    if k - 1 > i {
        lemma_check_mode_stays_set(args, i, k - 1);
    }
}

/// A second `validator` or `normalizer`, of either kind, makes the
/// resolution fail; where every option before it was accepted, the error is
/// the check conflict, whatever type the second one names.
pub proof fn lemma_check_options_exclusive(args: Seq<AttrArg>, i: int, j: int)
    requires
        0 <= i < j < args.len(),
        is_check_option(args[i]),
        is_check_option(args[j]),
    ensures
        resolve_pair(args) is Err,
        resolve_pair(args.subrange(0, j)) is Ok ==> resolve_pair(args) matches Err(
            ConfigError::Check(_),
        ),
{
    if resolve_pair(args.subrange(0, j)) is Err {
        lemma_pair_error_stays(args, j);
    } else {
        lemma_check_mode_stays_set(args, i, j);
        assert(args.subrange(0, j + 1).drop_last() =~= args.subrange(0, j));
        assert(args.subrange(0, j + 1).last() == args[j]);
        lemma_pair_error_stays(args, j + 1);
    }
}

} // verus!
