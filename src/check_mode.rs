use vstd::prelude::*;

use crate::grammar::{Type, TypeView};
use crate::token::Token;

verus! {

/// Whether the wrapped value is checked on construction, and by which type.
pub enum CheckMode {
    Unchecked,
    Validate(Type),
    Normalize(Type),
}

/// A check mode whose capability type may still be missing.
pub enum IndefiniteCheckMode {
    Unchecked,
    Validate(Option<Type>),
    Normalize(Option<Type>),
}

pub enum CheckModeView {
    Unchecked,
    Validate(TypeView),
    Normalize(TypeView),
}

pub enum IndefiniteCheckModeView {
    Unchecked,
    Validate(Option<TypeView>),
    Normalize(Option<TypeView>),
}

/// Why a second validator or normalizer was refused.
#[derive(PartialEq, Eq, Structural, Clone, Copy, Debug)]
pub enum CheckConflict {
    /// `validator` given twice.
    ValidatorTwice,
    /// `normalizer` given twice.
    NormalizerTwice,
    /// One of each given.
    Exclusive,
}

pub open spec fn opt_type_view(t: Option<Type>) -> Option<TypeView> {
    match t {
        Some(t) => Some(t@),
        None => None,
    }
}

impl View for CheckMode {
    type V = CheckModeView;

    open spec fn view(&self) -> CheckModeView {
        match self {
            CheckMode::Unchecked => CheckModeView::Unchecked,
            CheckMode::Validate(t) => CheckModeView::Validate(t@),
            CheckMode::Normalize(t) => CheckModeView::Normalize(t@),
        }
    }
}

impl View for IndefiniteCheckMode {
    type V = IndefiniteCheckModeView;

    open spec fn view(&self) -> IndefiniteCheckModeView {
        match self {
            IndefiniteCheckMode::Unchecked => IndefiniteCheckModeView::Unchecked,
            IndefiniteCheckMode::Validate(t) => IndefiniteCheckModeView::Validate(
                opt_type_view(*t),
            ),
            IndefiniteCheckMode::Normalize(t) => IndefiniteCheckModeView::Normalize(
                opt_type_view(*t),
            ),
        }
    }
}

/// The check mode after a `validator` (or, with `validate` false, a
/// `normalizer`) option carrying `ty`.
pub open spec fn after_check_option(
    m: IndefiniteCheckModeView,
    validate: bool,
    ty: Option<TypeView>,
) -> Result<IndefiniteCheckModeView, CheckConflict> {
    match m {
        IndefiniteCheckModeView::Unchecked => Ok(
            if validate {
                IndefiniteCheckModeView::Validate(ty)
            } else {
                IndefiniteCheckModeView::Normalize(ty)
            },
        ),
        IndefiniteCheckModeView::Validate(_) => Err(
            if validate {
                CheckConflict::ValidatorTwice
            } else {
                CheckConflict::Exclusive
            },
        ),
        IndefiniteCheckModeView::Normalize(_) => Err(
            if validate {
                CheckConflict::Exclusive
            } else {
                CheckConflict::NormalizerTwice
            },
        ),
    }
}

/// The final mode: a missing capability type is the declared type itself.
pub open spec fn finished_check_mode(m: IndefiniteCheckModeView, own: String) -> CheckModeView {
    match m {
        IndefiniteCheckModeView::Unchecked => CheckModeView::Unchecked,
        IndefiniteCheckModeView::Validate(Some(t)) => CheckModeView::Validate(t),
        IndefiniteCheckModeView::Validate(None) => CheckModeView::Validate(named_type(own)),
        IndefiniteCheckModeView::Normalize(Some(t)) => CheckModeView::Normalize(t),
        IndefiniteCheckModeView::Normalize(None) => CheckModeView::Normalize(named_type(own)),
    }
}

/// The type written as the single identifier `name`.
pub open spec fn named_type(name: String) -> TypeView {
    TypeView::Tokens(seq![Token::Ident(name)])
}

impl CheckMode {
    /// Whether the wrapped value is validated or normalized at all.
    pub fn has_check(&self) -> (r: bool)
        ensures
            r == !(self matches CheckMode::Unchecked),
    {
        !matches!(self, CheckMode::Unchecked)
    }
}

impl IndefiniteCheckMode {
    /// Records a `validator` option.
    pub fn try_set_validator(&mut self, validator: Option<Type>) -> (r: Result<(), CheckConflict>)
        ensures
            match after_check_option(old(self)@, true, opt_type_view(validator)) {
                Ok(m) => r is Ok && final(self)@ == m,
                Err(e) => r == Err::<(), CheckConflict>(e) && final(self)@ == old(self)@,
            },
    {
        match self {
            IndefiniteCheckMode::Unchecked => {
                *self = IndefiniteCheckMode::Validate(validator);
                Ok(())
            },
            IndefiniteCheckMode::Validate(_) => Err(CheckConflict::ValidatorTwice),
            IndefiniteCheckMode::Normalize(_) => Err(CheckConflict::Exclusive),
        }
    }

    /// Records a `normalizer` option.
    pub fn try_set_normalizer(&mut self, normalizer: Option<Type>) -> (r: Result<(), CheckConflict>)
        ensures
            match after_check_option(old(self)@, false, opt_type_view(normalizer)) {
                Ok(m) => r is Ok && final(self)@ == m,
                Err(e) => r == Err::<(), CheckConflict>(e) && final(self)@ == old(self)@,
            },
    {
        match self {
            IndefiniteCheckMode::Unchecked => {
                *self = IndefiniteCheckMode::Normalize(normalizer);
                Ok(())
            },
            IndefiniteCheckMode::Validate(_) => Err(CheckConflict::Exclusive),
            IndefiniteCheckMode::Normalize(_) => Err(CheckConflict::NormalizerTwice),
        }
    }

    /// Settles the mode: where no capability type was given, the declared
    /// type `default` is taken to implement the capability itself.
    pub fn infer_validator_if_missing(self, default: &String) -> (r: CheckMode)
        ensures
            r@ == finished_check_mode(self@, *default),
    {
        match self {
            IndefiniteCheckMode::Unchecked => CheckMode::Unchecked,
            IndefiniteCheckMode::Validate(Some(t)) => CheckMode::Validate(t),
            IndefiniteCheckMode::Validate(None) => CheckMode::Validate(ident_to_type(default)),
            IndefiniteCheckMode::Normalize(Some(t)) => CheckMode::Normalize(t),
            IndefiniteCheckMode::Normalize(None) => CheckMode::Normalize(ident_to_type(default)),
        }
    }
}

/// The type written as the single identifier `ident`.
pub fn ident_to_type(ident: &String) -> (r: Type)
    ensures
        r@ == named_type(*ident),
{
    let v = vec![Token::Ident(ident.clone())];
    assert(v@ =~= seq![Token::Ident(*ident)]);
    Type::Tokens(v)
}

} // verus!
