use vstd::prelude::*;

use crate::check_mode::{finished_check_mode, ident_to_type, CheckMode, CheckModeView};
use crate::grammar::{Attribute, Fields, ItemStruct, Type, TypeView, UnnamedField};
use crate::params::{DelegatingImplOption, ImplOption, Impls, Params, ParamsRef, StdLib};
use crate::token::{text_eq, Token};

verus! {

/// Why a declaration's fields do not fit a wrapper of one value.
#[derive(PartialEq, Eq, Structural, Clone, Copy, Debug)]
pub enum FieldError {
    /// A field list with nothing in it.
    NoField,
    /// More than one field.
    TooManyFields,
    /// `struct Name;`, where no implicit field is supplied.
    UnitStruct,
}

pub open spec fn ends_with(s: Seq<char>, suffix: Seq<char>) -> bool {
    s.len() > suffix.len() && s.subrange(s.len() - suffix.len(), s.len() as int) == suffix
}

/// The borrowed name that an owned name implies: `FooBuf` and `FooString`
/// give `Foo`, any other `Bar` gives `BarRef`.
pub open spec fn inferred_ref_name(owned: Seq<char>) -> Seq<char> {
    if ends_with(owned, "Buf"@) {
        owned.subrange(0, owned.len() - 3)
    } else if ends_with(owned, "String"@) {
        owned.subrange(0, owned.len() - 6)
    } else {
        owned + "Ref"@
    }
}

fn has_suffix(s: &str, suffix: &str) -> (r: bool)
    ensures
        r == ends_with(s@, suffix@),
{
    let n = s.unicode_len();
    let m = suffix.unicode_len();
    if n <= m {
        return false;
    }
    text_eq(s.substring_char(n - m, n), suffix)
}

/// Infers the borrowed type's name from the owned type's name.
pub fn infer_ref_type_from_owned_name(name: &String) -> (r: String)
    ensures
        r@ == inferred_ref_name(name@),
{
    proof {
        reveal_strlit("Buf");
        reveal_strlit("String");
    }
    let s = name.as_str();
    let n = s.unicode_len();
    if has_suffix(s, "Buf") {
        String::from_str(s.substring_char(0, n - 3))
    } else if has_suffix(s, "String") {
        String::from_str(s.substring_char(0, n - 6))
    } else {
        let mut r = name.clone();
        r.append("Ref");
        r
    }
}

pub open spec fn is_ident_char(c: char) -> bool {
    ('a' <= c && c <= 'z') || ('A' <= c && c <= 'Z') || ('0' <= c && c <= '9') || c == '_'
}

/// Where the run of identifier characters that starts at `i` ends.
pub open spec fn ident_run(s: Seq<char>, i: int) -> int
    decreases s.len() - i,
{
    if 0 <= i < s.len() && is_ident_char(s[i]) {
        ident_run(s, i + 1)
    } else {
        i
    }
}

/// The identifier that a type written as text starts with, or
/// `UnknownType` where it starts with none.
pub open spec fn leading_ident(s: Seq<char>) -> Seq<char> {
    let n = ident_run(s, 0);
    if n > 0 && !('0' <= s[0] && s[0] <= '9') {
        s.subrange(0, n)
    } else {
        "UnknownType"@
    }
}

/// The name that a given borrowed type declares: the identifier it starts with.
pub open spec fn type_ident(t: TypeView) -> Seq<char> {
    match t {
        TypeView::Source(s) => leading_ident(s),
        TypeView::Tokens(v) => if v.len() > 0 && v[0] is Ident {
            match v[0] {
                Token::Ident(n) => leading_ident(n@),
                _ => "UnknownType"@,
            }
        } else {
            "UnknownType"@
        },
    }
}

fn leading_ident_of(s: &str) -> (r: String)
    ensures
        r@ == leading_ident(s@),
{
    let len = s.unicode_len();
    let mut n: usize = 0;
    while n < len && is_ident_char_exec(s.get_char(n))
        invariant
            n <= len == s@.len(),
            ident_run(s@, 0) == ident_run(s@, n as int),
        decreases len - n,
    {
        n = n + 1;
    }
    if n > 0 && !('0' <= s.get_char(0) && s.get_char(0) <= '9') {
        String::from_str(s.substring_char(0, n))
    } else {
        String::from_str("UnknownType")
    }
}

fn is_ident_char_exec(c: char) -> (r: bool)
    ensures
        r == is_ident_char(c),
{
    ('a' <= c && c <= 'z') || ('A' <= c && c <= 'Z') || ('0' <= c && c <= '9') || c == '_'
}

/// The name that a given borrowed type declares.
pub fn declared_name(t: &Type) -> (r: String)
    ensures
        r@ == type_ident(t@),
{
    match t {
        Type::Source(s) => leading_ident_of(s.as_str()),
        Type::Tokens(v) => {
            if v.len() > 0 {
                match &v[0] {
                    Token::Ident(n) => leading_ident_of(n.as_str()),
                    _ => String::from_str("UnknownType"),
                }
            } else {
                String::from_str("UnknownType")
            }
        },
    }
}

/// The implicit field of a fieldless owned declaration: an unnamed `String`.
pub open spec fn is_default_field(fields: Fields) -> bool {
    match fields {
        Fields::Unnamed(v) => v@.len() == 1 && v@[0].attrs@.len() == 0 && v@[0].vis is None
            && match v@[0].ty@ {
            TypeView::Tokens(t) => t.len() == 1 && (t[0] matches Token::Ident(s) && s@ == "String"@),
            _ => false,
        },
        _ => false,
    }
}

/// Gives a `struct Name;` declaration its implicit `String` field.
pub fn create_field_if_none(fields: &mut Fields)
    ensures
        *old(fields) is Unit ==> is_default_field(*final(fields)),
        !(*old(fields) is Unit) ==> *final(fields) == *old(fields),
{
    if matches!(fields, Fields::Unit) {
        let ty = Type::Tokens(vec![Token::Ident(String::from_str("String"))]);
        let field = UnnamedField { attrs: Vec::new(), vis: None, ty };
        *fields = Fields::Unnamed(vec![field]);
    }
}

/// The borrowed-only generator supplies no implicit field.
pub fn create_ref_field_if_none(fields: &mut Fields)
    ensures
        *final(fields) == *old(fields),
{
}

/// What `get_field_info` answers for a field list.
pub open spec fn field_check(fields: Fields) -> Result<(), FieldError> {
    match fields {
        Fields::Named(v) => if v@.len() == 0 {
            Err(FieldError::NoField)
        } else if v@.len() > 1 {
            Err(FieldError::TooManyFields)
        } else {
            Ok(())
        },
        Fields::Unnamed(v) => if v@.len() == 0 {
            Err(FieldError::NoField)
        } else if v@.len() > 1 {
            Err(FieldError::TooManyFields)
        } else {
            Ok(())
        },
        Fields::Unit => Err(FieldError::UnitStruct),
    }
}

/// The single field's type, name (if named) and attributes.
pub fn get_field_info(fields: &Fields) -> (r: Result<
    (&Type, Option<&String>, &Vec<Attribute>),
    FieldError,
>)
    ensures
        match field_check(*fields) {
            Ok(()) => r matches Ok((t, n, a)) && match *fields {
                Fields::Named(v) => *t == v@[0].ty && n == Some(&v@[0].ident) && *a == v@[0].attrs,
                Fields::Unnamed(v) => *t == v@[0].ty && n is None && *a == v@[0].attrs,
                Fields::Unit => false,
            },
            Err(e) => r matches Err(f) && f == e,
        },
{
    match fields {
        Fields::Named(v) => {
            if v.len() == 0 {
                return Err(FieldError::NoField);
            }
            if v.len() > 1 {
                return Err(FieldError::TooManyFields);
            }
            Ok((&v[0].ty, Some(&v[0].ident), &v[0].attrs))
        },
        Fields::Unnamed(v) => {
            if v.len() == 0 {
                return Err(FieldError::NoField);
            }
            if v.len() > 1 {
                return Err(FieldError::TooManyFields);
            }
            Ok((&v[0].ty, None, &v[0].attrs))
        },
        Fields::Unit => Err(FieldError::UnitStruct),
    }
}

/// Which of the two generated types an item belongs to.
#[derive(PartialEq, Eq, Structural, Clone, Copy, Debug)]
pub enum Side {
    Owned,
    Borrowed,
}

#[derive(PartialEq, Eq, Structural, Clone, Copy, Debug)]
pub enum Capability {
    Clone,
    Debug,
    Display,
    Ord,
    Serialize,
    Deserialize,
}

/// How a capability is implemented on one side.
#[derive(PartialEq, Eq, Structural, Clone, Copy, Debug)]
pub enum How {
    /// On the wrapped field.
    Direct,
    /// By forwarding to the borrowed type's implementation.
    ViaBorrowed,
}

/// How a constructor treats the raw value; deserialization goes through
/// the constructor, so it treats the value the same way.
#[derive(PartialEq, Eq, Structural, Clone, Copy, Debug)]
pub enum Check {
    /// Taken as it is.
    Unchecked,
    /// Passed to the validator; its error makes construction fail.
    Validated,
    /// Replaced by the normalizer's canonical form; construction cannot fail.
    Normalized,
}

/// The owned constructor runs the check mode's operation.
pub open spec fn owned_check(m: CheckModeView) -> Check {
    match m {
        CheckModeView::Unchecked => Check::Unchecked,
        CheckModeView::Validate(_) => Check::Validated,
        CheckModeView::Normalize(_) => Check::Normalized,
    }
}

/// A borrowed view cannot hold a normalized copy: it only checks that its
/// value is acceptable, whichever capability the type has.
pub open spec fn borrowed_check(m: CheckModeView) -> Check {
    match m {
        CheckModeView::Unchecked => Check::Unchecked,
        _ => Check::Validated,
    }
}

/// The check that a constructor on `side` runs for check mode `m`.
pub fn check_for(m: &CheckMode, side: Side) -> (r: Check)
    ensures
        r == if side == Side::Owned {
            owned_check(m@)
        } else {
            borrowed_check(m@)
        },
{
    match m {
        CheckMode::Unchecked => Check::Unchecked,
        CheckMode::Validate(_) => Check::Validated,
        CheckMode::Normalize(_) => if side == Side::Owned {
            Check::Normalized
        } else {
            Check::Validated
        },
    }
}

/// One piece of emitted code.
#[derive(PartialEq, Eq, Structural, Clone, Copy, Debug)]
pub enum Item {
    /// The type definition, with the declaration's attributes and generics.
    Definition(Side),
    /// The constructor, public where the wrapped type is exposed, with how
    /// it checks the raw value.
    Constructor(Side, bool, Check),
    /// The public accessor that returns the wrapped value.
    Accessor(Side),
    /// The owned type's consuming operation that returns the wrapped value.
    IntoInner,
    /// Borrowing the owned value as the borrowed type.
    OwnedToBorrowed,
    /// Copying a borrowed value into a new owned one.
    BorrowedToOwned,
    Impl(Side, Capability, How),
}

pub open spec fn delegating_items(c: Capability, o: DelegatingImplOption) -> Seq<Item> {
    match o {
        DelegatingImplOption::Implement => seq![
            Item::Impl(Side::Owned, c, How::Direct),
            Item::Impl(Side::Borrowed, c, How::Direct),
        ],
        DelegatingImplOption::OwnedOnly => seq![
            Item::Impl(Side::Owned, c, How::ViaBorrowed),
            Item::Impl(Side::Borrowed, c, How::Direct),
        ],
        DelegatingImplOption::Omit => Seq::empty(),
    }
}

pub open spec fn serde_items(side_count_two: bool, o: ImplOption) -> Seq<Item> {
    match o {
        ImplOption::Implement => if side_count_two {
            seq![
                Item::Impl(Side::Owned, Capability::Serialize, How::Direct),
                Item::Impl(Side::Owned, Capability::Deserialize, How::Direct),
                Item::Impl(Side::Borrowed, Capability::Serialize, How::Direct),
                Item::Impl(Side::Borrowed, Capability::Deserialize, How::Direct),
            ]
        } else {
            seq![
                Item::Impl(Side::Borrowed, Capability::Serialize, How::Direct),
                Item::Impl(Side::Borrowed, Capability::Deserialize, How::Direct),
            ]
        },
        ImplOption::Omit => Seq::empty(),
    }
}

pub open spec fn owned_head(expose: bool, c: Check) -> Seq<Item> {
    seq![Item::Definition(Side::Owned), Item::Constructor(Side::Owned, expose, c)] + if expose {
        seq![Item::Accessor(Side::Owned), Item::IntoInner]
    } else {
        Seq::empty()
    }
}

pub open spec fn borrowed_head(expose: bool, c: Check) -> Seq<Item> {
    seq![Item::Definition(Side::Borrowed), Item::Constructor(Side::Borrowed, expose, c)] + if expose {
        seq![Item::Accessor(Side::Borrowed)]
    } else {
        Seq::empty()
    }
}

pub open spec fn clone_items(o: ImplOption) -> Seq<Item> {
    if o == ImplOption::Implement {
        seq![Item::Impl(Side::Owned, Capability::Clone, How::Direct), Item::BorrowedToOwned]
    } else {
        Seq::empty()
    }
}

/// What the owned-pair generator emits, in order.
pub open spec fn pair_items(impls: Impls, expose: bool, oc: Check, bc: Check) -> Seq<Item> {
    owned_head(expose, oc) + borrowed_head(expose, bc) + seq![Item::OwnedToBorrowed] + clone_items(
        impls.clone,
    ) + delegating_items(Capability::Debug, impls.debug) + delegating_items(
        Capability::Display,
        impls.display,
    ) + delegating_items(Capability::Ord, impls.ord) + serde_items(true, impls.serde)
}

fn push_owned_head(out: &mut Vec<Item>, expose: bool, c: Check)
    ensures
        final(out)@ == old(out)@ + owned_head(expose, c),
{
    let ghost start = out@;
    out.push(Item::Definition(Side::Owned));
    out.push(Item::Constructor(Side::Owned, expose, c));
    if expose {
        out.push(Item::Accessor(Side::Owned));
        out.push(Item::IntoInner);
    }
    assert(out@ =~= start + owned_head(expose, c));
}

fn push_borrowed_head(out: &mut Vec<Item>, expose: bool, c: Check)
    ensures
        final(out)@ == old(out)@ + borrowed_head(expose, c),
{
    let ghost start = out@;
    out.push(Item::Definition(Side::Borrowed));
    out.push(Item::Constructor(Side::Borrowed, expose, c));
    if expose {
        out.push(Item::Accessor(Side::Borrowed));
    }
    assert(out@ =~= start + borrowed_head(expose, c));
}

fn push_clone(out: &mut Vec<Item>, o: ImplOption)
    ensures
        final(out)@ == old(out)@ + clone_items(o),
{
    let ghost start = out@;
    if o == ImplOption::Implement {
        out.push(Item::Impl(Side::Owned, Capability::Clone, How::Direct));
        out.push(Item::BorrowedToOwned);
    }
    assert(out@ =~= start + clone_items(o));
}

pub open spec fn direct_items(c: Capability, o: DelegatingImplOption) -> Seq<Item> {
    if o == DelegatingImplOption::Omit {
        Seq::empty()
    } else {
        seq![Item::Impl(Side::Borrowed, c, How::Direct)]
    }
}

/// What the borrowed-only generator emits, in order.
pub open spec fn ref_items(impls: Impls, c: Check) -> Seq<Item> {
    seq![
        Item::Definition(Side::Borrowed),
        Item::Constructor(Side::Borrowed, true, c),
        Item::Accessor(Side::Borrowed),
    ] + direct_items(Capability::Debug, impls.debug) + direct_items(
        Capability::Display,
        impls.display,
    ) + direct_items(Capability::Ord, impls.ord) + serde_items(false, impls.serde)
}

fn push_delegating(out: &mut Vec<Item>, c: Capability, o: DelegatingImplOption)
    ensures
        final(out)@ == old(out)@ + delegating_items(c, o),
{
    let ghost start = out@;
    match o {
        DelegatingImplOption::Implement => {
            out.push(Item::Impl(Side::Owned, c, How::Direct));
            out.push(Item::Impl(Side::Borrowed, c, How::Direct));
        },
        DelegatingImplOption::OwnedOnly => {
            out.push(Item::Impl(Side::Owned, c, How::ViaBorrowed));
            out.push(Item::Impl(Side::Borrowed, c, How::Direct));
        },
        DelegatingImplOption::Omit => {},
    }
    assert(out@ =~= start + delegating_items(c, o));
}

fn push_direct(out: &mut Vec<Item>, c: Capability, o: DelegatingImplOption)
    ensures
        final(out)@ == old(out)@ + direct_items(c, o),
{
    let ghost start = out@;
    if o != DelegatingImplOption::Omit {
        out.push(Item::Impl(Side::Borrowed, c, How::Direct));
    }
    assert(out@ =~= start + direct_items(c, o));
}

fn push_serde(out: &mut Vec<Item>, both: bool, o: ImplOption)
    ensures
        final(out)@ == old(out)@ + serde_items(both, o),
{
    let ghost start = out@;
    if o == ImplOption::Implement {
        if both {
            out.push(Item::Impl(Side::Owned, Capability::Serialize, How::Direct));
            out.push(Item::Impl(Side::Owned, Capability::Deserialize, How::Direct));
        }
        out.push(Item::Impl(Side::Borrowed, Capability::Serialize, How::Direct));
        out.push(Item::Impl(Side::Borrowed, Capability::Deserialize, How::Direct));
    }
    assert(out@ =~= start + serde_items(both, o));
}

/// The plan of the owned-pair generator.
pub struct CodeGen {
    pub check_mode: CheckMode,
    /// The declaration, with exactly one field.
    pub body: ItemStruct,
    pub owned_attrs: Vec<Vec<Token>>,
    pub ref_doc: Vec<String>,
    pub ref_attrs: Vec<Vec<Token>>,
    pub ref_ty: Type,
    /// The borrowed type's name.
    pub ref_ident: String,
    pub std_lib: StdLib,
    pub expose_inner: bool,
    pub impls: Impls,
}

/// The plan of the borrowed-only generator.
pub struct RefCodeGen {
    pub check_mode: CheckMode,
    /// The declaration, with exactly one field.
    pub body: ItemStruct,
    pub std_lib: StdLib,
    pub impls: Impls,
}

impl CodeGen {
    /// The items to emit for both types.
    pub fn generate(&self) -> (r: Vec<Item>)
        ensures
            r@ == pair_items(
                self.impls,
                self.expose_inner,
                owned_check(self.check_mode@),
                borrowed_check(self.check_mode@),
            ),
    {
        let expose = self.expose_inner;
        let mut out: Vec<Item> = Vec::new();
        let oc = check_for(&self.check_mode, Side::Owned);
        let bc = check_for(&self.check_mode, Side::Borrowed);
        push_owned_head(&mut out, expose, oc);
        assert(out@ =~= owned_head(expose, oc));
        push_borrowed_head(&mut out, expose, bc);
        out.push(Item::OwnedToBorrowed);
        push_clone(&mut out, self.impls.clone);
        push_delegating(&mut out, Capability::Debug, self.impls.debug);
        push_delegating(&mut out, Capability::Display, self.impls.display);
        push_delegating(&mut out, Capability::Ord, self.impls.ord);
        push_serde(&mut out, true, self.impls.serde);
        out
    }
}

impl RefCodeGen {
    /// The items to emit for the borrowed type alone.
    pub fn generate(&self) -> (r: Vec<Item>)
        ensures
            r@ == ref_items(self.impls, borrowed_check(self.check_mode@)),
    {
        let mut out: Vec<Item> = Vec::new();
        out.push(Item::Definition(Side::Borrowed));
        let c = check_for(&self.check_mode, Side::Borrowed);
        out.push(Item::Constructor(Side::Borrowed, true, c));
        out.push(Item::Accessor(Side::Borrowed));
        push_direct(&mut out, Capability::Debug, self.impls.debug);
        push_direct(&mut out, Capability::Display, self.impls.display);
        push_direct(&mut out, Capability::Ord, self.impls.ord);
        push_serde(&mut out, false, self.impls.serde);
        assert(out@ =~= ref_items(self.impls, c));
        out
    }
}

impl Params {
    /// Builds the plan from the resolved options and the declaration; a
    /// fieldless `struct Name;` gets the implicit `String` field first.
    pub fn build(self, body: ItemStruct) -> (r: Result<CodeGen, FieldError>)
        ensures
            body.fields is Unit ==> r is Ok,
            !(body.fields is Unit) ==> match field_check(body.fields) {
                Ok(()) => r is Ok,
                Err(e) => r matches Err(f) && f == e,
            },
            r matches Ok(g) ==> {
                &&& g.body.ident == body.ident
                &&& g.body.attrs == body.attrs
                &&& g.body.vis == body.vis
                &&& g.body.generics == body.generics
                &&& g.body.where_clause == body.where_clause
                &&& field_check(g.body.fields) is Ok
                &&& (body.fields is Unit ==> is_default_field(g.body.fields))
                &&& (!(body.fields is Unit) ==> g.body.fields == body.fields)
                &&& g.check_mode@ == finished_check_mode(self.check_mode@, body.ident)
                &&& (self.ref_ty is None ==> g.ref_ident@ == inferred_ref_name(body.ident@)
                    && g.ref_ty@ == TypeView::Tokens(seq![Token::Ident(g.ref_ident)]))
                &&& (self.ref_ty matches Some(t) ==> g.ref_ty == t && g.ref_ident@ == type_ident(t@))
                &&& g.ref_doc == self.ref_doc
                &&& g.ref_attrs == self.ref_attrs
                &&& g.owned_attrs == self.owned_attrs
                &&& g.std_lib == self.std_lib
                &&& g.expose_inner == self.expose_inner
                &&& g.impls == self.impls
            },
    {
        let mut body = body;
        create_field_if_none(&mut body.fields);
        match get_field_info(&body.fields) {
            Ok(_) => {},
            Err(e) => return Err(e),
        }
        let (ref_ty, ref_ident) = match self.ref_ty {
            Some(t) => {
                let ident = declared_name(&t);
                (t, ident)
            },
            None => {
                let ident = infer_ref_type_from_owned_name(&body.ident);
                (ident_to_type(&ident), ident)
            },
        };
        let check_mode = self.check_mode.infer_validator_if_missing(&body.ident);
        Ok(
            CodeGen {
                check_mode,
                body,
                owned_attrs: self.owned_attrs,
                ref_doc: self.ref_doc,
                ref_attrs: self.ref_attrs,
                ref_ty,
                ref_ident,
                std_lib: self.std_lib,
                expose_inner: self.expose_inner,
                impls: self.impls,
            },
        )
    }
}

impl ParamsRef {
    /// Builds the plan of the borrowed-only generator; the declaration must
    /// have exactly one field.
    pub fn build(self, body: ItemStruct) -> (r: Result<RefCodeGen, FieldError>)
        ensures
            match field_check(body.fields) {
                Ok(()) => r is Ok,
                Err(e) => r matches Err(f) && f == e,
            },
            r matches Ok(g) ==> {
                &&& g.body == body
                &&& g.check_mode@ == finished_check_mode(self.check_mode@, body.ident)
                &&& g.std_lib == self.std_lib
                &&& g.impls == self.impls
            },
    {
        let mut body = body;
        create_ref_field_if_none(&mut body.fields);
        match get_field_info(&body.fields) {
            Ok(_) => {},
            Err(e) => return Err(e),
        }
        let check_mode = self.check_mode.infer_validator_if_missing(&body.ident);
        Ok(RefCodeGen { check_mode, body, std_lib: self.std_lib, impls: self.impls })
    }
}

/// Whether any item implements capability `c`, on either side, in either way.
pub open spec fn has_capability(items: Seq<Item>, c: Capability) -> bool {
    exists|k: int| 0 <= k < items.len() && #[trigger] implements(items[k], c)
}

/// The item implements capability `c`.
pub open spec fn implements(i: Item, c: Capability) -> bool {
    match i {
        Item::Impl(_, d, _) => d == c,
        _ => false,
    }
}

/// With no options, the pair has public constructors and accessors,
/// conversions both ways, clone, debug, display and ordering implemented
/// directly on both types, and no serialization.
pub proof fn lemma_default_pair()
    ensures
        crate::params::resolve_pair(Seq::empty()) == Ok::<
            crate::params::ParamsView,
            crate::params::ConfigError,
        >(crate::params::default_params()),
        ({
            let items = pair_items(
                crate::params::default_impls(),
                true,
                Check::Unchecked,
                Check::Unchecked,
            );
            &&& items.contains(Item::Constructor(Side::Owned, true, Check::Unchecked))
            &&& items.contains(Item::Constructor(Side::Borrowed, true, Check::Unchecked))
            &&& items.contains(Item::Accessor(Side::Owned))
            &&& items.contains(Item::Accessor(Side::Borrowed))
            &&& items.contains(Item::OwnedToBorrowed)
            &&& items.contains(Item::BorrowedToOwned)
            &&& items.contains(Item::Impl(Side::Owned, Capability::Clone, How::Direct))
            &&& forall|s: Side, c: Capability|
                c == Capability::Debug || c == Capability::Display || c == Capability::Ord
                    ==> items.contains(Item::Impl(s, c, How::Direct))
            &&& !has_capability(items, Capability::Serialize)
            &&& !has_capability(items, Capability::Deserialize)
        }),
{
    let items = pair_items(crate::params::default_impls(), true, Check::Unchecked, Check::Unchecked);
    assert(items =~= seq![
        Item::Definition(Side::Owned),
        Item::Constructor(Side::Owned, true, Check::Unchecked),
        Item::Accessor(Side::Owned),
        Item::IntoInner,
        Item::Definition(Side::Borrowed),
        Item::Constructor(Side::Borrowed, true, Check::Unchecked),
        Item::Accessor(Side::Borrowed),
        Item::OwnedToBorrowed,
        Item::Impl(Side::Owned, Capability::Clone, How::Direct),
        Item::BorrowedToOwned,
        Item::Impl(Side::Owned, Capability::Debug, How::Direct),
        Item::Impl(Side::Borrowed, Capability::Debug, How::Direct),
        Item::Impl(Side::Owned, Capability::Display, How::Direct),
        Item::Impl(Side::Borrowed, Capability::Display, How::Direct),
        Item::Impl(Side::Owned, Capability::Ord, How::Direct),
        Item::Impl(Side::Borrowed, Capability::Ord, How::Direct),
    ]);
    assert(items[1] == Item::Constructor(Side::Owned, true, Check::Unchecked));
    assert(items[5] == Item::Constructor(Side::Borrowed, true, Check::Unchecked));
    assert(items[2] == Item::Accessor(Side::Owned));
    assert(items[6] == Item::Accessor(Side::Borrowed));
    assert(items[7] == Item::OwnedToBorrowed);
    assert(items[9] == Item::BorrowedToOwned);
    assert(items[8] == Item::Impl(Side::Owned, Capability::Clone, How::Direct));
    assert forall|s: Side, c: Capability|
        c == Capability::Debug || c == Capability::Display || c == Capability::Ord
            implies items.contains(Item::Impl(s, c, How::Direct)) by {
        let k: int = 10 + 2 * (if c == Capability::Debug {
            0int
        } else if c == Capability::Display {
            1int
        } else {
            2int
        }) + if s == Side::Owned {
            0int
        } else {
            1int
        };
        assert(items[k] == Item::Impl(s, c, How::Direct));
    }
}

/// With `debug = "owned"`, the owned type's debug rendering forwards to the
/// borrowed type's, which renders the field; with `debug = "omit"`, neither
/// type has one.
pub proof fn lemma_debug_delegation(impls: Impls, expose: bool, oc: Check, bc: Check)
    ensures
        impls.debug == DelegatingImplOption::OwnedOnly ==> {
            let items = pair_items(impls, expose, oc, bc);
            &&& items.contains(Item::Impl(Side::Owned, Capability::Debug, How::ViaBorrowed))
            &&& items.contains(Item::Impl(Side::Borrowed, Capability::Debug, How::Direct))
            &&& !items.contains(Item::Impl(Side::Owned, Capability::Debug, How::Direct))
        },
        impls.debug == DelegatingImplOption::Omit ==> !has_capability(
            pair_items(impls, expose, oc, bc),
            Capability::Debug,
        ),
{
    let head = owned_head(expose, oc) + borrowed_head(expose, bc) + seq![Item::OwnedToBorrowed]
        + clone_items(impls.clone);
    let debug = delegating_items(Capability::Debug, impls.debug);
    let tail = delegating_items(Capability::Display, impls.display) + delegating_items(
        Capability::Ord,
        impls.ord,
    ) + serde_items(true, impls.serde);
    let items = pair_items(impls, expose, oc, bc);
    assert(items =~= head + debug + tail);
    assert forall|k: int| 0 <= k < head.len() implies !implements(head[k], Capability::Debug) by {
        let a = owned_head(expose, oc) + borrowed_head(expose, bc);
        if k < a.len() {
            if k < owned_head(expose, oc).len() {
            } else {
            }
        }
    }
    assert forall|k: int| 0 <= k < tail.len() implies !implements(tail[k], Capability::Debug) by {
        let d = delegating_items(Capability::Display, impls.display);
        let o = delegating_items(Capability::Ord, impls.ord);
        if k < d.len() {
        } else if k < d.len() + o.len() {
            assert(tail[k] == o[k - d.len()]);
        } else {
            assert(tail[k] == serde_items(true, impls.serde)[k - d.len() - o.len()]);
        }
    }
    if impls.debug == DelegatingImplOption::OwnedOnly {
        assert(items[head.len() as int] == Item::Impl(Side::Owned, Capability::Debug, How::ViaBorrowed));
        assert(items[head.len() as int + 1] == Item::Impl(Side::Borrowed, Capability::Debug, How::Direct));
        assert forall|k: int| 0 <= k < items.len() implies items[k] != Item::Impl(
            Side::Owned,
            Capability::Debug,
            How::Direct,
        ) by {
            if k < head.len() {
                assert(items[k] == head[k]);
            } else if k < head.len() + 2 {
            } else {
                assert(items[k] == tail[k - head.len() - 2]);
            }
        }
    }
    if impls.debug == DelegatingImplOption::Omit {
        assert(debug.len() == 0);
        assert forall|k: int| 0 <= k < items.len() implies !implements(items[k], Capability::Debug) by {
            if k < head.len() {
                assert(items[k] == head[k]);
            } else {
                assert(items[k] == tail[k - head.len()]);
            }
        }
    }
}

/// A declaration with two fields or more is refused; the implicit field
/// that a fieldless declaration gets is accepted.
pub proof fn lemma_field_count(fields: Fields)
    ensures
        (match fields {
            Fields::Named(v) => v@.len() >= 2,
            Fields::Unnamed(v) => v@.len() >= 2,
            Fields::Unit => false,
        }) ==> field_check(fields) == Err::<(), FieldError>(FieldError::TooManyFields),
        is_default_field(fields) ==> field_check(fields) is Ok,
{
}

} // verus!
