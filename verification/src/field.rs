//! Analysis of one field of the annotated struct: resolving its validator
//! annotation and emitting the per-field fragments of the generated code.

use vstd::prelude::*;
use vstd::string::StringExecFns;

use crate::input::{AttrView, FieldView, InputField};

verus! {

/// Whether the text parses as a single identifier — a reference to a
/// function in scope. Decided by the host language's parser; see
/// [`text_is_ident`].
pub uninterp spec fn is_ident_text(s: Seq<char>) -> bool;

/// Whether the text parses as a single anonymous-function literal.
/// Decided by the host language's parser; see [`text_is_closure`].
pub uninterp spec fn is_closure_text(s: Seq<char>) -> bool;

/// Relies on syn::parse_str::<syn::Ident>: accepts exactly the payloads
/// that consist of one non-keyword identifier. The answer depends on the
/// text alone.
#[verifier::external_body]
fn text_is_ident(s: &str) -> (r: bool)
    ensures
        r == is_ident_text(s@),
{
    syn::parse_str::<syn::Ident>(s).is_ok()
}

/// Relies on syn::parse_str::<syn::ExprClosure>: accepts exactly the
/// payloads that consist of one closure expression. The answer depends on
/// the text alone.
#[verifier::external_body]
fn text_is_closure(s: &str) -> (r: bool)
    ensures
        r == is_closure_text(s@),
{
    syn::parse_str::<syn::ExprClosure>(s).is_ok()
}

/// The validator resolved for one field: a reference to a named function
/// in scope, an inline anonymous-function literal, or no validator at all.
///
/// A present-but-unparsable payload deliberately degrades to `Absent`
/// rather than failing generation: such a field is treated as unvalidated.
#[derive(Debug)]
pub enum FieldValidator {
    Ident(String),
    Closure(String),
    Absent,
}

/// Spec-level image of a [`FieldValidator`].
pub ghost enum ValidatorView {
    Named(Seq<char>),
    Inline(Seq<char>),
    Absent,
}

impl View for FieldValidator {
    type V = ValidatorView;

    open spec fn view(&self) -> ValidatorView {
        match self {
            FieldValidator::Ident(s) => ValidatorView::Named(s@),
            FieldValidator::Closure(s) => ValidatorView::Inline(s@),
            FieldValidator::Absent => ValidatorView::Absent,
        }
    }
}

impl FieldValidator {
    /// True when the field has a validator attached.
    pub fn is_some(&self) -> (r: bool)
        ensures
            r == !(self@ is Absent),
    {
        match self {
            FieldValidator::Absent => false,
            _ => true,
        }
    }

    /// Classify one annotation payload: a single identifier names a
    /// function in scope; otherwise a closure literal is an inline
    /// validator; anything else counts as no validator.
    pub fn from_attr_payload(payload: &String) -> (r: FieldValidator)
        ensures
            r@ == classify_payload(payload@),
    {
        if text_is_ident(payload.as_str()) {
            FieldValidator::Ident(payload.clone())
        } else if text_is_closure(payload.as_str()) {
            FieldValidator::Closure(payload.clone())
        } else {
            FieldValidator::Absent
        }
    }
}

/// The classification of one annotation payload.
pub open spec fn classify_payload(p: Seq<char>) -> ValidatorView {
    if is_ident_text(p) {
        ValidatorView::Named(p)
    } else if is_closure_text(p) {
        ValidatorView::Inline(p)
    } else {
        ValidatorView::Absent
    }
}

/// True for an annotation that carries a validator.
pub open spec fn is_validator_attr(a: AttrView) -> bool {
    a.path == "validator"@
}

/// The payload of the last validator annotation in the list, if any.
pub open spec fn last_validator_payload(attrs: Seq<AttrView>) -> Option<Seq<char>>
    decreases attrs.len(),
{
    if attrs.len() == 0 {
        Option::None
    } else if is_validator_attr(attrs.last()) {
        Option::Some(attrs.last().payload)
    } else {
        last_validator_payload(attrs.drop_last())
    }
}

/// The validator a list of annotations resolves to: the classification of
/// the last validator annotation's payload, or `Absent` when the field
/// carries none.
pub open spec fn resolved_validator(attrs: Seq<AttrView>) -> ValidatorView {
    match last_validator_payload(attrs) {
        Option::Some(p) => classify_payload(p),
        Option::None => ValidatorView::Absent,
    }
}

/// When a field carries the validator annotation more than once, only the
/// last occurrence is honored: appending a validator annotation makes the
/// earlier ones irrelevant.
pub proof fn lemma_validator_last_wins(attrs: Seq<AttrView>, a: AttrView)
    requires
        is_validator_attr(a),
    ensures
        resolved_validator(attrs.push(a)) == classify_payload(a.payload),
{
    assert(attrs.push(a).last() == a);
}

/// An annotation that is not a validator annotation never changes which
/// validator the field resolves to.
pub proof fn lemma_other_attr_ignored(attrs: Seq<AttrView>, a: AttrView)
    requires
        !is_validator_attr(a),
    ensures
        resolved_validator(attrs.push(a)) == resolved_validator(attrs),
{
    assert(attrs.push(a).last() == a);
    assert(attrs.push(a).drop_last() =~= attrs);
}

/// A generation failure: the schema cannot be given a validation scaffold.
/// No artifact is emitted for a schema that fails analysis.
#[derive(Clone, Copy, Debug, PartialEq, Eq, Structural)]
pub enum SchemaError {
    /// A field has no name.
    AnonymousField,
    /// The annotated type is an enum.
    UnsupportedEnum,
    /// The annotated type is a union.
    UnsupportedUnion,
    /// The annotated struct has positional fields only.
    UnsupportedTupleStruct,
    /// The annotated struct has no named-field shape.
    UnsupportedUnitStruct,
}

/// The diagnostic text of a generation failure.
pub open spec fn spec_error_message(e: SchemaError) -> Seq<char> {
    match e {
        SchemaError::AnonymousField => "Nameless field in struct"@,
        SchemaError::UnsupportedEnum => "Correct-by-construction Validator is not supported on Enums"@,
        SchemaError::UnsupportedUnion => "Correct-by-construction Validator is not supported on Unions"@,
        SchemaError::UnsupportedTupleStruct => "Correct-by-construction Validator is not supported on tuple Structs"@,
        SchemaError::UnsupportedUnitStruct => "Correct-by-construction Validator is not supported on unit Structs"@,
    }
}

impl SchemaError {
    /// The diagnostic text reported to whoever triggered generation.
    pub fn message(&self) -> (r: &'static str)
        ensures
            r@ == spec_error_message(*self),
    {
        match self {
            SchemaError::AnonymousField => "Nameless field in struct",
            SchemaError::UnsupportedEnum => "Correct-by-construction Validator is not supported on Enums",
            SchemaError::UnsupportedUnion => "Correct-by-construction Validator is not supported on Unions",
            SchemaError::UnsupportedTupleStruct => "Correct-by-construction Validator is not supported on tuple Structs",
            SchemaError::UnsupportedUnitStruct => "Correct-by-construction Validator is not supported on unit Structs",
        }
    }
}

/// One analyzed field: its name, its declared type, the error type shared
/// by the whole schema, and the validator it resolved to.
#[derive(Debug)]
pub struct ValidatedFieldDeriv {
    pub name: String,
    pub ty: String,
    pub custom_validation_error_ty: String,
    pub field_validator: FieldValidator,
}

/// Spec-level image of a [`ValidatedFieldDeriv`].
pub ghost struct FieldDerivView {
    pub name: Seq<char>,
    pub ty: Seq<char>,
    pub custom_validation_error_ty: Seq<char>,
    pub field_validator: ValidatorView,
}

impl View for ValidatedFieldDeriv {
    type V = FieldDerivView;

    open spec fn view(&self) -> FieldDerivView {
        FieldDerivView {
            name: self.name@,
            ty: self.ty@,
            custom_validation_error_ty: self.custom_validation_error_ty@,
            field_validator: self.field_validator@,
        }
    }
}

/// The analysis of one parsed field under a given effective error type.
/// Meaningful when the field has a name.
pub open spec fn spec_field_deriv(f: FieldView, error: Seq<char>) -> FieldDerivView {
    FieldDerivView {
        name: f.name->Some_0,
        ty: f.ty,
        custom_validation_error_ty: error,
        field_validator: resolved_validator(f.attrs),
    }
}

impl ValidatedFieldDeriv {
    /// Analyze one parsed field, given the schema's resolved error type.
    /// A field without a name is a hard generation failure.
    pub fn new(field: &InputField, error: &String) -> (r: Result<ValidatedFieldDeriv, SchemaError>)
        ensures
            field@.name is Some ==> r is Ok && r->Ok_0@ == spec_field_deriv(field@, error@),
            field@.name is None ==> r == Result::<ValidatedFieldDeriv, SchemaError>::Err(
                SchemaError::AnonymousField,
            ),
    {
        match &field.name {
            Option::Some(name) => {
                let field_validator = Self::parse_field_validator(field);
                Result::Ok(ValidatedFieldDeriv {
                    name: name.clone(),
                    ty: field.ty.clone(),
                    custom_validation_error_ty: error.clone(),
                    field_validator,
                })
            },
            Option::None => Result::Err(SchemaError::AnonymousField),
        }
    }

    /// Resolve the field's validator annotations: of all `validator`
    /// annotations on the field, only the last one is honored.
    fn parse_field_validator(field: &InputField) -> (r: FieldValidator)
        ensures
            r@ == resolved_validator(field@.attrs),
    {
        let key: String = "validator".to_owned();
        let ghost attrs = field@.attrs;
        let mut last: Option<&String> = Option::None;
        let mut j: usize = 0;
        while j < field.attrs.len()
            invariant
                0 <= j <= field.attrs.len(),
                attrs == field@.attrs,
                attrs.len() == field.attrs.len(),
                key@ == "validator"@,
                forall|k: int| 0 <= k < attrs.len() ==> attrs[k] == #[trigger] field.attrs[k]@,
                match last {
                    Option::Some(p) => last_validator_payload(attrs.take(j as int))
                        == Option::Some(p@),
                    Option::None => last_validator_payload(attrs.take(j as int)) is None,
                },
            decreases field.attrs.len() - j,
        {
            proof {
                assert(attrs.take(j as int + 1).drop_last() =~= attrs.take(j as int));
                assert(attrs.take(j as int + 1).last() == attrs[j as int]);
            }
            let a = &field.attrs[j];
            if a.path == key {
                last = Option::Some(&a.payload);
            }
            j = j + 1;
        }
        proof {
            assert(attrs.take(attrs.len() as int) =~= attrs);
        }
        match last {
            Option::Some(p) => FieldValidator::from_attr_payload(p),
            Option::None => FieldValidator::Absent,
        }
    }

    /// Name of the field as token text.
    pub fn get_name(&self) -> (r: String)
        ensures
            r@ == self.name@,
    {
        self.name.clone()
    }

    /// True when the field has a validator attached.
    pub fn is_validated(&self) -> (r: bool)
        ensures
            r == !(self.field_validator@ is Absent),
    {
        self.field_validator.is_some()
    }

    /// Used to construct the validated instance from the unvalidated.
    ///
    /// When there are no validators attached, it is a simple field copy.
    pub fn build_unvalidated_constructor(&self) -> (r: String)
        ensures
            r@ == spec_unvalidated_constructor(self@),
    {
        let mut r = String::new();
        r.append(self.name.as_str());
        r.append(": unvalidated.");
        r.append(self.name.as_str());
        proof {
            assert(r@ =~= spec_unvalidated_constructor(self@));
        }
        r
    }

    /// Emits the expression that evaluates this field of the unvalidated
    /// value: a call of the validator on the raw field when one is
    /// attached, a plain read of the raw field when none is.
    pub fn build_match_validator_call(&self) -> (r: String)
        ensures
            r@ == spec_match_validator_call(self@),
    {
        let mut r = String::new();
        match &self.field_validator {
            FieldValidator::Ident(v) => {
                r.append("(");
                r.append(v.as_str());
                r.append(")(unvalidated.");
                r.append(self.name.as_str());
                r.append(")");
            },
            FieldValidator::Closure(v) => {
                r.append("(");
                r.append(v.as_str());
                r.append(")(unvalidated.");
                r.append(self.name.as_str());
                r.append(")");
            },
            FieldValidator::Absent => {
                r.append("unvalidated.");
                r.append(self.name.as_str());
            },
        }
        proof {
            assert(r@ =~= spec_match_validator_call(self@));
        }
        r
    }

    /// Builds the pattern that matches when the validator was successful:
    /// a validated field matches a success carrying its value, an
    /// unvalidated field binds its value directly.
    pub fn build_match_validator_ok(&self) -> (r: String)
        ensures
            r@ == spec_match_validator_ok(self@),
    {
        let mut r = String::new();
        if self.is_validated() {
            r.append("::std::result::Result::Ok(");
            r.append(self.name.as_str());
            r.append(")");
        } else {
            r.append(self.name.as_str());
        }
        proof {
            assert(r@ =~= spec_match_validator_ok(self@));
        }
        r
    }

    /// Builds error handling for when the validator fails: a validated
    /// field appends its failure payload to the error list, an unvalidated
    /// field contributes nothing.
    pub fn build_validator_error_push(&self) -> (r: String)
        ensures
            r@ == spec_validator_error_push(self@),
    {
        let mut r = String::new();
        if self.is_validated() {
            r.append("if let ::std::result::Result::Err(e) = ");
            r.append(self.name.as_str());
            r.append(" { errors.push(e); }\n");
        }
        proof {
            assert(r@ =~= spec_validator_error_push(self@));
        }
        r
    }

    /// Emits dummy code that fails to compile when the declared type of
    /// the custom error does not match the signature of the validator for
    /// this field. The statement is only ever type-checked, never run.
    pub fn build_field_assertions(&self) -> (r: String)
        ensures
            r@ == spec_field_assertions(self@),
    {
        let mut r = String::new();
        match &self.field_validator {
            FieldValidator::Ident(v) => {
                self.append_assertion(&mut r, v);
            },
            FieldValidator::Closure(v) => {
                self.append_assertion(&mut r, v);
            },
            FieldValidator::Absent => {},
        }
        proof {
            assert(r@ =~= spec_field_assertions(self@));
        }
        r
    }

    /// The signature assertion shared by both validator forms: the
    /// validator must be a function from the field's type to a result of
    /// the field's type and the effective error type.
    fn append_assertion(&self, r: &mut String, v: &String)
        ensures
            final(r)@ == old(r)@ + spec_assertion_text(self@, v@),
    {
        r.append("let _: fn(");
        r.append(self.ty.as_str());
        r.append(") -> ::std::result::Result<");
        r.append(self.ty.as_str());
        r.append(", ");
        r.append(self.custom_validation_error_ty.as_str());
        r.append("> = ");
        r.append(v.as_str());
        r.append(";\n");
        proof {
            assert(r@ =~= old(r)@ + spec_assertion_text(self@, v@));
        }
    }

    /// Builds this field's member of the unvalidated struct: same name,
    /// same declared type, always public.
    pub fn build_unvalidated_struct_repr(&self) -> (r: String)
        ensures
            r@ == spec_unvalidated_struct_repr(self@),
    {
        let mut r = String::new();
        r.append("pub ");
        r.append(self.name.as_str());
        r.append(": ");
        r.append(self.ty.as_str());
        proof {
            assert(r@ =~= spec_unvalidated_struct_repr(self@));
        }
        r
    }
}

/// `name: unvalidated.name` — the plain copy of one field.
pub open spec fn spec_unvalidated_constructor(f: FieldDerivView) -> Seq<char> {
    f.name + ": unvalidated."@ + f.name
}

/// The evaluation expression of one field: `(validator)(unvalidated.name)`
/// when validated, `unvalidated.name` when not.
pub open spec fn spec_match_validator_call(f: FieldDerivView) -> Seq<char> {
    match f.field_validator {
        ValidatorView::Named(v) => "("@ + v + ")(unvalidated."@ + f.name + ")"@,
        ValidatorView::Inline(v) => "("@ + v + ")(unvalidated."@ + f.name + ")"@,
        ValidatorView::Absent => "unvalidated."@ + f.name,
    }
}

/// The success pattern of one field: `::std::result::Result::Ok(name)`
/// when validated, bare `name` when not.
pub open spec fn spec_match_validator_ok(f: FieldDerivView) -> Seq<char> {
    if !(f.field_validator is Absent) {
        "::std::result::Result::Ok("@ + f.name + ")"@
    } else {
        f.name
    }
}

/// The failure-extraction statement of one field: appends the error
/// payload to the list when the bound result is a failure; empty for an
/// unvalidated field.
pub open spec fn spec_validator_error_push(f: FieldDerivView) -> Seq<char> {
    if !(f.field_validator is Absent) {
        "if let ::std::result::Result::Err(e) = "@ + f.name + " { errors.push(e); }\n"@
    } else {
        Seq::empty()
    }
}

/// The static signature assertion with a given validator expression.
pub open spec fn spec_assertion_text(f: FieldDerivView, v: Seq<char>) -> Seq<char> {
    "let _: fn("@ + f.ty + ") -> ::std::result::Result<"@ + f.ty + ", "@
        + f.custom_validation_error_ty + "> = "@ + v + ";\n"@
}

/// The static signature assertion of one field; empty when unvalidated.
pub open spec fn spec_field_assertions(f: FieldDerivView) -> Seq<char> {
    match f.field_validator {
        ValidatorView::Named(v) => spec_assertion_text(f, v),
        ValidatorView::Inline(v) => spec_assertion_text(f, v),
        ValidatorView::Absent => Seq::empty(),
    }
}

/// `pub name: ty` — one member of the unvalidated struct.
pub open spec fn spec_unvalidated_struct_repr(f: FieldDerivView) -> Seq<char> {
    "pub "@ + f.name + ": "@ + f.ty
}

} // verus!
