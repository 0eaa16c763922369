//! Analysis of the whole annotated declaration and assembly of the two
//! generated artifacts: the unvalidated mirror struct and the conversion
//! impl from it into the checked type.

use vstd::prelude::*;
use vstd::string::StringExecFns;

use crate::field::{
    resolved_validator, spec_field_assertions, spec_field_deriv, spec_match_validator_call,
    spec_match_validator_ok,
    spec_unvalidated_constructor, spec_unvalidated_struct_repr, spec_validator_error_push,
    FieldDerivView, SchemaError, ValidatedFieldDeriv,
};
use crate::input::{AttrView, FieldView, GenericParam, GenericParamView, InputAttr, InputField,
    SchemaInput, SchemaView};

verus! {

/// True for an annotation that overrides the schema's error type.
pub open spec fn is_error_attr(a: AttrView) -> bool {
    a.path == "validation_error"@
}

/// The payload of the last error-type override in the list, if any.
pub open spec fn last_error_payload(attrs: Seq<AttrView>) -> Option<Seq<char>>
    decreases attrs.len(),
{
    if attrs.len() == 0 {
        Option::None
    } else if is_error_attr(attrs.last()) {
        Option::Some(attrs.last().payload)
    } else {
        last_error_payload(attrs.drop_last())
    }
}

/// The schema's effective error type: the last error-type override, or
/// the generic growable-string type when none is present.
pub open spec fn resolved_error_ty(attrs: Seq<AttrView>) -> Seq<char> {
    match last_error_payload(attrs) {
        Option::Some(p) => p,
        Option::None => "::std::string::String"@,
    }
}

/// When the schema carries the error-type override more than once, only
/// the last occurrence is honored.
pub proof fn lemma_error_ty_last_wins(attrs: Seq<AttrView>, a: AttrView)
    requires
        is_error_attr(a),
    ensures
        resolved_error_ty(attrs.push(a)) == a.payload,
{
    assert(attrs.push(a).last() == a);
}

/// An annotation that is not an error-type override never changes the
/// schema's effective error type.
pub proof fn lemma_other_schema_attr_ignored(attrs: Seq<AttrView>, a: AttrView)
    requires
        !is_error_attr(a),
    ensures
        resolved_error_ty(attrs.push(a)) == resolved_error_ty(attrs),
{
    assert(attrs.push(a).last() == a);
    assert(attrs.push(a).drop_last() =~= attrs);
}

/// The analyzed schema: everything the emitter needs to assemble the two
/// generated artifacts.
pub struct ValidatedDeriv {
    pub visibility: String,
    pub name: String,
    pub unvalidated_name: String,
    pub generics: Vec<GenericParam>,
    pub custom_validation_error_ty: String,
    pub fields: Vec<ValidatedFieldDeriv>,
}

/// Spec-level image of a [`ValidatedDeriv`].
pub ghost struct DerivView {
    pub visibility: Seq<char>,
    pub name: Seq<char>,
    pub unvalidated_name: Seq<char>,
    pub generics: Seq<GenericParamView>,
    pub custom_validation_error_ty: Seq<char>,
    pub fields: Seq<FieldDerivView>,
}

impl View for ValidatedDeriv {
    type V = DerivView;

    open spec fn view(&self) -> DerivView {
        DerivView {
            visibility: self.visibility@,
            name: self.name@,
            unvalidated_name: self.unvalidated_name@,
            generics: self.generics@.map_values(|g: GenericParam| g@),
            custom_validation_error_ty: self.custom_validation_error_ty@,
            fields: self.fields@.map_values(|f: ValidatedFieldDeriv| f@),
        }
    }
}

/// True when every field of the list has a name.
pub open spec fn all_fields_named(fs: Seq<FieldView>) -> bool {
    forall|i: int| 0 <= i < fs.len() ==> (#[trigger] fs[i].name) is Some
}

/// The analysis of a whole named-field schema: derived names, resolved
/// error type, and one analyzed field per declared field, in order.
/// Meaningful when every field has a name.
pub open spec fn spec_deriv(s: SchemaView, fs: Seq<FieldView>) -> DerivView {
    DerivView {
        visibility: s.vis,
        name: s.ident,
        unvalidated_name: "Unvalidated"@ + s.ident,
        generics: s.generics,
        custom_validation_error_ty: resolved_error_ty(s.attrs),
        fields: fs.map_values(|f: FieldView| spec_field_deriv(f, resolved_error_ty(s.attrs))),
    }
}

/// The analysis keeps the schema's shape: one analyzed field per declared
/// field, in declaration order, each with the declared field's name and
/// type, and every field's effective error type is the schema's own —
/// set once at analysis, identical across all fields.
pub proof fn lemma_analysis_mirrors_schema(s: SchemaView, fs: Seq<FieldView>)
    ensures
        spec_deriv(s, fs).fields.len() == fs.len(),
        forall|i: int| 0 <= i < fs.len() ==> (#[trigger] spec_deriv(s, fs).fields[i]).name
            == fs[i].name->Some_0,
        forall|i: int| 0 <= i < fs.len() ==> (#[trigger] spec_deriv(s, fs).fields[i]).ty
            == fs[i].ty,
        forall|i: int| 0 <= i < fs.len() ==> (#[trigger] spec_deriv(
            s,
            fs,
        ).fields[i]).custom_validation_error_ty == resolved_error_ty(s.attrs),
        forall|i: int| 0 <= i < fs.len() ==> (#[trigger] spec_deriv(
            s,
            fs,
        ).fields[i]).field_validator == resolved_validator(fs[i].attrs),
{
}

impl ValidatedDeriv {
    /// Analyze the whole declaration: derive the unvalidated type's name,
    /// resolve the schema-level error type, and analyze every field with
    /// it. The first field without a name aborts the analysis.
    pub fn new(ast: &SchemaInput, fields: &Vec<InputField>) -> (r: Result<
        ValidatedDeriv,
        SchemaError,
    >)
        ensures
            all_fields_named(fields@.map_values(|f: InputField| f@)) ==> r is Ok
                && r->Ok_0@ == spec_deriv(ast@, fields@.map_values(|f: InputField| f@)),
            !all_fields_named(fields@.map_values(|f: InputField| f@)) ==> r == Result::<
                ValidatedDeriv,
                SchemaError,
            >::Err(SchemaError::AnonymousField),
    {
        let ghost fvs = fields@.map_values(|f: InputField| f@);
        let mut unvalidated_name: String = "Unvalidated".to_owned();
        unvalidated_name.append(ast.ident.as_str());
        let custom_validation_error_ty = Self::validation_error_from_attrs(&ast.attrs);
        let ghost ety = custom_validation_error_ty@;
        let mut fds: Vec<ValidatedFieldDeriv> = Vec::new();
        let mut i: usize = 0;
        while i < fields.len()
            invariant
                0 <= i <= fields.len(),
                fvs == fields@.map_values(|f: InputField| f@),
                fvs.len() == fields.len(),
                ety == custom_validation_error_ty@,
                ety == resolved_error_ty(ast@.attrs),
                forall|k: int| 0 <= k < i ==> (#[trigger] fvs[k].name) is Some,
                fds@.map_values(|f: ValidatedFieldDeriv| f@) == fvs.take(i as int).map_values(
                    |f: FieldView| spec_field_deriv(f, ety),
                ),
            decreases fields.len() - i,
        {
            proof {
                assert(fvs[i as int] == fields@[i as int]@);
            }
            match ValidatedFieldDeriv::new(&fields[i], &custom_validation_error_ty) {
                Result::Ok(fd) => {
                    let ghost prev = fds@.map_values(|f: ValidatedFieldDeriv| f@);
                    fds.push(fd);
                    proof {
                        assert(fds@.map_values(|f: ValidatedFieldDeriv| f@) =~= prev.push(fd@));
                        assert(fvs.take(i as int + 1).map_values(
                            |f: FieldView| spec_field_deriv(f, ety),
                        ) =~= fvs.take(i as int).map_values(
                            |f: FieldView| spec_field_deriv(f, ety),
                        ).push(spec_field_deriv(fvs[i as int], ety)));
                    }
                },
                Result::Err(e) => {
                    return Result::Err(e);
                },
            }
            i = i + 1;
        }
        proof {
            assert(fvs.take(fvs.len() as int) =~= fvs);
        }
        Result::Ok(ValidatedDeriv {
            visibility: ast.vis.clone(),
            name: ast.ident.clone(),
            unvalidated_name,
            generics: Self::clone_generics(&ast.generics),
            custom_validation_error_ty,
            fields: fds,
        })
    }

    /// Resolve the schema-level error type from the type's annotations:
    /// of all `validation_error` annotations, only the last one is
    /// honored; without one the error type is the growable string type.
    fn validation_error_from_attrs(attrs: &Vec<InputAttr>) -> (r: String)
        ensures
            r@ == resolved_error_ty(attrs@.map_values(|a: InputAttr| a@)),
    {
        let key: String = "validation_error".to_owned();
        let ghost avs = attrs@.map_values(|a: InputAttr| a@);
        let mut last: Option<&String> = Option::None;
        let mut j: usize = 0;
        while j < attrs.len()
            invariant
                0 <= j <= attrs.len(),
                avs == attrs@.map_values(|a: InputAttr| a@),
                avs.len() == attrs.len(),
                key@ == "validation_error"@,
                match last {
                    Option::Some(p) => last_error_payload(avs.take(j as int)) == Option::Some(
                        p@,
                    ),
                    Option::None => last_error_payload(avs.take(j as int)) is None,
                },
            decreases attrs.len() - j,
        {
            proof {
                assert(avs.take(j as int + 1).drop_last() =~= avs.take(j as int));
                assert(avs.take(j as int + 1).last() == avs[j as int]);
                assert(avs[j as int] == attrs@[j as int]@);
            }
            let a = &attrs[j];
            if a.path == key {
                last = Option::Some(&a.payload);
            }
            j = j + 1;
        }
        proof {
            assert(avs.take(avs.len() as int) =~= avs);
        }
        match last {
            Option::Some(p) => p.clone(),
            Option::None => "::std::string::String".to_owned(),
        }
    }

    /// Assemble the two generated artifacts for the analyzed schema: the
    /// unvalidated struct declaration followed by the conversion impl.
    pub fn validated_impl(&self) -> (r: Result<String, SchemaError>)
        ensures
            r is Ok,
            r->Ok_0@ == spec_validated_impl(self@),
    {
        let unvalidated_struct = match self.build_unvalidated_struct() {
            Result::Ok(s) => s,
            Result::Err(e) => {
                return Result::Err(e);
            },
        };
        let validate_impl = match self.build_validate_impl() {
            Result::Ok(s) => s,
            Result::Err(e) => {
                return Result::Err(e);
            },
        };
        let mut r = unvalidated_struct;
        r.append(validate_impl.as_str());
        Result::Ok(r)
    }

    /// The unvalidated struct: the same visibility and generic arguments
    /// as the annotated type, one public member per field, in declaration
    /// order.
    fn build_unvalidated_struct(&self) -> (r: Result<String, SchemaError>)
        ensures
            r is Ok,
            r->Ok_0@ == spec_unvalidated_struct(self@),
    {
        let mut r: String = "#[automatically_derived]\n".to_owned();
        r.append(self.visibility.as_str());
        r.append(" struct ");
        r.append(self.unvalidated_name.as_str());
        let tg = self.build_ty_generics();
        r.append(tg.as_str());
        r.append(" {\n");
        let fl = self.unvalidated_struct_fields_list();
        r.append(fl.as_str());
        r.append("}\n");
        proof {
            assert(r@ =~= spec_unvalidated_struct(self@));
        }
        Result::Ok(r)
    }

    /// The conversion impl: `TryFrom` from the unvalidated struct into the
    /// checked type, failing with the list of every validator error.
    fn build_validate_impl(&self) -> (r: Result<String, SchemaError>)
        ensures
            r is Ok,
            r->Ok_0@ == spec_validate_impl(self@),
    {
        let mut body = String::new();
        let mut has_any_validated_fields = false;
        let mut i: usize = 0;
        let ghost fvs = self@.fields;
        while i < self.fields.len()
            invariant
                0 <= i <= self.fields.len(),
                fvs == self@.fields,
                fvs.len() == self.fields.len(),
                has_any_validated_fields <==> spec_any_validated(fvs.take(i as int)),
            decreases self.fields.len() - i,
        {
            proof {
                assert(fvs[i as int] == self.fields@[i as int]@);
            }
            let validated_now = self.fields[i].is_validated();
            if validated_now {
                has_any_validated_fields = true;
            }
            proof {
                let t0 = fvs.take(i as int);
                let t1 = fvs.take(i as int + 1);
                assert(forall|k: int| 0 <= k < i ==> #[trigger] t1[k] == t0[k]);
                assert(t1[i as int] == fvs[i as int]);
                if has_any_validated_fields {
                    if spec_any_validated(t0) {
                        let k = choose|k: int|
                            0 <= k < t0.len() && !((#[trigger] t0[k].field_validator) is Absent);
                        assert(!((t1[k].field_validator) is Absent));
                    } else {
                        assert(!((t1[i as int].field_validator) is Absent));
                    }
                    assert(spec_any_validated(t1));
                } else {
                    assert(!spec_any_validated(t1)) by {
                        if spec_any_validated(t1) {
                            let k = choose|k: int|
                                0 <= k < t1.len() && !((#[trigger] t1[k].field_validator)
                                    is Absent);
                            if k < i {
                                assert(!((t0[k].field_validator) is Absent));
                                assert(spec_any_validated(t0));
                            } else {
                                assert(t1[k] == fvs[i as int]);
                            }
                        }
                    }
                }
            }
            i = i + 1;
        }
        proof {
            assert(fvs.take(fvs.len() as int) =~= fvs);
        }
        if has_any_validated_fields {
            let al = self.assertions_list();
            body.append(al.as_str());
            body.append("match (");
            let calls = self.match_validator_calls();
            body.append(calls.as_str());
            body.append(") {\n(");
            let ok_pats = self.match_validator_ok();
            body.append(ok_pats.as_str());
            body.append(") => ::std::result::Result::Ok(");
            let ctor = self.constructor();
            body.append(ctor.as_str());
            body.append("),\n(");
            let nok_pats = self.match_validator_nok();
            body.append(nok_pats.as_str());
            body.append(") => {\nlet mut errors: ::std::vec::Vec<");
            body.append(self.custom_validation_error_ty.as_str());
            body.append("> = ::std::vec::Vec::new();\n");
            let pushes = self.match_validator_error_push();
            body.append(pushes.as_str());
            body.append("::std::result::Result::Err(errors)\n}\n}\n");
            proof {
                assert(body@ =~= spec_validate_body(self@));
            }
        } else {
            body.append("Ok(");
            let ctor = self.unvalidated_constructor();
            body.append(ctor.as_str());
            body.append(")\n");
            proof {
                assert(body@ =~= spec_validate_body(self@));
            }
        }
        let mut r: String = "#[automatically_derived]\nimpl ".to_owned();
        let ig = self.build_impl_generics();
        r.append(ig.as_str());
        r.append(" ::std::convert::TryFrom<");
        r.append(self.unvalidated_name.as_str());
        let tg = self.build_ty_generics();
        r.append(tg.as_str());
        r.append("> for ");
        r.append(self.name.as_str());
        r.append(tg.as_str());
        r.append(" {\ntype Error = ::std::vec::Vec<");
        r.append(self.custom_validation_error_ty.as_str());
        r.append(">;\nfn try_from(unvalidated: ");
        r.append(self.unvalidated_name.as_str());
        r.append(tg.as_str());
        r.append(") -> ::core::result::Result<Self, Self::Error> {\n");
        r.append(body.as_str());
        r.append("}\n}\n");
        proof {
            assert(r@ =~= spec_validate_impl(self@));
        }
        Result::Ok(r)
    }

    /// The constructor of the checked type from the bound field values.
    fn constructor(&self) -> (r: String)
        ensures
            r@ == spec_constructor(self@),
    {
        let mut r = self.name.clone();
        r.append(" { ");
        let names = self.match_validator_nok();
        r.append(names.as_str());
        r.append("}");
        proof {
            assert(r@ =~= spec_constructor(self@));
        }
        r
    }

    /// The constructor of the checked type by plain field copies, used
    /// when no field is validated.
    fn unvalidated_constructor(&self) -> (r: String)
        ensures
            r@ == spec_unvalidated_constructor_expr(self@),
    {
        let mut r = self.name.clone();
        r.append(" { ");
        let ghost fvs = self@.fields;
        let mut i: usize = 0;
        while i < self.fields.len()
            invariant
                0 <= i <= self.fields.len(),
                fvs == self@.fields,
                fvs.len() == self.fields.len(),
                r@ == self@.name + " { "@ + spec_unvalidated_constructor_fields(
                    fvs.take(i as int),
                ),
            decreases self.fields.len() - i,
        {
            proof {
                assert(fvs.take(i as int + 1).drop_last() =~= fvs.take(i as int));
                assert(fvs.take(i as int + 1).last() == fvs[i as int]);
                assert(fvs[i as int] == self.fields@[i as int]@);
            }
            let piece = self.fields[i].build_unvalidated_constructor();
            r.append(piece.as_str());
            r.append(", ");
            proof {
                assert(r@ =~= self@.name + " { "@ + spec_unvalidated_constructor_fields(
                    fvs.take(i as int + 1),
                ));
            }
            i = i + 1;
        }
        r.append("}");
        proof {
            assert(fvs.take(fvs.len() as int) =~= fvs);
            assert(r@ =~= spec_unvalidated_constructor_expr(self@));
        }
        r
    }

    /// The joint evaluation of every field, in declaration order: each
    /// validated field's validator call, each unvalidated field's plain
    /// read. Every validator runs, whatever an earlier one returned.
    fn match_validator_calls(&self) -> (r: String)
        ensures
            r@ == spec_calls_list(self@.fields),
    {
        let ghost fvs = self@.fields;
        let mut r = String::new();
        let mut i: usize = 0;
        while i < self.fields.len()
            invariant
                0 <= i <= self.fields.len(),
                fvs == self@.fields,
                fvs.len() == self.fields.len(),
                r@ == spec_calls_list(fvs.take(i as int)),
            decreases self.fields.len() - i,
        {
            proof {
                assert(fvs.take(i as int + 1).drop_last() =~= fvs.take(i as int));
                assert(fvs.take(i as int + 1).last() == fvs[i as int]);
                assert(fvs[i as int] == self.fields@[i as int]@);
            }
            let piece = self.fields[i].build_match_validator_call();
            r.append(piece.as_str());
            r.append(", ");
            proof {
                assert(r@ =~= spec_calls_list(fvs.take(i as int + 1)));
            }
            i = i + 1;
        }
        proof {
            assert(fvs.take(fvs.len() as int) =~= fvs);
        }
        r
    }

    /// The success patterns of every field, in declaration order.
    fn match_validator_ok(&self) -> (r: String)
        ensures
            r@ == spec_ok_list(self@.fields),
    {
        let ghost fvs = self@.fields;
        let mut r = String::new();
        let mut i: usize = 0;
        while i < self.fields.len()
            invariant
                0 <= i <= self.fields.len(),
                fvs == self@.fields,
                fvs.len() == self.fields.len(),
                r@ == spec_ok_list(fvs.take(i as int)),
            decreases self.fields.len() - i,
        {
            proof {
                assert(fvs.take(i as int + 1).drop_last() =~= fvs.take(i as int));
                assert(fvs.take(i as int + 1).last() == fvs[i as int]);
                assert(fvs[i as int] == self.fields@[i as int]@);
            }
            let piece = self.fields[i].build_match_validator_ok();
            r.append(piece.as_str());
            r.append(", ");
            proof {
                assert(r@ =~= spec_ok_list(fvs.take(i as int + 1)));
            }
            i = i + 1;
        }
        proof {
            assert(fvs.take(fvs.len() as int) =~= fvs);
        }
        r
    }

    /// The catch-all patterns of the failure arm: every field's bare name.
    fn match_validator_nok(&self) -> (r: String)
        ensures
            r@ == spec_names_list(self@.fields),
    {
        let ghost fvs = self@.fields;
        let mut r = String::new();
        let mut i: usize = 0;
        while i < self.fields.len()
            invariant
                0 <= i <= self.fields.len(),
                fvs == self@.fields,
                fvs.len() == self.fields.len(),
                r@ == spec_names_list(fvs.take(i as int)),
            decreases self.fields.len() - i,
        {
            proof {
                assert(fvs.take(i as int + 1).drop_last() =~= fvs.take(i as int));
                assert(fvs.take(i as int + 1).last() == fvs[i as int]);
                assert(fvs[i as int] == self.fields@[i as int]@);
            }
            let piece = self.fields[i].get_name();
            r.append(piece.as_str());
            r.append(", ");
            proof {
                assert(r@ =~= spec_names_list(fvs.take(i as int + 1)));
            }
            i = i + 1;
        }
        proof {
            assert(fvs.take(fvs.len() as int) =~= fvs);
        }
        r
    }

    /// The failure-extraction statements of every field, in declaration
    /// order: only validated fields can append an error.
    fn match_validator_error_push(&self) -> (r: String)
        ensures
            r@ == spec_error_push_list(self@.fields),
    {
        let ghost fvs = self@.fields;
        let mut r = String::new();
        let mut i: usize = 0;
        while i < self.fields.len()
            invariant
                0 <= i <= self.fields.len(),
                fvs == self@.fields,
                fvs.len() == self.fields.len(),
                r@ == spec_error_push_list(fvs.take(i as int)),
            decreases self.fields.len() - i,
        {
            proof {
                assert(fvs.take(i as int + 1).drop_last() =~= fvs.take(i as int));
                assert(fvs.take(i as int + 1).last() == fvs[i as int]);
                assert(fvs[i as int] == self.fields@[i as int]@);
            }
            let piece = self.fields[i].build_validator_error_push();
            r.append(piece.as_str());
            proof {
                assert(r@ =~= spec_error_push_list(fvs.take(i as int + 1)));
            }
            i = i + 1;
        }
        proof {
            assert(fvs.take(fvs.len() as int) =~= fvs);
        }
        r
    }

    /// The static signature assertions of every validated field.
    fn assertions_list(&self) -> (r: String)
        ensures
            r@ == spec_assertions_list(self@.fields),
    {
        let ghost fvs = self@.fields;
        let mut r = String::new();
        let mut i: usize = 0;
        while i < self.fields.len()
            invariant
                0 <= i <= self.fields.len(),
                fvs == self@.fields,
                fvs.len() == self.fields.len(),
                r@ == spec_assertions_list(fvs.take(i as int)),
            decreases self.fields.len() - i,
        {
            proof {
                assert(fvs.take(i as int + 1).drop_last() =~= fvs.take(i as int));
                assert(fvs.take(i as int + 1).last() == fvs[i as int]);
                assert(fvs[i as int] == self.fields@[i as int]@);
            }
            let piece = self.fields[i].build_field_assertions();
            r.append(piece.as_str());
            proof {
                assert(r@ =~= spec_assertions_list(fvs.take(i as int + 1)));
            }
            i = i + 1;
        }
        proof {
            assert(fvs.take(fvs.len() as int) =~= fvs);
        }
        r
    }

    /// The members of the unvalidated struct, one per field, in order.
    fn unvalidated_struct_fields_list(&self) -> (r: String)
        ensures
            r@ == spec_struct_fields_list(self@.fields),
    {
        let ghost fvs = self@.fields;
        let mut r = String::new();
        let mut i: usize = 0;
        while i < self.fields.len()
            invariant
                0 <= i <= self.fields.len(),
                fvs == self@.fields,
                fvs.len() == self.fields.len(),
                r@ == spec_struct_fields_list(fvs.take(i as int)),
            decreases self.fields.len() - i,
        {
            proof {
                assert(fvs.take(i as int + 1).drop_last() =~= fvs.take(i as int));
                assert(fvs.take(i as int + 1).last() == fvs[i as int]);
                assert(fvs[i as int] == self.fields@[i as int]@);
            }
            let piece = self.fields[i].build_unvalidated_struct_repr();
            r.append(piece.as_str());
            r.append(",\n");
            proof {
                assert(r@ =~= spec_struct_fields_list(fvs.take(i as int + 1)));
            }
            i = i + 1;
        }
        proof {
            assert(fvs.take(fvs.len() as int) =~= fvs);
        }
        r
    }

    /// The generic-argument list of the generated types: every parameter's
    /// name, without its bounds, or nothing when the type has none.
    fn build_ty_generics(&self) -> (r: String)
        ensures
            r@ == spec_ty_generics(self@.generics),
    {
        let ghost gvs = self@.generics;
        if self.generics.len() == 0 {
            let r = String::new();
            proof {
                assert(r@ =~= spec_ty_generics(gvs));
            }
            return r;
        }
        let mut r: String = "<".to_owned();
        let mut i: usize = 0;
        while i < self.generics.len()
            invariant
                0 <= i <= self.generics.len(),
                gvs == self@.generics,
                gvs.len() == self.generics.len(),
                r@ == "<"@ + spec_ty_generics_names(gvs.take(i as int)),
            decreases self.generics.len() - i,
        {
            proof {
                assert(gvs.take(i as int + 1).drop_last() =~= gvs.take(i as int));
                assert(gvs.take(i as int + 1).last() == gvs[i as int]);
                assert(gvs[i as int] == self.generics@[i as int]@);
            }
            if i > 0 {
                r.append(", ");
            }
            r.append(self.generics[i].name.as_str());
            proof {
                assert(r@ =~= "<"@ + spec_ty_generics_names(gvs.take(i as int + 1)));
            }
            i = i + 1;
        }
        r.append(">");
        proof {
            assert(gvs.take(gvs.len() as int) =~= gvs);
            assert(r@ =~= spec_ty_generics(gvs));
        }
        r
    }

    /// The generic-parameter list of the generated impl: every parameter
    /// with its bounds, or nothing when the type has none.
    fn build_impl_generics(&self) -> (r: String)
        ensures
            r@ == spec_impl_generics(self@.generics),
    {
        let ghost gvs = self@.generics;
        if self.generics.len() == 0 {
            let r = String::new();
            proof {
                assert(r@ =~= spec_impl_generics(gvs));
            }
            return r;
        }
        let mut r: String = "<".to_owned();
        let mut i: usize = 0;
        while i < self.generics.len()
            invariant
                0 <= i <= self.generics.len(),
                gvs == self@.generics,
                gvs.len() == self.generics.len(),
                r@ == "<"@ + spec_impl_generics_params(gvs.take(i as int)),
            decreases self.generics.len() - i,
        {
            proof {
                assert(gvs.take(i as int + 1).drop_last() =~= gvs.take(i as int));
                assert(gvs.take(i as int + 1).last() == gvs[i as int]);
                assert(gvs[i as int] == self.generics@[i as int]@);
            }
            if i > 0 {
                r.append(", ");
            }
            let g = &self.generics[i];
            r.append(g.name.as_str());
            if !g.bounds.as_str().is_empty() {
                r.append(": ");
                r.append(g.bounds.as_str());
            }
            proof {
                assert(r@ =~= "<"@ + spec_impl_generics_params(gvs.take(i as int + 1)));
            }
            i = i + 1;
        }
        r.append(">");
        proof {
            assert(gvs.take(gvs.len() as int) =~= gvs);
            assert(r@ =~= spec_impl_generics(gvs));
        }
        r
    }

    /// A plain copy of the declaration's generic parameter list.
    fn clone_generics(gs: &Vec<GenericParam>) -> (r: Vec<GenericParam>)
        ensures
            r@.map_values(|g: GenericParam| g@) == gs@.map_values(|g: GenericParam| g@),
    {
        let mut r: Vec<GenericParam> = Vec::new();
        let mut i: usize = 0;
        while i < gs.len()
            invariant
                0 <= i <= gs.len(),
                r@.map_values(|g: GenericParam| g@) == gs@.take(i as int).map_values(
                    |g: GenericParam| g@,
                ),
            decreases gs.len() - i,
        {
            let ghost prev = r@.map_values(|g: GenericParam| g@);
            r.push(GenericParam { name: gs[i].name.clone(), bounds: gs[i].bounds.clone() });
            proof {
                assert(r@.map_values(|g: GenericParam| g@) =~= prev.push(gs@[i as int]@));
                assert(gs@.take(i as int + 1).map_values(|g: GenericParam| g@) =~= gs@.take(
                    i as int,
                ).map_values(|g: GenericParam| g@).push(gs@[i as int]@));
            }
            i = i + 1;
        }
        proof {
            assert(gs@.take(gs@.len() as int) =~= gs@);
        }
        r
    }
}

/// True when at least one field of the list carries a validator.
pub open spec fn spec_any_validated(fs: Seq<FieldDerivView>) -> bool {
    exists|i: int| 0 <= i < fs.len() && !((#[trigger] fs[i].field_validator) is Absent)
}

/// Every field's bare name, each followed by a comma.
pub open spec fn spec_names_list(fs: Seq<FieldDerivView>) -> Seq<char>
    decreases fs.len(),
{
    if fs.len() == 0 {
        Seq::empty()
    } else {
        spec_names_list(fs.drop_last()) + fs.last().name + ", "@
    }
}

/// Every field's evaluation expression, each followed by a comma.
pub open spec fn spec_calls_list(fs: Seq<FieldDerivView>) -> Seq<char>
    decreases fs.len(),
{
    if fs.len() == 0 {
        Seq::empty()
    } else {
        spec_calls_list(fs.drop_last()) + spec_match_validator_call(fs.last()) + ", "@
    }
}

/// Every field's success pattern, each followed by a comma.
pub open spec fn spec_ok_list(fs: Seq<FieldDerivView>) -> Seq<char>
    decreases fs.len(),
{
    if fs.len() == 0 {
        Seq::empty()
    } else {
        spec_ok_list(fs.drop_last()) + spec_match_validator_ok(fs.last()) + ", "@
    }
}

/// Every field's failure-extraction statement, concatenated.
pub open spec fn spec_error_push_list(fs: Seq<FieldDerivView>) -> Seq<char>
    decreases fs.len(),
{
    if fs.len() == 0 {
        Seq::empty()
    } else {
        spec_error_push_list(fs.drop_last()) + spec_validator_error_push(fs.last())
    }
}

/// Every field's static signature assertion, concatenated.
pub open spec fn spec_assertions_list(fs: Seq<FieldDerivView>) -> Seq<char>
    decreases fs.len(),
{
    if fs.len() == 0 {
        Seq::empty()
    } else {
        spec_assertions_list(fs.drop_last()) + spec_field_assertions(fs.last())
    }
}

/// Every field's unvalidated-struct member, each followed by a comma.
pub open spec fn spec_struct_fields_list(fs: Seq<FieldDerivView>) -> Seq<char>
    decreases fs.len(),
{
    if fs.len() == 0 {
        Seq::empty()
    } else {
        spec_struct_fields_list(fs.drop_last()) + spec_unvalidated_struct_repr(fs.last())
            + ",\n"@
    }
}

/// Every field's plain copy, each followed by a comma.
pub open spec fn spec_unvalidated_constructor_fields(fs: Seq<FieldDerivView>) -> Seq<char>
    decreases fs.len(),
{
    if fs.len() == 0 {
        Seq::empty()
    } else {
        spec_unvalidated_constructor_fields(fs.drop_last()) + spec_unvalidated_constructor(
            fs.last(),
        ) + ", "@
    }
}

/// The comma-separated names of the generic parameters.
pub open spec fn spec_ty_generics_names(gs: Seq<GenericParamView>) -> Seq<char>
    decreases gs.len(),
{
    if gs.len() == 0 {
        Seq::empty()
    } else if gs.len() == 1 {
        gs[0].name
    } else {
        spec_ty_generics_names(gs.drop_last()) + ", "@ + gs.last().name
    }
}

/// The generic-argument list of the generated types, with its angle
/// brackets; empty when the type has no generic parameters.
pub open spec fn spec_ty_generics(gs: Seq<GenericParamView>) -> Seq<char> {
    if gs.len() == 0 {
        Seq::empty()
    } else {
        "<"@ + spec_ty_generics_names(gs) + ">"@
    }
}

/// One generic parameter with its bounds, when it has any.
pub open spec fn spec_impl_param(g: GenericParamView) -> Seq<char> {
    if g.bounds.len() == 0 {
        g.name
    } else {
        g.name + ": "@ + g.bounds
    }
}

/// The comma-separated generic parameters with their bounds.
pub open spec fn spec_impl_generics_params(gs: Seq<GenericParamView>) -> Seq<char>
    decreases gs.len(),
{
    if gs.len() == 0 {
        Seq::empty()
    } else if gs.len() == 1 {
        spec_impl_param(gs[0])
    } else {
        spec_impl_generics_params(gs.drop_last()) + ", "@ + spec_impl_param(gs.last())
    }
}

/// The generic-parameter list of the generated impl, with its angle
/// brackets; empty when the type has no generic parameters.
pub open spec fn spec_impl_generics(gs: Seq<GenericParamView>) -> Seq<char> {
    if gs.len() == 0 {
        Seq::empty()
    } else {
        "<"@ + spec_impl_generics_params(gs) + ">"@
    }
}

/// The constructor of the checked type from the bound field values.
pub open spec fn spec_constructor(d: DerivView) -> Seq<char> {
    d.name + " { "@ + spec_names_list(d.fields) + "}"@
}

/// The constructor of the checked type by plain field copies.
pub open spec fn spec_unvalidated_constructor_expr(d: DerivView) -> Seq<char> {
    d.name + " { "@ + spec_unvalidated_constructor_fields(d.fields) + "}"@
}

/// The unvalidated struct declaration.
pub open spec fn spec_unvalidated_struct(d: DerivView) -> Seq<char> {
    "#[automatically_derived]\n"@ + d.visibility + " struct "@ + d.unvalidated_name
        + spec_ty_generics(d.generics) + " {\n"@ + spec_struct_fields_list(d.fields) + "}\n"@
}

/// The body of the generated conversion.
///
/// With no validated field, a direct always-succeeding construction that
/// copies every raw field. With at least one, first every field's static
/// signature assertion, then one joint evaluation of every field, then a
/// branch: all validated fields succeeded — construct the checked value;
/// any failed — collect every failure payload, in declaration order, into
/// the returned error list.
pub open spec fn spec_validate_body(d: DerivView) -> Seq<char> {
    if spec_any_validated(d.fields) {
        spec_assertions_list(d.fields) + "match ("@ + spec_calls_list(d.fields) + ") {\n("@
            + spec_ok_list(d.fields) + ") => ::std::result::Result::Ok("@ + spec_constructor(d)
            + "),\n("@ + spec_names_list(d.fields) + ") => {\nlet mut errors: ::std::vec::Vec<"@
            + d.custom_validation_error_ty + "> = ::std::vec::Vec::new();\n"@
            + spec_error_push_list(d.fields) + "::std::result::Result::Err(errors)\n}\n}\n"@
    } else {
        "Ok("@ + spec_unvalidated_constructor_expr(d) + ")\n"@
    }
}

/// The generated conversion impl.
pub open spec fn spec_validate_impl(d: DerivView) -> Seq<char> {
    "#[automatically_derived]\nimpl "@ + spec_impl_generics(d.generics)
        + " ::std::convert::TryFrom<"@ + d.unvalidated_name + spec_ty_generics(d.generics)
        + "> for "@ + d.name + spec_ty_generics(d.generics) + " {\ntype Error = ::std::vec::Vec<"@
        + d.custom_validation_error_ty + ">;\nfn try_from(unvalidated: "@ + d.unvalidated_name
        + spec_ty_generics(d.generics) + ") -> ::core::result::Result<Self, Self::Error> {\n"@
        + spec_validate_body(d) + "}\n}\n"@
}

/// Both generated artifacts: the unvalidated struct declaration followed
/// by the conversion impl.
pub open spec fn spec_validated_impl(d: DerivView) -> Seq<char> {
    spec_unvalidated_struct(d) + spec_validate_impl(d)
}

} // verus!
