//! Correct-by-construction validation scaffolding, generated from an
//! annotated struct declaration.
//!
//! Given the parsed declaration of a struct whose fields may carry
//! `validator` annotations, the generator derives two artifacts: an
//! "unvalidated" mirror type whose fields are all public, and a fallible
//! conversion from the mirror type into the original type that runs every
//! field's validator and collects every failure in declaration order.

use vstd::prelude::*;
use vstd::string::StringExecFns;

mod convert;
mod field;
mod input;
mod root;

pub use convert::{
    all_succeed, bound_values, convert, eval_error, eval_succeeds, eval_value, failing_evals,
    failure_payloads, lemma_all_accepting_converts, lemma_failures_collected_in_order,
    lemma_no_failures_iff_all_succeed, lemma_unvalidated_input_converts, successful_evals,
    FieldEval,
};
pub use field::{
    classify_payload, is_closure_text, is_ident_text, is_validator_attr, last_validator_payload,
    lemma_other_attr_ignored, lemma_validator_last_wins, resolved_validator, spec_error_message,
    spec_field_deriv, FieldDerivView, FieldValidator, SchemaError, ValidatedFieldDeriv,
    ValidatorView,
};
pub use input::{
    AttrView, DataShapeView, FieldView, FieldsShapeView, GenericParam, GenericParamView,
    InputAttr, InputData, InputField, InputFields, SchemaInput, SchemaView,
};
pub use root::{
    all_fields_named, is_error_attr, last_error_payload, lemma_error_ty_last_wins,
    lemma_analysis_mirrors_schema, lemma_other_schema_attr_ignored, resolved_error_ty, spec_deriv,
    spec_validated_impl,
    DerivView, ValidatedDeriv,
};

verus! {

/// The analysis of a whole declaration: the derivation that the emitter
/// works from, or the failure that aborts generation.
///
/// Only a struct with at least one named field is accepted. An enum, a
/// union, a struct with positional fields only, and a struct without a
/// named-field shape are hard generation failures, as is any field
/// without a name.
pub open spec fn spec_analyze(s: SchemaView) -> Result<DerivView, SchemaError> {
    match s.data {
        DataShapeView::Struct(shape) => match shape {
            FieldsShapeView::Named(fs) => if fs.len() == 0 {
                Result::Err(SchemaError::UnsupportedUnitStruct)
            } else if !all_fields_named(fs) {
                Result::Err(SchemaError::AnonymousField)
            } else {
                Result::Ok(spec_deriv(s, fs))
            },
            FieldsShapeView::Unnamed => Result::Err(SchemaError::UnsupportedTupleStruct),
            FieldsShapeView::Unit => Result::Err(SchemaError::UnsupportedUnitStruct),
        },
        DataShapeView::Enum => Result::Err(SchemaError::UnsupportedEnum),
        DataShapeView::Union => Result::Err(SchemaError::UnsupportedUnion),
    }
}

/// The diagnostic emitted in place of the artifacts when generation
/// fails: a compile error carrying the failure's message.
pub open spec fn spec_compile_error(msg: Seq<char>) -> Seq<char> {
    "::core::compile_error! { \""@ + msg + "\" }\n"@
}

/// Everything the generator emits for one declaration: both artifacts
/// when the schema is accepted, the diagnostic alone when it is not. No
/// partial artifact is ever emitted.
pub open spec fn spec_generate(s: SchemaView) -> Seq<char> {
    match spec_analyze(s) {
        Result::Ok(d) => spec_validated_impl(d),
        Result::Err(e) => spec_compile_error(spec_error_message(e)),
    }
}

/// Run the generator on one parsed declaration: emit the unvalidated
/// struct and the conversion impl, or a compile error when the schema is
/// rejected.
pub fn valibuk_core(input: &SchemaInput) -> (r: String)
    ensures
        r@ == spec_generate(input@),
{
    match inner_derive(input) {
        Result::Ok(s) => s,
        Result::Err(e) => {
            let mut r: String = "::core::compile_error! { \"".to_owned();
            r.append(e.message());
            r.append("\" }\n");
            proof {
                assert(r@ =~= spec_compile_error(spec_error_message(e)));
            }
            r
        },
    }
}

/// Analyze the declaration and assemble the artifacts, or report why the
/// schema is rejected.
fn inner_derive(ast: &SchemaInput) -> (r: Result<String, SchemaError>)
    ensures
        spec_analyze(ast@) is Ok ==> r is Ok && r->Ok_0@ == spec_validated_impl(
            spec_analyze(ast@)->Ok_0,
        ),
        spec_analyze(ast@) is Err ==> r == Result::<String, SchemaError>::Err(
            spec_analyze(ast@)->Err_0,
        ),
{
    match &ast.data {
        InputData::Struct(shape) => match shape {
            InputFields::Named(fields) => {
                if fields.len() == 0 {
                    return Result::Err(SchemaError::UnsupportedUnitStruct);
                }
                match ValidatedDeriv::new(ast, fields) {
                    Result::Ok(validated_deriv) => validated_deriv.validated_impl(),
                    Result::Err(e) => Result::Err(e),
                }
            },
            InputFields::Unnamed => Result::Err(SchemaError::UnsupportedTupleStruct),
            InputFields::Unit => Result::Err(SchemaError::UnsupportedUnitStruct),
        },
        InputData::Enum => Result::Err(SchemaError::UnsupportedEnum),
        InputData::Union => Result::Err(SchemaError::UnsupportedUnion),
    }
}

/// Generation fails, and emits no artifact, exactly for the rejected
/// shapes: an enum, a union, a positional-only or shapeless struct, and a
/// named-field struct with a nameless field among its members.
pub proof fn lemma_rejected_schemas(s: SchemaView)
    ensures
        s.data is Enum ==> spec_analyze(s) == Result::<DerivView, SchemaError>::Err(
            SchemaError::UnsupportedEnum,
        ),
        s.data is Union ==> spec_analyze(s) == Result::<DerivView, SchemaError>::Err(
            SchemaError::UnsupportedUnion,
        ),
        s.data == DataShapeView::Struct(FieldsShapeView::Unnamed) ==> spec_analyze(s)
            == Result::<DerivView, SchemaError>::Err(SchemaError::UnsupportedTupleStruct),
        s.data == DataShapeView::Struct(FieldsShapeView::Unit) ==> spec_analyze(s) == Result::<
            DerivView,
            SchemaError,
        >::Err(SchemaError::UnsupportedUnitStruct),
        forall|fs: Seq<FieldView>|
            s.data == DataShapeView::Struct(FieldsShapeView::Named(fs)) && fs.len() > 0
                && !all_fields_named(fs) ==> spec_analyze(s) == Result::<
                DerivView,
                SchemaError,
            >::Err(SchemaError::AnonymousField),
        spec_analyze(s) is Err <==> !(s.data matches DataShapeView::Struct(
            FieldsShapeView::Named(fs),
        ) && fs.len() > 0 && all_fields_named(fs)),
{
}

} // verus!
