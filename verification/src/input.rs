//! The parsed shape of an annotated type declaration, as handed to the
//! generator by the host language's parser.
//!
//! The generator does not tokenize source text itself: it receives the
//! declaration already parsed, with every piece it reads held as plain
//! text — identifiers, type expressions and annotation payloads are kept
//! as the token text they were written with.

use vstd::prelude::*;

verus! {

/// One annotation attached to a type or to a field: a path (the word
/// before the parenthesis) and the payload tokens inside the parenthesis.
pub struct InputAttr {
    pub path: String,
    pub payload: String,
}

/// Spec-level image of an [`InputAttr`].
pub ghost struct AttrView {
    pub path: Seq<char>,
    pub payload: Seq<char>,
}

impl View for InputAttr {
    type V = AttrView;

    open spec fn view(&self) -> AttrView {
        AttrView { path: self.path@, payload: self.payload@ }
    }
}

/// One member of the declared struct: its name (absent for positional
/// members), its declared type as token text, and its annotations.
pub struct InputField {
    pub name: Option<String>,
    pub ty: String,
    pub attrs: Vec<InputAttr>,
}

/// Spec-level image of an [`InputField`].
pub ghost struct FieldView {
    pub name: Option<Seq<char>>,
    pub ty: Seq<char>,
    pub attrs: Seq<AttrView>,
}

impl View for InputField {
    type V = FieldView;

    open spec fn view(&self) -> FieldView {
        FieldView {
            name: match self.name {
                Option::Some(n) => Option::Some(n@),
                Option::None => Option::None,
            },
            ty: self.ty@,
            attrs: self.attrs@.map_values(|a: InputAttr| a@),
        }
    }
}

/// One generic parameter of the declared type. A lifetime parameter is
/// carried the same way as a type parameter, with the quote as part of
/// its name and an empty bound list.
pub struct GenericParam {
    pub name: String,
    pub bounds: String,
}

/// Spec-level image of a [`GenericParam`].
pub ghost struct GenericParamView {
    pub name: Seq<char>,
    pub bounds: Seq<char>,
}

impl View for GenericParam {
    type V = GenericParamView;

    open spec fn view(&self) -> GenericParamView {
        GenericParamView { name: self.name@, bounds: self.bounds@ }
    }
}

/// The member shape of a struct declaration.
pub enum InputFields {
    /// Curly-brace members; the only shape the generator accepts.
    Named(Vec<InputField>),
    /// Positional (parenthesised) members.
    Unnamed,
    /// No member list at all.
    Unit,
}

/// The kind of type declaration under the annotation.
pub enum InputData {
    Struct(InputFields),
    Enum,
    Union,
}

/// The whole annotated declaration: visibility and name of the type, its
/// generic parameters, its type-level annotations, and its member shape.
pub struct SchemaInput {
    pub vis: String,
    pub ident: String,
    pub generics: Vec<GenericParam>,
    pub attrs: Vec<InputAttr>,
    pub data: InputData,
}

/// Spec-level image of an [`InputFields`].
pub ghost enum FieldsShapeView {
    Named(Seq<FieldView>),
    Unnamed,
    Unit,
}

impl View for InputFields {
    type V = FieldsShapeView;

    open spec fn view(&self) -> FieldsShapeView {
        match self {
            InputFields::Named(fs) => FieldsShapeView::Named(
                fs@.map_values(|f: InputField| f@),
            ),
            InputFields::Unnamed => FieldsShapeView::Unnamed,
            InputFields::Unit => FieldsShapeView::Unit,
        }
    }
}

/// Spec-level image of an [`InputData`].
pub ghost enum DataShapeView {
    Struct(FieldsShapeView),
    Enum,
    Union,
}

impl View for InputData {
    type V = DataShapeView;

    open spec fn view(&self) -> DataShapeView {
        match self {
            InputData::Struct(fs) => DataShapeView::Struct(fs@),
            InputData::Enum => DataShapeView::Enum,
            InputData::Union => DataShapeView::Union,
        }
    }
}

/// Spec-level image of a [`SchemaInput`].
pub ghost struct SchemaView {
    pub vis: Seq<char>,
    pub ident: Seq<char>,
    pub generics: Seq<GenericParamView>,
    pub attrs: Seq<AttrView>,
    pub data: DataShapeView,
}

impl View for SchemaInput {
    type V = SchemaView;

    open spec fn view(&self) -> SchemaView {
        SchemaView {
            vis: self.vis@,
            ident: self.ident@,
            generics: self.generics@.map_values(|g: GenericParam| g@),
            attrs: self.attrs@.map_values(|a: InputAttr| a@),
            data: self.data@,
        }
    }
}

} // verus!
