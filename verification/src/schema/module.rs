//! Lowering: a syntax tree to a module.
//!
//! A module has the types and fields of the tree, one for one and in the
//! same order. The name of each field's type is classified: the four builtin
//! names become builtin types, every other name a reference by name, which
//! nothing has looked up yet.

use crate::schema::ast::{
    ASTField, ASTFieldView, ASTRoot, ASTRootBlock, ASTRootBlockView, ASTRootView, ASTTypeDef,
    ASTTypeDefView, ASTTypeKind,
};
use crate::text::str_eq;
use vstd::prelude::*;

verus! {

/// The types that need no definition.
#[derive(Debug, Clone, Copy, PartialEq, Eq, Structural)]
pub enum BuiltinType {
    Integer,
    Float,
    String,
    Boolean,
}

/// The type that a field refers to.
#[derive(Debug, Clone, PartialEq, Eq)]
pub enum SchemeTypeRef {
    Builtin(BuiltinType),
    /// A type of the schema, by its name.
    Custom(String),
}

/// The mathematical value of a [`SchemeTypeRef`].
pub enum SchemeTypeRefView {
    Builtin(BuiltinType),
    Custom(Seq<char>),
}

impl View for SchemeTypeRef {
    type V = SchemeTypeRefView;

    open spec fn view(&self) -> SchemeTypeRefView {
        match self {
            SchemeTypeRef::Builtin(builtin) => SchemeTypeRefView::Builtin(*builtin),
            SchemeTypeRef::Custom(name) => SchemeTypeRefView::Custom(name@),
        }
    }
}

/// The access mode of a field.
#[derive(Debug, Clone, Copy, PartialEq, Eq, Structural)]
pub enum SchemeFieldTypeKind {
    Normal,
    Streaming,
    Sync,
}

/// The type of a field: its mode and what it refers to.
#[derive(Debug, Clone, PartialEq, Eq)]
pub struct SchemeFieldType {
    pub kind: SchemeFieldTypeKind,
    pub ty_ref: SchemeTypeRef,
}

/// The mathematical value of a [`SchemeFieldType`].
pub struct SchemeFieldTypeView {
    pub kind: SchemeFieldTypeKind,
    pub ty_ref: SchemeTypeRefView,
}

impl View for SchemeFieldType {
    type V = SchemeFieldTypeView;

    open spec fn view(&self) -> SchemeFieldTypeView {
        SchemeFieldTypeView { kind: self.kind, ty_ref: self.ty_ref@ }
    }
}

/// One field of a type.
#[derive(Debug, Clone, PartialEq, Eq)]
pub struct SchemeField {
    pub name: String,
    pub ty: SchemeFieldType,
}

/// The mathematical value of a [`SchemeField`].
pub struct SchemeFieldView {
    pub name: Seq<char>,
    pub ty: SchemeFieldTypeView,
}

impl View for SchemeField {
    type V = SchemeFieldView;

    open spec fn view(&self) -> SchemeFieldView {
        SchemeFieldView { name: self.name@, ty: self.ty@ }
    }
}

impl DeepView for SchemeField {
    type V = SchemeFieldView;

    open spec fn deep_view(&self) -> SchemeFieldView {
        self@
    }
}

/// A type: its name and its fields in source order.
#[derive(Debug, Clone, PartialEq, Eq)]
pub struct SchemeType {
    pub name: String,
    pub fields: Vec<SchemeField>,
}

/// The mathematical value of a [`SchemeType`].
pub struct SchemeTypeView {
    pub name: Seq<char>,
    pub fields: Seq<SchemeFieldView>,
}

impl View for SchemeType {
    type V = SchemeTypeView;

    open spec fn view(&self) -> SchemeTypeView {
        SchemeTypeView { name: self.name@, fields: self.fields.deep_view() }
    }
}

impl DeepView for SchemeType {
    type V = SchemeTypeView;

    open spec fn deep_view(&self) -> SchemeTypeView {
        self@
    }
}

/// The types of a schema in source order.
#[derive(Debug, Clone, PartialEq, Eq)]
pub struct SchemeModule {
    pub types: Vec<SchemeType>,
}

/// The mathematical value of a [`SchemeModule`].
pub struct SchemeModuleView {
    pub types: Seq<SchemeTypeView>,
}

impl View for SchemeModule {
    type V = SchemeModuleView;

    open spec fn view(&self) -> SchemeModuleView {
        SchemeModuleView { types: self.types.deep_view() }
    }
}

/// The builtin type with this name, if there is one. The names are matched
/// exactly.
pub open spec fn builtin_of(name: Seq<char>) -> Option<BuiltinType> {
    if name == "integer"@ {
        Some(BuiltinType::Integer)
    } else if name == "float"@ {
        Some(BuiltinType::Float)
    } else if name == "string"@ {
        Some(BuiltinType::String)
    } else if name == "boolean"@ {
        Some(BuiltinType::Boolean)
    } else {
        None
    }
}

/// What a field whose type is written `name` refers to.
pub open spec fn type_ref_of(name: Seq<char>) -> SchemeTypeRefView {
    match builtin_of(name) {
        Some(builtin) => SchemeTypeRefView::Builtin(builtin),
        None => SchemeTypeRefView::Custom(name),
    }
}

/// The mode of a field, carried over.
pub open spec fn lower_kind(kind: ASTTypeKind) -> SchemeFieldTypeKind {
    match kind {
        ASTTypeKind::Normal => SchemeFieldTypeKind::Normal,
        ASTTypeKind::Streaming => SchemeFieldTypeKind::Streaming,
        ASTTypeKind::Sync => SchemeFieldTypeKind::Sync,
    }
}

pub open spec fn lower_field(field: ASTFieldView) -> SchemeFieldView {
    SchemeFieldView {
        name: field.name,
        ty: SchemeFieldTypeView {
            kind: lower_kind(field.ty.kind),
            ty_ref: type_ref_of(field.ty.name),
        },
    }
}

pub open spec fn lower_type_def(def: ASTTypeDefView) -> SchemeTypeView {
    SchemeTypeView {
        name: def.name,
        fields: def.fields.map_values(|field: ASTFieldView| lower_field(field)),
    }
}

pub open spec fn lower_block(block: ASTRootBlockView) -> SchemeTypeView {
    match block {
        ASTRootBlockView::TypeDef(def) => lower_type_def(def),
    }
}

/// The module of a syntax tree.
pub open spec fn lower_spec(root: ASTRootView) -> SchemeModuleView {
    SchemeModuleView { types: root.blocks.map_values(|block: ASTRootBlockView| lower_block(block)) }
}

/// The names `integer`, `float`, `string` and `boolean` are the builtin
/// types, each its own; every other name stays a reference by that name.
pub proof fn lemma_builtin_classification(name: Seq<char>)
    ensures
        name == "integer"@ ==> type_ref_of(name) == SchemeTypeRefView::Builtin(
            BuiltinType::Integer,
        ),
        name == "float"@ ==> type_ref_of(name) == SchemeTypeRefView::Builtin(BuiltinType::Float),
        name == "string"@ ==> type_ref_of(name) == SchemeTypeRefView::Builtin(BuiltinType::String),
        name == "boolean"@ ==> type_ref_of(name) == SchemeTypeRefView::Builtin(
            BuiltinType::Boolean,
        ),
        name != "integer"@ && name != "float"@ && name != "string"@ && name != "boolean"@
            ==> type_ref_of(name) == SchemeTypeRefView::Custom(name),
{
    reveal_strlit("integer");
    reveal_strlit("float");
    reveal_strlit("string");
    reveal_strlit("boolean");
    assert("integer"@.len() == 7 && "float"@.len() == 5 && "string"@.len() == 6);
    assert("boolean"@[0] != "integer"@[0]);
}

/// Classifies the name of a field's type.
pub fn lower_type_ref(name: &String) -> (ty_ref: SchemeTypeRef)
    ensures
        ty_ref@ == type_ref_of(name@),
{
    let text = name.as_str();
    if str_eq(text, "integer") {
        SchemeTypeRef::Builtin(BuiltinType::Integer)
    } else if str_eq(text, "float") {
        SchemeTypeRef::Builtin(BuiltinType::Float)
    } else if str_eq(text, "string") {
        SchemeTypeRef::Builtin(BuiltinType::String)
    } else if str_eq(text, "boolean") {
        SchemeTypeRef::Builtin(BuiltinType::Boolean)
    } else {
        SchemeTypeRef::Custom(name.clone())
    }
}

fn lower_field_kind(kind: ASTTypeKind) -> (out: SchemeFieldTypeKind)
    ensures
        out == lower_kind(kind),
{
    match kind {
        ASTTypeKind::Normal => SchemeFieldTypeKind::Normal,
        ASTTypeKind::Streaming => SchemeFieldTypeKind::Streaming,
        ASTTypeKind::Sync => SchemeFieldTypeKind::Sync,
    }
}

fn lower_one_field(field: &ASTField) -> (out: SchemeField)
    ensures
        out@ == lower_field(field@),
{
    SchemeField {
        name: field.name.clone(),
        ty: SchemeFieldType {
            kind: lower_field_kind(field.ty.kind),
            ty_ref: lower_type_ref(&field.ty.name),
        },
    }
}

fn lower_one_type(def: &ASTTypeDef) -> (out: SchemeType)
    ensures
        out@ == lower_type_def(def@),
{
    let mut fields: Vec<SchemeField> = Vec::new();
    let mut i: usize = 0;
    while i < def.fields.len()
        invariant
            i <= def.fields.len(),
            fields.len() == i,
            forall|k: int| 0 <= k < i ==> (#[trigger] fields[k])@ == lower_field(def.fields[k]@),
        decreases def.fields.len() - i,
    {
        fields.push(lower_one_field(&def.fields[i]));
        i += 1;
    }
    assert(fields.deep_view() =~= lower_type_def(def@).fields);
    SchemeType { name: def.name.clone(), fields }
}

/// Lowers a syntax tree to its module.
pub fn create_module(ast: &ASTRoot) -> (module: SchemeModule)
    ensures
        module@ == lower_spec(ast@),
{
    let mut types: Vec<SchemeType> = Vec::new();
    let mut i: usize = 0;
    while i < ast.blocks.len()
        invariant
            i <= ast.blocks.len(),
            types.len() == i,
            forall|k: int| 0 <= k < i ==> (#[trigger] types[k])@ == lower_block(ast.blocks[k]@),
        decreases ast.blocks.len() - i,
    {
        match &ast.blocks[i] {
            ASTRootBlock::TypeDef(def) => {
                types.push(lower_one_type(def));
            },
        }
        i += 1;
    }
    assert(types.deep_view() =~= lower_spec(ast@).types);
    SchemeModule { types }
}

} // verus!
