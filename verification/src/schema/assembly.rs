//! The resolver: a module to an assembly.
//!
//! An assembly holds one type per type of the module, at the same position.
//! A reference to a type of the schema is the position of that type in
//! [`Assembly::types`], so a type may refer to itself, to a type defined
//! later, or lie on a cycle of references.
//!
//! A name refers to the last type of the module that bears it. An earlier
//! type of the same name keeps its place and its own fields, and no
//! reference leads to it.

use crate::schema::module::{
    BuiltinType, SchemeField, SchemeFieldTypeKind, SchemeFieldView, SchemeModule, SchemeModuleView,
    SchemeType, SchemeTypeRef, SchemeTypeRefView, SchemeTypeView,
};
use vstd::prelude::*;

verus! {

/// The type that a field refers to.
#[derive(Debug, Clone, Copy, PartialEq, Eq, Structural)]
pub enum AssemblyTypeRef {
    Builtin(BuiltinType),
    /// The type at this position of the assembly.
    Custom(usize),
}

/// The mathematical value of a [`AssemblyTypeRef`].
pub enum AssemblyTypeRefView {
    Builtin(BuiltinType),
    Custom(int),
}

impl View for AssemblyTypeRef {
    type V = AssemblyTypeRefView;

    open spec fn view(&self) -> AssemblyTypeRefView {
        match self {
            AssemblyTypeRef::Builtin(builtin) => AssemblyTypeRefView::Builtin(*builtin),
            AssemblyTypeRef::Custom(target) => AssemblyTypeRefView::Custom(*target as int),
        }
    }
}

/// The access mode of a field.
#[derive(Debug, Clone, Copy, PartialEq, Eq, Structural)]
pub enum AssemblyFieldTypeKind {
    Normal,
    Streaming,
    Sync,
}

/// The type of a field: its mode and what it refers to.
#[derive(Debug, Clone, Copy, PartialEq, Eq, Structural)]
pub struct AssemblyFieldType {
    pub kind: AssemblyFieldTypeKind,
    pub ty_ref: AssemblyTypeRef,
}

/// The mathematical value of a [`AssemblyFieldType`].
pub struct AssemblyFieldTypeView {
    pub kind: AssemblyFieldTypeKind,
    pub ty_ref: AssemblyTypeRefView,
}

impl View for AssemblyFieldType {
    type V = AssemblyFieldTypeView;

    open spec fn view(&self) -> AssemblyFieldTypeView {
        AssemblyFieldTypeView { kind: self.kind, ty_ref: self.ty_ref@ }
    }
}

/// One field of a type.
#[derive(Debug, Clone, PartialEq, Eq)]
pub struct AssemblyField {
    pub name: String,
    pub ty: AssemblyFieldType,
}

/// The mathematical value of a [`AssemblyField`].
pub struct AssemblyFieldView {
    pub name: Seq<char>,
    pub ty: AssemblyFieldTypeView,
}

impl View for AssemblyField {
    type V = AssemblyFieldView;

    open spec fn view(&self) -> AssemblyFieldView {
        AssemblyFieldView { name: self.name@, ty: self.ty@ }
    }
}

impl DeepView for AssemblyField {
    type V = AssemblyFieldView;

    open spec fn deep_view(&self) -> AssemblyFieldView {
        self@
    }
}

/// A type: its name and its fields in source order.
#[derive(Debug, Clone, PartialEq, Eq)]
pub struct AssemblyType {
    pub name: String,
    pub fields: Vec<AssemblyField>,
}

/// The mathematical value of a [`AssemblyType`].
pub struct AssemblyTypeView {
    pub name: Seq<char>,
    pub fields: Seq<AssemblyFieldView>,
}

impl View for AssemblyType {
    type V = AssemblyTypeView;

    open spec fn view(&self) -> AssemblyTypeView {
        AssemblyTypeView { name: self.name@, fields: self.fields.deep_view() }
    }
}

impl DeepView for AssemblyType {
    type V = AssemblyTypeView;

    open spec fn deep_view(&self) -> AssemblyTypeView {
        self@
    }
}

/// The resolved types of a schema.
#[derive(Debug, Clone, PartialEq, Eq)]
pub struct Assembly {
    pub types: Vec<AssemblyType>,
}

/// The mathematical value of a [`Assembly`].
pub struct AssemblyView {
    pub types: Seq<AssemblyTypeView>,
}

impl View for Assembly {
    type V = AssemblyView;

    open spec fn view(&self) -> AssemblyView {
        AssemblyView { types: self.types.deep_view() }
    }
}

impl AssemblyView {
    /// Every reference to a type of the schema leads to a type of the
    /// assembly.
    pub open spec fn closed(self) -> bool {
        forall|i: int, j: int|
            0 <= i < self.types.len() && 0 <= j < self.types[i].fields.len() ==> (
            #[trigger] self.types[i].fields[j].ty.ty_ref matches AssemblyTypeRefView::Custom(
                target,
            ) ==> 0 <= target < self.types.len())
    }
}

/// Why a module has no assembly.
#[derive(Debug, Clone, PartialEq, Eq)]
pub enum ResolveError {
    /// A field refers to a name that no type of the module bears.
    UnresolvedTypeReference(String),
}

/// The mathematical value of a [`ResolveError`].
pub enum ResolveErrorView {
    UnresolvedTypeReference(Seq<char>),
}

impl View for ResolveError {
    type V = ResolveErrorView;

    open spec fn view(&self) -> ResolveErrorView {
        match self {
            ResolveError::UnresolvedTypeReference(name) => {
                ResolveErrorView::UnresolvedTypeReference(name@)
            },
        }
    }
}

/// The position of the type that `name` refers to: the last one of that
/// name.
pub open spec fn lookup(types: Seq<SchemeTypeView>, name: Seq<char>) -> Option<int>
    decreases types.len(),
{
    if types.len() == 0 {
        None
    } else if types.last().name == name {
        Some(types.len() - 1)
    } else {
        lookup(types.drop_last(), name)
    }
}

/// The mode of a field, carried over.
pub open spec fn resolve_kind(kind: SchemeFieldTypeKind) -> AssemblyFieldTypeKind {
    match kind {
        SchemeFieldTypeKind::Normal => AssemblyFieldTypeKind::Normal,
        SchemeFieldTypeKind::Streaming => AssemblyFieldTypeKind::Streaming,
        SchemeFieldTypeKind::Sync => AssemblyFieldTypeKind::Sync,
    }
}

/// What a reference becomes among `types`: a builtin type stays, a name
/// becomes the position that it refers to.
pub open spec fn resolve_ref(types: Seq<SchemeTypeView>, ty_ref: SchemeTypeRefView) -> Result<
    AssemblyTypeRefView,
    ResolveErrorView,
> {
    match ty_ref {
        SchemeTypeRefView::Builtin(builtin) => Ok(AssemblyTypeRefView::Builtin(builtin)),
        SchemeTypeRefView::Custom(name) => match lookup(types, name) {
            Some(target) => Ok(AssemblyTypeRefView::Custom(target)),
            None => Err(ResolveErrorView::UnresolvedTypeReference(name)),
        },
    }
}

pub open spec fn resolve_field(types: Seq<SchemeTypeView>, field: SchemeFieldView) -> Result<
    AssemblyFieldView,
    ResolveErrorView,
> {
    match resolve_ref(types, field.ty.ty_ref) {
        Ok(ty_ref) => Ok(
            AssemblyFieldView {
                name: field.name,
                ty: AssemblyFieldTypeView { kind: resolve_kind(field.ty.kind), ty_ref },
            },
        ),
        Err(e) => Err(e),
    }
}

/// The fields resolved among `types`, or the error of the first field that
/// has one.
pub open spec fn resolve_fields(types: Seq<SchemeTypeView>, fields: Seq<SchemeFieldView>) -> Result<
    Seq<AssemblyFieldView>,
    ResolveErrorView,
>
    decreases fields.len(),
{
    if fields.len() == 0 {
        Ok(Seq::empty())
    } else {
        match resolve_fields(types, fields.drop_last()) {
            Ok(done) => match resolve_field(types, fields.last()) {
                Ok(field) => Ok(done.push(field)),
                Err(e) => Err(e),
            },
            Err(e) => Err(e),
        }
    }
}

pub open spec fn resolve_type(types: Seq<SchemeTypeView>, ty: SchemeTypeView) -> Result<
    AssemblyTypeView,
    ResolveErrorView,
> {
    match resolve_fields(types, ty.fields) {
        Ok(fields) => Ok(AssemblyTypeView { name: ty.name, fields }),
        Err(e) => Err(e),
    }
}

/// The types `some` resolved among `types`, or the error of the first type
/// that has one.
pub open spec fn resolve_types(types: Seq<SchemeTypeView>, some: Seq<SchemeTypeView>) -> Result<
    Seq<AssemblyTypeView>,
    ResolveErrorView,
>
    decreases some.len(),
{
    if some.len() == 0 {
        Ok(Seq::empty())
    } else {
        match resolve_types(types, some.drop_last()) {
            Ok(done) => match resolve_type(types, some.last()) {
                Ok(ty) => Ok(done.push(ty)),
                Err(e) => Err(e),
            },
            Err(e) => Err(e),
        }
    }
}

/// The assembly of a module, or the first reference, in source order, to a
/// name that no type bears.
pub open spec fn resolve_spec(module: SchemeModuleView) -> Result<AssemblyView, ResolveErrorView> {
    match resolve_types(module.types, module.types) {
        Ok(types) => Ok(AssemblyView { types }),
        Err(e) => Err(e),
    }
}

/// What [`lookup`] finds is the last type of that name, and it finds nothing
/// only where no type bears the name.
pub proof fn lemma_lookup(types: Seq<SchemeTypeView>, name: Seq<char>)
    ensures
        match lookup(types, name) {
            Some(target) => {
                &&& 0 <= target < types.len()
                &&& types[target].name == name
                &&& forall|k: int| target < k < types.len() ==> (#[trigger] types[k]).name != name
            },
            None => forall|k: int| 0 <= k < types.len() ==> (#[trigger] types[k]).name != name,
        },
    decreases types.len(),
{
    if types.len() > 0 && types.last().name != name {
        let ahead = types.drop_last();
        lemma_lookup(ahead, name);
        match lookup(ahead, name) {
            Some(target) => {
                assert forall|k: int| target < k < types.len() implies (#[trigger] types[k]).name
                    != name by {
                    if k < ahead.len() {
                        assert(ahead[k] == types[k]);
                    }
                }
            },
            None => {
                assert forall|k: int| 0 <= k < types.len() implies (#[trigger] types[k]).name
                    != name by {
                    if k < ahead.len() {
                        assert(ahead[k] == types[k]);
                    }
                }
            },
        }
    }
}

/// An error among the first `k` fields is the error of all the fields.
proof fn lemma_fields_error_stays(
    types: Seq<SchemeTypeView>,
    fields: Seq<SchemeFieldView>,
    k: int,
)
    requires
        0 <= k <= fields.len(),
        resolve_fields(types, fields.take(k)) is Err,
    ensures
        resolve_fields(types, fields) == resolve_fields(types, fields.take(k)),
    decreases fields.len() - k,
{
    if k < fields.len() {
        assert(fields.take(k + 1).drop_last() =~= fields.take(k));
        lemma_fields_error_stays(types, fields, k + 1);
    } else {
        assert(fields.take(k) =~= fields);
    }
}

/// An error among the first `k` of the types `some` is the error of all of
/// them.
proof fn lemma_types_error_stays(types: Seq<SchemeTypeView>, some: Seq<SchemeTypeView>, k: int)
    requires
        0 <= k <= some.len(),
        resolve_types(types, some.take(k)) is Err,
    ensures
        resolve_types(types, some) == resolve_types(types, some.take(k)),
    decreases some.len() - k,
{
    if k < some.len() {
        assert(some.take(k + 1).drop_last() =~= some.take(k));
        lemma_types_error_stays(types, some, k + 1);
    } else {
        assert(some.take(k) =~= some);
    }
}

/// Fields resolve one by one and in order: the result has a field for each
/// field, and an error is that of the first field that has one.
pub proof fn lemma_resolve_fields(types: Seq<SchemeTypeView>, fields: Seq<SchemeFieldView>)
    ensures
        match resolve_fields(types, fields) {
            Ok(out) => {
                &&& out.len() == fields.len()
                &&& forall|j: int|
                    0 <= j < fields.len() ==> resolve_field(types, #[trigger] fields[j]) == Ok::<
                        AssemblyFieldView,
                        ResolveErrorView,
                    >(out[j])
            },
            Err(e) => exists|j: int|
                {
                    &&& 0 <= j < fields.len()
                    &&& resolve_field(types, #[trigger] fields[j]) == Err::<
                        AssemblyFieldView,
                        ResolveErrorView,
                    >(e)
                    &&& forall|k: int|
                        0 <= k < j ==> resolve_field(types, #[trigger] fields[k]) is Ok
                },
        },
    decreases fields.len(),
{
    if fields.len() > 0 {
        let ahead = fields.drop_last();
        let last = fields.len() - 1;
        lemma_resolve_fields(types, ahead);
        assert(forall|k: int| 0 <= k < last ==> ahead[k] == fields[k]);
        match resolve_fields(types, ahead) {
            Ok(done) => {
                match resolve_field(types, fields.last()) {
                    Ok(field) => {
                        assert forall|j: int| 0 <= j < fields.len() implies resolve_field(
                            types,
                            #[trigger] fields[j],
                        ) == Ok::<AssemblyFieldView, ResolveErrorView>(done.push(field)[j]) by {
                            if j < last {
                                assert(ahead[j] == fields[j]);
                            }
                        }
                    },
                    Err(e) => {
                        assert forall|k: int| 0 <= k < last implies resolve_field(
                            types,
                            #[trigger] fields[k],
                        ) is Ok by {
                            assert(ahead[k] == fields[k]);
                        }
                        assert(resolve_field(types, fields[last]) == Err::<
                            AssemblyFieldView,
                            ResolveErrorView,
                        >(e));
                    },
                }
            },
            Err(e) => {
                let j = choose|j: int|
                    {
                        &&& 0 <= j < ahead.len()
                        &&& resolve_field(types, #[trigger] ahead[j]) == Err::<
                            AssemblyFieldView,
                            ResolveErrorView,
                        >(e)
                        &&& forall|k: int|
                            0 <= k < j ==> resolve_field(types, #[trigger] ahead[k]) is Ok
                    };
                assert(ahead[j] == fields[j]);
                assert forall|k: int| 0 <= k < j implies resolve_field(
                    types,
                    #[trigger] fields[k],
                ) is Ok by {
                    assert(ahead[k] == fields[k]);
                }
            },
        }
    }
}

/// Types resolve one by one and in order: the result has a type for each
/// type, and an error is that of the first type that has one.
pub proof fn lemma_resolve_types(types: Seq<SchemeTypeView>, some: Seq<SchemeTypeView>)
    ensures
        match resolve_types(types, some) {
            Ok(out) => {
                &&& out.len() == some.len()
                &&& forall|i: int|
                    0 <= i < some.len() ==> resolve_type(types, #[trigger] some[i]) == Ok::<
                        AssemblyTypeView,
                        ResolveErrorView,
                    >(out[i])
            },
            Err(e) => exists|i: int|
                {
                    &&& 0 <= i < some.len()
                    &&& resolve_type(types, #[trigger] some[i]) == Err::<
                        AssemblyTypeView,
                        ResolveErrorView,
                    >(e)
                    &&& forall|k: int| 0 <= k < i ==> resolve_type(types, #[trigger] some[k]) is Ok
                },
        },
    decreases some.len(),
{
    if some.len() > 0 {
        let ahead = some.drop_last();
        let last = some.len() - 1;
        lemma_resolve_types(types, ahead);
        assert(forall|k: int| 0 <= k < last ==> ahead[k] == some[k]);
        match resolve_types(types, ahead) {
            Ok(done) => {
                match resolve_type(types, some.last()) {
                    Ok(ty) => {
                        assert forall|i: int| 0 <= i < some.len() implies resolve_type(
                            types,
                            #[trigger] some[i],
                        ) == Ok::<AssemblyTypeView, ResolveErrorView>(done.push(ty)[i]) by {
                            if i < last {
                                assert(ahead[i] == some[i]);
                            }
                        }
                    },
                    Err(e) => {
                        assert forall|k: int| 0 <= k < last implies resolve_type(
                            types,
                            #[trigger] some[k],
                        ) is Ok by {
                            assert(ahead[k] == some[k]);
                        }
                        assert(resolve_type(types, some[last]) == Err::<
                            AssemblyTypeView,
                            ResolveErrorView,
                        >(e));
                    },
                }
            },
            Err(e) => {
                let i = choose|i: int|
                    {
                        &&& 0 <= i < ahead.len()
                        &&& resolve_type(types, #[trigger] ahead[i]) == Err::<
                            AssemblyTypeView,
                            ResolveErrorView,
                        >(e)
                        &&& forall|k: int|
                            0 <= k < i ==> resolve_type(types, #[trigger] ahead[k]) is Ok
                    };
                assert(ahead[i] == some[i]);
                assert forall|k: int| 0 <= k < i implies resolve_type(
                    types,
                    #[trigger] some[k],
                ) is Ok by {
                    assert(ahead[k] == some[k]);
                }
            },
        }
    }
}

/// Some type among `types` bears `name`.
pub open spec fn defines(types: Seq<SchemeTypeView>, name: Seq<char>) -> bool {
    exists|k: int| 0 <= k < types.len() && (#[trigger] types[k]).name == name
}

/// Every name that a field of the module refers to is the name of a type of
/// the module.
pub open spec fn all_defined(module: SchemeModuleView) -> bool {
    forall|i: int, j: int|
        0 <= i < module.types.len() && 0 <= j < module.types[i].fields.len() ==> (
        #[trigger] module.types[i].fields[j].ty.ty_ref matches SchemeTypeRefView::Custom(name)
            ==> defines(module.types, name))
}

/// The field `field` of the assembly is the field `from` of the module,
/// resolved among `types`: same name, same mode, a builtin type kept, and a
/// name replaced by the position of the last type that bears it.
pub open spec fn field_mirrors(
    types: Seq<SchemeTypeView>,
    from: SchemeFieldView,
    field: AssemblyFieldView,
) -> bool {
    &&& field.name == from.name
    &&& field.ty.kind == resolve_kind(from.ty.kind)
    &&& match from.ty.ty_ref {
        SchemeTypeRefView::Builtin(builtin) => field.ty.ty_ref == AssemblyTypeRefView::Builtin(
            builtin,
        ),
        SchemeTypeRefView::Custom(name) => {
            &&& field.ty.ty_ref matches AssemblyTypeRefView::Custom(target)
            &&& 0 <= target < types.len()
            &&& types[target].name == name
            &&& forall|k: int| target < k < types.len() ==> (#[trigger] types[k]).name != name
        },
    }
}

/// The assembly has the types and fields of the module, one for one and in
/// the same order, each field resolved.
pub open spec fn mirrors(module: SchemeModuleView, assembly: AssemblyView) -> bool {
    &&& assembly.types.len() == module.types.len()
    &&& forall|i: int|
        0 <= i < module.types.len() ==> {
            &&& (#[trigger] assembly.types[i]).name == module.types[i].name
            &&& assembly.types[i].fields.len() == module.types[i].fields.len()
        }
    &&& forall|i: int, j: int|
        0 <= i < module.types.len() && 0 <= j < module.types[i].fields.len() ==> field_mirrors(
            module.types,
            module.types[i].fields[j],
            #[trigger] assembly.types[i].fields[j],
        )
}

/// A module resolves exactly when every name that a field refers to is
/// defined. Its assembly then mirrors it, and every reference leads to a type
/// of the assembly that bears the name referred to. Otherwise the name
/// reported is one that a field refers to and that no type bears.
pub proof fn lemma_resolve(module: SchemeModuleView)
    ensures
        resolve_spec(module) is Ok <==> all_defined(module),
        resolve_spec(module) matches Ok(assembly) ==> mirrors(module, assembly)
            && assembly.closed(),
        resolve_spec(module) matches Err(ResolveErrorView::UnresolvedTypeReference(name))
            ==> !defines(module.types, name) && exists|i: int, j: int|
            0 <= i < module.types.len() && 0 <= j < module.types[i].fields.len()
                && #[trigger] module.types[i].fields[j].ty.ty_ref == SchemeTypeRefView::Custom(
                name,
            ),
{
    let types = module.types;
    lemma_resolve_types(types, types);
    assert forall|i: int, j: int| 0 <= i < types.len() && 0 <= j < types[i].fields.len() implies (
    resolve_field(types, #[trigger] types[i].fields[j]) is Ok <==> (
    types[i].fields[j].ty.ty_ref matches SchemeTypeRefView::Custom(name) ==> defines(
        types,
        name,
    ))) by {
        if let SchemeTypeRefView::Custom(name) = types[i].fields[j].ty.ty_ref {
            lemma_lookup(types, name);
        }
    }
    match resolve_types(types, types) {
        Ok(out) => {
            let assembly = AssemblyView { types: out };
            assert forall|i: int| 0 <= i < types.len() implies {
                &&& (#[trigger] out[i]).name == types[i].name
                &&& out[i].fields.len() == types[i].fields.len()
                &&& forall|j: int|
                    0 <= j < types[i].fields.len() ==> field_mirrors(
                        types,
                        types[i].fields[j],
                        #[trigger] out[i].fields[j],
                    )
            } by {
                assert(resolve_type(types, types[i]) == Ok::<AssemblyTypeView, ResolveErrorView>(
                    out[i],
                ));
                lemma_resolve_fields(types, types[i].fields);
                assert forall|j: int| 0 <= j < types[i].fields.len() implies field_mirrors(
                    types,
                    types[i].fields[j],
                    #[trigger] out[i].fields[j],
                ) by {
                    assert(resolve_field(types, types[i].fields[j]) == Ok::<
                        AssemblyFieldView,
                        ResolveErrorView,
                    >(out[i].fields[j]));
                    if let SchemeTypeRefView::Custom(name) = types[i].fields[j].ty.ty_ref {
                        lemma_lookup(types, name);
                    }
                }
            }
            assert(mirrors(module, assembly));
            assert(assembly.closed()) by {
                assert forall|i: int, j: int|
                    0 <= i < out.len() && 0 <= j < out[i].fields.len() implies (
                #[trigger] out[i].fields[j].ty.ty_ref matches AssemblyTypeRefView::Custom(target)
                    ==> 0 <= target < out.len()) by {
                    assert(field_mirrors(types, types[i].fields[j], out[i].fields[j]));
                }
            }
            assert(all_defined(module)) by {
                assert forall|i: int, j: int|
                    0 <= i < types.len() && 0 <= j < types[i].fields.len() implies (
                #[trigger] types[i].fields[j].ty.ty_ref matches SchemeTypeRefView::Custom(name)
                    ==> defines(types, name)) by {
                    assert(resolve_type(types, types[i]) is Ok);
                    lemma_resolve_fields(types, types[i].fields);
                    assert(resolve_field(types, types[i].fields[j]) is Ok);
                }
            }
        },
        Err(e) => {
            let i = choose|i: int|
                {
                    &&& 0 <= i < types.len()
                    &&& resolve_type(types, #[trigger] types[i]) == Err::<
                        AssemblyTypeView,
                        ResolveErrorView,
                    >(e)
                    &&& forall|k: int| 0 <= k < i ==> resolve_type(types, #[trigger] types[k]) is Ok
                };
            lemma_resolve_fields(types, types[i].fields);
            let j = choose|j: int|
                {
                    &&& 0 <= j < types[i].fields.len()
                    &&& resolve_field(types, #[trigger] types[i].fields[j]) == Err::<
                        AssemblyFieldView,
                        ResolveErrorView,
                    >(e)
                    &&& forall|k: int|
                        0 <= k < j ==> resolve_field(types, #[trigger] types[i].fields[k]) is Ok
                };
            let name = e->UnresolvedTypeReference_0;
            assert(types[i].fields[j].ty.ty_ref == SchemeTypeRefView::Custom(name));
            lemma_lookup(types, name);
            assert(!defines(types, name));
            assert(!all_defined(module));
        },
    }
}

/// Finds the type that `name` refers to.
fn find_type(types: &Vec<SchemeType>, name: &String) -> (found: Option<usize>)
    ensures
        match lookup(types.deep_view(), name@) {
            Some(target) => 0 <= target < types.len() && found == Some(target as usize),
            None => found is None,
        },
{
    let mut i: usize = types.len();
    assert(types.deep_view().take(i as int) =~= types.deep_view());
    while i > 0
        invariant
            i <= types.len(),
            lookup(types.deep_view(), name@) == lookup(types.deep_view().take(i as int), name@),
        decreases i,
    {
        let ghost ahead = types.deep_view().take(i as int);
        assert(ahead.last() == types[i - 1]@);
        assert(ahead.drop_last() =~= types.deep_view().take(i - 1));
        if types[i - 1].name == *name {
            return Some(i - 1);
        }
        i -= 1;
    }
    None
}

fn resolve_field_kind(kind: SchemeFieldTypeKind) -> (out: AssemblyFieldTypeKind)
    ensures
        out == resolve_kind(kind),
{
    match kind {
        SchemeFieldTypeKind::Normal => AssemblyFieldTypeKind::Normal,
        SchemeFieldTypeKind::Streaming => AssemblyFieldTypeKind::Streaming,
        SchemeFieldTypeKind::Sync => AssemblyFieldTypeKind::Sync,
    }
}

/// Resolves what one field refers to.
fn resolve_type_ref(types: &Vec<SchemeType>, ty_ref: &SchemeTypeRef) -> (out: Result<
    AssemblyTypeRef,
    ResolveError,
>)
    ensures
        match resolve_ref(types.deep_view(), ty_ref@) {
            Ok(resolved) => out is Ok && out->Ok_0@ == resolved,
            Err(e) => out is Err && out->Err_0@ == e,
        },
{
    match ty_ref {
        SchemeTypeRef::Builtin(builtin) => Ok(AssemblyTypeRef::Builtin(*builtin)),
        SchemeTypeRef::Custom(name) => match find_type(types, name) {
            Some(target) => Ok(AssemblyTypeRef::Custom(target)),
            None => Err(ResolveError::UnresolvedTypeReference(name.clone())),
        },
    }
}

fn resolve_one_field(types: &Vec<SchemeType>, field: &SchemeField) -> (out: Result<
    AssemblyField,
    ResolveError,
>)
    ensures
        match resolve_field(types.deep_view(), field@) {
            Ok(resolved) => out is Ok && out->Ok_0@ == resolved,
            Err(e) => out is Err && out->Err_0@ == e,
        },
{
    match resolve_type_ref(types, &field.ty.ty_ref) {
        Ok(ty_ref) => Ok(
            AssemblyField {
                name: field.name.clone(),
                ty: AssemblyFieldType { kind: resolve_field_kind(field.ty.kind), ty_ref },
            },
        ),
        Err(e) => Err(e),
    }
}

fn resolve_one_type(types: &Vec<SchemeType>, ty: &SchemeType) -> (out: Result<
    AssemblyType,
    ResolveError,
>)
    ensures
        match resolve_type(types.deep_view(), ty@) {
            Ok(resolved) => out is Ok && out->Ok_0@ == resolved,
            Err(e) => out is Err && out->Err_0@ == e,
        },
{
    let mut fields: Vec<AssemblyField> = Vec::new();
    let mut j: usize = 0;
    assert(ty@.fields.take(0) =~= Seq::empty());
    assert(fields.deep_view() =~= Seq::empty());
    while j < ty.fields.len()
        invariant
            j <= ty.fields.len(),
            resolve_fields(types.deep_view(), ty@.fields.take(j as int)) == Ok::<
                Seq<AssemblyFieldView>,
                ResolveErrorView,
            >(fields.deep_view()),
        decreases ty.fields.len() - j,
    {
        let ghost done = fields.deep_view();
        let ghost next = ty@.fields.take(j + 1);
        assert(next.drop_last() =~= ty@.fields.take(j as int));
        assert(next.last() == ty.fields[j as int]@);
        match resolve_one_field(types, &ty.fields[j]) {
            Ok(field) => {
                fields.push(field);
                assert(fields.deep_view() =~= done.push(field@));
            },
            Err(e) => {
                proof {
                    lemma_fields_error_stays(types.deep_view(), ty@.fields, j + 1);
                }
                return Err(e);
            },
        }
        j += 1;
    }
    assert(ty@.fields.take(j as int) =~= ty@.fields);
    Ok(AssemblyType { name: ty.name.clone(), fields })
}

/// Resolves the references of a module.
///
/// The assembly has the types of the module in their order. If a field
/// refers to a name that no type bears, the first such name, in source
/// order, is reported.
pub fn generate(module: &SchemeModule) -> (out: Result<Assembly, ResolveError>)
    ensures
        match resolve_spec(module@) {
            Ok(assembly) => out is Ok && out->Ok_0@ == assembly,
            Err(e) => out is Err && out->Err_0@ == e,
        },
        out is Ok <==> all_defined(module@),
        out matches Ok(assembly) ==> mirrors(module@, assembly@) && assembly@.closed(),
{
    let mut types: Vec<AssemblyType> = Vec::new();
    let mut i: usize = 0;
    assert(module@.types.take(0) =~= Seq::empty());
    assert(types.deep_view() =~= Seq::empty());
    while i < module.types.len()
        invariant
            i <= module.types.len(),
            resolve_types(module@.types, module@.types.take(i as int)) == Ok::<
                Seq<AssemblyTypeView>,
                ResolveErrorView,
            >(types.deep_view()),
        decreases module.types.len() - i,
    {
        let ghost done = types.deep_view();
        let ghost next = module@.types.take(i + 1);
        assert(next.drop_last() =~= module@.types.take(i as int));
        assert(next.last() == module.types[i as int]@);
        match resolve_one_type(&module.types, &module.types[i]) {
            Ok(ty) => {
                types.push(ty);
                assert(types.deep_view() =~= done.push(ty@));
            },
            Err(e) => {
                proof {
                    lemma_types_error_stays(module@.types, module@.types, i + 1);
                    lemma_resolve(module@);
                }
                return Err(e);
            },
        }
        i += 1;
    }
    proof {
        assert(module@.types.take(i as int) =~= module@.types);
        lemma_resolve(module@);
    }
    Ok(Assembly { types })
}

} // verus!
