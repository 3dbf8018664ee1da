use vstd::prelude::*;
use crate::model::{Attr, EnumVariant, NamedField, Shape, TypeDecl, UnnamedField, VariantField};
use crate::visibility::{translate_visibility, translate_visibility_spec, VisSentinel};
use crate::attrs::{hints_spec, ignore_spec, parse_attr_hint, parse_attr_ignore};
use crate::layout::{
    aligns_valid, compute_offsets, field_offset, layout_weight, lemma_offsets_ordered, max_align,
    total_size_spec, FieldLayout,
};

verus! {

/// The type descriptor of an emitted field record: the field's declared type,
/// or the fixed sentinel where the ignore directive suppresses real-type
/// introspection.
#[derive(Debug, PartialEq, Eq)]
pub enum TyDesc {
    Declared(String),
    Ignored,
}

/// Why classification aborts generation: the declaration is a zero-field
/// struct or a union. There is no partial output for these shapes.
#[derive(Debug, PartialEq, Eq, Clone, Copy, Structural)]
pub enum ShapeError {
    UnitStruct,
    Union,
}

/// One extracted field record, before offsets are attached: the field's name
/// (absent for positional fields), translated visibility, type descriptor,
/// the declared type kept verbatim for layout purposes, and the ordered
/// hints.
#[derive(Debug, PartialEq, Eq)]
pub struct FieldRecord {
    pub name: Option<String>,
    pub vis: VisSentinel,
    pub ty: TyDesc,
    pub decl_ty: String,
    pub hints: Vec<String>,
}

/// One extracted enum variant: its name, its own hints, and its field
/// records.
#[derive(Debug, PartialEq, Eq)]
pub struct VariantRecord {
    pub name: String,
    pub hints: Vec<String>,
    pub fields: Vec<FieldRecord>,
}

/// The extracted records of a supported shape.
#[derive(Debug, PartialEq, Eq)]
pub enum Records {
    Struct(Vec<FieldRecord>),
    Tuple(Vec<FieldRecord>),
    Enum(Vec<VariantRecord>),
}

/// The type descriptor of a field with declared type `declared` and
/// attributes `attrs`: the fixed sentinel exactly where the ignore directive
/// is set, the declared type otherwise.
pub open spec fn ty_desc_ok(d: TyDesc, declared: Seq<char>, attrs: Seq<Attr>) -> bool {
    if ignore_spec(attrs) {
        d is Ignored
    } else {
        d is Declared && d->0@ == declared
    }
}

/// Law: a field marked with the ignore directive is described by the fixed
/// sentinel type descriptor, whatever its declared type names — the declared
/// type's own metadata is never required for it.
pub proof fn lemma_ignored_field_sentinel(d: TyDesc, declared: Seq<char>, attrs: Seq<Attr>)
    requires
        ty_desc_ok(d, declared, attrs),
        ignore_spec(attrs),
    ensures
        d is Ignored,
{
}

/// What one record of a named field holds.
pub open spec fn named_record_ok(rec: FieldRecord, f: NamedField) -> bool {
    &&& rec.name is Some
    &&& rec.name->0@ == f.name@
    &&& rec.vis == translate_visibility_spec(f.vis)
    &&& ty_desc_ok(rec.ty, f.ty@, f.attrs@)
    &&& rec.decl_ty@ == f.ty@
    &&& rec.hints.deep_view() == hints_spec(f.attrs@)
}

/// What one record of a positional field holds: as a named field's record,
/// but without a name.
pub open spec fn unnamed_record_ok(rec: FieldRecord, f: UnnamedField) -> bool {
    &&& rec.name is None
    &&& rec.vis == translate_visibility_spec(f.vis)
    &&& ty_desc_ok(rec.ty, f.ty@, f.attrs@)
    &&& rec.decl_ty@ == f.ty@
    &&& rec.hints.deep_view() == hints_spec(f.attrs@)
}

/// What one record of an enum variant field holds: variant fields carry no
/// name and are uniformly public in the emitted metadata.
pub open spec fn variant_field_record_ok(rec: FieldRecord, f: VariantField) -> bool {
    &&& rec.name is None
    &&& rec.vis == VisSentinel::Public
    &&& ty_desc_ok(rec.ty, f.ty@, f.attrs@)
    &&& rec.decl_ty@ == f.ty@
    &&& rec.hints.deep_view() == hints_spec(f.attrs@)
}

/// The records of a named-field struct describe its fields one to one, in
/// declaration order.
pub open spec fn struct_records_ok(rs: Seq<FieldRecord>, fields: Seq<NamedField>) -> bool {
    &&& rs.len() == fields.len()
    &&& forall|k: int| 0 <= k < fields.len() ==> #[trigger] named_record_ok(rs[k], fields[k])
}

/// The records of a tuple-like struct describe its fields one to one, in
/// positional order.
pub open spec fn tuple_records_ok(rs: Seq<FieldRecord>, fields: Seq<UnnamedField>) -> bool {
    &&& rs.len() == fields.len()
    &&& forall|k: int| 0 <= k < fields.len() ==> #[trigger] unnamed_record_ok(rs[k], fields[k])
}

/// What one variant record holds.
pub open spec fn variant_record_ok(vr: VariantRecord, v: EnumVariant) -> bool {
    &&& vr.name@ == v.name@
    &&& vr.hints.deep_view() == hints_spec(v.attrs@)
    &&& vr.fields@.len() == v.fields@.len()
    &&& forall|k: int|
        0 <= k < v.fields@.len() ==> #[trigger] variant_field_record_ok(
            vr.fields@[k],
            v.fields@[k],
        )
}

/// The variant records of an enumeration describe its variants one to one,
/// in declaration order; unit-like variants enumerate zero fields.
pub open spec fn enum_records_ok(rs: Seq<VariantRecord>, vs: Seq<EnumVariant>) -> bool {
    &&& rs.len() == vs.len()
    &&& forall|k: int| 0 <= k < vs.len() ==> #[trigger] variant_record_ok(rs[k], vs[k])
}

fn named_field_record(f: &NamedField) -> (rec: FieldRecord)
    ensures
        named_record_ok(rec, *f),
{
    let hints = parse_attr_hint(&f.attrs);
    let ignored = parse_attr_ignore(&f.attrs);
    let ty = if ignored {
        TyDesc::Ignored
    } else {
        TyDesc::Declared(f.ty.clone())
    };
    FieldRecord {
        name: Option::Some(f.name.clone()),
        vis: translate_visibility(&f.vis),
        ty,
        decl_ty: f.ty.clone(),
        hints,
    }
}

fn unnamed_field_record(f: &UnnamedField) -> (rec: FieldRecord)
    ensures
        unnamed_record_ok(rec, *f),
{
    let hints = parse_attr_hint(&f.attrs);
    let ignored = parse_attr_ignore(&f.attrs);
    let ty = if ignored {
        TyDesc::Ignored
    } else {
        TyDesc::Declared(f.ty.clone())
    };
    FieldRecord {
        name: Option::None,
        vis: translate_visibility(&f.vis),
        ty,
        decl_ty: f.ty.clone(),
        hints,
    }
}

fn variant_field_record(f: &VariantField) -> (rec: FieldRecord)
    ensures
        variant_field_record_ok(rec, *f),
{
    let hints = parse_attr_hint(&f.attrs);
    let ignored = parse_attr_ignore(&f.attrs);
    let ty = if ignored {
        TyDesc::Ignored
    } else {
        TyDesc::Declared(f.ty.clone())
    };
    FieldRecord {
        name: Option::None,
        vis: VisSentinel::Public,
        ty,
        decl_ty: f.ty.clone(),
        hints,
    }
}

fn variant_record(v: &EnumVariant) -> (vr: VariantRecord)
    ensures
        variant_record_ok(vr, *v),
{
    let hints = parse_attr_hint(&v.attrs);
    let mut fields: Vec<FieldRecord> = Vec::new();
    let mut i: usize = 0;
    while i < v.fields.len()
        invariant
            0 <= i <= v.fields@.len(),
            fields@.len() == i,
            forall|k: int|
                0 <= k < i ==> #[trigger] variant_field_record_ok(fields@[k], v.fields@[k]),
        decreases v.fields@.len() - i,
    {
        fields.push(variant_field_record(&v.fields[i]));
        i += 1;
    }
    VariantRecord { name: v.name.clone(), hints, fields }
}

/// Classifies the declaration's shape and extracts one metadata record per
/// field — per variant and its fields for an enumeration — in declaration
/// order. A zero-field struct or a union is unsupported: generation aborts
/// with the matching error and produces nothing partial.
pub fn extract(decl: &TypeDecl) -> (r: Result<Records, ShapeError>)
    ensures
        r is Err <==> (decl.shape is UnitStruct || decl.shape is Union),
        decl.shape is UnitStruct ==> (r matches Err(e) && e == ShapeError::UnitStruct),
        decl.shape is Union ==> (r matches Err(e) && e == ShapeError::Union),
        (match decl.shape {
            Shape::NamedStruct(fields) => r matches Ok(Records::Struct(rs)) && struct_records_ok(
                rs@,
                fields@,
            ),
            Shape::TupleStruct(fields) => r matches Ok(Records::Tuple(rs)) && tuple_records_ok(
                rs@,
                fields@,
            ),
            Shape::Enum(vs) => r matches Ok(Records::Enum(rs)) && enum_records_ok(rs@, vs@),
            _ => true,
        }),
{
    match &decl.shape {
        Shape::NamedStruct(fields) => {
            let mut rs: Vec<FieldRecord> = Vec::new();
            let mut i: usize = 0;
            while i < fields.len()
                invariant
                    0 <= i <= fields@.len(),
                    rs@.len() == i,
                    forall|k: int| 0 <= k < i ==> #[trigger] named_record_ok(rs@[k], fields@[k]),
                decreases fields@.len() - i,
            {
                rs.push(named_field_record(&fields[i]));
                i += 1;
            }
            Result::Ok(Records::Struct(rs))
        },
        Shape::TupleStruct(fields) => {
            let mut rs: Vec<FieldRecord> = Vec::new();
            let mut i: usize = 0;
            while i < fields.len()
                invariant
                    0 <= i <= fields@.len(),
                    rs@.len() == i,
                    forall|k: int| 0 <= k < i ==> #[trigger] unnamed_record_ok(rs@[k], fields@[k]),
                decreases fields@.len() - i,
            {
                rs.push(unnamed_field_record(&fields[i]));
                i += 1;
            }
            Result::Ok(Records::Tuple(rs))
        },
        Shape::UnitStruct => Result::Err(ShapeError::UnitStruct),
        Shape::Enum(vs) => {
            let mut rs: Vec<VariantRecord> = Vec::new();
            let mut i: usize = 0;
            while i < vs.len()
                invariant
                    0 <= i <= vs@.len(),
                    rs@.len() == i,
                    forall|k: int| 0 <= k < i ==> #[trigger] variant_record_ok(rs@[k], vs@[k]),
                decreases vs@.len() - i,
            {
                rs.push(variant_record(&vs[i]));
                i += 1;
            }
            Result::Ok(Records::Enum(rs))
        },
        Shape::Union => Result::Err(ShapeError::Union),
    }
}

/// One field descriptor of the metadata value tree, offset attached. For enum
/// variant fields the offset is fixed at zero: a sum type has no single
/// per-field layout, so offsets are only meaningful for product types.
#[derive(Debug, PartialEq, Eq)]
pub struct FieldMeta {
    pub name: Option<String>,
    pub vis: VisSentinel,
    pub offset: usize,
    pub ty: TyDesc,
    pub hints: Vec<String>,
}

/// The metadata of a named-field struct.
#[derive(Debug, PartialEq, Eq)]
pub struct StructMeta {
    pub name: String,
    pub vis: VisSentinel,
    pub size: usize,
    pub fields: Vec<FieldMeta>,
}

/// The metadata of a tuple-like struct.
#[derive(Debug, PartialEq, Eq)]
pub struct TupleMeta {
    pub name: String,
    pub vis: VisSentinel,
    pub size: usize,
    pub fields: Vec<FieldMeta>,
}

/// The metadata of one enum variant.
#[derive(Debug, PartialEq, Eq)]
pub struct VariantMeta {
    pub name: String,
    pub hints: Vec<String>,
    pub fields: Vec<FieldMeta>,
}

/// The metadata of an enumeration. Its size is not derived by the layout
/// facility — the generated code obtains a sum type's size from the compiler
/// — so the value tree fixes it at zero, as it fixes variant field offsets.
#[derive(Debug, PartialEq, Eq)]
pub struct EnumMeta {
    pub name: String,
    pub vis: VisSentinel,
    pub size: usize,
    pub variants: Vec<VariantMeta>,
}

/// The metadata value tree that the generated implementation's query
/// constructs, one variant per supported shape.
#[derive(Debug, PartialEq, Eq)]
pub enum TypeMeta {
    Struct(StructMeta),
    Tuple(TupleMeta),
    Enum(EnumMeta),
}

/// The number of fields that drive offset computation: those of a struct
/// shape. Enum variant fields take no computed offsets.
pub open spec fn shape_field_count(s: Shape) -> nat {
    match s {
        Shape::NamedStruct(fs) => fs@.len(),
        Shape::TupleStruct(fs) => fs@.len(),
        _ => 0,
    }
}

/// What one field descriptor of a named field holds, at offset `off`.
pub open spec fn named_meta_ok(fm: FieldMeta, f: NamedField, off: int) -> bool {
    &&& fm.name is Some
    &&& fm.name->0@ == f.name@
    &&& fm.vis == translate_visibility_spec(f.vis)
    &&& fm.offset == off
    &&& ty_desc_ok(fm.ty, f.ty@, f.attrs@)
    &&& fm.hints.deep_view() == hints_spec(f.attrs@)
}

/// What one field descriptor of a positional field holds, at offset `off`.
pub open spec fn unnamed_meta_ok(fm: FieldMeta, f: UnnamedField, off: int) -> bool {
    &&& fm.name is None
    &&& fm.vis == translate_visibility_spec(f.vis)
    &&& fm.offset == off
    &&& ty_desc_ok(fm.ty, f.ty@, f.attrs@)
    &&& fm.hints.deep_view() == hints_spec(f.attrs@)
}

/// What one field descriptor of an enum variant field holds: no name, the
/// public sentinel, offset zero.
pub open spec fn variant_field_meta_ok(fm: FieldMeta, f: VariantField) -> bool {
    &&& fm.name is None
    &&& fm.vis == VisSentinel::Public
    &&& fm.offset == 0
    &&& ty_desc_ok(fm.ty, f.ty@, f.attrs@)
    &&& fm.hints.deep_view() == hints_spec(f.attrs@)
}

/// What the metadata of a named-field struct holds: the declaration's name
/// and translated visibility, the computed total size, and one descriptor per
/// field, in declaration order, at the computed offsets.
pub open spec fn struct_meta_ok(
    m: StructMeta,
    decl: TypeDecl,
    fields: Seq<NamedField>,
    ls: Seq<FieldLayout>,
) -> bool {
    &&& m.name@ == decl.name@
    &&& m.vis == translate_visibility_spec(decl.vis)
    &&& m.size == total_size_spec(ls)
    &&& m.fields@.len() == fields.len()
    &&& forall|k: int|
        0 <= k < fields.len() ==> #[trigger] named_meta_ok(m.fields@[k], fields[k], field_offset(
            ls,
            k,
        ))
}

/// What the metadata of a tuple-like struct holds.
pub open spec fn tuple_meta_ok(
    m: TupleMeta,
    decl: TypeDecl,
    fields: Seq<UnnamedField>,
    ls: Seq<FieldLayout>,
) -> bool {
    &&& m.name@ == decl.name@
    &&& m.vis == translate_visibility_spec(decl.vis)
    &&& m.size == total_size_spec(ls)
    &&& m.fields@.len() == fields.len()
    &&& forall|k: int|
        0 <= k < fields.len() ==> #[trigger] unnamed_meta_ok(m.fields@[k], fields[k], field_offset(
            ls,
            k,
        ))
}

/// What one variant's metadata holds.
pub open spec fn variant_meta_ok(vm: VariantMeta, v: EnumVariant) -> bool {
    &&& vm.name@ == v.name@
    &&& vm.hints.deep_view() == hints_spec(v.attrs@)
    &&& vm.fields@.len() == v.fields@.len()
    &&& forall|k: int|
        0 <= k < v.fields@.len() ==> #[trigger] variant_field_meta_ok(vm.fields@[k], v.fields@[k])
}

/// What the metadata of an enumeration holds: one variant descriptor per
/// variant, in declaration order; unit-like variants enumerate zero fields.
pub open spec fn enum_meta_ok(m: EnumMeta, decl: TypeDecl, vs: Seq<EnumVariant>) -> bool {
    &&& m.name@ == decl.name@
    &&& m.vis == translate_visibility_spec(decl.vis)
    &&& m.size == 0
    &&& m.variants@.len() == vs.len()
    &&& forall|k: int| 0 <= k < vs.len() ==> #[trigger] variant_meta_ok(m.variants@[k], vs[k])
}

/// Law: in the metadata of a tuple-like struct, emitted offsets are
/// non-decreasing in field index, each field's storage ends within the
/// emitted total size, and a field that occupies at least one byte starts
/// strictly below it. (A zero-sized trailing field may start exactly at the
/// total.)
pub proof fn lemma_tuple_offsets_ordered(
    m: TupleMeta,
    decl: TypeDecl,
    fields: Seq<UnnamedField>,
    ls: Seq<FieldLayout>,
)
    requires
        tuple_meta_ok(m, decl, fields, ls),
        aligns_valid(ls),
        ls.len() == fields.len(),
    ensures
        forall|i: int|
            0 <= i && i + 1 < fields.len() ==> #[trigger] m.fields@[i].offset <= m.fields@[i
                + 1].offset,
        forall|i: int|
            0 <= i < fields.len() ==> #[trigger] m.fields@[i].offset + ls[i].size <= m.size,
        forall|i: int|
            0 <= i < fields.len() && ls[i].size >= 1 ==> #[trigger] m.fields@[i].offset < m.size,
{
    lemma_offsets_ordered(ls);
    assert forall|i: int| 0 <= i && i + 1 < fields.len() implies #[trigger] m.fields@[i].offset
        <= m.fields@[i + 1].offset by {
        assert(unnamed_meta_ok(m.fields@[i], fields[i], field_offset(ls, i)));
        assert(unnamed_meta_ok(m.fields@[i + 1], fields[i + 1], field_offset(ls, i + 1)));
        assert(field_offset(ls, i) <= field_offset(ls, i + 1));
    }
    assert forall|i: int| 0 <= i < fields.len() implies #[trigger] m.fields@[i].offset + ls[i].size
        <= m.size by {
        assert(unnamed_meta_ok(m.fields@[i], fields[i], field_offset(ls, i)));
        assert(field_offset(ls, i) + ls[i].size <= total_size_spec(ls));
    }
    assert forall|i: int| 0 <= i < fields.len() && ls[i].size >= 1 implies #[trigger] m.fields@[i].offset
        < m.size by {
        assert(unnamed_meta_ok(m.fields@[i], fields[i], field_offset(ls, i)));
        assert(field_offset(ls, i) < total_size_spec(ls));
    }
}

fn named_field_meta(f: &NamedField, off: usize) -> (fm: FieldMeta)
    ensures
        named_meta_ok(fm, *f, off as int),
{
    let hints = parse_attr_hint(&f.attrs);
    let ignored = parse_attr_ignore(&f.attrs);
    let ty = if ignored {
        TyDesc::Ignored
    } else {
        TyDesc::Declared(f.ty.clone())
    };
    FieldMeta {
        name: Option::Some(f.name.clone()),
        vis: translate_visibility(&f.vis),
        offset: off,
        ty,
        hints,
    }
}

fn unnamed_field_meta(f: &UnnamedField, off: usize) -> (fm: FieldMeta)
    ensures
        unnamed_meta_ok(fm, *f, off as int),
{
    let hints = parse_attr_hint(&f.attrs);
    let ignored = parse_attr_ignore(&f.attrs);
    let ty = if ignored {
        TyDesc::Ignored
    } else {
        TyDesc::Declared(f.ty.clone())
    };
    FieldMeta { name: Option::None, vis: translate_visibility(&f.vis), offset: off, ty, hints }
}

fn variant_field_meta(f: &VariantField) -> (fm: FieldMeta)
    ensures
        variant_field_meta_ok(fm, *f),
{
    let hints = parse_attr_hint(&f.attrs);
    let ignored = parse_attr_ignore(&f.attrs);
    let ty = if ignored {
        TyDesc::Ignored
    } else {
        TyDesc::Declared(f.ty.clone())
    };
    FieldMeta { name: Option::None, vis: VisSentinel::Public, offset: 0, ty, hints }
}

fn variant_meta(v: &EnumVariant) -> (vm: VariantMeta)
    ensures
        variant_meta_ok(vm, *v),
{
    let hints = parse_attr_hint(&v.attrs);
    let mut fields: Vec<FieldMeta> = Vec::new();
    let mut i: usize = 0;
    while i < v.fields.len()
        invariant
            0 <= i <= v.fields@.len(),
            fields@.len() == i,
            forall|k: int|
                0 <= k < i ==> #[trigger] variant_field_meta_ok(fields@[k], v.fields@[k]),
        decreases v.fields@.len() - i,
    {
        fields.push(variant_field_meta(&v.fields[i]));
        i += 1;
    }
    VariantMeta { name: v.name.clone(), hints, fields }
}

/// Builds the metadata value tree that the generated implementation's query
/// constructs: kind, name, translated visibility, total size, and the ordered
/// field or variant descriptors. `layouts` describes each struct field's size
/// and alignment, in declaration order; offsets come from the checked
/// cumulative layout facility. Unsupported shapes yield the matching error.
pub fn metadata(decl: &TypeDecl, layouts: &Vec<FieldLayout>) -> (r: Result<TypeMeta, ShapeError>)
    requires
        layouts@.len() == shape_field_count(decl.shape),
        aligns_valid(layouts@),
        layout_weight(layouts@) + max_align(layouts@) <= usize::MAX,
    ensures
        r is Err <==> (decl.shape is UnitStruct || decl.shape is Union),
        decl.shape is UnitStruct ==> (r matches Err(e) && e == ShapeError::UnitStruct),
        decl.shape is Union ==> (r matches Err(e) && e == ShapeError::Union),
        (match decl.shape {
            Shape::NamedStruct(fields) => r matches Ok(TypeMeta::Struct(m)) && struct_meta_ok(
                m,
                *decl,
                fields@,
                layouts@,
            ),
            Shape::TupleStruct(fields) => r matches Ok(TypeMeta::Tuple(m)) && tuple_meta_ok(
                m,
                *decl,
                fields@,
                layouts@,
            ),
            Shape::Enum(vs) => r matches Ok(TypeMeta::Enum(m)) && enum_meta_ok(m, *decl, vs@),
            _ => true,
        }),
{
    match &decl.shape {
        Shape::NamedStruct(fields) => {
            let (offs, total) = compute_offsets(layouts);
            let mut fms: Vec<FieldMeta> = Vec::new();
            let mut i: usize = 0;
            while i < fields.len()
                invariant
                    0 <= i <= fields@.len(),
                    fms@.len() == i,
                    offs@.len() == fields@.len(),
                    forall|k: int|
                        0 <= k < fields@.len() ==> offs@[k] == field_offset(layouts@, k),
                    forall|k: int|
                        0 <= k < i ==> #[trigger] named_meta_ok(
                            fms@[k],
                            fields@[k],
                            field_offset(layouts@, k),
                        ),
                decreases fields@.len() - i,
            {
                fms.push(named_field_meta(&fields[i], offs[i]));
                i += 1;
            }
            Result::Ok(TypeMeta::Struct(StructMeta {
                name: decl.name.clone(),
                vis: translate_visibility(&decl.vis),
                size: total,
                fields: fms,
            }))
        },
        Shape::TupleStruct(fields) => {
            let (offs, total) = compute_offsets(layouts);
            let mut fms: Vec<FieldMeta> = Vec::new();
            let mut i: usize = 0;
            while i < fields.len()
                invariant
                    0 <= i <= fields@.len(),
                    fms@.len() == i,
                    offs@.len() == fields@.len(),
                    forall|k: int|
                        0 <= k < fields@.len() ==> offs@[k] == field_offset(layouts@, k),
                    forall|k: int|
                        0 <= k < i ==> #[trigger] unnamed_meta_ok(
                            fms@[k],
                            fields@[k],
                            field_offset(layouts@, k),
                        ),
                decreases fields@.len() - i,
            {
                fms.push(unnamed_field_meta(&fields[i], offs[i]));
                i += 1;
            }
            Result::Ok(TypeMeta::Tuple(TupleMeta {
                name: decl.name.clone(),
                vis: translate_visibility(&decl.vis),
                size: total,
                fields: fms,
            }))
        },
        Shape::UnitStruct => Result::Err(ShapeError::UnitStruct),
        Shape::Enum(vs) => {
            let mut vms: Vec<VariantMeta> = Vec::new();
            let mut i: usize = 0;
            while i < vs.len()
                invariant
                    0 <= i <= vs@.len(),
                    vms@.len() == i,
                    forall|k: int| 0 <= k < i ==> #[trigger] variant_meta_ok(vms@[k], vs@[k]),
                decreases vs@.len() - i,
            {
                vms.push(variant_meta(&vs[i]));
                i += 1;
            }
            Result::Ok(TypeMeta::Enum(EnumMeta {
                name: decl.name.clone(),
                vis: translate_visibility(&decl.vis),
                size: 0,
                variants: vms,
            }))
        },
        Shape::Union => Result::Err(ShapeError::Union),
    }
}

} // verus!
