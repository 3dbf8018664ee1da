use vstd::prelude::*;
use vstd::string::StringExecFns;
use vstd::string::StrSliceExecFns;
use crate::model::{Attr, EnumVariant, NamedField, Shape, TypeDecl, UnnamedField, VariantField};
use crate::visibility::{translate_visibility, translate_visibility_spec, VisSentinel};
use crate::attrs::{hints_spec, ignore_spec, parse_attr_hint, parse_attr_ignore};
use crate::extract::ShapeError;
use crate::text::push_char;

verus! {

/// A hint text is embedded in a generated string literal with quotes and
/// backslashes escaped; every other character stands as it is.
pub open spec fn esc_char(c: char) -> Seq<char> {
    if c == '"' || c == '\\' {
        seq!['\\', c]
    } else {
        seq![c]
    }
}

/// The escaped form of a whole hint text.
pub open spec fn escaped(s: Seq<char>) -> Seq<char>
    decreases s.len(),
{
    if s.len() == 0 {
        Seq::empty()
    } else {
        escaped(s.drop_last()) + esc_char(s.last())
    }
}

/// The token of the visibility sentinel as it appears in generated source.
pub open spec fn vis_name(v: VisSentinel) -> Seq<char> {
    match v {
        VisSentinel::Public => "Public"@,
        VisSentinel::Crate => "Crate"@,
        VisSentinel::Restricted => "Restricted"@,
        VisSentinel::Inherited => "Inherited"@,
        VisSentinel::Unknown => "Unknown"@,
    }
}

/// The generated block that accumulates one field's or variant's hint
/// strings, in order.
pub open spec fn hints_pushes(hs: Seq<Seq<char>>) -> Seq<char>
    decreases hs.len(),
{
    if hs.len() == 0 {
        Seq::empty()
    } else {
        hints_pushes(hs.drop_last()) + "hints.push(\""@ + escaped(hs.last()) + "\"); "@
    }
}

pub open spec fn hints_block(hs: Seq<Seq<char>>) -> Seq<char> {
    "{ let mut hints = Vec::new(); "@ + hints_pushes(hs) + "hints }"@
}

/// The generated offset expression of one struct field: it rounds the running
/// offset up to the field type's alignment, yields it, and advances it by the
/// field type's size — the same cumulative computation as the layout
/// facility, evaluated where the sizes are known.
pub open spec fn offset_expr(ty: Seq<char>) -> Seq<char> {
    "{ offset = (offset + ::std::mem::align_of::<"@ + ty
        + ">() - 1) / ::std::mem::align_of::<"@ + ty + ">() * ::std::mem::align_of::<"@ + ty
        + ">(); let o = offset; offset = offset + ::std::mem::size_of::<"@ + ty + ">(); o }"@
}

/// The type whose metadata the generated field record queries: the declared
/// type, or the fixed sentinel where the ignore directive is set.
pub open spec fn ty_text_spec(ty: Seq<char>, attrs: Seq<Attr>) -> Seq<char> {
    if ignore_spec(attrs) {
        "rtti::Ignored"@
    } else {
        ty
    }
}

/// The generated record of one named struct field.
pub open spec fn named_field_text(f: NamedField) -> Seq<char> {
    "fields.push((\""@ + f.name@ + "\", rtti::Field { vis: rtti::Visibility::"@ + vis_name(
        translate_visibility_spec(f.vis),
    ) + ", offset: "@ + offset_expr(f.ty@) + ", ty: <"@ + ty_text_spec(f.ty@, f.attrs@)
        + " as rtti::RTTI>::rtti(), hints: "@ + hints_block(hints_spec(f.attrs@)) + " })); "@
}

pub open spec fn named_fields_text(fs: Seq<NamedField>) -> Seq<char>
    decreases fs.len(),
{
    if fs.len() == 0 {
        Seq::empty()
    } else {
        named_fields_text(fs.drop_last()) + named_field_text(fs.last())
    }
}

/// The generated record of one tuple struct field.
pub open spec fn unnamed_field_text(f: UnnamedField) -> Seq<char> {
    "fields.push(rtti::Field { vis: rtti::Visibility::"@ + vis_name(
        translate_visibility_spec(f.vis),
    ) + ", offset: "@ + offset_expr(f.ty@) + ", ty: <"@ + ty_text_spec(f.ty@, f.attrs@)
        + " as rtti::RTTI>::rtti(), hints: "@ + hints_block(hints_spec(f.attrs@)) + " }); "@
}

pub open spec fn unnamed_fields_text(fs: Seq<UnnamedField>) -> Seq<char>
    decreases fs.len(),
{
    if fs.len() == 0 {
        Seq::empty()
    } else {
        unnamed_fields_text(fs.drop_last()) + unnamed_field_text(fs.last())
    }
}

/// The generated record of one enum variant field: uniformly public, offset
/// fixed at zero — a sum type maps no single memory layout to its fields.
pub open spec fn variant_field_text(f: VariantField) -> Seq<char> {
    "fields.push(rtti::Field { vis: rtti::Visibility::Public, offset: 0, ty: <"@ + ty_text_spec(
        f.ty@,
        f.attrs@,
    ) + " as rtti::RTTI>::rtti(), hints: "@ + hints_block(hints_spec(f.attrs@)) + " }); "@
}

pub open spec fn variant_fields_text(fs: Seq<VariantField>) -> Seq<char>
    decreases fs.len(),
{
    if fs.len() == 0 {
        Seq::empty()
    } else {
        variant_fields_text(fs.drop_last()) + variant_field_text(fs.last())
    }
}

/// The generated record of one enum variant, with its own hints and its field
/// records.
pub open spec fn variant_text(v: EnumVariant) -> Seq<char> {
    "variants.push((\""@ + v.name@
        + "\", rtti::Variant { fields: { let mut fields = Vec::new(); "@ + variant_fields_text(
        v.fields@,
    ) + "fields }, hints: "@ + hints_block(hints_spec(v.attrs@)) + " })); "@
}

pub open spec fn variants_text(vs: Seq<EnumVariant>) -> Seq<char>
    decreases vs.len(),
{
    if vs.len() == 0 {
        Seq::empty()
    } else {
        variants_text(vs.drop_last()) + variant_text(vs.last())
    }
}

/// The generated expression for the total byte size of the declared type.
pub open spec fn size_expr(decl: TypeDecl) -> Seq<char> {
    "::std::mem::size_of::<"@ + decl.name@ + " "@ + decl.ty_generics@ + ">()"@
}

/// The generated value for a named-field struct.
pub open spec fn struct_body_text(decl: TypeDecl, fs: Seq<NamedField>) -> Seq<char> {
    "rtti::Type::Struct(rtti::Struct { name: \""@ + decl.name@ + "\", vis: rtti::Visibility::"@
        + vis_name(translate_visibility_spec(decl.vis)) + ", size: "@ + size_expr(decl)
        + ", fields: { let mut fields = Vec::new(); let mut offset: usize = 0; "@
        + named_fields_text(fs) + "fields } })"@
}

/// The generated value for a tuple-like struct.
pub open spec fn tuple_body_text(decl: TypeDecl, fs: Seq<UnnamedField>) -> Seq<char> {
    "rtti::Type::Tuple(rtti::Tuple { name: \""@ + decl.name@ + "\", vis: rtti::Visibility::"@
        + vis_name(translate_visibility_spec(decl.vis)) + ", size: "@ + size_expr(decl)
        + ", fields: { let mut fields = Vec::new(); let mut offset: usize = 0; "@
        + unnamed_fields_text(fs) + "fields } })"@
}

/// The generated value for an enumeration.
pub open spec fn enum_body_text(decl: TypeDecl, vs: Seq<EnumVariant>) -> Seq<char> {
    "rtti::Type::Enum(rtti::Enum { name: \""@ + decl.name@ + "\", vis: rtti::Visibility::"@
        + vis_name(translate_visibility_spec(decl.vis)) + ", size: "@ + size_expr(decl)
        + ", variants: { let mut variants = Vec::new(); "@ + variants_text(vs) + "variants } })"@
}

/// The opening of the generated implementation: a uniquely named constant
/// scope derived from the type's identifier, and the implementation header
/// carrying the declaration's generic parameters and where-constraints
/// verbatim.
pub open spec fn header_text(decl: TypeDecl) -> Seq<char> {
    "#[allow(non_upper_case_globals, unused_mut)] const _IMPL_RTTI_FOR_"@ + decl.name@
        + ": () = { impl "@ + decl.impl_generics@ + " rtti::RTTI for "@ + decl.name@ + " "@
        + decl.ty_generics@ + " "@ + decl.where_clause@ + " { fn rtti() -> rtti::Type { "@
}

pub open spec fn footer_text() -> Seq<char> {
    " } } };"@
}

/// The whole generated source for a supported declaration; empty for the
/// unsupported shapes, on which generation aborts instead of emitting.
pub open spec fn rtti_text_spec(decl: TypeDecl) -> Seq<char> {
    match decl.shape {
        Shape::NamedStruct(fs) => header_text(decl) + struct_body_text(decl, fs@) + footer_text(),
        Shape::TupleStruct(fs) => header_text(decl) + tuple_body_text(decl, fs@) + footer_text(),
        Shape::Enum(vs) => header_text(decl) + enum_body_text(decl, vs@) + footer_text(),
        Shape::UnitStruct => Seq::empty(),
        Shape::Union => Seq::empty(),
    }
}

/// Law: generation is a pure function of the declaration alone — re-running
/// it on an unchanged declaration in an unchanged compilation yields
/// byte-identical generated source.
pub proof fn lemma_generation_deterministic(d1: TypeDecl, d2: TypeDecl)
    requires
        d1 == d2,
    ensures
        rtti_text_spec(d1) == rtti_text_spec(d2),
{
}

/// The fixed sentinel type reference substituted for ignored fields: a
/// constant of the generator, the same for every declaration of a
/// compilation.
pub fn ignored_type_path() -> (r: String)
    ensures
        r@ == "rtti::Ignored"@,
{
    String::from_str("rtti::Ignored")
}

fn push_escaped(out: &mut String, s: &String)
    ensures
        final(out)@ == old(out)@ + escaped(s@),
{
    let ghost base = out@;
    let n = s.as_str().unicode_len();
    let mut i: usize = 0;
    assert(out@ =~= base + escaped(s@.take(0)));
    while i < n
        invariant
            0 <= i <= n,
            n == s@.len(),
            out@ == base + escaped(s@.take(i as int)),
        decreases n - i,
    {
        let c = s.as_str().get_char(i);
        if c == '"' || c == '\\' {
            push_char(out, '\\');
        }
        push_char(out, c);
        proof {
            assert(s@.take(i + 1).drop_last() =~= s@.take(i as int));
            assert(s@.take(i + 1).last() == s@[i as int]);
            assert(out@ =~= base + escaped(s@.take(i + 1)));
        }
        i += 1;
    }
    proof {
        assert(s@.take(n as int) =~= s@);
    }
}

fn push_vis(out: &mut String, v: VisSentinel)
    ensures
        final(out)@ == old(out)@ + vis_name(v),
{
    match v {
        VisSentinel::Public => out.append("Public"),
        VisSentinel::Crate => out.append("Crate"),
        VisSentinel::Restricted => out.append("Restricted"),
        VisSentinel::Inherited => out.append("Inherited"),
        VisSentinel::Unknown => out.append("Unknown"),
    }
}

fn push_hints(out: &mut String, hs: &Vec<String>)
    ensures
        final(out)@ == old(out)@ + hints_block(hs.deep_view()),
{
    let ghost base = out@;
    let ghost dv = hs.deep_view();
    out.append("{ let mut hints = Vec::new(); ");
    let mut i: usize = 0;
    assert(out@ =~= base + "{ let mut hints = Vec::new(); "@ + hints_pushes(dv.take(0)));
    while i < hs.len()
        invariant
            0 <= i <= hs@.len(),
            dv == hs.deep_view(),
            dv.len() == hs@.len(),
            out@ == base + "{ let mut hints = Vec::new(); "@ + hints_pushes(dv.take(i as int)),
        decreases hs@.len() - i,
    {
        out.append("hints.push(\"");
        push_escaped(out, &hs[i]);
        out.append("\"); ");
        proof {
            assert(dv[i as int] == hs@[i as int]@);
            assert(dv.take(i + 1).drop_last() =~= dv.take(i as int));
            assert(dv.take(i + 1).last() == dv[i as int]);
            assert(out@ =~= base + "{ let mut hints = Vec::new(); "@ + hints_pushes(
                dv.take(i + 1),
            ));
        }
        i += 1;
    }
    out.append("hints }");
    proof {
        assert(dv.take(dv.len() as int) =~= dv);
        assert(out@ =~= base + hints_block(dv));
    }
}

fn push_offset_expr(out: &mut String, ty: &String)
    ensures
        final(out)@ == old(out)@ + offset_expr(ty@),
{
    let ghost base = out@;
    out.append("{ offset = (offset + ::std::mem::align_of::<");
    out.append(ty.as_str());
    out.append(">() - 1) / ::std::mem::align_of::<");
    out.append(ty.as_str());
    out.append(">() * ::std::mem::align_of::<");
    out.append(ty.as_str());
    out.append(">(); let o = offset; offset = offset + ::std::mem::size_of::<");
    out.append(ty.as_str());
    out.append(">(); o }");
    proof {
        assert(out@ =~= base + offset_expr(ty@));
    }
}

fn push_ty_text(out: &mut String, ty: &String, ignored: bool, Ghost(attrs): Ghost<Seq<Attr>>)
    requires
        ignored == ignore_spec(attrs),
    ensures
        final(out)@ == old(out)@ + ty_text_spec(ty@, attrs),
{
    if ignored {
        let p = ignored_type_path();
        out.append(p.as_str());
    } else {
        out.append(ty.as_str());
    }
}

fn push_named_field(out: &mut String, f: &NamedField)
    ensures
        final(out)@ == old(out)@ + named_field_text(*f),
{
    let ghost base = out@;
    let hints = parse_attr_hint(&f.attrs);
    let ignored = parse_attr_ignore(&f.attrs);
    out.append("fields.push((\"");
    out.append(f.name.as_str());
    out.append("\", rtti::Field { vis: rtti::Visibility::");
    push_vis(out, translate_visibility(&f.vis));
    out.append(", offset: ");
    push_offset_expr(out, &f.ty);
    out.append(", ty: <");
    push_ty_text(out, &f.ty, ignored, Ghost(f.attrs@));
    out.append(" as rtti::RTTI>::rtti(), hints: ");
    push_hints(out, &hints);
    out.append(" })); ");
    proof {
        assert(out@ =~= base + named_field_text(*f));
    }
}

fn push_unnamed_field(out: &mut String, f: &UnnamedField)
    ensures
        final(out)@ == old(out)@ + unnamed_field_text(*f),
{
    let ghost base = out@;
    let hints = parse_attr_hint(&f.attrs);
    let ignored = parse_attr_ignore(&f.attrs);
    out.append("fields.push(rtti::Field { vis: rtti::Visibility::");
    push_vis(out, translate_visibility(&f.vis));
    out.append(", offset: ");
    push_offset_expr(out, &f.ty);
    out.append(", ty: <");
    push_ty_text(out, &f.ty, ignored, Ghost(f.attrs@));
    out.append(" as rtti::RTTI>::rtti(), hints: ");
    push_hints(out, &hints);
    out.append(" }); ");
    proof {
        assert(out@ =~= base + unnamed_field_text(*f));
    }
}

fn push_variant_field(out: &mut String, f: &VariantField)
    ensures
        final(out)@ == old(out)@ + variant_field_text(*f),
{
    let ghost base = out@;
    let hints = parse_attr_hint(&f.attrs);
    let ignored = parse_attr_ignore(&f.attrs);
    out.append("fields.push(rtti::Field { vis: rtti::Visibility::Public, offset: 0, ty: <");
    push_ty_text(out, &f.ty, ignored, Ghost(f.attrs@));
    out.append(" as rtti::RTTI>::rtti(), hints: ");
    push_hints(out, &hints);
    out.append(" }); ");
    proof {
        assert(out@ =~= base + variant_field_text(*f));
    }
}

fn push_variant(out: &mut String, v: &EnumVariant)
    ensures
        final(out)@ == old(out)@ + variant_text(*v),
{
    let ghost base = out@;
    let hints = parse_attr_hint(&v.attrs);
    out.append("variants.push((\"");
    out.append(v.name.as_str());
    out.append("\", rtti::Variant { fields: { let mut fields = Vec::new(); ");
    let ghost mid = out@;
    let mut i: usize = 0;
    assert(out@ =~= mid + variant_fields_text(v.fields@.take(0)));
    while i < v.fields.len()
        invariant
            0 <= i <= v.fields@.len(),
            out@ == mid + variant_fields_text(v.fields@.take(i as int)),
        decreases v.fields@.len() - i,
    {
        push_variant_field(out, &v.fields[i]);
        proof {
            assert(v.fields@.take(i + 1).drop_last() =~= v.fields@.take(i as int));
            assert(v.fields@.take(i + 1).last() == v.fields@[i as int]);
            assert(out@ =~= mid + variant_fields_text(v.fields@.take(i + 1)));
        }
        i += 1;
    }
    proof {
        assert(v.fields@.take(v.fields@.len() as int) =~= v.fields@);
    }
    out.append("fields }, hints: ");
    push_hints(out, &hints);
    out.append(" })); ");
    proof {
        assert(out@ =~= base + variant_text(*v));
    }
}

fn push_header(out: &mut String, decl: &TypeDecl)
    ensures
        final(out)@ == old(out)@ + header_text(*decl),
{
    let ghost base = out@;
    out.append("#[allow(non_upper_case_globals, unused_mut)] const _IMPL_RTTI_FOR_");
    out.append(decl.name.as_str());
    out.append(": () = { impl ");
    out.append(decl.impl_generics.as_str());
    out.append(" rtti::RTTI for ");
    out.append(decl.name.as_str());
    out.append(" ");
    out.append(decl.ty_generics.as_str());
    out.append(" ");
    out.append(decl.where_clause.as_str());
    out.append(" { fn rtti() -> rtti::Type { ");
    proof {
        assert(out@ =~= base + header_text(*decl));
    }
}

fn push_size_expr(out: &mut String, decl: &TypeDecl)
    ensures
        final(out)@ == old(out)@ + size_expr(*decl),
{
    let ghost base = out@;
    out.append("::std::mem::size_of::<");
    out.append(decl.name.as_str());
    out.append(" ");
    out.append(decl.ty_generics.as_str());
    out.append(">()");
    proof {
        assert(out@ =~= base + size_expr(*decl));
    }
}

#[verifier::rlimit(60)]
fn emit_named_struct(decl: &TypeDecl, fields: &Vec<NamedField>) -> (out: String)
    ensures
        out@ == header_text(*decl) + struct_body_text(*decl, fields@) + footer_text(),
{
    let mut out = String::new();
    push_header(&mut out, decl);
    out.append("rtti::Type::Struct(rtti::Struct { name: \"");
    out.append(decl.name.as_str());
    out.append("\", vis: rtti::Visibility::");
    push_vis(&mut out, translate_visibility(&decl.vis));
    out.append(", size: ");
    push_size_expr(&mut out, decl);
    out.append(", fields: { let mut fields = Vec::new(); let mut offset: usize = 0; ");
    let ghost mid = out@;
    let mut i: usize = 0;
    assert(out@ =~= mid + named_fields_text(fields@.take(0)));
    while i < fields.len()
        invariant
            0 <= i <= fields@.len(),
            out@ == mid + named_fields_text(fields@.take(i as int)),
        decreases fields@.len() - i,
    {
        push_named_field(&mut out, &fields[i]);
        proof {
            assert(fields@.take(i + 1).drop_last() =~= fields@.take(i as int));
            assert(fields@.take(i + 1).last() == fields@[i as int]);
            assert(out@ =~= mid + named_fields_text(fields@.take(i + 1)));
        }
        i += 1;
    }
    proof {
        assert(fields@.take(fields@.len() as int) =~= fields@);
    }
    out.append("fields } })");
    out.append(" } } };");
    proof {
        assert(out@ =~= header_text(*decl) + struct_body_text(*decl, fields@) + footer_text());
    }
    out
}

#[verifier::rlimit(60)]
fn emit_tuple_struct(decl: &TypeDecl, fields: &Vec<UnnamedField>) -> (out: String)
    ensures
        out@ == header_text(*decl) + tuple_body_text(*decl, fields@) + footer_text(),
{
    let mut out = String::new();
    push_header(&mut out, decl);
    out.append("rtti::Type::Tuple(rtti::Tuple { name: \"");
    out.append(decl.name.as_str());
    out.append("\", vis: rtti::Visibility::");
    push_vis(&mut out, translate_visibility(&decl.vis));
    out.append(", size: ");
    push_size_expr(&mut out, decl);
    out.append(", fields: { let mut fields = Vec::new(); let mut offset: usize = 0; ");
    let ghost mid = out@;
    let mut i: usize = 0;
    assert(out@ =~= mid + unnamed_fields_text(fields@.take(0)));
    while i < fields.len()
        invariant
            0 <= i <= fields@.len(),
            out@ == mid + unnamed_fields_text(fields@.take(i as int)),
        decreases fields@.len() - i,
    {
        push_unnamed_field(&mut out, &fields[i]);
        proof {
            assert(fields@.take(i + 1).drop_last() =~= fields@.take(i as int));
            assert(fields@.take(i + 1).last() == fields@[i as int]);
            assert(out@ =~= mid + unnamed_fields_text(fields@.take(i + 1)));
        }
        i += 1;
    }
    proof {
        assert(fields@.take(fields@.len() as int) =~= fields@);
    }
    out.append("fields } })");
    out.append(" } } };");
    proof {
        assert(out@ =~= header_text(*decl) + tuple_body_text(*decl, fields@) + footer_text());
    }
    out
}

fn emit_enum(decl: &TypeDecl, vs: &Vec<EnumVariant>) -> (out: String)
    ensures
        out@ == header_text(*decl) + enum_body_text(*decl, vs@) + footer_text(),
{
    let mut out = String::new();
    push_header(&mut out, decl);
    out.append("rtti::Type::Enum(rtti::Enum { name: \"");
    out.append(decl.name.as_str());
    out.append("\", vis: rtti::Visibility::");
    push_vis(&mut out, translate_visibility(&decl.vis));
    out.append(", size: ");
    push_size_expr(&mut out, decl);
    out.append(", variants: { let mut variants = Vec::new(); ");
    let ghost mid = out@;
    let mut i: usize = 0;
    assert(out@ =~= mid + variants_text(vs@.take(0)));
    while i < vs.len()
        invariant
            0 <= i <= vs@.len(),
            out@ == mid + variants_text(vs@.take(i as int)),
        decreases vs@.len() - i,
    {
        push_variant(&mut out, &vs[i]);
        proof {
            assert(vs@.take(i + 1).drop_last() =~= vs@.take(i as int));
            assert(vs@.take(i + 1).last() == vs@[i as int]);
            assert(out@ =~= mid + variants_text(vs@.take(i + 1)));
        }
        i += 1;
    }
    proof {
        assert(vs@.take(vs@.len() as int) =~= vs@);
    }
    out.append("variants } })");
    out.append(" } } };");
    proof {
        assert(out@ =~= header_text(*decl) + enum_body_text(*decl, vs@) + footer_text());
    }
    out
}

/// Generates the replacement source for one annotated declaration: a
/// uniquely named constant scope holding an implementation of the metadata
/// capability for the declared type, its generic parameters and
/// where-constraints preserved verbatim. Generation is a pure function of the
/// declaration; a zero-field struct or a union aborts it with the matching
/// error, and nothing partial is produced.
pub fn impl_rtti(decl: &TypeDecl) -> (r: Result<String, ShapeError>)
    ensures
        r is Err <==> (decl.shape is UnitStruct || decl.shape is Union),
        decl.shape is UnitStruct ==> (r matches Err(e) && e == ShapeError::UnitStruct),
        decl.shape is Union ==> (r matches Err(e) && e == ShapeError::Union),
        r is Ok ==> r->Ok_0@ == rtti_text_spec(*decl),
{
    match &decl.shape {
        Shape::NamedStruct(fields) => Result::Ok(emit_named_struct(decl, fields)),
        Shape::TupleStruct(fields) => Result::Ok(emit_tuple_struct(decl, fields)),
        Shape::UnitStruct => Result::Err(ShapeError::UnitStruct),
        Shape::Enum(vs) => Result::Ok(emit_enum(decl, vs)),
        Shape::Union => Result::Err(ShapeError::Union),
    }
}

} // verus!
