use vstd::prelude::*;

use crate::ir_items::{
    EnumArmV, FieldV, FunctionInputV, FunctionOutputV, Idl, IdlV, IsAsync, ItemV, MethodCategory,
    MethodV, SelfKind, SignatureV, VariantArmV,
};
use crate::ir_types::{
    ErrorRepr, FutureRepr, MapSetRepr, OptionRepr, PathRepr, ResultRepr, Scalar, StringRepr,
    TupleRepr, TyV, TypeKindV, VecRepr,
};
use crate::pass2::spec_digits;
use crate::span::SpanV;

verus! {

/// One number of the document: its decimal digits, closed by `;`. Every
/// count, tag, position and truth value of the document takes this shape,
/// so the document is self-delimiting.
pub open spec fn spec_num(n: nat) -> Seq<char> {
    spec_digits(n) + ";"@
}

/// One text of the document: its length, then its characters verbatim.
pub open spec fn spec_text(s: Seq<char>) -> Seq<char> {
    spec_num(s.len()) + s
}

/// A source range: its file path and the six numbers of its two endpoints.
pub open spec fn spec_span_document(sp: SpanV) -> Seq<char> {
    spec_text(sp.path) + spec_num(sp.start.byte) + spec_num(sp.start.line) + spec_num(
        sp.start.column,
    ) + spec_num(sp.end.byte) + spec_num(sp.end.line) + spec_num(sp.end.column)
}

/// A qualified name: how many segments, then each segment's text.
pub open spec fn spec_qname_document(q: Seq<Seq<char>>) -> Seq<char> {
    spec_num(q.len()) + spec_texts(q)
}

/// A list of texts, in order.
pub open spec fn spec_texts(q: Seq<Seq<char>>) -> Seq<char>
    decreases q.len(),
{
    if q.len() == 0 {
        Seq::empty()
    } else {
        spec_text(q[0]) + spec_texts(q.skip(1))
    }
}

/// The tag of a scalar shape.
pub open spec fn spec_scalar_tag(s: Scalar) -> nat {
    match s {
        Scalar::Boolean => 0,
        Scalar::Char => 1,
        Scalar::I8 => 2,
        Scalar::I16 => 3,
        Scalar::I32 => 4,
        Scalar::I64 => 5,
        Scalar::U8 => 6,
        Scalar::U16 => 7,
        Scalar::U32 => 8,
        Scalar::U64 => 9,
        Scalar::F32 => 10,
        Scalar::F64 => 11,
    }
}

/// The tag of a map or set backing.
pub open spec fn spec_map_set_repr_tag(r: MapSetRepr) -> nat {
    match r {
        MapSetRepr::Hash => 0,
        MapSetRepr::BTree => 1,
        MapSetRepr::Index => 2,
    }
}

/// The tag of a string spelling.
pub open spec fn spec_string_repr_tag(r: StringRepr) -> nat {
    match r {
        StringRepr::String => 0,
        StringRepr::StrRef => 1,
        StringRepr::ImplToString => 2,
    }
}

/// The tag of a vector spelling.
pub open spec fn spec_vec_repr_tag(r: VecRepr) -> nat {
    match r {
        VecRepr::Vec => 0,
        VecRepr::SliceRef => 1,
    }
}

/// The tag of a path spelling.
pub open spec fn spec_path_repr_tag(r: PathRepr) -> nat {
    match r {
        PathRepr::PathRef => 0,
        PathRepr::PathBuf => 1,
    }
}

/// The truth value of one auto-trait mark.
pub open spec fn spec_bool_num(b: bool) -> Seq<char> {
    if b {
        spec_num(1)
    } else {
        spec_num(0)
    }
}

/// A future spelling: its tag and its three auto-trait marks.
pub open spec fn spec_future_repr_document(r: FutureRepr) -> Seq<char> {
    match r {
        FutureRepr::ImplFuture(at) => spec_num(0) + spec_bool_num(at.send) + spec_bool_num(at.sync)
            + spec_bool_num(at.unpin),
        FutureRepr::PinBoxDynFuture(at) => spec_num(1) + spec_bool_num(at.send) + spec_bool_num(
            at.sync,
        ) + spec_bool_num(at.unpin),
    }
}

/// An error spelling: its tag and, for a boxed error, its auto-trait marks.
pub open spec fn spec_error_repr_document(r: ErrorRepr) -> Seq<char> {
    match r {
        ErrorRepr::AnyhowError => spec_num(0),
        ErrorRepr::BoxDynError(at) => spec_num(1) + spec_bool_num(at.send) + spec_bool_num(at.sync)
            + spec_bool_num(at.unpin),
    }
}

/// A type node: its span, then its shape.
pub open spec fn spec_ty_document(t: TyV) -> Seq<char>
    decreases t,
{
    spec_span_document(t.span) + spec_kind_document(*t.kind)
}

/// A type shape: a tag, its representation tag, and its children.
pub open spec fn spec_kind_document(k: TypeKindV) -> Seq<char>
    decreases k,
    via spec_kind_document_decreases
{
    match k {
        TypeKindV::MapOf { key, value, repr } => spec_num(0) + spec_num(spec_map_set_repr_tag(repr))
            + spec_ty_document(*key) + spec_ty_document(*value),
        TypeKindV::Vec { element, repr } => spec_num(1) + spec_num(spec_vec_repr_tag(repr))
            + spec_ty_document(*element),
        TypeKindV::SetOf { element, repr } => spec_num(2) + spec_num(spec_map_set_repr_tag(repr))
            + spec_ty_document(*element),
        TypeKindV::Path { repr } => spec_num(3) + spec_num(spec_path_repr_tag(repr)),
        TypeKindV::String { repr } => spec_num(4) + spec_num(spec_string_repr_tag(repr)),
        TypeKindV::Option { element, repr } => {
            let OptionRepr::Option = repr;
            spec_num(5) + spec_ty_document(*element)
        },
        TypeKindV::Result { ok, err, repr } => {
            let ResultRepr::Result = repr;
            spec_num(6) + spec_ty_document(*ok) + spec_ty_document(*err)
        },
        TypeKindV::Tuple { elements, repr } => {
            let TupleRepr::Tuple(arity) = repr;
            spec_num(7) + spec_num(arity as nat) + spec_num(elements.len()) + spec_tys_document(
                elements,
            )
        },
        TypeKindV::Scalar(s) => spec_num(8) + spec_num(spec_scalar_tag(s)),
        TypeKindV::Future { output, repr } => spec_num(9) + spec_future_repr_document(repr)
            + spec_ty_document(*output),
        TypeKindV::Error { repr } => spec_num(10) + spec_error_repr_document(repr),
        TypeKindV::UserType { qname } => spec_num(11) + spec_qname_document(qname),
    }
}

#[via_fn]
proof fn spec_kind_document_decreases(k: TypeKindV) {
    if let TypeKindV::Tuple { elements, repr } = k {
        assert(decreases_to!(k => elements));
    }
}

/// A list of type nodes, in order.
pub open spec fn spec_tys_document(s: Seq<TyV>) -> Seq<char>
    decreases s,
    via spec_tys_document_decreases
{
    if s.len() == 0 {
        Seq::empty()
    } else {
        spec_ty_document(s[0]) + spec_tys_document(s.skip(1))
    }
}

#[via_fn]
proof fn spec_tys_document_decreases(s: Seq<TyV>) {
    if s.len() > 0 {
        assert(decreases_to!(s => s[0]));
        assert(s.skip(1) =~= s.subrange(1, s.len() as int));
        vstd::seq::axiom_seq_subrange_decreases(s, 1, s.len() as int);
        assert(decreases_to!(s => s.skip(1)));
    }
}

/// A field: its span, name and type.
pub open spec fn spec_field_document(f: FieldV) -> Seq<char> {
    spec_span_document(f.span) + spec_text(f.name) + spec_ty_document(f.ty)
}

/// A list of fields: how many, then each.
pub open spec fn spec_fields_document(s: Seq<FieldV>) -> Seq<char>
    decreases s.len(),
{
    if s.len() == 0 {
        Seq::empty()
    } else {
        spec_field_document(s[0]) + spec_fields_document(s.skip(1))
    }
}

/// A function input: its span, name and type.
pub open spec fn spec_input_document(i: FunctionInputV) -> Seq<char> {
    spec_span_document(i.span) + spec_text(i.name) + spec_ty_document(i.ty)
}

/// A list of inputs, in order.
pub open spec fn spec_inputs_document(s: Seq<FunctionInputV>) -> Seq<char>
    decreases s.len(),
{
    if s.len() == 0 {
        Seq::empty()
    } else {
        spec_input_document(s[0]) + spec_inputs_document(s.skip(1))
    }
}

/// A function output: the main type, then the optional error type.
pub open spec fn spec_output_document(o: FunctionOutputV) -> Seq<char> {
    match o.error_ty {
        None => spec_num(0) + spec_ty_document(o.main_ty),
        Some(err) => spec_num(1) + spec_ty_document(o.main_ty) + spec_ty_document(err),
    }
}

/// A signature: asynchrony, the inputs, the output.
pub open spec fn spec_signature_document(sig: SignatureV) -> Seq<char> {
    spec_bool_num(sig.is_async == IsAsync::Yes) + spec_num(sig.inputs.len())
        + spec_inputs_document(sig.inputs) + spec_output_document(sig.output_ty)
}

/// A receiver shape tag.
pub open spec fn spec_self_kind_tag(k: SelfKind) -> nat {
    match k {
        SelfKind::ByValue => 0,
        SelfKind::ByRef => 1,
        SelfKind::ByRefMut => 2,
    }
}

/// A method category: a tag and, where one applies, the receiver shape.
pub open spec fn spec_category_document(c: MethodCategory) -> Seq<char> {
    match c {
        MethodCategory::Constructor => spec_num(0),
        MethodCategory::BuilderMethod(k) => spec_num(1) + spec_num(spec_self_kind_tag(k)),
        MethodCategory::InstanceMethod(k) => spec_num(2) + spec_num(spec_self_kind_tag(k)),
        MethodCategory::StaticMethod => spec_num(3),
    }
}

/// A method: its span, category, name and signature.
pub open spec fn spec_method_document(m: MethodV) -> Seq<char> {
    spec_span_document(m.span) + spec_category_document(m.category) + spec_text(m.name)
        + spec_signature_document(m.signature)
}

/// A list of methods: how many, then each.
pub open spec fn spec_methods_document(s: Seq<MethodV>) -> Seq<char>
    decreases s.len(),
{
    if s.len() == 0 {
        Seq::empty()
    } else {
        spec_method_document(s[0]) + spec_methods_document(s.skip(1))
    }
}

/// A variant arm: its span, name and fields.
pub open spec fn spec_variant_arm_document(a: VariantArmV) -> Seq<char> {
    spec_span_document(a.span) + spec_text(a.name) + spec_num(a.fields.len())
        + spec_fields_document(a.fields)
}

/// A list of variant arms, in order.
pub open spec fn spec_variant_arms_document(s: Seq<VariantArmV>) -> Seq<char>
    decreases s.len(),
{
    if s.len() == 0 {
        Seq::empty()
    } else {
        spec_variant_arm_document(s[0]) + spec_variant_arms_document(s.skip(1))
    }
}

/// A plain enumeration arm: its span and name.
pub open spec fn spec_enum_arm_document(a: EnumArmV) -> Seq<char> {
    spec_span_document(a.span) + spec_text(a.name)
}

/// A list of enumeration arms, in order.
pub open spec fn spec_enum_arms_document(s: Seq<EnumArmV>) -> Seq<char>
    decreases s.len(),
{
    if s.len() == 0 {
        Seq::empty()
    } else {
        spec_enum_arm_document(s[0]) + spec_enum_arms_document(s.skip(1))
    }
}

/// An exported item: a tag for its shape, then its parts.
pub open spec fn spec_item_document(item: ItemV) -> Seq<char> {
    match item {
        ItemV::Resource(r) => spec_num(0) + spec_span_document(r.span) + spec_text(r.name)
            + spec_num(r.methods.len()) + spec_methods_document(r.methods),
        ItemV::Record(r) => spec_num(1) + spec_span_document(r.span) + spec_text(r.name) + spec_num(
            r.fields.len(),
        ) + spec_fields_document(r.fields) + spec_num(r.methods.len()) + spec_methods_document(
            r.methods,
        ),
        ItemV::Variant(v) => spec_num(2) + spec_span_document(v.span) + spec_text(v.name)
            + spec_num(v.arms.len()) + spec_variant_arms_document(v.arms) + spec_num(
            v.methods.len(),
        ) + spec_methods_document(v.methods),
        ItemV::Enum(e) => spec_num(3) + spec_span_document(e.span) + spec_text(e.name) + spec_num(
            e.arms.len(),
        ) + spec_enum_arms_document(e.arms) + spec_num(e.methods.len()) + spec_methods_document(
            e.methods,
        ),
        ItemV::Function(f) => spec_num(4) + spec_span_document(f.span) + spec_text(f.name)
            + spec_signature_document(f.signature),
    }
}

/// One definition: its qualified name, then its item.
pub open spec fn spec_entry_document(e: (Seq<Seq<char>>, ItemV)) -> Seq<char> {
    spec_qname_document(e.0) + spec_item_document(e.1)
}

/// The definitions, as the ordered key-value sequence they are kept in.
pub open spec fn spec_entries_document(s: Seq<(Seq<Seq<char>>, ItemV)>) -> Seq<char>
    decreases s.len(),
{
    if s.len() == 0 {
        Seq::empty()
    } else {
        spec_entry_document(s[0]) + spec_entries_document(s.skip(1))
    }
}

/// The canonical document of one artifact: the crate name, how many
/// definitions, then the definitions in their qualified-name order. The
/// document is a function of the artifact's value alone, so equal artifacts
/// give character-identical documents.
pub open spec fn spec_idl_document(v: IdlV) -> Seq<char> {
    spec_text(v.crate_name) + spec_num(v.definitions.len()) + spec_entries_document(v.definitions)
}


/// Concatenation is associative.
proof fn lemma_assoc(a: Seq<char>, b: Seq<char>, c: Seq<char>)
    ensures
        (a + b) + c == a + (b + c),
{
    assert((a + b) + c =~= a + (b + c));
}

/// Two writes onto `base` amount to one concatenation.
proof fn lemma_chain2(base: Seq<char>, a: Seq<char>, b: Seq<char>, cur: Seq<char>)
    requires
        cur == (base + a) + b,
    ensures
        cur == base + (a + b),
{
    lemma_assoc(base, a, b);
}

/// Three writes onto `base` amount to one concatenation.
proof fn lemma_chain3(base: Seq<char>, a: Seq<char>, b: Seq<char>, c: Seq<char>, cur: Seq<char>)
    requires
        cur == ((base + a) + b) + c,
    ensures
        cur == base + ((a + b) + c),
{
    lemma_chain2(base, a, b, (base + a) + b);
    lemma_assoc(base, a + b, c);
}

/// Four writes onto `base` amount to one concatenation.
proof fn lemma_chain4(
    base: Seq<char>,
    a: Seq<char>,
    b: Seq<char>,
    c: Seq<char>,
    d: Seq<char>,
    cur: Seq<char>,
)
    requires
        cur == (((base + a) + b) + c) + d,
    ensures
        cur == base + (((a + b) + c) + d),
{
    lemma_chain3(base, a, b, c, ((base + a) + b) + c);
    lemma_assoc(base, (a + b) + c, d);
}

/// Five writes onto `base` amount to one concatenation.
proof fn lemma_chain5(
    base: Seq<char>,
    a: Seq<char>,
    b: Seq<char>,
    c: Seq<char>,
    d: Seq<char>,
    e: Seq<char>,
    cur: Seq<char>,
)
    requires
        cur == ((((base + a) + b) + c) + d) + e,
    ensures
        cur == base + ((((a + b) + c) + d) + e),
{
    lemma_chain4(base, a, b, c, d, (((base + a) + b) + c) + d);
    lemma_assoc(base, ((a + b) + c) + d, e);
}

/// Seven writes onto `base` amount to one concatenation.
proof fn lemma_chain7(
    base: Seq<char>,
    a: Seq<char>,
    b: Seq<char>,
    c: Seq<char>,
    d: Seq<char>,
    e: Seq<char>,
    f: Seq<char>,
    g: Seq<char>,
    cur: Seq<char>,
)
    requires
        cur == ((((((base + a) + b) + c) + d) + e) + f) + g,
    ensures
        cur == base + ((((((a + b) + c) + d) + e) + f) + g),
{
    lemma_chain5(base, a, b, c, d, e, ((((base + a) + b) + c) + d) + e);
    lemma_assoc(base, (((a + b) + c) + d) + e, f);
    lemma_assoc(base, ((((a + b) + c) + d) + e) + f, g);
}

/// Write one number.
fn doc_num(out: &mut String, n: usize)
    ensures
        final(out)@ == old(out)@ + spec_num(n as nat),
{
    let d = crate::pass2::digits_str(n);
    out.append(d.as_str());
    out.append(";");
    proof {
        assert(out@ =~= old(out)@ + spec_num(n as nat));
    }
}

/// Write one text.
fn doc_text(out: &mut String, s: &str)
    ensures
        final(out)@ == old(out)@ + spec_text(s@),
{
    let n = s.unicode_len();
    doc_num(out, n);
    out.append(s);
    proof {
        assert(out@ =~= old(out)@ + spec_text(s@));
    }
}

/// Write one truth value.
fn doc_bool(out: &mut String, b: bool)
    ensures
        final(out)@ == old(out)@ + spec_bool_num(b),
{
    if b {
        doc_num(out, 1);
    } else {
        doc_num(out, 0);
    }
}

/// Write one source range.
fn doc_span(out: &mut String, sp: &crate::span::Span)
    ensures
        final(out)@ == old(out)@ + spec_span_document(sp@),
{
    doc_text(out, sp.path.as_str());
    doc_num(out, sp.start.byte);
    doc_num(out, sp.start.line);
    doc_num(out, sp.start.column);
    doc_num(out, sp.end.byte);
    doc_num(out, sp.end.line);
    doc_num(out, sp.end.column);
    proof {
        assert(out@ =~= old(out)@ + spec_span_document(sp@));
    }
}

/// Write one qualified name.
#[verifier::loop_isolation(false)]
fn doc_qname(out: &mut String, q: &crate::ir_items::QualifiedName)
    ensures
        final(out)@ == old(out)@ + spec_qname_document(q@),
{
    let ghost qv = q@;
    doc_num(out, q.names.len());
    let ghost start = out@;
    let mut i: usize = 0;
    proof {
        assert(qv.skip(0) =~= qv);
    }
    while i < q.names.len()
        invariant
            i <= q.names.len(),
            qv.len() == q.names@.len(),
            out@ + spec_texts(qv.skip(i as int)) == start + spec_texts(qv),
        decreases q.names.len() - i,
    {
        proof {
            assert(qv.skip(i as int)[0] == qv[i as int]);
            assert(qv[i as int] == q.names@[i as int]@);
            assert(qv.skip(i as int).skip(1) =~= qv.skip(i + 1));
        }
        let ghost before = out@;
        doc_text(out, q.names[i].text.as_str());
        proof {
            assert(spec_texts(qv.skip(i as int)) == spec_text(qv[i as int]) + spec_texts(
                qv.skip(i + 1),
            ));
            lemma_assoc(before, spec_text(qv[i as int]), spec_texts(qv.skip(i + 1)));
        }
        i = i + 1;
    }
    proof {
        assert(qv.skip(qv.len() as int) =~= Seq::<Seq<char>>::empty());
        assert(out@ + Seq::<char>::empty() =~= out@);
        assert(start + spec_texts(qv) =~= old(out)@ + spec_qname_document(qv));
    }
}

/// Write one type node.
fn doc_ty(out: &mut String, t: &crate::ir_types::Ty)
    ensures
        final(out)@ == old(out)@ + spec_ty_document(t@),
    decreases *t, 1int,
{
    doc_span(out, &t.span);
    doc_kind(out, &t.kind);
    proof {
        lemma_chain2(old(out)@, spec_span_document(t.span@), spec_kind_document(t.kind@), out@);
    }
}

/// Write one type shape.
#[verifier::rlimit(100)]
#[verifier::spinoff_prover]
fn doc_kind(out: &mut String, k: &crate::ir_types::TypeKind)
    ensures
        final(out)@ == old(out)@ + spec_kind_document(k@),
    decreases *k, 2int,
{
    match k {
        crate::ir_types::TypeKind::MapOf { key, value, repr } => {
            doc_num(out, 0);
            let tag: usize = match repr {
                MapSetRepr::Hash => 0,
                MapSetRepr::BTree => 1,
                MapSetRepr::Index => 2,
            };
            doc_num(out, tag);
            doc_ty(out, key);
            doc_ty(out, value);
            proof {
                lemma_chain4(
                    old(out)@,
                    spec_num(0),
                    spec_num(tag as nat),
                    spec_ty_document(key@),
                    spec_ty_document(value@),
                    out@,
                );
            }
        }
        crate::ir_types::TypeKind::Vec { element, repr } => {
            doc_num(out, 1);
            let tag: usize = match repr {
                VecRepr::Vec => 0,
                VecRepr::SliceRef => 1,
            };
            doc_num(out, tag);
            doc_ty(out, element);
            proof {
                lemma_chain3(
                    old(out)@,
                    spec_num(1),
                    spec_num(tag as nat),
                    spec_ty_document(element@),
                    out@,
                );
            }
        }
        crate::ir_types::TypeKind::SetOf { element, repr } => {
            doc_num(out, 2);
            let tag: usize = match repr {
                MapSetRepr::Hash => 0,
                MapSetRepr::BTree => 1,
                MapSetRepr::Index => 2,
            };
            doc_num(out, tag);
            doc_ty(out, element);
            proof {
                lemma_chain3(
                    old(out)@,
                    spec_num(2),
                    spec_num(tag as nat),
                    spec_ty_document(element@),
                    out@,
                );
            }
        }
        crate::ir_types::TypeKind::Path { repr } => {
            doc_num(out, 3);
            let tag: usize = match repr {
                PathRepr::PathRef => 0,
                PathRepr::PathBuf => 1,
            };
            doc_num(out, tag);
            proof {
                lemma_chain2(old(out)@, spec_num(3), spec_num(tag as nat), out@);
            }
        }
        crate::ir_types::TypeKind::String { repr } => {
            doc_num(out, 4);
            let tag: usize = match repr {
                StringRepr::String => 0,
                StringRepr::StrRef => 1,
                StringRepr::ImplToString => 2,
            };
            doc_num(out, tag);
            proof {
                lemma_chain2(old(out)@, spec_num(4), spec_num(tag as nat), out@);
            }
        }
        crate::ir_types::TypeKind::Option { element, repr } => {
            doc_num(out, 5);
            doc_ty(out, element);
            proof {
                lemma_chain2(old(out)@, spec_num(5), spec_ty_document(element@), out@);
            }
        }
        crate::ir_types::TypeKind::Result { ok, err, repr } => {
            doc_num(out, 6);
            doc_ty(out, ok);
            doc_ty(out, err);
            proof {
                lemma_chain3(old(out)@, spec_num(6), spec_ty_document(ok@), spec_ty_document(err@), out@);
            }
        }
        crate::ir_types::TypeKind::Tuple { elements, repr } => {
            doc_num(out, 7);
            let arity: usize = match repr {
                TupleRepr::Tuple(a) => *a,
            };
            doc_num(out, arity);
            doc_num(out, elements.len());
            proof {
                crate::ir_types::lemma_tys_view(elements@);
                assert(decreases_to!(*k => *elements));
            }
            doc_tys(out, elements);
            proof {
                crate::ir_types::lemma_tys_view(elements@);
                lemma_chain4(
                    old(out)@,
                    spec_num(7),
                    spec_num(arity as nat),
                    spec_num(elements@.len()),
                    spec_tys_document(crate::ir_types::spec_tys_view(elements@)),
                    out@,
                );
            }
        }
        crate::ir_types::TypeKind::Scalar(sc) => {
            doc_num(out, 8);
            let tag: usize = match sc {
                Scalar::Boolean => 0,
                Scalar::Char => 1,
                Scalar::I8 => 2,
                Scalar::I16 => 3,
                Scalar::I32 => 4,
                Scalar::I64 => 5,
                Scalar::U8 => 6,
                Scalar::U16 => 7,
                Scalar::U32 => 8,
                Scalar::U64 => 9,
                Scalar::F32 => 10,
                Scalar::F64 => 11,
            };
            doc_num(out, tag);
            proof {
                lemma_chain2(old(out)@, spec_num(8), spec_num(tag as nat), out@);
            }
        }
        crate::ir_types::TypeKind::Future { output, repr } => {
            doc_num(out, 9);
            match repr {
                FutureRepr::ImplFuture(at) => {
                    doc_num(out, 0);
                    doc_bool(out, at.send);
                    doc_bool(out, at.sync);
                    doc_bool(out, at.unpin);
                    proof {
                        lemma_chain4(
                            old(out)@ + spec_num(9),
                            spec_num(0),
                            spec_bool_num(at.send),
                            spec_bool_num(at.sync),
                            spec_bool_num(at.unpin),
                            out@,
                        );
                        assert(out@ == (old(out)@ + spec_num(9)) + spec_future_repr_document(
                            *repr,
                        ));
                    }
                }
                FutureRepr::PinBoxDynFuture(at) => {
                    doc_num(out, 1);
                    doc_bool(out, at.send);
                    doc_bool(out, at.sync);
                    doc_bool(out, at.unpin);
                    proof {
                        lemma_chain4(
                            old(out)@ + spec_num(9),
                            spec_num(1),
                            spec_bool_num(at.send),
                            spec_bool_num(at.sync),
                            spec_bool_num(at.unpin),
                            out@,
                        );
                        assert(out@ == (old(out)@ + spec_num(9)) + spec_future_repr_document(
                            *repr,
                        ));
                    }
                }
            }
            doc_ty(out, output);
            proof {
                lemma_chain3(
                    old(out)@,
                    spec_num(9),
                    spec_future_repr_document(*repr),
                    spec_ty_document(output@),
                    out@,
                );
            }
        }
        crate::ir_types::TypeKind::Error { repr } => {
            doc_num(out, 10);
            match repr {
                ErrorRepr::AnyhowError => {
                    doc_num(out, 0);
                    proof {
                        lemma_chain2(old(out)@, spec_num(10), spec_num(0), out@);
                    }
                }
                ErrorRepr::BoxDynError(at) => {
                    doc_num(out, 1);
                    doc_bool(out, at.send);
                    doc_bool(out, at.sync);
                    doc_bool(out, at.unpin);
                    proof {
                        lemma_chain4(
                            old(out)@ + spec_num(10),
                            spec_num(1),
                            spec_bool_num(at.send),
                            spec_bool_num(at.sync),
                            spec_bool_num(at.unpin),
                            out@,
                        );
                        lemma_assoc(old(out)@, spec_num(10), spec_error_repr_document(*repr));
                    }
                }
            }
        }
        crate::ir_types::TypeKind::UserType { qname } => {
            doc_num(out, 11);
            doc_qname(out, qname);
            proof {
                lemma_chain2(old(out)@, spec_num(11), spec_qname_document(qname@), out@);
            }
        }
    }
}

/// Write a list of type nodes, in order.
#[verifier::loop_isolation(false)]
fn doc_tys(out: &mut String, elements: &Vec<crate::ir_types::Ty>)
    ensures
        final(out)@ == old(out)@ + spec_tys_document(crate::ir_types::spec_tys_view(elements@)),
    decreases *elements, 0int,
{
    let ghost elemsv = crate::ir_types::spec_tys_view(elements@);
    let ghost start = out@;
    proof {
        crate::ir_types::lemma_tys_view(elements@);
        assert(elemsv.skip(0) =~= elemsv);
    }
    let mut i: usize = 0;
    while i < elements.len()
        invariant
            i <= elements.len(),
            elemsv.len() == elements@.len(),
            out@ + spec_tys_document(elemsv.skip(i as int)) == start + spec_tys_document(elemsv),
        decreases elements.len() - i,
    {
        proof {
            assert(elemsv.skip(i as int)[0] == elemsv[i as int]);
            assert(elemsv[i as int] == elements@[i as int]@);
            assert(elemsv.skip(i as int).skip(1) =~= elemsv.skip(i + 1));
            assert(decreases_to!(*elements => elements@));
            assert(decreases_to!(elements@ => elements@[i as int]));
        }
        let ghost before = out@;
        doc_ty(out, &elements[i]);
        proof {
            assert(spec_tys_document(elemsv.skip(i as int)) == spec_ty_document(elemsv[i as int])
                + spec_tys_document(elemsv.skip(i + 1)));
            lemma_assoc(
                before,
                spec_ty_document(elemsv[i as int]),
                spec_tys_document(elemsv.skip(i + 1)),
            );
        }
        i = i + 1;
    }
    proof {
        assert(elemsv.skip(elemsv.len() as int) =~= Seq::<crate::ir_types::TyV>::empty());
        assert(out@ + Seq::<char>::empty() =~= out@);
    }
}


/// Write one field.
fn doc_field(out: &mut String, f: &crate::ir_items::Field)
    ensures
        final(out)@ == old(out)@ + spec_field_document(f@),
{
    doc_span(out, &f.span);
    doc_text(out, f.name.text.as_str());
    doc_ty(out, &f.ty);
    proof {
        assert(out@ =~= old(out)@ + spec_field_document(f@));
    }
}

/// Write a list of fields: how many, then each.
#[verifier::loop_isolation(false)]
#[verifier::rlimit(100)]
#[verifier::spinoff_prover]
fn doc_fields(out: &mut String, fields: &Vec<crate::ir_items::Field>)
    ensures
        final(out)@ == old(out)@ + spec_num(fields@.len()) + spec_fields_document(
            fields@.map_values(|f: crate::ir_items::Field| f@),
        ),
{
    let ghost fsv = fields@.map_values(|f: crate::ir_items::Field| f@);
    doc_num(out, fields.len());
    let ghost start = out@;
    proof {
        assert(fsv.skip(0) =~= fsv);
    }
    let mut i: usize = 0;
    while i < fields.len()
        invariant
            i <= fields.len(),
            fsv.len() == fields@.len(),
            out@ + spec_fields_document(fsv.skip(i as int)) == start + spec_fields_document(fsv),
        decreases fields.len() - i,
    {
        proof {
            assert(fsv.skip(i as int)[0] == fsv[i as int]);
            assert(fsv[i as int] == fields@[i as int]@);
            assert(fsv.skip(i as int).skip(1) =~= fsv.skip(i + 1));
        }
        let ghost before = out@;
        doc_field(out, &fields[i]);
        proof {
            assert(spec_fields_document(fsv.skip(i as int)) == spec_field_document(fsv[i as int])
                + spec_fields_document(fsv.skip(i + 1)));
            lemma_assoc(
                before,
                spec_field_document(fsv[i as int]),
                spec_fields_document(fsv.skip(i + 1)),
            );
        }
        i = i + 1;
    }
    proof {
        assert(fsv.skip(fsv.len() as int) =~= Seq::<FieldV>::empty());
        assert(out@ + Seq::<char>::empty() =~= out@);
    }
}

/// Write one function input.
fn doc_input(out: &mut String, f: &crate::ir_items::FunctionInput)
    ensures
        final(out)@ == old(out)@ + spec_input_document(f@),
{
    doc_span(out, &f.span);
    doc_text(out, f.name.text.as_str());
    doc_ty(out, &f.ty);
    proof {
        assert(out@ =~= old(out)@ + spec_input_document(f@));
    }
}

/// Write one signature: asynchrony, the inputs, the output.
#[verifier::loop_isolation(false)]
#[verifier::rlimit(100)]
#[verifier::spinoff_prover]
fn doc_signature(out: &mut String, sig: &crate::ir_items::Signature)
    ensures
        final(out)@ == old(out)@ + spec_signature_document(sig@),
{
    doc_bool(out, matches!(sig.is_async, IsAsync::Yes));
    doc_num(out, sig.inputs.len());
    let ghost isv = sig.inputs@.map_values(|x: crate::ir_items::FunctionInput| x@);
    let ghost start = out@;
    proof {
        assert(isv.skip(0) =~= isv);
    }
    let mut i: usize = 0;
    while i < sig.inputs.len()
        invariant
            i <= sig.inputs.len(),
            isv.len() == sig.inputs@.len(),
            out@ + spec_inputs_document(isv.skip(i as int)) == start + spec_inputs_document(isv),
        decreases sig.inputs.len() - i,
    {
        proof {
            assert(isv.skip(i as int)[0] == isv[i as int]);
            assert(isv[i as int] == sig.inputs@[i as int]@);
            assert(isv.skip(i as int).skip(1) =~= isv.skip(i + 1));
        }
        let ghost before = out@;
        doc_input(out, &sig.inputs[i]);
        proof {
            assert(spec_inputs_document(isv.skip(i as int)) == spec_input_document(isv[i as int])
                + spec_inputs_document(isv.skip(i + 1)));
            lemma_assoc(
                before,
                spec_input_document(isv[i as int]),
                spec_inputs_document(isv.skip(i + 1)),
            );
        }
        i = i + 1;
    }
    proof {
        assert(isv.skip(isv.len() as int) =~= Seq::<FunctionInputV>::empty());
        assert(out@ + Seq::<char>::empty() =~= out@);
    }
    match &sig.output_ty.error_ty {
        None => {
            doc_num(out, 0);
            doc_ty(out, &sig.output_ty.main_ty);
        }
        Some(err) => {
            doc_num(out, 1);
            doc_ty(out, &sig.output_ty.main_ty);
            doc_ty(out, err);
        }
    }
    proof {
        assert(out@ =~= old(out)@ + spec_signature_document(sig@));
    }
}

/// Write one method.
#[verifier::rlimit(100)]
#[verifier::spinoff_prover]
fn doc_method(out: &mut String, m: &crate::ir_items::Method)
    ensures
        final(out)@ == old(out)@ + spec_method_document(m@),
{
    doc_span(out, &m.span);
    match &m.category {
        MethodCategory::Constructor => {
            doc_num(out, 0);
        }
        MethodCategory::BuilderMethod(k) => {
            doc_num(out, 1);
            doc_num(out, self_kind_tag(*k));
            proof {
                lemma_chain2(
                    old(out)@ + spec_span_document(m.span@),
                    spec_num(1),
                    spec_num(spec_self_kind_tag(*k)),
                    out@,
                );
            }
        }
        MethodCategory::InstanceMethod(k) => {
            doc_num(out, 2);
            doc_num(out, self_kind_tag(*k));
            proof {
                lemma_chain2(
                    old(out)@ + spec_span_document(m.span@),
                    spec_num(2),
                    spec_num(spec_self_kind_tag(*k)),
                    out@,
                );
            }
        }
        MethodCategory::StaticMethod => {
            doc_num(out, 3);
        }
    }
    proof {
        assert(out@ == (old(out)@ + spec_span_document(m.span@)) + spec_category_document(
            m.category,
        ));
    }
    doc_text(out, m.name.text.as_str());
    doc_signature(out, &m.signature);
    proof {
        lemma_chain4(
            old(out)@,
            spec_span_document(m.span@),
            spec_category_document(m.category),
            spec_text(m.name@),
            spec_signature_document(m.signature@),
            out@,
        );
    }
}

/// The tag of a receiver shape.
fn self_kind_tag(k: SelfKind) -> (r: usize)
    ensures
        r as nat == spec_self_kind_tag(k),
{
    match k {
        SelfKind::ByValue => 0,
        SelfKind::ByRef => 1,
        SelfKind::ByRefMut => 2,
    }
}

/// Write a list of methods: how many, then each.
#[verifier::loop_isolation(false)]
#[verifier::rlimit(100)]
#[verifier::spinoff_prover]
fn doc_methods(out: &mut String, methods: &Vec<crate::ir_items::Method>)
    ensures
        final(out)@ == old(out)@ + spec_num(methods@.len()) + spec_methods_document(
            methods@.map_values(|m: crate::ir_items::Method| m@),
        ),
{
    let ghost msv = methods@.map_values(|m: crate::ir_items::Method| m@);
    doc_num(out, methods.len());
    let ghost start = out@;
    proof {
        assert(msv.skip(0) =~= msv);
    }
    let mut i: usize = 0;
    while i < methods.len()
        invariant
            i <= methods.len(),
            msv.len() == methods@.len(),
            out@ + spec_methods_document(msv.skip(i as int)) == start + spec_methods_document(msv),
        decreases methods.len() - i,
    {
        proof {
            assert(msv.skip(i as int)[0] == msv[i as int]);
            assert(msv[i as int] == methods@[i as int]@);
            assert(msv.skip(i as int).skip(1) =~= msv.skip(i + 1));
        }
        let ghost before = out@;
        doc_method(out, &methods[i]);
        proof {
            assert(spec_methods_document(msv.skip(i as int)) == spec_method_document(
                msv[i as int],
            ) + spec_methods_document(msv.skip(i + 1)));
            lemma_assoc(
                before,
                spec_method_document(msv[i as int]),
                spec_methods_document(msv.skip(i + 1)),
            );
        }
        i = i + 1;
    }
    proof {
        assert(msv.skip(msv.len() as int) =~= Seq::<MethodV>::empty());
        assert(out@ + Seq::<char>::empty() =~= out@);
    }
}

/// Write one exported item: its shape tag, then its parts.
#[verifier::loop_isolation(false)]
#[verifier::rlimit(100)]
#[verifier::spinoff_prover]
fn doc_item(out: &mut String, item: &crate::ir_items::Item)
    ensures
        final(out)@ == old(out)@ + spec_item_document(item@),
{
    match item {
        crate::ir_items::Item::Resource(r) => {
            doc_num(out, 0);
            doc_span(out, &r.span);
            doc_text(out, r.name.text.as_str());
            doc_methods(out, &r.methods);
            proof {
                lemma_chain5(
                    old(out)@,
                    spec_num(0),
                    spec_span_document(r.span@),
                    spec_text(r.name@),
                    spec_num(r.methods@.len()),
                    spec_methods_document(r.methods@.map_values(|m: crate::ir_items::Method| m@)),
                    out@,
                );
            }
        }
        crate::ir_items::Item::Record(r) => {
            doc_num(out, 1);
            doc_span(out, &r.span);
            doc_text(out, r.name.text.as_str());
            doc_fields(out, &r.fields);
            doc_methods(out, &r.methods);
            proof {
                lemma_chain7(
                    old(out)@,
                    spec_num(1),
                    spec_span_document(r.span@),
                    spec_text(r.name@),
                    spec_num(r.fields@.len()),
                    spec_fields_document(r.fields@.map_values(|f: crate::ir_items::Field| f@)),
                    spec_num(r.methods@.len()),
                    spec_methods_document(r.methods@.map_values(|m: crate::ir_items::Method| m@)),
                    out@,
                );
            }
        }
        crate::ir_items::Item::Variant(v) => {
            doc_num(out, 2);
            doc_span(out, &v.span);
            doc_text(out, v.name.text.as_str());
            let ghost asv = v.arms@.map_values(|a: crate::ir_items::VariantArm| a@);
            doc_num(out, v.arms.len());
            let ghost start = out@;
            proof {
                assert(asv.skip(0) =~= asv);
            }
            let mut i: usize = 0;
            while i < v.arms.len()
                invariant
                    i <= v.arms.len(),
                    asv.len() == v.arms@.len(),
                    out@ + spec_variant_arms_document(asv.skip(i as int)) == start
                        + spec_variant_arms_document(asv),
                decreases v.arms.len() - i,
            {
                proof {
                    assert(asv.skip(i as int)[0] == asv[i as int]);
                    assert(asv[i as int] == v.arms@[i as int]@);
                    assert(asv.skip(i as int).skip(1) =~= asv.skip(i + 1));
                }
                let ghost before = out@;
                let arm = &v.arms[i];
                doc_span(out, &arm.span);
                doc_text(out, arm.name.text.as_str());
                doc_fields(out, &arm.fields);
                proof {
                    lemma_chain4(
                        before,
                        spec_span_document(arm.span@),
                        spec_text(arm.name@),
                        spec_num(arm.fields@.len()),
                        spec_fields_document(arm.fields@.map_values(|f: crate::ir_items::Field| f@)),
                        out@,
                    );
                    assert(out@ == before + spec_variant_arm_document(asv[i as int]));
                    assert(spec_variant_arms_document(asv.skip(i as int))
                        == spec_variant_arm_document(asv[i as int]) + spec_variant_arms_document(
                        asv.skip(i + 1),
                    ));
                    lemma_assoc(
                        before,
                        spec_variant_arm_document(asv[i as int]),
                        spec_variant_arms_document(asv.skip(i + 1)),
                    );
                }
                i = i + 1;
            }
            proof {
                assert(asv.skip(asv.len() as int) =~= Seq::<VariantArmV>::empty());
                assert(out@ + Seq::<char>::empty() =~= out@);
            }
            doc_methods(out, &v.methods);
            proof {
                lemma_chain7(
                    old(out)@,
                    spec_num(2),
                    spec_span_document(v.span@),
                    spec_text(v.name@),
                    spec_num(v.arms@.len()),
                    spec_variant_arms_document(asv),
                    spec_num(v.methods@.len()),
                    spec_methods_document(v.methods@.map_values(|m: crate::ir_items::Method| m@)),
                    out@,
                );
            }
        }
        crate::ir_items::Item::Enum(e) => {
            doc_num(out, 3);
            doc_span(out, &e.span);
            doc_text(out, e.name.text.as_str());
            let ghost asv = e.arms@.map_values(|a: crate::ir_items::EnumArm| a@);
            doc_num(out, e.arms.len());
            let ghost start = out@;
            proof {
                assert(asv.skip(0) =~= asv);
            }
            let mut i: usize = 0;
            while i < e.arms.len()
                invariant
                    i <= e.arms.len(),
                    asv.len() == e.arms@.len(),
                    out@ + spec_enum_arms_document(asv.skip(i as int)) == start
                        + spec_enum_arms_document(asv),
                decreases e.arms.len() - i,
            {
                proof {
                    assert(asv.skip(i as int)[0] == asv[i as int]);
                    assert(asv[i as int] == e.arms@[i as int]@);
                    assert(asv.skip(i as int).skip(1) =~= asv.skip(i + 1));
                }
                let ghost before = out@;
                let arm = &e.arms[i];
                doc_span(out, &arm.span);
                doc_text(out, arm.name.text.as_str());
                proof {
                    lemma_chain2(before, spec_span_document(arm.span@), spec_text(arm.name@), out@);
                    assert(out@ == before + spec_enum_arm_document(asv[i as int]));
                    assert(spec_enum_arms_document(asv.skip(i as int)) == spec_enum_arm_document(
                        asv[i as int],
                    ) + spec_enum_arms_document(asv.skip(i + 1)));
                    lemma_assoc(
                        before,
                        spec_enum_arm_document(asv[i as int]),
                        spec_enum_arms_document(asv.skip(i + 1)),
                    );
                }
                i = i + 1;
            }
            proof {
                assert(asv.skip(asv.len() as int) =~= Seq::<EnumArmV>::empty());
                assert(out@ + Seq::<char>::empty() =~= out@);
            }
            doc_methods(out, &e.methods);
            proof {
                lemma_chain7(
                    old(out)@,
                    spec_num(3),
                    spec_span_document(e.span@),
                    spec_text(e.name@),
                    spec_num(e.arms@.len()),
                    spec_enum_arms_document(asv),
                    spec_num(e.methods@.len()),
                    spec_methods_document(e.methods@.map_values(|m: crate::ir_items::Method| m@)),
                    out@,
                );
            }
        }
        crate::ir_items::Item::Function(f) => {
            doc_num(out, 4);
            doc_span(out, &f.span);
            doc_text(out, f.name.text.as_str());
            doc_signature(out, &f.signature);
            proof {
                lemma_chain4(
                    old(out)@,
                    spec_num(4),
                    spec_span_document(f.span@),
                    spec_text(f.name@),
                    spec_signature_document(f.signature@),
                    out@,
                );
            }
        }
    }
}

/// The canonical serialized document of one artifact, as text: a pure
/// function of the artifact's value, so two runs that extract equal
/// artifacts emit character-identical documents. The surrounding driver
/// only prints it.
#[verifier::loop_isolation(false)]
pub fn idl_to_document(idl: &Idl) -> (r: String)
    ensures
        r@ == spec_idl_document(idl@),
{
    let mut out = String::new();
    doc_text(&mut out, idl.crate_name.text.as_str());
    let ghost esv = idl.definitions@;
    doc_num(&mut out, idl.definitions.entries.len());
    let ghost start = out@;
    proof {
        assert(esv.len() == idl.definitions.entries@.len());
        assert(esv.skip(0) =~= esv);
    }
    let mut i: usize = 0;
    while i < idl.definitions.entries.len()
        invariant
            i <= idl.definitions.entries.len(),
            esv.len() == idl.definitions.entries@.len(),
            out@ + spec_entries_document(esv.skip(i as int)) == start + spec_entries_document(esv),
        decreases idl.definitions.entries.len() - i,
    {
        proof {
            assert(esv.skip(i as int)[0] == esv[i as int]);
            assert(esv[i as int] == (idl.definitions.entries@[i as int].0@, idl.definitions.entries@[
                i as int].1@));
            assert(esv.skip(i as int).skip(1) =~= esv.skip(i + 1));
        }
        let ghost before = out@;
        let entry = &idl.definitions.entries[i];
        doc_qname(&mut out, &entry.0);
        doc_item(&mut out, &entry.1);
        proof {
            assert(out@ == before + spec_entry_document(esv[i as int])) by {
                lemma_chain2(
                    before,
                    spec_qname_document(entry.0@),
                    spec_item_document(entry.1@),
                    out@,
                );
            }
            assert(spec_entries_document(esv.skip(i as int)) == spec_entry_document(
                esv[i as int],
            ) + spec_entries_document(esv.skip(i + 1)));
            lemma_assoc(
                before,
                spec_entry_document(esv[i as int]),
                spec_entries_document(esv.skip(i + 1)),
            );
        }
        i = i + 1;
    }
    proof {
        assert(esv.skip(esv.len() as int) =~= Seq::<(Seq<Seq<char>>, ItemV)>::empty());
        assert(out@ + Seq::<char>::empty() =~= out@);
        assert(out@ =~= spec_idl_document(idl@));
    }
    out
}


/// Determinism, at the character level: elaborating the same source tree
/// twice yields the same artifact, and therefore character-identical
/// serialized documents.
pub proof fn lemma_document_deterministic(
    crate_name: Seq<char>,
    items_a: Seq<crate::ast::AstItemV>,
    items_b: Seq<crate::ast::AstItemV>,
)
    requires
        items_a == items_b,
    ensures
        ({
            let ra = crate::parse::spec_extract_idl(crate_name, items_a);
            let rb = crate::parse::spec_extract_idl(crate_name, items_b);
            &&& ra == rb
            &&& (ra matches Ok(va) ==> (rb matches Ok(vb) && spec_idl_document(va)
                == spec_idl_document(vb)))
        }),
{
}

} // verus!
