use vstd::prelude::*;

use crate::ast::{
    ast_bound_size, ast_bounds_size, ast_segs_size, ast_ty_size, AstBoundV, AstItemV, AstTyV,
    AstTyKindV,
};
use crate::error::ErrorV;
use crate::ir_items::qname_lt;
use crate::ir_types::TyV;
use crate::known_rust::{spec_make_known_type, spec_match_known_bound, KnownBound, Modifier};
use crate::ordered_map::{lemma_insert_keys, spec_insert};
use crate::pass1::{
    spec_count_public, spec_ignore, spec_recognize_item, spec_recognize_struct,
    spec_recognize_upto, DefinitionKindV, DefinitionV, DefsV,
};
use crate::pass1::lemma_count_public_bounds;
use crate::pass2::{
    empty_rust_path, spec_elab_bounds, spec_elab_from_path, spec_elab_owned_tys, spec_elaborate_ty,
    spec_elaborate_upto, spec_extract_path, SelfTyV,
};
use crate::parse::{lemma_elaborate_sorted, spec_extract_idl};
use crate::span::SpanV;

verus! {

/// Ordering invariant: whenever the pipeline succeeds, iterating the
/// artifact's definitions yields qualified names in strictly increasing
/// lexical-segment order.
pub proof fn lemma_ordering_invariant(crate_name: Seq<char>, items: Seq<AstItemV>)
    ensures
        spec_extract_idl(crate_name, items) matches Ok(idl) ==> forall|i: int, j: int|
            0 <= i < j < idl.definitions.len() ==> qname_lt(
                (#[trigger] idl.definitions[i]).0,
                (#[trigger] idl.definitions[j]).0,
            ),
{
    match crate::pass1::spec_recognize_all(seq![crate_name], items) {
        Err(_) => {}
        Ok(defs) => {
            lemma_elaborate_sorted(defs, items, defs.len() as int);
        }
    }
}

/// Whether a top-level declaration would put an entry under `key` in the
/// index: it must be a struct, enum or free function that is fully public
/// and carries no conditional-compilation or ignore marker attribute.
pub open spec fn spec_item_contributes(
    module: Seq<Seq<char>>,
    item: AstItemV,
    key: Seq<Seq<char>>,
) -> bool {
    match item {
        AstItemV::Struct(s) => !spec_ignore(s.vis, s.attrs) && key == module.push(s.name),
        AstItemV::Enum(e) => !spec_ignore(e.vis, e.attrs) && key == module.push(e.name),
        AstItemV::Fn(f) => !spec_ignore(f.vis, f.attrs) && key == module.push(f.sig.name),
        _ => false,
    }
}

/// Every key the recognizer indexes comes from some non-ignored declaration:
/// a declaration with a non-public visibility or an active
/// conditional-compilation attribute never contributes an entry.
pub proof fn lemma_recognizer_visibility(
    module: Seq<Seq<char>>,
    items: Seq<AstItemV>,
    init: DefsV,
    n: int,
)
    requires
        n <= items.len(),
        forall|j: int| 0 <= j < init.len() ==> exists|i: int|
            0 <= i < items.len() && spec_item_contributes(module, items[i], (#[trigger] init[j]).0),
    ensures
        spec_recognize_upto(module, items, init, n) matches Ok(defs) ==> forall|j: int|
            0 <= j < defs.len() ==> exists|i: int|
                0 <= i < items.len() && spec_item_contributes(
                    module,
                    items[i],
                    (#[trigger] defs[j]).0,
                ),
    decreases n,
{
    if n > 0 {
        lemma_recognizer_visibility(module, items, init, n - 1);
        match spec_recognize_upto(module, items, init, n - 1) {
            Err(_) => {}
            Ok(defs) => {
                lemma_recognize_item_visibility(module, items, defs, n - 1);
            }
        }
    }
}

/// One recognition step adds only keys contributed by its own, non-ignored
/// declaration.
proof fn lemma_recognize_item_visibility(
    module: Seq<Seq<char>>,
    items: Seq<AstItemV>,
    defs: DefsV,
    idx: int,
)
    requires
        0 <= idx < items.len(),
        forall|j: int| 0 <= j < defs.len() ==> exists|i: int|
            0 <= i < items.len() && spec_item_contributes(module, items[i], (#[trigger] defs[j]).0),
    ensures
        spec_recognize_item(module, defs, items[idx], idx) matches Ok(defs2) ==> forall|j: int|
            0 <= j < defs2.len() ==> exists|i: int|
                0 <= i < items.len() && spec_item_contributes(
                    module,
                    items[i],
                    (#[trigger] defs2[j]).0,
                ),
{
    match spec_recognize_item(module, defs, items[idx], idx) {
        Err(_) => {}
        Ok(defs2) => {
            match items[idx] {
                AstItemV::Struct(s) => {
                    if !spec_ignore(s.vis, s.attrs) {
                        let key = module.push(s.name);
                        lemma_insert_keys(defs, key, DefinitionV {
                            kind: DefinitionKindV::Record(idx),
                        });
                        lemma_insert_keys(defs, key, DefinitionV {
                            kind: DefinitionKindV::Resource(idx),
                        });
                        assert forall|j: int| 0 <= j < defs2.len() implies exists|i: int|
                            0 <= i < items.len() && spec_item_contributes(
                                module,
                                items[i],
                                (#[trigger] defs2[j]).0,
                            ) by {
                            if defs2[j].0 == key {
                                assert(spec_item_contributes(module, items[idx], key));
                            }
                        }
                    }
                }
                AstItemV::Enum(e) => {
                    if !spec_ignore(e.vis, e.attrs) {
                        let key = module.push(e.name);
                        let retained = crate::pass1::spec_retained(e.variants);
                        lemma_insert_keys(defs, key, DefinitionV {
                            kind: DefinitionKindV::Variant(idx, retained),
                        });
                        lemma_insert_keys(defs, key, DefinitionV {
                            kind: DefinitionKindV::Enum(idx, retained),
                        });
                        assert forall|j: int| 0 <= j < defs2.len() implies exists|i: int|
                            0 <= i < items.len() && spec_item_contributes(
                                module,
                                items[i],
                                (#[trigger] defs2[j]).0,
                            ) by {
                            if defs2[j].0 == key {
                                assert(spec_item_contributes(module, items[idx], key));
                            }
                        }
                    }
                }
                AstItemV::Fn(f) => {
                    if !spec_ignore(f.vis, f.attrs) {
                        let key = module.push(f.sig.name);
                        lemma_insert_keys(defs, key, DefinitionV {
                            kind: DefinitionKindV::Function(idx),
                        });
                        assert forall|j: int| 0 <= j < defs2.len() implies exists|i: int|
                            0 <= i < items.len() && spec_item_contributes(
                                module,
                                items[i],
                                (#[trigger] defs2[j]).0,
                            ) by {
                            if defs2[j].0 == key {
                                assert(spec_item_contributes(module, items[idx], key));
                            }
                        }
                    }
                }
                _ => {}
            }
        }
    }
}

/// The elaborated map's keys all come from the recognized index.
proof fn lemma_elaborate_keys(rec: DefsV, items: Seq<AstItemV>, n: int)
    requires
        n <= rec.len(),
    ensures
        spec_elaborate_upto(rec, items, n) matches Ok(out) ==> forall|j: int|
            0 <= j < out.len() ==> exists|i: int| 0 <= i < rec.len() && (#[trigger] out[j]).0
                == rec[i].0,
    decreases n,
{
    if n > 0 {
        lemma_elaborate_keys(rec, items, n - 1);
        match spec_elaborate_upto(rec, items, n - 1) {
            Err(_) => {}
            Ok(out) => {
                match crate::pass2::spec_elaborate_definition(rec, items, rec[n - 1].0, rec[n - 1].1) {
                    Err(_) => {}
                    Ok(None) => {}
                    Ok(Some(item)) => {
                        lemma_insert_keys(out, rec[n - 1].0, item);
                        let out2 = spec_insert(out, rec[n - 1].0, item);
                        assert forall|j: int| 0 <= j < out2.len() implies exists|i: int|
                            0 <= i < rec.len() && (#[trigger] out2[j]).0 == rec[i].0 by {
                            if out2[j].0 == rec[n - 1].0 {
                                assert(0 <= n - 1 < rec.len() && out2[j].0 == rec[n - 1].0);
                            }
                        }
                    }
                }
            }
        }
    }
}

/// Visibility invariant: for every declaration with a non-public visibility
/// or an active conditional-compilation (or explicit ignore) attribute, no
/// corresponding entry appears in the artifact's definitions: every emitted
/// qualified name was contributed by some fully public, non-ignored
/// declaration of the file.
pub proof fn lemma_visibility_invariant(crate_name: Seq<char>, items: Seq<AstItemV>)
    ensures
        spec_extract_idl(crate_name, items) matches Ok(idl) ==> forall|j: int|
            0 <= j < idl.definitions.len() ==> exists|i: int|
                0 <= i < items.len() && spec_item_contributes(
                    seq![crate_name],
                    items[i],
                    (#[trigger] idl.definitions[j]).0,
                ),
{
    let module = seq![crate_name];
    match crate::pass1::spec_recognize_all(module, items) {
        Err(_) => {}
        Ok(defs) => {
            lemma_recognizer_visibility(module, items, Seq::empty(), items.len() as int);
            lemma_elaborate_keys(defs, items, defs.len() as int);
            match crate::pass2::spec_elaborate_all(defs, items) {
                Err(_) => {}
                Ok(out) => {
                    assert forall|j: int| 0 <= j < out.len() implies exists|i: int|
                        0 <= i < items.len() && spec_item_contributes(
                            module,
                            items[i],
                            (#[trigger] out[j]).0,
                        ) by {
                        let i0 = choose|i0: int| 0 <= i0 < defs.len() && out[j].0 == defs[i0].0;
                        assert(exists|i: int| 0 <= i < items.len() && spec_item_contributes(
                            module,
                            items[i],
                            defs[i0].0,
                        ));
                    }
                }
            }
        }
    }
}

/// Classification completeness: for every struct declaration the
/// field-visibility partition fully determines the outcome. An ignored
/// struct contributes nothing; generic parameters fail; all fields public
/// (and at least one) makes a record; no public field makes a resource; a
/// mix fails. No other outcome exists.
pub proof fn lemma_classification_completeness(
    module: Seq<Seq<char>>,
    defs: DefsV,
    s: crate::ast::AstStructV,
    idx: int,
)
    ensures
        ({
            let r = spec_recognize_struct(module, defs, s, idx);
            let public_fields = spec_count_public(s.fields);
            &&& spec_ignore(s.vis, s.attrs) ==> r == Ok::<DefsV, ErrorV>(defs)
            &&& !spec_ignore(s.vis, s.attrs) && s.generics > 0 ==> r == Err::<DefsV, ErrorV>(
                ErrorV::GenericsNotPermitted(s.generics_span),
            )
            &&& !spec_ignore(s.vis, s.attrs) && s.generics == 0 && public_fields == s.fields.len()
                && public_fields > 0 ==> r == Ok::<DefsV, ErrorV>(
                spec_insert(
                    defs,
                    module.push(s.name),
                    DefinitionV { kind: DefinitionKindV::Record(idx) },
                ),
            )
            &&& !spec_ignore(s.vis, s.attrs) && s.generics == 0 && public_fields == 0 ==> r == Ok::<
                DefsV,
                ErrorV,
            >(
                spec_insert(
                    defs,
                    module.push(s.name),
                    DefinitionV { kind: DefinitionKindV::Resource(idx) },
                ),
            )
            &&& !spec_ignore(s.vis, s.attrs) && s.generics == 0 && 0 < public_fields
                < s.fields.len() ==> r == Err::<DefsV, ErrorV>(
                ErrorV::MixedPublicPrivateFields(s.span),
            )
            &&& 0 <= public_fields <= s.fields.len()
        }),
{
    lemma_count_public_bounds(s.fields);
}

/// Under two or more pending reference wrappers, every known-type table
/// entry is rejected.
proof fn lemma_make_known_depth(
    shape: crate::known_rust::KnownType,
    span: SpanV,
    modifiers: Seq<Modifier>,
    tys: Seq<TyV>,
    bindings: Seq<(Seq<char>, TyV)>,
)
    requires
        modifiers.len() >= 2,
    ensures
        spec_make_known_type(shape, span, modifiers, tys, bindings) matches Err(_),
{
}

/// Reference-depth invariant, the inductive core: with two or more pending
/// reference wrappers, type elaboration always fails.
proof fn lemma_depth_ty(
    rec: DefsV,
    module: Seq<Seq<char>>,
    selfq: Option<SelfTyV>,
    modifiers: Seq<Modifier>,
    t: AstTyV,
)
    requires
        modifiers.len() >= 2,
    ensures
        spec_elaborate_ty(rec, module, selfq, modifiers, t) matches Err(_),
    decreases ast_ty_size(t), 0int,
{
    match *t.kind {
        AstTyKindV::Group { elem } => {
            lemma_depth_ty(rec, module, selfq, modifiers, *elem);
        }
        AstTyKindV::ImplTrait { bounds } => {
            assert(ast_ty_size(t) == 1 + crate::ast::ast_ty_kind_size(*t.kind));
            lemma_depth_bounds(rec, module, selfq, modifiers, t.span, bounds);
        }
        AstTyKindV::Path { qself, segments } => {
            if !qself {
                lemma_depth_from_path(rec, module, selfq, modifiers, t.span, segments);
            }
        }
        AstTyKindV::Reference { mutable, named_lifetime, elem } => {
            if !mutable && !named_lifetime {
                lemma_depth_ty(
                    rec,
                    module,
                    selfq,
                    modifiers.push(Modifier::Ref(crate::ir_types::RefKind::AnonRef)),
                    *elem,
                );
            }
        }
        AstTyKindV::Slice { elem } => {}
        AstTyKindV::Tuple { elems } => {}
        AstTyKindV::Other => {}
    }
}

/// With two or more pending wrappers, resolving any written path fails.
proof fn lemma_depth_from_path(
    rec: DefsV,
    module: Seq<Seq<char>>,
    selfq: Option<SelfTyV>,
    modifiers: Seq<Modifier>,
    span: SpanV,
    segments: Seq<crate::ast::AstSegV>,
)
    requires
        modifiers.len() >= 2,
    ensures
        spec_elab_from_path(rec, module, selfq, modifiers, span, segments) matches Err(_),
    decreases ast_segs_size(segments), 1int,
{
    match spec_extract_path(segments, empty_rust_path()) {
        Err(_) => {}
        Ok(rp) => {
            match crate::known_rust::spec_match_known_type(rp.idents) {
                Some(shape) => {
                    match spec_elab_owned_tys(rec, module, selfq, modifiers, rp.tys, Seq::empty()) {
                        Err(_) => {}
                        Ok(tys) => {
                            match crate::pass2::spec_elab_bindings(
                                rec,
                                module,
                                selfq,
                                rp.bindings,
                                Seq::empty(),
                            ) {
                                Err(_) => {}
                                Ok(bindings) => {
                                    lemma_make_known_depth(shape, span, modifiers, tys, bindings);
                                }
                            }
                        }
                    }
                }
                None => {}
            }
        }
    }
}

/// With two or more pending wrappers, every `impl Trait` bound fails.
proof fn lemma_depth_bounds(
    rec: DefsV,
    module: Seq<Seq<char>>,
    selfq: Option<SelfTyV>,
    modifiers: Seq<Modifier>,
    ty_span: SpanV,
    bounds: Seq<AstBoundV>,
)
    requires
        modifiers.len() >= 2,
    ensures
        spec_elab_bounds(rec, module, selfq, modifiers, ty_span, bounds) matches Err(_),
    decreases ast_bounds_size(bounds), 1int,
{
    if bounds.len() > 0 {
        assert(ast_bounds_size(bounds) == ast_bound_size(bounds[0]) + ast_bounds_size(
            bounds.skip(1),
        ));
        match bounds[0] {
            AstBoundV::Trait { segments, span } => {
                assert(ast_bound_size(bounds[0]) == 1 + ast_segs_size(segments));
                match spec_extract_path(segments, empty_rust_path()) {
                    Err(_) => {}
                    Ok(rp) => {
                        crate::pass2::lemma_extract_sizes_pub(segments);
                        match spec_match_known_bound(rp.idents) {
                            None => {}
                            Some(KnownBound::AsRefBound) => {
                                if rp.tys.len() == 1 {
                                    crate::ast::lemma_ast_tys_size_elem(rp.tys, 0);
                                    lemma_depth_ty(
                                        rec,
                                        module,
                                        selfq,
                                        modifiers.push(
                                            Modifier::Ref(crate::ir_types::RefKind::ImplAsRef),
                                        ),
                                        rp.tys[0],
                                    );
                                }
                            }
                            Some(_) => {}
                        }
                    }
                }
            }
            AstBoundV::Lifetime { is_static, span } => {
                if is_static {
                    lemma_depth_bounds(rec, module, selfq, modifiers, ty_span, bounds.skip(1));
                }
            }
            AstBoundV::PreciseCapture => {
                lemma_depth_bounds(rec, module, selfq, modifiers, ty_span, bounds.skip(1));
            }
            AstBoundV::Other { span } => {}
        }
    }
}

/// Reference-depth invariant: at most one reference wrapper is ever
/// representable in an elaborated signature type, and a two-level reference
/// always fails elaboration, whatever stands beneath it.
pub proof fn lemma_reference_depth_invariant(
    rec: DefsV,
    module: Seq<Seq<char>>,
    selfq: Option<SelfTyV>,
    outer_span: SpanV,
    inner_span: SpanV,
    inner: AstTyV,
)
    ensures
        spec_elaborate_ty(
            rec,
            module,
            selfq,
            Seq::empty(),
            AstTyV {
                span: outer_span,
                kind: Box::new(
                    AstTyKindV::Reference {
                        mutable: false,
                        named_lifetime: false,
                        elem: Box::new(
                            AstTyV {
                                span: inner_span,
                                kind: Box::new(
                                    AstTyKindV::Reference {
                                        mutable: false,
                                        named_lifetime: false,
                                        elem: Box::new(inner),
                                    },
                                ),
                            },
                        ),
                    },
                ),
            },
        ) matches Err(_),
{
    let m1 = Seq::<Modifier>::empty().push(Modifier::Ref(crate::ir_types::RefKind::AnonRef));
    let m2 = m1.push(Modifier::Ref(crate::ir_types::RefKind::AnonRef));
    let t_inner = AstTyV {
        span: inner_span,
        kind: Box::new(
            AstTyKindV::Reference { mutable: false, named_lifetime: false, elem: Box::new(inner) },
        ),
    };
    let t_outer = AstTyV {
        span: outer_span,
        kind: Box::new(
            AstTyKindV::Reference {
                mutable: false,
                named_lifetime: false,
                elem: Box::new(t_inner),
            },
        ),
    };
    assert(spec_elaborate_ty(rec, module, selfq, Seq::empty(), t_outer) == spec_elaborate_ty(
        rec,
        module,
        selfq,
        m1,
        t_inner,
    ));
    assert(spec_elaborate_ty(rec, module, selfq, m1, t_inner) == spec_elaborate_ty(
        rec,
        module,
        selfq,
        m2,
        inner,
    ));
    lemma_depth_ty(rec, module, selfq, m2, inner);
}

} // verus!
