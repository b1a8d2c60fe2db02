use vstd::prelude::*;

use crate::ast::{
    ast_args_size, ast_bound_size, ast_bounds_size, ast_segs_size, ast_ty_size, ast_tys_size,
    lemma_ast_tys_size_elem, lemma_ast_tys_size_push, AstBoundV, AstGenArgV, AstSegV, AstTy,
    AstTyV, AstTyKindV, AstBound, AstGenArg, AstSeg,
};
use crate::error::{Error, ErrorV};
use crate::ir_items::{Name, QualifiedName};
use crate::ir_types::{RefKind, RefdTy, RefdTyV, Ty, TyV, TypeKind, TypeKindV};
use crate::known_rust::{
    bindings_view, bindings_insert, make_known_bound, make_known_type, match_known_bound,
    match_known_type, mk_ty, spec_binsert, spec_make_known_bound, spec_make_known_type,
    spec_match_known_bound, spec_match_known_type, KnownBound, KnownType, Modifier,
};
use crate::ordered_map::{spec_get, QnameMap};
use crate::pass1::{Definition, DefinitionKindV, DefinitionV, DefsV};
use crate::span::{Span, SpanV};

verus! {

/// The type being elaborated inside a declaration: the declaration's own
/// qualified name plus the span its `Self` resolves to.
pub struct SelfTy {
    pub qname: QualifiedName,
    pub span: Span,
}

/// Mathematical value of a [`SelfTy`].
pub struct SelfTyV {
    pub qname: Seq<Seq<char>>,
    pub span: SpanV,
}

impl View for SelfTy {
    type V = SelfTyV;

    open spec fn view(&self) -> SelfTyV {
        SelfTyV { qname: self.qname@, span: self.span@ }
    }
}

/// The type node that `Self` stands for.
pub open spec fn spec_self_ty(s: SelfTyV) -> TyV {
    mk_ty(s.span, TypeKindV::UserType { qname: s.qname })
}

/// A path broken down for resolution: its identifiers (with their spans),
/// the type arguments found anywhere in it, and its associated-type bindings
/// (already elaborated).
pub struct RustPath<'a> {
    pub idents: Vec<Name>,
    pub ident_spans: Vec<Span>,
    pub tys: Vec<&'a AstTy>,
    pub bindings: Vec<(Name, &'a AstTy)>,
}

/// Mathematical value of a [`RustPath`].
pub struct RustPathV {
    pub idents: Seq<Seq<char>>,
    pub ident_spans: Seq<SpanV>,
    pub tys: Seq<AstTyV>,
    pub bindings: Seq<(Seq<char>, AstTyV)>,
}

impl<'a> View for RustPath<'a> {
    type V = RustPathV;

    open spec fn view(&self) -> RustPathV {
        RustPathV {
            idents: self.idents@.map_values(|n: Name| n@),
            ident_spans: self.ident_spans@.map_values(|s: Span| s@),
            tys: self.tys@.map_values(|t: &AstTy| t@),
            bindings: self.bindings@.map_values(|p: (Name, &AstTy)| (p.0@, p.1@)),
        }
    }
}

/// The empty path accumulator.
pub open spec fn empty_rust_path() -> RustPathV {
    RustPathV {
        idents: Seq::empty(),
        ident_spans: Seq::empty(),
        tys: Seq::empty(),
        bindings: Seq::empty(),
    }
}

/// Wrap a resolved type in the pending wrappers: none leaves it owned, one
/// reference makes it referenced, and more than one is the rejected double
/// indirection.
pub open spec fn spec_maybe_referenced(
    modifiers: Seq<Modifier>,
    span: SpanV,
    value: TyV,
) -> Result<RefdTyV, ErrorV> {
    if modifiers.len() == 0 {
        Ok(RefdTyV::Owned(value))
    } else if modifiers.len() == 1 {
        match modifiers[0] {
            Modifier::Ref(r) => Ok(RefdTyV::Ref(r, value)),
        }
    } else {
        Err(ErrorV::UnsupportedType(span))
    }
}

/// Resolve the remainder of a user path against the recognized definitions,
/// one segment at a time, starting below `qname`. `Ok(None)` means the first
/// name matched nothing; a function target or leftover type arguments fail.
pub open spec fn spec_elab_user_rel(
    rec: DefsV,
    qname: Seq<Seq<char>>,
    idents: Seq<Seq<char>>,
    ident_spans: Seq<SpanV>,
    tys: Seq<TyV>,
    err_span: SpanV,
) -> Result<Option<TyV>, ErrorV>
    decreases idents.len(),
{
    if idents.len() == 0 {
        Ok(None)
    } else {
        let path = qname.push(idents[0]);
        match spec_get(rec, path) {
            None => Ok(None),
            Some(def) => match def.kind {
                DefinitionKindV::FileModule => match spec_elab_user_rel(
                    rec,
                    path,
                    idents.skip(1),
                    ident_spans.skip(1),
                    tys,
                    err_span,
                ) {
                    Err(e) => Err(e),
                    Ok(None) => Err(ErrorV::UnresolvedName(err_span)),
                    Ok(Some(t)) => Ok(Some(t)),
                },
                DefinitionKindV::Function(_) => Err(ErrorV::NotType(err_span)),
                _ => if tys.len() != 0 {
                    Err(ErrorV::GenericsNotPermitted(err_span))
                } else {
                    Ok(Some(mk_ty(ident_spans[0], TypeKindV::UserType { qname: path })))
                },
            },
        }
    }
}

/// Resolve a user path: a path rooted at the `crate` keyword resolves
/// against the crate's root name; any other path resolves relative to the
/// current module.
pub open spec fn spec_elab_user_type(
    rec: DefsV,
    module: Seq<Seq<char>>,
    idents: Seq<Seq<char>>,
    ident_spans: Seq<SpanV>,
    tys: Seq<TyV>,
    err_span: SpanV,
) -> Result<Option<TyV>, ErrorV> {
    if idents.len() > 0 && idents[0] == "crate"@ {
        let crate_name = seq![module[0]];
        match spec_elab_user_rel(rec, crate_name, idents.skip(1), ident_spans.skip(1), tys, err_span) {
            Err(e) => Err(e),
            Ok(None) => Err(ErrorV::UnresolvedName(err_span)),
            Ok(Some(t)) => Ok(Some(t)),
        }
    } else {
        spec_elab_user_rel(rec, module, idents, ident_spans, tys, err_span)
    }
}

/// Elaborate a type expression under the pending wrappers in `modifiers`.
/// This is the core recursion: grouping unwraps, references push a wrapper,
/// paths resolve against `Self`, the known-type table, then the user's own
/// declarations; slices and tuples build their shapes; everything else fails.
pub open spec fn spec_elaborate_ty(
    rec: DefsV,
    module: Seq<Seq<char>>,
    selfq: Option<SelfTyV>,
    modifiers: Seq<Modifier>,
    t: AstTyV,
) -> Result<RefdTyV, ErrorV>
    decreases ast_ty_size(t), 0int,
    via spec_elaborate_ty_decreases
{
    match *t.kind {
        AstTyKindV::Group { elem } => spec_elaborate_ty(rec, module, selfq, modifiers, *elem),
        AstTyKindV::ImplTrait { bounds } => spec_elab_bounds(
            rec,
            module,
            selfq,
            modifiers,
            t.span,
            bounds,
        ),
        AstTyKindV::Path { qself, segments } => if qself {
            Err(ErrorV::UnsupportedType(t.span))
        } else {
            spec_elab_from_path(rec, module, selfq, modifiers, t.span, segments)
        },
        AstTyKindV::Reference { mutable, named_lifetime, elem } => if mutable {
            Err(ErrorV::UnsupportedType(t.span))
        } else if named_lifetime {
            Err(ErrorV::UnsupportedType(t.span))
        } else {
            spec_elaborate_ty(
                rec,
                module,
                selfq,
                modifiers.push(Modifier::Ref(RefKind::AnonRef)),
                *elem,
            )
        },
        AstTyKindV::Slice { elem } => if modifiers.len() == 1 {
            match modifiers[0] {
                Modifier::Ref(r) => match spec_elab_owned_ty(rec, module, selfq, Seq::empty(), *elem) {
                    Err(e) => Err(e),
                    Ok(element) => Ok(RefdTyV::Ref(
                        r,
                        mk_ty(t.span, TypeKindV::Vec {
                            element: Box::new(element),
                            repr: crate::ir_types::VecRepr::SliceRef,
                        }),
                    )),
                },
            }
        } else {
            Err(ErrorV::UnsupportedType(t.span))
        },
        AstTyKindV::Tuple { elems } => match spec_elab_owned_tys(
            rec,
            module,
            selfq,
            Seq::empty(),
            elems,
            Seq::empty(),
        ) {
            Err(e) => Err(e),
            Ok(tys) => spec_maybe_referenced(
                modifiers,
                t.span,
                mk_ty(t.span, TypeKindV::Tuple {
                    elements: tys,
                    repr: crate::ir_types::TupleRepr::Tuple(tys.len() as usize),
                }),
            ),
        },
        AstTyKindV::Other => Err(ErrorV::UnsupportedType(t.span)),
    }
}

#[via_fn]
proof fn spec_elaborate_ty_decreases(
    rec: DefsV,
    module: Seq<Seq<char>>,
    selfq: Option<SelfTyV>,
    modifiers: Seq<Modifier>,
    t: AstTyV,
) {
    assert(ast_ty_size(t) == 1 + crate::ast::ast_ty_kind_size(*t.kind));
}

/// Elaborate a type that must come out owned: a referenced result is
/// rejected here.
pub open spec fn spec_elab_owned_ty(
    rec: DefsV,
    module: Seq<Seq<char>>,
    selfq: Option<SelfTyV>,
    modifiers: Seq<Modifier>,
    t: AstTyV,
) -> Result<TyV, ErrorV>
    decreases ast_ty_size(t), 1int,
{
    match spec_elaborate_ty(rec, module, selfq, modifiers, t) {
        Err(e) => Err(e),
        Ok(RefdTyV::Owned(ty)) => Ok(ty),
        Ok(RefdTyV::Ref(_, _)) => Err(ErrorV::UnsupportedType(t.span)),
    }
}

/// Elaborate a list of type arguments, each as an owned type, keeping the
/// first error.
pub open spec fn spec_elab_owned_tys(
    rec: DefsV,
    module: Seq<Seq<char>>,
    selfq: Option<SelfTyV>,
    modifiers: Seq<Modifier>,
    tys: Seq<AstTyV>,
    acc: Seq<TyV>,
) -> Result<Seq<TyV>, ErrorV>
    decreases ast_tys_size(tys), 2int,
    via spec_elab_owned_tys_decreases
{
    if tys.len() == 0 {
        Ok(acc)
    } else {
        match spec_elab_owned_ty(rec, module, selfq, modifiers, tys[0]) {
            Err(e) => Err(e),
            Ok(t) => spec_elab_owned_tys(rec, module, selfq, modifiers, tys.skip(1), acc.push(t)),
        }
    }
}

#[via_fn]
proof fn spec_elab_owned_tys_decreases(
    rec: DefsV,
    module: Seq<Seq<char>>,
    selfq: Option<SelfTyV>,
    modifiers: Seq<Modifier>,
    tys: Seq<AstTyV>,
    acc: Seq<TyV>,
) {
    if tys.len() > 0 {
        lemma_ast_tys_size_elem(tys, 0);
        assert(ast_tys_size(tys) == ast_ty_size(tys[0]) + ast_tys_size(tys.skip(1)));
        assert(ast_ty_size(tys[0]) >= 1);
    }
}

/// Break a path down into identifiers, type arguments and associated-type
/// bindings, accumulating into `acc`. Parenthesized arguments and arguments
/// other than types and bindings are rejected; binding types are elaborated
/// here, eagerly, with no pending wrappers.
pub open spec fn spec_extract_path(segs: Seq<AstSegV>, acc: RustPathV) -> Result<RustPathV, ErrorV>
    decreases ast_segs_size(segs), 3int,
    via spec_extract_path_decreases
{
    if segs.len() == 0 {
        Ok(acc)
    } else {
        let seg = segs[0];
        if seg.parenthesized {
            Err(ErrorV::UnsupportedType(seg.span))
        } else {
            let acc1 = RustPathV {
                idents: acc.idents.push(seg.ident),
                ident_spans: acc.ident_spans.push(seg.span),
                tys: acc.tys,
                bindings: acc.bindings,
            };
            match spec_extract_args(seg.args, acc1) {
                Err(e) => Err(e),
                Ok(acc2) => spec_extract_path(segs.skip(1), acc2),
            }
        }
    }
}

#[via_fn]
proof fn spec_extract_path_decreases(segs: Seq<AstSegV>, acc: RustPathV) {
    if segs.len() > 0 {
        assert(ast_segs_size(segs) == 1 + ast_args_size(segs[0].args) + ast_segs_size(segs.skip(1)));
    }
}

/// Walk the generic arguments of one segment.
pub open spec fn spec_extract_args(args: Seq<AstGenArgV>, acc: RustPathV) -> Result<RustPathV, ErrorV>
    decreases ast_args_size(args), 3int,
    via spec_extract_args_decreases
{
    if args.len() == 0 {
        Ok(acc)
    } else {
        match args[0] {
            AstGenArgV::Ty(t) => spec_extract_args(
                args.skip(1),
                RustPathV {
                    idents: acc.idents,
                    ident_spans: acc.ident_spans,
                    tys: acc.tys.push(*t),
                    bindings: acc.bindings,
                },
            ),
            AstGenArgV::Assoc { name, ty } => spec_extract_args(
                args.skip(1),
                RustPathV {
                    idents: acc.idents,
                    ident_spans: acc.ident_spans,
                    tys: acc.tys,
                    bindings: spec_binsert(acc.bindings, name, *ty),
                },
            ),
            AstGenArgV::Other { span } => Err(ErrorV::UnsupportedType(span)),
        }
    }
}

#[via_fn]
proof fn spec_extract_args_decreases(args: Seq<AstGenArgV>, acc: RustPathV) {
    if args.len() > 0 {
        assert(ast_args_size(args) == crate::ast::ast_arg_size(args[0]) + ast_args_size(args.skip(1)));
        match args[0] {
            AstGenArgV::Ty(t) => {
                assert(crate::ast::ast_arg_size(args[0]) == 1 + ast_ty_size(*t));
            }
            AstGenArgV::Assoc { name, ty } => {
                assert(crate::ast::ast_arg_size(args[0]) == 1 + ast_ty_size(*ty));
            }
            AstGenArgV::Other { span } => {}
        }
    }
}

/// Total structural size of the unelaborated bindings.
pub open spec fn ast_bindings_size(bs: Seq<(Seq<char>, AstTyV)>) -> nat
    decreases bs,
    via ast_bindings_size_decreases
{
    if bs.len() == 0 {
        0
    } else {
        1 + ast_ty_size(bs[0].1) + ast_bindings_size(bs.skip(1))
    }
}

#[via_fn]
proof fn ast_bindings_size_decreases(bs: Seq<(Seq<char>, AstTyV)>) {
    if bs.len() > 0 {
        assert(decreases_to!(bs => bs[0]));
        assert(bs.skip(1) =~= bs.subrange(1, bs.len() as int));
        vstd::seq::axiom_seq_subrange_decreases(bs, 1, bs.len() as int);
        assert(decreases_to!(bs => bs.skip(1)));
    }
}

/// Replacing or adding one binding grows the size by at most the new entry.
proof fn lemma_binsert_size(bs: Seq<(Seq<char>, AstTyV)>, k: Seq<char>, v: AstTyV)
    ensures
        ast_bindings_size(spec_binsert(bs, k, v)) <= ast_bindings_size(bs) + 1 + ast_ty_size(v),
    decreases bs.len(),
{
    if bs.len() == 0 {
        let r = spec_binsert(bs, k, v);
        assert(r =~= seq![(k, v)]);
        assert(r.skip(1) =~= Seq::<(Seq<char>, AstTyV)>::empty());
        assert(ast_bindings_size(r) == 1 + ast_ty_size(r[0].1) + ast_bindings_size(r.skip(1)));
    } else if bs[0].0 == k {
        let r = bs.update(0, (k, v));
        assert(r.skip(1) =~= bs.skip(1));
        assert(ast_bindings_size(r) == 1 + ast_ty_size(r[0].1) + ast_bindings_size(r.skip(1)));
        assert(ast_bindings_size(bs) == 1 + ast_ty_size(bs[0].1) + ast_bindings_size(bs.skip(1)));
    } else {
        lemma_binsert_size(bs.skip(1), k, v);
        let r = seq![bs[0]] + spec_binsert(bs.skip(1), k, v);
        assert(r.skip(1) =~= spec_binsert(bs.skip(1), k, v));
        assert(r[0] == bs[0]);
        assert(spec_binsert(bs, k, v) == r);
        assert(ast_bindings_size(r) == 1 + ast_ty_size(r[0].1) + ast_bindings_size(r.skip(1)));
        assert(ast_bindings_size(bs) == 1 + ast_ty_size(bs[0].1) + ast_bindings_size(bs.skip(1)));
    }
}

/// The size of every binding's type is bounded by the bindings' total size.
proof fn lemma_ast_bindings_size_elem(bs: Seq<(Seq<char>, AstTyV)>, i: int)
    requires
        0 <= i < bs.len(),
    ensures
        ast_ty_size(bs[i].1) < ast_bindings_size(bs),
    decreases bs.len(),
{
    if i > 0 {
        lemma_ast_bindings_size_elem(bs.skip(1), i - 1);
        assert(bs.skip(1)[i - 1] == bs[i]);
    }
}

/// The collected type arguments and bindings never outweigh the path they
/// came from.
proof fn lemma_extract_path_sizes(segs: Seq<AstSegV>, acc: RustPathV)
    ensures
        spec_extract_path(segs, acc) matches Ok(rp) ==> ast_tys_size(rp.tys) <= ast_tys_size(
            acc.tys,
        ) + ast_segs_size(segs) && ast_bindings_size(rp.bindings) <= ast_bindings_size(acc.bindings)
            + ast_segs_size(segs),
    decreases ast_segs_size(segs), 4int,
{
    if segs.len() > 0 {
        let seg = segs[0];
        assert(ast_segs_size(segs) == 1 + ast_args_size(seg.args) + ast_segs_size(segs.skip(1)));
        if !seg.parenthesized {
            let acc1 = RustPathV {
                idents: acc.idents.push(seg.ident),
                ident_spans: acc.ident_spans.push(seg.span),
                tys: acc.tys,
                bindings: acc.bindings,
            };
            lemma_extract_args_sizes(seg.args, acc1);
            match spec_extract_args(seg.args, acc1) {
                Err(_) => {}
                Ok(acc2) => {
                    lemma_extract_path_sizes(segs.skip(1), acc2);
                }
            }
        }
    }
}

/// The collected type arguments and bindings never outweigh the arguments
/// they came from.
proof fn lemma_extract_args_sizes(args: Seq<AstGenArgV>, acc: RustPathV)
    ensures
        spec_extract_args(args, acc) matches Ok(rp) ==> ast_tys_size(rp.tys) <= ast_tys_size(
            acc.tys,
        ) + ast_args_size(args) && ast_bindings_size(rp.bindings) <= ast_bindings_size(acc.bindings)
            + ast_args_size(args),
    decreases ast_args_size(args), 4int,
{
    if args.len() > 0 {
        assert(ast_args_size(args) == crate::ast::ast_arg_size(args[0]) + ast_args_size(args.skip(1)));
        match args[0] {
            AstGenArgV::Ty(t) => {
                let acc1 = RustPathV {
                    idents: acc.idents,
                    ident_spans: acc.ident_spans,
                    tys: acc.tys.push(*t),
                    bindings: acc.bindings,
                };
                lemma_ast_tys_size_push(acc.tys, *t);
                lemma_extract_args_sizes(args.skip(1), acc1);
            }
            AstGenArgV::Assoc { name, ty } => {
                let acc1 = RustPathV {
                    idents: acc.idents,
                    ident_spans: acc.ident_spans,
                    tys: acc.tys,
                    bindings: spec_binsert(acc.bindings, name, *ty),
                };
                lemma_binsert_size(acc.bindings, name, *ty);
                lemma_extract_args_sizes(args.skip(1), acc1);
            }
            AstGenArgV::Other { span } => {}
        }
    }
}

/// Elaborate the collected associated-type bindings, each as an owned type
/// with no pending wrappers, keeping the first error.
pub open spec fn spec_elab_bindings(
    rec: DefsV,
    module: Seq<Seq<char>>,
    selfq: Option<SelfTyV>,
    bs: Seq<(Seq<char>, AstTyV)>,
    acc: Seq<(Seq<char>, TyV)>,
) -> Result<Seq<(Seq<char>, TyV)>, ErrorV>
    decreases ast_bindings_size(bs), 2int,
    via spec_elab_bindings_decreases
{
    if bs.len() == 0 {
        Ok(acc)
    } else {
        match spec_elab_owned_ty(rec, module, selfq, Seq::empty(), bs[0].1) {
            Err(e) => Err(e),
            Ok(tv) => spec_elab_bindings(rec, module, selfq, bs.skip(1), acc.push((bs[0].0, tv))),
        }
    }
}

#[via_fn]
proof fn spec_elab_bindings_decreases(
    rec: DefsV,
    module: Seq<Seq<char>>,
    selfq: Option<SelfTyV>,
    bs: Seq<(Seq<char>, AstTyV)>,
    acc: Seq<(Seq<char>, TyV)>,
) {
    if bs.len() > 0 {
        lemma_ast_bindings_size_elem(bs, 0);
        assert(ast_bindings_size(bs) == 1 + ast_ty_size(bs[0].1) + ast_bindings_size(bs.skip(1)));
    }
}

/// Resolve a written path: first the literal `Self`, then the known-type
/// table (whose arguments are elaborated under the pending wrappers), then
/// the user's own declarations (whose arguments are elaborated owned, with
/// no self type in scope, and which take no bindings).
pub open spec fn spec_elab_from_path(
    rec: DefsV,
    module: Seq<Seq<char>>,
    selfq: Option<SelfTyV>,
    modifiers: Seq<Modifier>,
    span: SpanV,
    segments: Seq<AstSegV>,
) -> Result<RefdTyV, ErrorV>
    decreases ast_segs_size(segments), 5int,
    via spec_elab_from_path_decreases
{
    match spec_extract_path(segments, empty_rust_path()) {
        Err(e) => Err(e),
        Ok(rp) => match spec_elab_bindings(rec, module, selfq, rp.bindings, Seq::empty()) {
            Err(e) => Err(e),
            Ok(bindings) => {
                if rp.idents == seq!["Self"@] {
                    match selfq {
                        Some(sq) => spec_maybe_referenced(modifiers, span, spec_self_ty(sq)),
                        None => Err(ErrorV::UnresolvedName(span)),
                    }
                } else {
                    match spec_match_known_type(rp.idents) {
                        Some(shape) => match spec_elab_owned_tys(
                            rec,
                            module,
                            selfq,
                            modifiers,
                            rp.tys,
                            Seq::empty(),
                        ) {
                            Err(e) => Err(e),
                            Ok(tys) => spec_make_known_type(shape, span, modifiers, tys, bindings),
                        },
                        None => match spec_elab_owned_tys(
                            rec,
                            module,
                            None,
                            Seq::empty(),
                            rp.tys,
                            Seq::empty(),
                        ) {
                            Err(e) => Err(e),
                            Ok(tys) => match spec_elab_user_type(
                                rec,
                                module,
                                rp.idents,
                                rp.ident_spans,
                                tys,
                                span,
                            ) {
                                Err(e) => Err(e),
                                Ok(None) => Err(ErrorV::UnresolvedName(span)),
                                Ok(Some(user_ty)) => if bindings.len() != 0 {
                                    Err(ErrorV::BindingNotExpected(span))
                                } else {
                                    spec_maybe_referenced(modifiers, span, user_ty)
                                },
                            },
                        },
                    }
                }
            }
        },
    }
}

#[via_fn]
proof fn spec_elab_from_path_decreases(
    rec: DefsV,
    module: Seq<Seq<char>>,
    selfq: Option<SelfTyV>,
    modifiers: Seq<Modifier>,
    span: SpanV,
    segments: Seq<AstSegV>,
) {
    lemma_extract_path_sizes(segments, empty_rust_path());
}

/// Elaborate an `impl Trait` type: the first trait bound is matched against
/// the trait-bound table (`impl AsRef<T>` pushes a reference wrapper and
/// recurses into `T`); a `'static` lifetime bound and precise captures are
/// tolerated; anything else fails; no trait bound at all fails.
pub open spec fn spec_elab_bounds(
    rec: DefsV,
    module: Seq<Seq<char>>,
    selfq: Option<SelfTyV>,
    modifiers: Seq<Modifier>,
    ty_span: SpanV,
    bounds: Seq<AstBoundV>,
) -> Result<RefdTyV, ErrorV>
    decreases ast_bounds_size(bounds), 5int,
    via spec_elab_bounds_decreases
{
    if bounds.len() == 0 {
        Err(ErrorV::UnsupportedType(ty_span))
    } else {
        match bounds[0] {
            AstBoundV::Trait { segments, span } => match spec_extract_path(
                segments,
                empty_rust_path(),
            ) {
                Err(e) => Err(e),
                Ok(rp) => match spec_elab_bindings(rec, module, selfq, rp.bindings, Seq::empty()) {
                    Err(e) => Err(e),
                    Ok(bindings) => match spec_match_known_bound(rp.idents) {
                        None => Err(ErrorV::UnsupportedType(span)),
                        Some(KnownBound::AsRefBound) => if rp.tys.len() != 1 {
                            Err(ErrorV::UnsupportedType(ty_span))
                        } else {
                            spec_elaborate_ty(
                                rec,
                                module,
                                selfq,
                                modifiers.push(Modifier::Ref(RefKind::ImplAsRef)),
                                rp.tys[0],
                            )
                        },
                        Some(bound) => match spec_elab_owned_tys(
                            rec,
                            module,
                            selfq,
                            modifiers,
                            rp.tys,
                            Seq::empty(),
                        ) {
                            Err(e) => Err(e),
                            Ok(tys) => spec_make_known_bound(bound, ty_span, modifiers, tys, bindings),
                        },
                    },
                },
            },
            AstBoundV::Lifetime { is_static, span } => if is_static {
                spec_elab_bounds(rec, module, selfq, modifiers, ty_span, bounds.skip(1))
            } else {
                Err(ErrorV::UnsupportedType(span))
            },
            AstBoundV::PreciseCapture => spec_elab_bounds(
                rec,
                module,
                selfq,
                modifiers,
                ty_span,
                bounds.skip(1),
            ),
            AstBoundV::Other { span } => Err(ErrorV::UnsupportedType(span)),
        }
    }
}

/// The self type in scope, as a mathematical value.
pub open spec fn spec_selfq(s: Option<&SelfTy>) -> Option<SelfTyV> {
    match s {
        Some(x) => Some(x@),
        None => None,
    }
}

/// Copy a wrapper stack.
fn clone_modifiers(m: &Vec<Modifier>) -> (r: Vec<Modifier>)
    ensures
        r@ == m@,
{
    let mut r: Vec<Modifier> = Vec::new();
    let mut i: usize = 0;
    while i < m.len()
        invariant
            i <= m.len(),
            r@ == m@.take(i as int),
        decreases m.len() - i,
    {
        r.push(m[i]);
        proof {
            assert(m@.take(i + 1) =~= m@.take(i as int).push(m@[i as int]));
        }
        i = i + 1;
    }
    proof {
        assert(m@.take(m@.len() as int) =~= m@);
    }
    r
}

/// Wrap a resolved type in the pending wrappers; more than one is the
/// rejected double indirection.
fn maybe_referenced(modifiers: &Vec<Modifier>, span: &Span, value: Ty) -> (r: Result<RefdTy, Error>)
    ensures
        match r {
            Ok(v) => spec_maybe_referenced(modifiers@, span@, value@) == Ok::<RefdTyV, ErrorV>(v@),
            Err(e) => spec_maybe_referenced(modifiers@, span@, value@) == Err::<RefdTyV, ErrorV>(e@),
        },
{
    if modifiers.len() == 0 {
        Ok(value.not_refd())
    } else if modifiers.len() == 1 {
        match modifiers[0] {
            Modifier::Ref(r) => Ok(value.refd(r)),
        }
    } else {
        Err(Error::UnsupportedType(span.clone()))
    }
}

/// Break a written path down into identifiers, type arguments and
/// associated-type bindings.
#[verifier::loop_isolation(false)]
fn elaborate_path<'a>(segments: &'a Vec<AstSeg>) -> (r: Result<RustPath<'a>, Error>)
    ensures
        match r {
            Ok(rp) => spec_extract_path(
                crate::ast::spec_ast_segs_view(segments@),
                empty_rust_path(),
            ) == Ok::<RustPathV, ErrorV>(rp@) && rp.idents@.len() == rp.ident_spans@.len(),
            Err(e) => spec_extract_path(
                crate::ast::spec_ast_segs_view(segments@),
                empty_rust_path(),
            ) == Err::<RustPathV, ErrorV>(e@),
        },
{
    let ghost segsv = crate::ast::spec_ast_segs_view(segments@);
    proof {
        crate::ast::lemma_ast_segs_view(segments@);
    }
    let mut idents: Vec<Name> = Vec::new();
    let mut ident_spans: Vec<Span> = Vec::new();
    let mut tys: Vec<&'a AstTy> = Vec::new();
    let mut bindings: Vec<(Name, &'a AstTy)> = Vec::new();
    proof {
        assert(segsv.skip(0) =~= segsv);
        assert(idents@.map_values(|n: Name| n@) =~= Seq::<Seq<char>>::empty());
        assert(ident_spans@.map_values(|x: Span| x@) =~= Seq::<SpanV>::empty());
        assert(tys@.map_values(|x: &AstTy| x@) =~= Seq::<AstTyV>::empty());
        assert(bindings@.map_values(|p: (Name, &AstTy)| (p.0@, p.1@)) =~= Seq::<(
            Seq<char>,
            AstTyV,
        )>::empty());
    }
    let mut i: usize = 0;
    while i < segments.len()
        invariant
            i <= segments.len(),
            segsv == crate::ast::spec_ast_segs_view(segments@),
            segsv.len() == segments@.len(),
            forall|j: int| 0 <= j < segments@.len() ==> segsv[j] == crate::ast::spec_ast_seg_view(
                segments@[j],
            ),
            idents@.len() == ident_spans@.len(),
            spec_extract_path(segsv, empty_rust_path()) == spec_extract_path(
                segsv.skip(i as int),
                RustPathV {
                    idents: idents@.map_values(|n: Name| n@),
                    ident_spans: ident_spans@.map_values(|s: Span| s@),
                    tys: tys@.map_values(|t: &AstTy| t@),
                    bindings: bindings@.map_values(|p: (Name, &AstTy)| (p.0@, p.1@)),
                },
            ),
        decreases segments.len() - i,
    {
        let ghost acc0 = RustPathV {
            idents: idents@.map_values(|n: Name| n@),
            ident_spans: ident_spans@.map_values(|s: Span| s@),
            tys: tys@.map_values(|t: &AstTy| t@),
            bindings: bindings@.map_values(|p: (Name, &AstTy)| (p.0@, p.1@)),
        };
        proof {
            assert(segsv.skip(i as int)[0] == segsv[i as int]);
        }
        let seg = &segments[i];
        if seg.parenthesized {
            return Err(Error::UnsupportedType(seg.span.clone()));
        }
        idents.push(Name::from_text(seg.ident.as_str()));
        ident_spans.push(seg.span.clone());
        proof {
            assert(idents@.map_values(|n: Name| n@) =~= acc0.idents.push(segsv[i as int].ident));
            assert(ident_spans@.map_values(|s: Span| s@) =~= acc0.ident_spans.push(
                segsv[i as int].span,
            ));
        }
        let ghost acc1 = RustPathV {
            idents: acc0.idents.push(segsv[i as int].ident),
            ident_spans: acc0.ident_spans.push(segsv[i as int].span),
            tys: acc0.tys,
            bindings: acc0.bindings,
        };
        let ghost argsv = segsv[i as int].args;
        proof {
            crate::ast::lemma_ast_args_view(seg.args@);
            assert(argsv == crate::ast::spec_ast_args_view(seg.args@));
            assert(argsv.skip(0) =~= argsv);
        }
        let mut j: usize = 0;
        while j < seg.args.len()
            invariant
                j <= seg.args.len(),
                argsv == crate::ast::spec_ast_args_view(seg.args@),
                argsv.len() == seg.args@.len(),
                forall|k: int| 0 <= k < seg.args@.len() ==> argsv[k] == crate::ast::spec_ast_arg_view(
                    seg.args@[k],
                ),
                idents@.len() == ident_spans@.len(),
                idents@.map_values(|n: Name| n@) == acc1.idents,
                ident_spans@.map_values(|s: Span| s@) == acc1.ident_spans,
                spec_extract_args(argsv, acc1) == spec_extract_args(
                    argsv.skip(j as int),
                    RustPathV {
                        idents: acc1.idents,
                        ident_spans: acc1.ident_spans,
                        tys: tys@.map_values(|t: &AstTy| t@),
                        bindings: bindings@.map_values(|p: (Name, &AstTy)| (p.0@, p.1@)),
                    },
                ),
            decreases seg.args.len() - j,
        {
            proof {
                assert(argsv.skip(j as int)[0] == argsv[j as int]);
                assert(argsv.skip(j as int).skip(1) =~= argsv.skip(j + 1));
            }
            let ghost tys_old = tys@;
            let ghost binds_old = bindings@;
            let ghost accj = RustPathV {
                idents: acc1.idents,
                ident_spans: acc1.ident_spans,
                tys: tys_old.map_values(|t: &AstTy| t@),
                bindings: bindings@.map_values(|p: (Name, &AstTy)| (p.0@, p.1@)),
            };
            match &seg.args[j] {
                AstGenArg::Ty(t) => {
                    tys.push(t);
                    proof {
                        assert(tys@.map_values(|t: &AstTy| t@) =~= tys_old.map_values(
                            |t: &AstTy| t@,
                        ).push(t@));
                        assert(crate::ast::spec_ast_arg_view(seg.args@[j as int]) == AstGenArgV::Ty(
                            Box::new(t@),
                        ));
                        assert(spec_extract_args(argsv.skip(j as int), accj) == spec_extract_args(
                            argsv.skip(j + 1),
                            RustPathV {
                                idents: accj.idents,
                                ident_spans: accj.ident_spans,
                                tys: accj.tys.push(t@),
                                bindings: accj.bindings,
                            },
                        ));
                    }
                }
                AstGenArg::Assoc { name, ty } => {
                    let ghost namev = name@;
                    bindings_insert(&mut bindings, Name::from_text(name.as_str()), ty);
                    proof {
                        assert(crate::ast::spec_ast_arg_view(seg.args@[j as int]) == (AstGenArgV::Assoc {
                            name: namev,
                            ty: Box::new(ty@),
                        }));
                        assert(bindings_view(binds_old) == accj.bindings);
                        assert(bindings@.map_values(|p: (Name, &AstTy)| (p.0@, p.1@))
                            =~= bindings_view(bindings@));
                        assert(bindings_view(bindings@) == spec_binsert(accj.bindings, namev, ty@));
                        assert(spec_extract_args(argsv.skip(j as int), accj) == spec_extract_args(
                            argsv.skip(j + 1),
                            RustPathV {
                                idents: accj.idents,
                                ident_spans: accj.ident_spans,
                                tys: accj.tys,
                                bindings: spec_binsert(accj.bindings, namev, ty@),
                            },
                        ));
                    }
                }
                AstGenArg::Other { span } => {
                    return Err(Error::UnsupportedType(span.clone()));
                }
            }
            j = j + 1;
        }
        proof {
            assert(argsv.skip(argsv.len() as int) =~= Seq::<crate::ast::AstGenArgV>::empty());
            assert(spec_extract_args(argsv, acc1) == Ok::<RustPathV, ErrorV>(
                RustPathV {
                    idents: idents@.map_values(|n: Name| n@),
                    ident_spans: ident_spans@.map_values(|x: Span| x@),
                    tys: tys@.map_values(|x: &AstTy| x@),
                    bindings: bindings@.map_values(|p: (Name, &AstTy)| (p.0@, p.1@)),
                },
            ));
            assert(segsv.skip(i as int).skip(1) =~= segsv.skip(i + 1));
        }
        i = i + 1;
    }
    proof {
        assert(segsv.skip(segsv.len() as int) =~= Seq::<AstSegV>::empty());
    }
    Ok(RustPath { idents, ident_spans, tys, bindings })
}

/// Elaborate the collected associated-type bindings, each as an owned type
/// with no pending wrappers.
#[verifier::loop_isolation(false)]
fn elaborate_bindings(
    rec: &QnameMap<Definition>,
    module: &QualifiedName,
    selfq: Option<&SelfTy>,
    bindings: &Vec<(Name, &AstTy)>,
) -> (r: Result<Vec<(Name, Ty)>, Error>)
    requires
        module@.len() > 0,
    ensures
        match r {
            Ok(bs) => spec_elab_bindings(
                rec@,
                module@,
                spec_selfq(selfq),
                bindings@.map_values(|p: (Name, &AstTy)| (p.0@, p.1@)),
                Seq::empty(),
            ) == Ok::<Seq<(Seq<char>, TyV)>, ErrorV>(bindings_view(bs@)),
            Err(e) => spec_elab_bindings(
                rec@,
                module@,
                spec_selfq(selfq),
                bindings@.map_values(|p: (Name, &AstTy)| (p.0@, p.1@)),
                Seq::empty(),
            ) == Err::<Seq<(Seq<char>, TyV)>, ErrorV>(e@),
        },
    decreases ast_bindings_size(bindings@.map_values(|p: (Name, &AstTy)| (p.0@, p.1@))), 2int,
{
    let ghost bsv = bindings@.map_values(|p: (Name, &AstTy)| (p.0@, p.1@));
    let ghost ctx_rec = rec@;
    let ghost ctx_mod = module@;
    let ghost ctx_self = spec_selfq(selfq);
    let mut out: Vec<(Name, Ty)> = Vec::new();
    let empty_mods: Vec<Modifier> = Vec::new();
    proof {
        assert(bsv.skip(0) =~= bsv);
        assert(bindings_view(out@) =~= Seq::<(Seq<char>, TyV)>::empty());
        assert(empty_mods@ =~= Seq::<Modifier>::empty());
    }
    let mut i: usize = 0;
    while i < bindings.len()
        invariant
            i <= bindings.len(),
            bsv == bindings@.map_values(|p: (Name, &AstTy)| (p.0@, p.1@)),
            bsv.len() == bindings@.len(),
            ctx_rec == rec@,
            ctx_mod == module@,
            ctx_self == spec_selfq(selfq),
            empty_mods@ == Seq::<Modifier>::empty(),
            spec_elab_bindings(ctx_rec, ctx_mod, ctx_self, bsv, Seq::empty()) == spec_elab_bindings(
                ctx_rec,
                ctx_mod,
                ctx_self,
                bsv.skip(i as int),
                bindings_view(out@),
            ),
        decreases bindings.len() - i,
    {
        proof {
            assert(bsv.skip(i as int)[0] == bsv[i as int]);
            assert(bsv[i as int] == (bindings@[i as int].0@, bindings@[i as int].1@));
            lemma_ast_bindings_size_elem(bsv, i as int);
        }
        match elaborate_owned_ty(rec, module, selfq, &empty_mods, bindings[i].1) {
            Err(e) => {
                return Err(e);
            }
            Ok(tv) => {
                let ghost out_old = out@;
                let n = bindings[i].0.clone();
                out.push((n, tv));
                proof {
                    assert(bindings_view(out@) =~= bindings_view(out_old).push(
                        (bsv[i as int].0, tv@),
                    ));
                    assert(bsv.skip(i as int).skip(1) =~= bsv.skip(i + 1));
                    assert(spec_elab_bindings(ctx_rec, ctx_mod, ctx_self, bsv.skip(i as int), bindings_view(out_old))
                        == spec_elab_bindings(
                        ctx_rec,
                        ctx_mod,
                        ctx_self,
                        bsv.skip(i + 1),
                        bindings_view(out_old).push((bsv[i as int].0, tv@)),
                    ));
                }
            }
        }
        i = i + 1;
    }
    proof {
        assert(bsv.skip(bsv.len() as int) =~= Seq::<(Seq<char>, crate::ast::AstTyV)>::empty());
    }
    Ok(out)
}

/// Elaborate a list of type arguments, each as an owned type.
#[verifier::loop_isolation(false)]
fn elaborate_owned_tys(
    rec: &QnameMap<Definition>,
    module: &QualifiedName,
    selfq: Option<&SelfTy>,
    modifiers: &Vec<Modifier>,
    tys: &Vec<&AstTy>,
) -> (r: Result<Vec<Ty>, Error>)
    requires
        module@.len() > 0,
    ensures
        match r {
            Ok(out) => spec_elab_owned_tys(
                rec@,
                module@,
                spec_selfq(selfq),
                modifiers@,
                tys@.map_values(|t: &AstTy| t@),
                Seq::empty(),
            ) == Ok::<Seq<TyV>, ErrorV>(out@.map_values(|t: Ty| t@)),
            Err(e) => spec_elab_owned_tys(
                rec@,
                module@,
                spec_selfq(selfq),
                modifiers@,
                tys@.map_values(|t: &AstTy| t@),
                Seq::empty(),
            ) == Err::<Seq<TyV>, ErrorV>(e@),
        },
    decreases ast_tys_size(tys@.map_values(|t: &AstTy| t@)), 2int,
{
    let ghost tysv = tys@.map_values(|t: &AstTy| t@);
    let ghost ctx_rec = rec@;
    let ghost ctx_mod = module@;
    let ghost ctx_self = spec_selfq(selfq);
    let mut out: Vec<Ty> = Vec::new();
    proof {
        assert(tysv.skip(0) =~= tysv);
        assert(out@.map_values(|t: Ty| t@) =~= Seq::<TyV>::empty());
    }
    let mut i: usize = 0;
    while i < tys.len()
        invariant
            i <= tys.len(),
            tysv == tys@.map_values(|t: &AstTy| t@),
            tysv.len() == tys@.len(),
            ctx_rec == rec@,
            ctx_mod == module@,
            ctx_self == spec_selfq(selfq),
            spec_elab_owned_tys(ctx_rec, ctx_mod, ctx_self, modifiers@, tysv, Seq::empty())
                == spec_elab_owned_tys(
                ctx_rec,
                ctx_mod,
                ctx_self,
                modifiers@,
                tysv.skip(i as int),
                out@.map_values(|t: Ty| t@),
            ),
        decreases tys.len() - i,
    {
        proof {
            assert(tysv.skip(i as int)[0] == tysv[i as int]);
            lemma_ast_tys_size_elem(tysv, i as int);
        }
        match elaborate_owned_ty(rec, module, selfq, modifiers, tys[i]) {
            Err(e) => {
                return Err(e);
            }
            Ok(tv) => {
                let ghost out_old = out@;
                let ghost tvv = tv@;
                out.push(tv);
                proof {
                    assert(out@.map_values(|t: Ty| t@) =~= out_old.map_values(|t: Ty| t@).push(tvv));
                    assert(tysv.skip(i as int).skip(1) =~= tysv.skip(i + 1));
                    assert(spec_elab_owned_tys(ctx_rec, ctx_mod, ctx_self, modifiers@, tysv.skip(i as int), out_old.map_values(|t: Ty| t@))
                        == spec_elab_owned_tys(
                        ctx_rec,
                        ctx_mod,
                        ctx_self,
                        modifiers@,
                        tysv.skip(i + 1),
                        out_old.map_values(|t: Ty| t@).push(tvv),
                    ));
                }
            }
        }
        i = i + 1;
    }
    proof {
        assert(tysv.skip(tysv.len() as int) =~= Seq::<crate::ast::AstTyV>::empty());
    }
    Ok(out)
}

/// Try to resolve the remainder of a user path against the recognized
/// definitions, starting below `qname`, from position `from` on.
fn elaborate_user_ty_in_module_relative_to(
    rec: &QnameMap<Definition>,
    qname: &QualifiedName,
    idents: &Vec<Name>,
    ident_spans: &Vec<Span>,
    from: usize,
    tys: &Vec<Ty>,
    err_span: &Span,
) -> (r: Result<Option<Ty>, Error>)
    requires
        from <= idents@.len(),
        idents@.len() == ident_spans@.len(),
    ensures
        match r {
            Ok(Some(t)) => spec_elab_user_rel(
                rec@,
                qname@,
                idents@.map_values(|n: Name| n@).skip(from as int),
                ident_spans@.map_values(|s: Span| s@).skip(from as int),
                tys@.map_values(|t: Ty| t@),
                err_span@,
            ) == Ok::<Option<TyV>, ErrorV>(Some(t@)),
            Ok(None) => spec_elab_user_rel(
                rec@,
                qname@,
                idents@.map_values(|n: Name| n@).skip(from as int),
                ident_spans@.map_values(|s: Span| s@).skip(from as int),
                tys@.map_values(|t: Ty| t@),
                err_span@,
            ) == Ok::<Option<TyV>, ErrorV>(None),
            Err(e) => spec_elab_user_rel(
                rec@,
                qname@,
                idents@.map_values(|n: Name| n@).skip(from as int),
                ident_spans@.map_values(|s: Span| s@).skip(from as int),
                tys@.map_values(|t: Ty| t@),
                err_span@,
            ) == Err::<Option<TyV>, ErrorV>(e@),
        },
    decreases idents@.len() - from,
{
    let ghost iv = idents@.map_values(|n: Name| n@).skip(from as int);
    let ghost sv = ident_spans@.map_values(|s: Span| s@).skip(from as int);
    if from == idents.len() {
        proof {
            assert(iv.len() == 0);
        }
        return Ok(None);
    }
    proof {
        assert(iv[0] == idents@[from as int]@);
        assert(sv[0] == ident_spans@[from as int]@);
    }
    let path = qname.join(&idents[from]);
    match rec.get(&path) {
        None => Ok(None),
        Some(def) => {
            match &def.kind {
                crate::pass1::DefinitionKind::FileModule => {
                    proof {
                        assert(iv.skip(1) =~= idents@.map_values(|n: Name| n@).skip(from + 1));
                        assert(sv.skip(1) =~= ident_spans@.map_values(|s: Span| s@).skip(from + 1));
                    }
                    match elaborate_user_ty_in_module_relative_to(
                        rec,
                        &path,
                        idents,
                        ident_spans,
                        from + 1,
                        tys,
                        err_span,
                    ) {
                        Err(e) => Err(e),
                        Ok(None) => Err(Error::UnresolvedName(err_span.clone())),
                        Ok(Some(t)) => Ok(Some(t)),
                    }
                }
                crate::pass1::DefinitionKind::Function(_) => Err(Error::NotType(err_span.clone())),
                _ => {
                    if tys.len() != 0 {
                        Err(Error::GenericsNotPermitted(err_span.clone()))
                    } else {
                        Ok(Some(Ty::user(ident_spans[from].clone(), &path)))
                    }
                }
            }
        }
    }
}

/// Try to resolve a user path, absolute (rooted at `crate`) or relative to
/// the current module.
fn elaborate_user_type(
    rec: &QnameMap<Definition>,
    module: &QualifiedName,
    idents: &Vec<Name>,
    ident_spans: &Vec<Span>,
    tys: &Vec<Ty>,
    err_span: &Span,
) -> (r: Result<Option<Ty>, Error>)
    requires
        idents@.len() == ident_spans@.len(),
        module@.len() > 0,
    ensures
        match r {
            Ok(Some(t)) => spec_elab_user_type(
                rec@,
                module@,
                idents@.map_values(|n: Name| n@),
                ident_spans@.map_values(|s: Span| s@),
                tys@.map_values(|t: Ty| t@),
                err_span@,
            ) == Ok::<Option<TyV>, ErrorV>(Some(t@)),
            Ok(None) => spec_elab_user_type(
                rec@,
                module@,
                idents@.map_values(|n: Name| n@),
                ident_spans@.map_values(|s: Span| s@),
                tys@.map_values(|t: Ty| t@),
                err_span@,
            ) == Ok::<Option<TyV>, ErrorV>(None),
            Err(e) => spec_elab_user_type(
                rec@,
                module@,
                idents@.map_values(|n: Name| n@),
                ident_spans@.map_values(|s: Span| s@),
                tys@.map_values(|t: Ty| t@),
                err_span@,
            ) == Err::<Option<TyV>, ErrorV>(e@),
        },
{
    let ghost iv = idents@.map_values(|n: Name| n@);
    let is_crate_rooted = idents.len() > 0 && matches!(
        crate::ir_items::str_cmp(idents[0].text.as_str(), "crate"),
        crate::ir_items::Cmp::Eq,
    );
    if is_crate_rooted {
        proof {
            assert(iv[0] == "crate"@);
            assert(iv.skip(1) =~= idents@.map_values(|n: Name| n@).skip(1));
        }
        let crate_name = module.just_crate();
        match elaborate_user_ty_in_module_relative_to(
            rec,
            &crate_name,
            idents,
            ident_spans,
            1,
            tys,
            err_span,
        ) {
            Err(e) => Err(e),
            Ok(None) => Err(Error::UnresolvedName(err_span.clone())),
            Ok(Some(t)) => Ok(Some(t)),
        }
    } else {
        proof {
            if idents@.len() > 0 {
                assert(iv[0] == idents@[0]@);
            }
            assert(iv.skip(0) =~= iv);
            assert(ident_spans@.map_values(|s: Span| s@).skip(0) =~= ident_spans@.map_values(
                |s: Span| s@,
            ));
        }
        elaborate_user_ty_in_module_relative_to(rec, module, idents, ident_spans, 0, tys, err_span)
    }
}

#[via_fn]
proof fn spec_elab_bounds_decreases(
    rec: DefsV,
    module: Seq<Seq<char>>,
    selfq: Option<SelfTyV>,
    modifiers: Seq<Modifier>,
    ty_span: SpanV,
    bounds: Seq<AstBoundV>,
) {
    if bounds.len() > 0 {
        assert(ast_bounds_size(bounds) == ast_bound_size(bounds[0]) + ast_bounds_size(
            bounds.skip(1),
        ));
        if let AstBoundV::Trait { segments, span } = bounds[0] {
            assert(ast_bound_size(bounds[0]) == 1 + ast_segs_size(segments));
            lemma_extract_path_sizes(segments, empty_rust_path());
            match spec_extract_path(segments, empty_rust_path()) {
                Err(_) => {}
                Ok(rp) => {
                    if rp.tys.len() >= 1 {
                        lemma_ast_tys_size_elem(rp.tys, 0);
                    }
                }
            }
        }
    }
}


/// Elaborate a type expression under the pending wrappers.
pub fn elaborate_ty(
    rec: &QnameMap<Definition>,
    module: &QualifiedName,
    selfq: Option<&SelfTy>,
    modifiers: &Vec<Modifier>,
    t: &AstTy,
) -> (r: Result<RefdTy, Error>)
    requires
        module@.len() > 0,
    ensures
        match r {
            Ok(v) => spec_elaborate_ty(rec@, module@, spec_selfq(selfq), modifiers@, t@)
                == Ok::<RefdTyV, ErrorV>(v@),
            Err(e) => spec_elaborate_ty(rec@, module@, spec_selfq(selfq), modifiers@, t@)
                == Err::<RefdTyV, ErrorV>(e@),
        },
    decreases ast_ty_size(t@), 0int,
{
    proof {
        assert(ast_ty_size(t@) == 1 + crate::ast::ast_ty_kind_size(*t@.kind));
    }
    match &*t.kind {
        crate::ast::AstTyKind::Group { elem } => {
            proof {
                assert(*t@.kind == crate::ast::spec_ast_ty_kind_view(*t.kind));
            }
            elaborate_ty(rec, module, selfq, modifiers, elem)
        }
        crate::ast::AstTyKind::ImplTrait { bounds } => {
            elaborate_impl_trait_ty(rec, module, selfq, modifiers, &t.span, bounds)
        }
        crate::ast::AstTyKind::Path { qself, segments } => {
            if *qself {
                Err(Error::UnsupportedType(t.span.clone()))
            } else {
                elaborate_ty_from_path(rec, module, selfq, modifiers, &t.span, segments)
            }
        }
        crate::ast::AstTyKind::Reference { mutable, named_lifetime, elem } => {
            if *mutable {
                Err(Error::UnsupportedType(t.span.clone()))
            } else if *named_lifetime {
                Err(Error::UnsupportedType(t.span.clone()))
            } else {
                let mut m2 = clone_modifiers(modifiers);
                m2.push(Modifier::Ref(RefKind::AnonRef));
                elaborate_ty(rec, module, selfq, &m2, elem)
            }
        }
        crate::ast::AstTyKind::Slice { elem } => {
            if modifiers.len() == 1 {
                let r = match modifiers[0] {
                    Modifier::Ref(rk) => rk,
                };
                let empty_mods: Vec<Modifier> = Vec::new();
                proof {
                    assert(empty_mods@ =~= Seq::<Modifier>::empty());
                }
                match elaborate_owned_ty(rec, module, selfq, &empty_mods, elem) {
                    Err(e) => Err(e),
                    Ok(element) => Ok(
                        Ty::new(
                            t.span.clone(),
                            TypeKind::Vec { element, repr: crate::ir_types::VecRepr::SliceRef },
                        ).refd(r),
                    ),
                }
            } else {
                Err(Error::UnsupportedType(t.span.clone()))
            }
        }
        crate::ast::AstTyKind::Tuple { elems } => {
            let ghost elemsv = crate::ast::spec_ast_tys_view(elems@);
            let mut elem_refs: Vec<&AstTy> = Vec::new();
            let mut i: usize = 0;
            while i < elems.len()
                invariant
                    i <= elems.len(),
                    elem_refs@.len() == i as int,
                    forall|j: int| 0 <= j < i ==> elem_refs@[j] == &elems@[j],
                decreases elems.len() - i,
            {
                elem_refs.push(&elems[i]);
                i = i + 1;
            }
            proof {
                crate::ast::lemma_ast_tys_view(elems@);
                assert(elem_refs@.map_values(|x: &AstTy| x@) =~= elemsv);
                assert(ast_tys_size(elemsv) < ast_ty_size(t@));
            }
            let empty_mods: Vec<Modifier> = Vec::new();
            proof {
                assert(empty_mods@ =~= Seq::<Modifier>::empty());
            }
            match elaborate_owned_tys(rec, module, selfq, &empty_mods, &elem_refs) {
                Err(e) => Err(e),
                Ok(tys) => {
                    let n = tys.len();
                    let ghost gtys = tys@;
                    proof {
                        crate::ir_types::lemma_tys_view_is_map(gtys);
                    }
                    let tuple_ty = Ty::new(
                        t.span.clone(),
                        TypeKind::Tuple { elements: tys, repr: crate::ir_types::TupleRepr::Tuple(n) },
                    );
                    maybe_referenced(modifiers, &t.span, tuple_ty)
                }
            }
        }
        crate::ast::AstTyKind::Other => Err(Error::UnsupportedType(t.span.clone())),
    }
}

/// Elaborate a type that must come out owned.
pub fn elaborate_owned_ty(
    rec: &QnameMap<Definition>,
    module: &QualifiedName,
    selfq: Option<&SelfTy>,
    modifiers: &Vec<Modifier>,
    t: &AstTy,
) -> (r: Result<Ty, Error>)
    requires
        module@.len() > 0,
    ensures
        match r {
            Ok(v) => spec_elab_owned_ty(rec@, module@, spec_selfq(selfq), modifiers@, t@)
                == Ok::<TyV, ErrorV>(v@),
            Err(e) => spec_elab_owned_ty(rec@, module@, spec_selfq(selfq), modifiers@, t@)
                == Err::<TyV, ErrorV>(e@),
        },
    decreases ast_ty_size(t@), 1int,
{
    match elaborate_ty(rec, module, selfq, modifiers, t) {
        Err(e) => Err(e),
        Ok(RefdTy::Owned(ty)) => Ok(ty),
        Ok(RefdTy::Ref(_, _)) => Err(Error::UnsupportedType(t.span.clone())),
    }
}

/// Resolve a written path: `Self`, then the known-type table, then the
/// user's own declarations.
fn elaborate_ty_from_path(
    rec: &QnameMap<Definition>,
    module: &QualifiedName,
    selfq: Option<&SelfTy>,
    modifiers: &Vec<Modifier>,
    span: &Span,
    segments: &Vec<AstSeg>,
) -> (r: Result<RefdTy, Error>)
    requires
        module@.len() > 0,
    ensures
        match r {
            Ok(v) => spec_elab_from_path(
                rec@,
                module@,
                spec_selfq(selfq),
                modifiers@,
                span@,
                crate::ast::spec_ast_segs_view(segments@),
            ) == Ok::<RefdTyV, ErrorV>(v@),
            Err(e) => spec_elab_from_path(
                rec@,
                module@,
                spec_selfq(selfq),
                modifiers@,
                span@,
                crate::ast::spec_ast_segs_view(segments@),
            ) == Err::<RefdTyV, ErrorV>(e@),
        },
    decreases ast_segs_size(crate::ast::spec_ast_segs_view(segments@)), 5int,
{
    let ghost segsv = crate::ast::spec_ast_segs_view(segments@);
    let rp = match elaborate_path(segments) {
        Err(e) => {
            return Err(e);
        }
        Ok(rp) => rp,
    };
    proof {
        lemma_extract_path_sizes(segsv, empty_rust_path());
        assert(ast_bindings_size(rp@.bindings) <= ast_segs_size(segsv));
        assert(ast_tys_size(rp@.tys) <= ast_segs_size(segsv));
    }
    let bindings = match elaborate_bindings(rec, module, selfq, &rp.bindings) {
        Err(e) => {
            return Err(e);
        }
        Ok(bs) => bs,
    };
    let is_self = rp.idents.len() == 1 && matches!(
        crate::ir_items::str_cmp(rp.idents[0].text.as_str(), "Self"),
        crate::ir_items::Cmp::Eq,
    );
    proof {
        if is_self {
            assert(rp@.idents =~= seq!["Self"@]);
        } else {
            if rp@.idents == seq!["Self"@] {
                assert(rp@.idents[0] == "Self"@);
                assert(rp.idents@[0]@ == "Self"@);
            }
        }
    }
    if is_self {
        match selfq {
            Some(st) => {
                let self_ty = Ty::user(st.span.clone(), &st.qname);
                maybe_referenced(modifiers, span, self_ty)
            }
            None => Err(Error::UnresolvedName(span.clone())),
        }
    } else {
        match match_known_type(&rp.idents) {
            Some(shape) => {
                match elaborate_owned_tys(rec, module, selfq, modifiers, &rp.tys) {
                    Err(e) => Err(e),
                    Ok(tys) => make_known_type(shape, span.clone(), modifiers, tys, bindings),
                }
            }
            None => {
                let empty_mods: Vec<Modifier> = Vec::new();
                proof {
                    assert(empty_mods@ =~= Seq::<Modifier>::empty());
                }
                match elaborate_owned_tys(rec, module, None, &empty_mods, &rp.tys) {
                    Err(e) => Err(e),
                    Ok(tys) => {
                        match elaborate_user_type(
                            rec,
                            module,
                            &rp.idents,
                            &rp.ident_spans,
                            &tys,
                            span,
                        ) {
                            Err(e) => Err(e),
                            Ok(None) => Err(Error::UnresolvedName(span.clone())),
                            Ok(Some(user_ty)) => {
                                if bindings.len() != 0 {
                                    Err(Error::BindingNotExpected(span.clone()))
                                } else {
                                    maybe_referenced(modifiers, span, user_ty)
                                }
                            }
                        }
                    }
                }
            }
        }
    }
}

/// Elaborate an `impl Trait` type by its first recognized trait bound.
#[verifier::loop_isolation(false)]
#[verifier::rlimit(100)]
#[verifier::spinoff_prover]
fn elaborate_impl_trait_ty(
    rec: &QnameMap<Definition>,
    module: &QualifiedName,
    selfq: Option<&SelfTy>,
    modifiers: &Vec<Modifier>,
    ty_span: &Span,
    bounds: &Vec<AstBound>,
) -> (r: Result<RefdTy, Error>)
    requires
        module@.len() > 0,
    ensures
        match r {
            Ok(v) => spec_elab_bounds(
                rec@,
                module@,
                spec_selfq(selfq),
                modifiers@,
                ty_span@,
                crate::ast::spec_ast_bounds_view(bounds@),
            ) == Ok::<RefdTyV, ErrorV>(v@),
            Err(e) => spec_elab_bounds(
                rec@,
                module@,
                spec_selfq(selfq),
                modifiers@,
                ty_span@,
                crate::ast::spec_ast_bounds_view(bounds@),
            ) == Err::<RefdTyV, ErrorV>(e@),
        },
    decreases ast_bounds_size(crate::ast::spec_ast_bounds_view(bounds@)), 5int,
{
    let ghost bv = crate::ast::spec_ast_bounds_view(bounds@);
    let ghost ctx_rec = rec@;
    let ghost ctx_mod = module@;
    let ghost ctx_self = spec_selfq(selfq);
    proof {
        crate::ast::lemma_ast_bounds_view(bounds@);
        assert(bv.skip(0) =~= bv);
    }
    let mut i: usize = 0;
    while i < bounds.len()
        invariant
            i <= bounds.len(),
            module@.len() > 0,
            bv == crate::ast::spec_ast_bounds_view(bounds@),
            bv.len() == bounds@.len(),
            forall|j: int| 0 <= j < bounds@.len() ==> bv[j] == crate::ast::spec_ast_bound_view(
                bounds@[j],
            ),
            ctx_rec == rec@,
            ctx_mod == module@,
            ctx_self == spec_selfq(selfq),
            spec_elab_bounds(ctx_rec, ctx_mod, ctx_self, modifiers@, ty_span@, bv)
                == spec_elab_bounds(
                ctx_rec,
                ctx_mod,
                ctx_self,
                modifiers@,
                ty_span@,
                bv.skip(i as int),
            ),
        decreases bounds.len() - i,
    {
        proof {
            assert(bv.skip(i as int)[0] == bv[i as int]);
            assert(bv.skip(i as int).skip(1) =~= bv.skip(i + 1));
        }
        match &bounds[i] {
            AstBound::Trait { segments, span } => {
                let ghost segsv = crate::ast::spec_ast_segs_view(segments@);
                proof {
                    crate::ast::lemma_ast_bounds_size_elem(bv, i as int);
                    assert(ast_bound_size(bv[i as int]) == 1 + ast_segs_size(segsv));
                }
                let rp = match elaborate_path(segments) {
                    Err(e) => {
                        return Err(e);
                    }
                    Ok(rp) => rp,
                };
                proof {
                    lemma_extract_path_sizes(segsv, empty_rust_path());
                    assert(ast_bindings_size(rp@.bindings) <= ast_segs_size(segsv));
                    assert(ast_tys_size(rp@.tys) <= ast_segs_size(segsv));
                }
                let bindings = match elaborate_bindings(rec, module, selfq, &rp.bindings) {
                    Err(e) => {
                        return Err(e);
                    }
                    Ok(bs) => bs,
                };
                match match_known_bound(&rp.idents) {
                    None => {
                        return Err(Error::UnsupportedType(span.clone()));
                    }
                    Some(KnownBound::AsRefBound) => {
                        if rp.tys.len() != 1 {
                            return Err(Error::UnsupportedType(ty_span.clone()));
                        }
                        proof {
                            lemma_ast_tys_size_elem(rp@.tys, 0);
                            assert(rp@.tys[0] == rp.tys@[0]@);
                        }
                        let mut m2 = clone_modifiers(modifiers);
                        m2.push(Modifier::Ref(RefKind::ImplAsRef));
                        return elaborate_ty(rec, module, selfq, &m2, rp.tys[0]);
                    }
                    Some(b) => {
                        match elaborate_owned_tys(rec, module, selfq, modifiers, &rp.tys) {
                            Err(e) => {
                                return Err(e);
                            }
                            Ok(tys) => {
                                return make_known_bound(b, ty_span.clone(), modifiers, tys, bindings);
                            }
                        }
                    }
                }
            }
            AstBound::Lifetime { is_static, span } => {
                if !*is_static {
                    return Err(Error::UnsupportedType(span.clone()));
                }
            }
            AstBound::PreciseCapture => {}
            AstBound::Other { span } => {
                return Err(Error::UnsupportedType(span.clone()));
            }
        }
        i = i + 1;
    }
    proof {
        assert(bv.skip(bv.len() as int) =~= Seq::<AstBoundV>::empty());
    }
    Err(Error::UnsupportedType(ty_span.clone()))
}


/// Decimal digits of a number, most significant first.
pub open spec fn spec_digits(n: nat) -> Seq<char>
    decreases n,
{
    if n < 10 {
        seq![spec_digit(n)]
    } else {
        spec_digits(n / 10).push(spec_digit(n % 10))
    }
}

/// The character for one decimal digit.
pub open spec fn spec_digit(d: nat) -> char {
    if d == 0 {
        '0'
    } else if d == 1 {
        '1'
    } else if d == 2 {
        '2'
    } else if d == 3 {
        '3'
    } else if d == 4 {
        '4'
    } else if d == 5 {
        '5'
    } else if d == 6 {
        '6'
    } else if d == 7 {
        '7'
    } else if d == 8 {
        '8'
    } else {
        '9'
    }
}

/// The name given to the positional field at `index`: `f0`, `f1`, ...
pub open spec fn spec_index_name(index: nat) -> Seq<char> {
    seq!['f'] + spec_digits(index)
}

/// Elaborate one record or variant-arm field: a named field keeps its name,
/// a positional one is named after its index.
pub open spec fn spec_elab_field(
    rec: DefsV,
    module: Seq<Seq<char>>,
    selfq: Option<SelfTyV>,
    index: nat,
    f: crate::ast::AstFieldV,
) -> Result<crate::ir_items::FieldV, ErrorV> {
    match spec_elab_owned_ty(rec, module, selfq, Seq::empty(), f.ty) {
        Err(e) => Err(e),
        Ok(ty) => Ok(crate::ir_items::FieldV {
            span: f.span,
            name: match f.name {
                Some(n) => n,
                None => spec_index_name(index),
            },
            ty,
        }),
    }
}

/// Elaborate a list of fields in order.
pub open spec fn spec_elab_fields(
    rec: DefsV,
    module: Seq<Seq<char>>,
    selfq: Option<SelfTyV>,
    fields: Seq<crate::ast::AstFieldV>,
    index: nat,
    acc: Seq<crate::ir_items::FieldV>,
) -> Result<Seq<crate::ir_items::FieldV>, ErrorV>
    decreases fields.len(),
{
    if fields.len() == 0 {
        Ok(acc)
    } else {
        match spec_elab_field(rec, module, selfq, index, fields[0]) {
            Err(e) => Err(e),
            Ok(f) => spec_elab_fields(rec, module, selfq, fields.skip(1), index + 1, acc.push(f)),
        }
    }
}

/// Elaborate a list of signature element types, each under no pending
/// wrappers, keeping the reference information.
pub open spec fn spec_elab_refd_tys(
    rec: DefsV,
    module: Seq<Seq<char>>,
    selfq: Option<SelfTyV>,
    tys: Seq<AstTyV>,
    acc: Seq<RefdTyV>,
) -> Result<Seq<RefdTyV>, ErrorV>
    decreases tys.len(),
{
    if tys.len() == 0 {
        Ok(acc)
    } else {
        match spec_elaborate_ty(rec, module, selfq, Seq::empty(), tys[0]) {
            Err(e) => Err(e),
            Ok(t) => spec_elab_refd_tys(rec, module, selfq, tys.skip(1), acc.push(t)),
        }
    }
}

/// The first trait bound of an `impl Trait` type, skipping `'static`
/// lifetime bounds and precise captures; any other bound kind fails, and a
/// bound list without a trait bound yields nothing.
pub open spec fn spec_first_trait_bound(bounds: Seq<AstBoundV>) -> Result<
    Option<(Seq<AstSegV>, SpanV)>,
    ErrorV,
>
    decreases bounds.len(),
{
    if bounds.len() == 0 {
        Ok(None)
    } else {
        match bounds[0] {
            AstBoundV::Trait { segments, span } => Ok(Some((segments, span))),
            AstBoundV::Lifetime { is_static, span } => if is_static {
                spec_first_trait_bound(bounds.skip(1))
            } else {
                Err(ErrorV::UnsupportedType(span))
            },
            AstBoundV::PreciseCapture => spec_first_trait_bound(bounds.skip(1)),
            AstBoundV::Other { span } => Err(ErrorV::UnsupportedType(span)),
        }
    }
}

/// The first trait bound's path is smaller than the whole bound list.
proof fn lemma_first_trait_bound_size(bounds: Seq<AstBoundV>)
    ensures
        spec_first_trait_bound(bounds) matches Ok(Some(found)) ==> crate::ast::ast_segs_size(
            found.0,
        ) < crate::ast::ast_bounds_size(bounds),
    decreases bounds.len(),
{
    if bounds.len() > 0 {
        assert(crate::ast::ast_bounds_size(bounds) == ast_bound_size(bounds[0])
            + crate::ast::ast_bounds_size(bounds.skip(1)));
        match bounds[0] {
            AstBoundV::Trait { segments, span } => {
                assert(ast_bound_size(bounds[0]) == 1 + crate::ast::ast_segs_size(segments));
            }
            AstBoundV::Lifetime { is_static, span } => {
                if is_static {
                    lemma_first_trait_bound_size(bounds.skip(1));
                }
            }
            AstBoundV::PreciseCapture => {
                lemma_first_trait_bound_size(bounds.skip(1));
            }
            AstBoundV::Other { span } => {}
        }
    }
}

/// A binding's type is smaller than the bindings it was found among.
proof fn lemma_bget_raw_size(bs: Seq<(Seq<char>, crate::ast::AstTyV)>, k: Seq<char>)
    ensures
        crate::known_rust::spec_bget(bs, k) matches Some(v) ==> ast_ty_size(v)
            < ast_bindings_size(bs),
    decreases bs.len(),
{
    if bs.len() > 0 {
        assert(ast_bindings_size(bs) == 1 + ast_ty_size(bs[0].1) + ast_bindings_size(bs.skip(1)));
        if bs[0].0 != k {
            lemma_bget_raw_size(bs.skip(1), k);
        }
    }
}

/// Elaborate a declared return type, unwrapping the special result shapes:
/// a two-argument `Result` yields its error type; the one-argument catch-all
/// `Result` convention yields the opaque error; a future recurses into its
/// `Output` before the unwrapping and marks the signature asynchronous (a
/// future returned from an already-async function fails); anything else is
/// the plain main type. Returns the main type with its reference
/// information, the optional error type, and whether the signature counts as
/// asynchronous.
pub open spec fn spec_elab_returned_ty(
    rec: DefsV,
    module: Seq<Seq<char>>,
    selfq: Option<SelfTyV>,
    t: AstTyV,
    is_async: bool,
) -> Result<(RefdTyV, Option<TyV>, bool), ErrorV>
    decreases ast_ty_size(t),
    via spec_elab_returned_ty_decreases
{
    match *t.kind {
        AstTyKindV::Group { elem } => spec_elab_returned_ty(rec, module, selfq, *elem, is_async),
        AstTyKindV::ImplTrait { bounds } => match spec_first_trait_bound(bounds) {
            Err(e) => Err(e),
            Ok(None) => spec_elab_returned_fallback(rec, module, selfq, t, is_async),
            Ok(Some(found)) => match spec_extract_path(found.0, empty_rust_path()) {
                Err(e) => Err(e),
                Ok(rp) => if spec_match_known_bound(rp.idents) == Some(KnownBound::FutureBound) {
                    if rp.tys.len() != 0 {
                        Err(ErrorV::UnsupportedUseOfType(t.span))
                    } else {
                        match crate::known_rust::spec_bget(rp.bindings, "Output"@) {
                            None => Err(ErrorV::BindingNotFound(t.span, "Output"@)),
                            Some(output) => if rp.bindings.len() != 1 {
                                Err(ErrorV::UnsupportedUseOfType(t.span))
                            } else if is_async {
                                Err(ErrorV::DoubleAsync(t.span))
                            } else {
                                spec_elab_returned_ty(rec, module, selfq, output, true)
                            },
                        }
                    }
                } else {
                    spec_elab_returned_fallback(rec, module, selfq, t, is_async)
                },
            },
        },
        AstTyKindV::Path { qself, segments } => if qself {
            Err(ErrorV::UnsupportedType(t.span))
        } else {
            match spec_extract_path(segments, empty_rust_path()) {
                Err(e) => Err(e),
                Ok(rp) => match spec_elab_bindings(rec, module, selfq, rp.bindings, Seq::empty()) {
                    Err(e) => Err(e),
                    Ok(bindings) => {
                        if crate::known_rust::spec_path_matches(
                            rp.idents,
                            seq!["std"@, "result"@, "Result"@],
                        ) {
                            if bindings.len() != 0 {
                                Err(ErrorV::BindingNotExpected(t.span))
                            } else {
                                match spec_elab_refd_tys(rec, module, selfq, rp.tys, Seq::empty()) {
                                    Err(e) => Err(e),
                                    Ok(tys) => if tys.len() == 2 {
                                        match tys[1] {
                                            RefdTyV::Owned(err) => Ok(
                                                (tys[0], Some(err), is_async),
                                            ),
                                            RefdTyV::Ref(k, _) => Err(ErrorV::ReferenceType(t.span, k)),
                                        }
                                    } else {
                                        spec_elab_returned_catch_all(
                                            rec,
                                            module,
                                            selfq,
                                            t,
                                            rp.idents,
                                            tys,
                                            is_async,
                                        )
                                    },
                                }
                            }
                        } else if crate::known_rust::spec_path_matches(
                            rp.idents,
                            seq!["anyhow"@, "Result"@],
                        ) {
                            if bindings.len() != 0 {
                                Err(ErrorV::BindingNotExpected(t.span))
                            } else {
                                match spec_elab_refd_tys(rec, module, selfq, rp.tys, Seq::empty()) {
                                    Err(e) => Err(e),
                                    Ok(tys) => spec_elab_returned_catch_all(
                                        rec,
                                        module,
                                        selfq,
                                        t,
                                        rp.idents,
                                        tys,
                                        is_async,
                                    ),
                                }
                            }
                        } else {
                            spec_elab_returned_fallback(rec, module, selfq, t, is_async)
                        }
                    }
                },
            }
        },
        _ => spec_elab_returned_fallback(rec, module, selfq, t, is_async),
    }
}

#[via_fn]
proof fn spec_elab_returned_ty_decreases(
    rec: DefsV,
    module: Seq<Seq<char>>,
    selfq: Option<SelfTyV>,
    t: AstTyV,
    is_async: bool,
) {
    assert(ast_ty_size(t) == 1 + crate::ast::ast_ty_kind_size(*t.kind));
    if let AstTyKindV::ImplTrait { bounds } = *t.kind {
        lemma_first_trait_bound_size(bounds);
        match spec_first_trait_bound(bounds) {
            Err(_) => {}
            Ok(None) => {}
            Ok(Some(found)) => {
                lemma_extract_path_sizes(found.0, empty_rust_path());
                match spec_extract_path(found.0, empty_rust_path()) {
                    Err(_) => {}
                    Ok(rp) => {
                        lemma_bget_raw_size(rp.bindings, "Output"@);
                    }
                }
            }
        }
    }
}

/// The one-argument catch-all convention: a path matching the ambient
/// `Result` alias applied to exactly one type yields that type with the
/// opaque error; anything else is the plain fallback.
pub open spec fn spec_elab_returned_catch_all(
    rec: DefsV,
    module: Seq<Seq<char>>,
    selfq: Option<SelfTyV>,
    t: AstTyV,
    idents: Seq<Seq<char>>,
    tys: Seq<RefdTyV>,
    is_async: bool,
) -> Result<(RefdTyV, Option<TyV>, bool), ErrorV> {
    if crate::known_rust::spec_path_matches(idents, seq!["anyhow"@, "Result"@]) && tys.len() == 1 {
        Ok(
            (
                tys[0],
                Some(
                    mk_ty(
                        t.span,
                        TypeKindV::Error { repr: crate::ir_types::ErrorRepr::AnyhowError },
                    ),
                ),
                is_async,
            ),
        )
    } else {
        spec_elab_returned_fallback(rec, module, selfq, t, is_async)
    }
}

/// The fallback return elaboration: the type itself, with no error type.
pub open spec fn spec_elab_returned_fallback(
    rec: DefsV,
    module: Seq<Seq<char>>,
    selfq: Option<SelfTyV>,
    t: AstTyV,
    is_async: bool,
) -> Result<(RefdTyV, Option<TyV>, bool), ErrorV> {
    match spec_elaborate_ty(rec, module, selfq, Seq::empty(), t) {
        Err(e) => Err(e),
        Ok(r) => Ok((r, None, is_async)),
    }
}

/// Elaborate a return-type position: the default return is the unit type.
pub open spec fn spec_elab_return_ty(
    rec: DefsV,
    module: Seq<Seq<char>>,
    selfq: Option<SelfTyV>,
    output: Option<AstTyV>,
    output_span: SpanV,
    is_async: bool,
) -> Result<(RefdTyV, Option<TyV>, bool), ErrorV> {
    match output {
        None => Ok(
            (
                RefdTyV::Owned(
                    mk_ty(
                        output_span,
                        TypeKindV::Tuple {
                            elements: Seq::empty(),
                            repr: crate::ir_types::TupleRepr::Tuple(0),
                        },
                    ),
                ),
                None,
                is_async,
            ),
        ),
        Some(t) => spec_elab_returned_ty(rec, module, selfq, t, is_async),
    }
}

/// Elaborate the non-receiver inputs of a signature in order. Each pattern
/// must be a single identifier; each type keeps only the type under its
/// optional reference.
pub open spec fn spec_elab_inputs(
    rec: DefsV,
    module: Seq<Seq<char>>,
    selfq: Option<SelfTyV>,
    inputs: Seq<crate::ast::AstInputV>,
    acc: Seq<crate::ir_items::FunctionInputV>,
) -> Result<Seq<crate::ir_items::FunctionInputV>, ErrorV>
    decreases inputs.len(),
{
    if inputs.len() == 0 {
        Ok(acc)
    } else {
        let input = inputs[0];
        match spec_elaborate_ty(rec, module, selfq, Seq::empty(), input.ty) {
            Err(e) => Err(e),
            Ok(tyr) => match input.name {
                None => Err(ErrorV::UnsupportedInputPattern(input.span)),
                Some(name) => spec_elab_inputs(
                    rec,
                    module,
                    selfq,
                    inputs.skip(1),
                    acc.push(
                        crate::ir_items::FunctionInputV {
                            span: input.span,
                            name,
                            ty: crate::ir_types::spec_refd_inner(tyr),
                        },
                    ),
                ),
            },
        }
    }
}

/// The receiver's shape, or the explicit-self error.
pub open spec fn spec_self_kind(
    receiver: Option<crate::ast::AstReceiverV>,
) -> Result<Option<crate::ir_items::SelfKind>, ErrorV> {
    match receiver {
        None => Ok(None),
        Some(r) => if r.colon {
            Err(ErrorV::ExplicitSelfNotSupported(r.colon_span))
        } else if !r.reference {
            Ok(Some(crate::ir_items::SelfKind::ByValue))
        } else if !r.mutable {
            Ok(Some(crate::ir_items::SelfKind::ByRef))
        } else {
            Ok(Some(crate::ir_items::SelfKind::ByRefMut))
        },
    }
}

/// Elaborate a whole signature into a categorized method: receiver shape,
/// inputs, return unwrapping, and categorization (a `new` with no receiver
/// returning the owning type by value is the constructor; a by-value
/// receiver returning the owning type is a builder; otherwise the receiver
/// decides).
pub open spec fn spec_elab_fn_sig(
    rec: DefsV,
    module: Seq<Seq<char>>,
    selfq: Option<SelfTyV>,
    sig: crate::ast::AstSigV,
) -> Result<crate::ir_items::MethodV, ErrorV> {
    if sig.generics > 0 {
        Err(ErrorV::GenericsNotPermitted(sig.generics_span))
    } else {
        match spec_self_kind(sig.receiver) {
            Err(e) => Err(e),
            Ok(self_kind) => match spec_elab_inputs(rec, module, selfq, sig.inputs, Seq::empty()) {
                Err(e) => Err(e),
                Ok(inputs) => match spec_elab_return_ty(
                    rec,
                    module,
                    selfq,
                    sig.output,
                    sig.output_span,
                    sig.is_async,
                ) {
                    Err(e) => Err(e),
                    Ok((main, error_ty, is_async)) => {
                        let output_is_self = match (selfq, main) {
                            (Some(sq), RefdTyV::Owned(t)) => crate::ir_types::spec_is_user_of(
                                t,
                                sq.qname,
                            ),
                            _ => false,
                        };
                        let category = match self_kind {
                            None => if sig.name == "new"@ && output_is_self {
                                crate::ir_items::MethodCategory::Constructor
                            } else {
                                crate::ir_items::MethodCategory::StaticMethod
                            },
                            Some(crate::ir_items::SelfKind::ByValue) => if output_is_self {
                                crate::ir_items::MethodCategory::BuilderMethod(
                                    crate::ir_items::SelfKind::ByValue,
                                )
                            } else {
                                crate::ir_items::MethodCategory::InstanceMethod(
                                    crate::ir_items::SelfKind::ByValue,
                                )
                            },
                            Some(k) => crate::ir_items::MethodCategory::InstanceMethod(k),
                        };
                        Ok(
                            crate::ir_items::MethodV {
                                span: sig.name_span,
                                category,
                                name: sig.name,
                                signature: crate::ir_items::SignatureV {
                                    is_async: if is_async {
                                        crate::ir_items::IsAsync::Yes
                                    } else {
                                        crate::ir_items::IsAsync::No
                                    },
                                    inputs,
                                    output_ty: crate::ir_items::FunctionOutputV {
                                        main_ty: crate::ir_types::spec_refd_inner(main),
                                        error_ty,
                                    },
                                },
                            },
                        )
                    }
                },
            },
        }
    }
}

/// The members of one inherent implementation block: public non-ignored
/// functions become methods; other members must be ignorable.
pub open spec fn spec_elab_impl_members(
    rec: DefsV,
    module: Seq<Seq<char>>,
    selfq: Option<SelfTyV>,
    impl_generics: nat,
    impl_generics_span: SpanV,
    members: Seq<crate::ast::AstImplMemberV>,
    acc: Seq<crate::ir_items::MethodV>,
) -> Result<Seq<crate::ir_items::MethodV>, ErrorV>
    decreases members.len(),
{
    if members.len() == 0 {
        Ok(acc)
    } else {
        let step: Result<Seq<crate::ir_items::MethodV>, ErrorV> = match members[0] {
            crate::ast::AstImplMemberV::Fn { span, vis, attrs, sig } => if crate::pass1::spec_ignore(
                vis,
                attrs,
            ) {
                Ok(acc)
            } else if impl_generics > 0 {
                Err(ErrorV::GenericsNotPermitted(impl_generics_span))
            } else {
                match spec_elab_fn_sig(rec, module, selfq, sig) {
                    Err(e) => Err(e),
                    Ok(m) => Ok(acc.push(m)),
                }
            },
            crate::ast::AstImplMemberV::Const { span, vis, attrs } => if crate::pass1::spec_ignore(
                vis,
                attrs,
            ) {
                Ok(acc)
            } else {
                Err(ErrorV::UnsupportedItem(span))
            },
            crate::ast::AstImplMemberV::TypeAlias { span, vis, attrs } => if crate::pass1::spec_ignore(
                vis,
                attrs,
            ) {
                Ok(acc)
            } else {
                Err(ErrorV::UnsupportedItem(span))
            },
            crate::ast::AstImplMemberV::Macro { span, attrs } => if crate::pass1::spec_ignore_from_attrs(
                attrs,
            ) {
                Ok(acc)
            } else {
                Err(ErrorV::UnsupportedItem(span))
            },
            crate::ast::AstImplMemberV::Verbatim { span } => Err(ErrorV::UnsupportedItem(span)),
            crate::ast::AstImplMemberV::Other { span } => Err(ErrorV::UnrecognizedItem(span)),
        };
        match step {
            Err(e) => Err(e),
            Ok(acc2) => spec_elab_impl_members(
                rec,
                module,
                selfq,
                impl_generics,
                impl_generics_span,
                members.skip(1),
                acc2,
            ),
        }
    }
}

/// Whether a top-level item is an inherent implementation block for the
/// declaration named `ident`.
pub open spec fn spec_is_inherent_impl(item: crate::ast::AstItemV, ident: Seq<char>) -> bool {
    match item {
        crate::ast::AstItemV::Impl(im) => !im.is_trait_impl && im.self_ty_name == Some(ident),
        _ => false,
    }
}

/// Collect the methods of a declaration by scanning every inherent
/// implementation block in the file whose self type names it.
pub open spec fn spec_elab_methods(
    rec: DefsV,
    module: Seq<Seq<char>>,
    selfq: Option<SelfTyV>,
    items: Seq<crate::ast::AstItemV>,
    ident: Seq<char>,
    acc: Seq<crate::ir_items::MethodV>,
) -> Result<Seq<crate::ir_items::MethodV>, ErrorV>
    decreases items.len(),
{
    if items.len() == 0 {
        Ok(acc)
    } else {
        let step: Result<Seq<crate::ir_items::MethodV>, ErrorV> = if spec_is_inherent_impl(
            items[0],
            ident,
        ) {
            match items[0] {
                crate::ast::AstItemV::Impl(im) => spec_elab_impl_members(
                    rec,
                    module,
                    selfq,
                    im.generics,
                    im.generics_span,
                    im.members,
                    acc,
                ),
                _ => Ok(acc),
            }
        } else {
            Ok(acc)
        };
        match step {
            Err(e) => Err(e),
            Ok(acc2) => spec_elab_methods(rec, module, selfq, items.skip(1), ident, acc2),
        }
    }
}


/// The span a top-level item covers.
pub open spec fn spec_item_span(item: crate::ast::AstItemV) -> SpanV {
    match item {
        crate::ast::AstItemV::Struct(x) => x.span,
        crate::ast::AstItemV::Enum(x) => x.span,
        crate::ast::AstItemV::Fn(x) => x.span,
        crate::ast::AstItemV::Impl(x) => x.span,
        crate::ast::AstItemV::Mod { span, .. } => span,
        crate::ast::AstItemV::Trait { span, .. } => span,
        crate::ast::AstItemV::TypeAlias { span, .. } => span,
        crate::ast::AstItemV::Use { span, .. } => span,
        crate::ast::AstItemV::Other { span } => span,
    }
}

/// Elaborate a record: its methods, then each field's type.
pub open spec fn spec_elaborate_record(
    rec: DefsV,
    module: Seq<Seq<char>>,
    items: Seq<crate::ast::AstItemV>,
    qname: Seq<Seq<char>>,
    idx: int,
) -> Result<crate::ir_items::RecordV, ErrorV> {
    if !(0 <= idx < items.len()) {
        Err(ErrorV::UnrecognizedItem(crate::span::SpanV {
            path: Seq::empty(),
            start: crate::span::ErrorLocationV { byte: 0, line: 0, column: 0 },
            end: crate::span::ErrorLocationV { byte: 0, line: 0, column: 0 },
        }))
    } else {
        match items[idx] {
            crate::ast::AstItemV::Struct(item) => if item.generics > 0 {
                Err(ErrorV::GenericsNotPermitted(item.generics_span))
            } else {
                let selfq = Some(SelfTyV { qname, span: item.name_span });
                match spec_elab_methods(rec, module, selfq, items, item.name, Seq::empty()) {
                    Err(e) => Err(e),
                    Ok(methods) => match spec_elab_fields(rec, module, selfq, item.fields, 0, Seq::empty()) {
                        Err(e) => Err(e),
                        Ok(fields) => Ok(crate::ir_items::RecordV {
                            span: item.name_span,
                            name: qname.last(),
                            fields,
                            methods,
                        }),
                    },
                }
            },
            _ => Err(ErrorV::UnrecognizedItem(spec_item_span(items[idx]))),
        }
    }
}

/// Elaborate a resource: only its methods; its contents stay opaque.
pub open spec fn spec_elaborate_resource(
    rec: DefsV,
    module: Seq<Seq<char>>,
    items: Seq<crate::ast::AstItemV>,
    qname: Seq<Seq<char>>,
    idx: int,
) -> Result<crate::ir_items::ResourceV, ErrorV> {
    if !(0 <= idx < items.len()) {
        Err(ErrorV::UnrecognizedItem(crate::span::SpanV {
            path: Seq::empty(),
            start: crate::span::ErrorLocationV { byte: 0, line: 0, column: 0 },
            end: crate::span::ErrorLocationV { byte: 0, line: 0, column: 0 },
        }))
    } else {
        match items[idx] {
            crate::ast::AstItemV::Struct(item) => {
                let selfq = Some(SelfTyV { qname, span: item.name_span });
                match spec_elab_methods(rec, module, selfq, items, item.name, Seq::empty()) {
                    Err(e) => Err(e),
                    Ok(methods) => Ok(crate::ir_items::ResourceV {
                        span: item.name_span,
                        name: qname.last(),
                        methods,
                    }),
                }
            },
            _ => Err(ErrorV::UnrecognizedItem(spec_item_span(items[idx]))),
        }
    }
}

/// Elaborate one retained arm of a variant.
pub open spec fn spec_elab_variant_arm(
    rec: DefsV,
    module: Seq<Seq<char>>,
    selfq: Option<SelfTyV>,
    v: crate::ast::AstVariantV,
) -> Result<crate::ir_items::VariantArmV, ErrorV> {
    match spec_elab_fields(rec, module, selfq, v.fields, 0, Seq::empty()) {
        Err(e) => Err(e),
        Ok(fields) => Ok(crate::ir_items::VariantArmV { span: v.span, name: v.name, fields }),
    }
}

/// Elaborate the retained arms of a variant, by index.
pub open spec fn spec_elab_variant_arms(
    rec: DefsV,
    module: Seq<Seq<char>>,
    selfq: Option<SelfTyV>,
    variants: Seq<crate::ast::AstVariantV>,
    retained: Seq<int>,
    acc: Seq<crate::ir_items::VariantArmV>,
) -> Result<Seq<crate::ir_items::VariantArmV>, ErrorV>
    decreases retained.len(),
{
    if retained.len() == 0 {
        Ok(acc)
    } else if !(0 <= retained[0] < variants.len()) {
        Err(ErrorV::UnrecognizedItem(crate::span::SpanV {
            path: Seq::empty(),
            start: crate::span::ErrorLocationV { byte: 0, line: 0, column: 0 },
            end: crate::span::ErrorLocationV { byte: 0, line: 0, column: 0 },
        }))
    } else {
        match spec_elab_variant_arm(rec, module, selfq, variants[retained[0]]) {
            Err(e) => Err(e),
            Ok(arm) => spec_elab_variant_arms(rec, module, selfq, variants, retained.skip(1), acc.push(arm)),
        }
    }
}

/// Elaborate a variant: its retained arms, then its methods.
pub open spec fn spec_elaborate_variant(
    rec: DefsV,
    module: Seq<Seq<char>>,
    items: Seq<crate::ast::AstItemV>,
    qname: Seq<Seq<char>>,
    idx: int,
    retained: Seq<int>,
) -> Result<crate::ir_items::VariantV, ErrorV> {
    if !(0 <= idx < items.len()) {
        Err(ErrorV::UnrecognizedItem(crate::span::SpanV {
            path: Seq::empty(),
            start: crate::span::ErrorLocationV { byte: 0, line: 0, column: 0 },
            end: crate::span::ErrorLocationV { byte: 0, line: 0, column: 0 },
        }))
    } else {
        match items[idx] {
            crate::ast::AstItemV::Enum(item) => {
                let selfq = Some(SelfTyV { qname, span: item.name_span });
                match spec_elab_variant_arms(rec, module, selfq, item.variants, retained, Seq::empty()) {
                    Err(e) => Err(e),
                    Ok(arms) => match spec_elab_methods(rec, module, selfq, items, item.name, Seq::empty()) {
                        Err(e) => Err(e),
                        Ok(methods) => Ok(crate::ir_items::VariantV {
                            span: item.name_span,
                            name: item.name,
                            arms,
                            methods,
                        }),
                    },
                }
            },
            _ => Err(ErrorV::UnrecognizedItem(spec_item_span(items[idx]))),
        }
    }
}

/// The arms of a plain enumeration, by index; they carry no data.
pub open spec fn spec_enum_arms(
    variants: Seq<crate::ast::AstVariantV>,
    retained: Seq<int>,
    acc: Seq<crate::ir_items::EnumArmV>,
) -> Result<Seq<crate::ir_items::EnumArmV>, ErrorV>
    decreases retained.len(),
{
    if retained.len() == 0 {
        Ok(acc)
    } else if !(0 <= retained[0] < variants.len()) {
        Err(ErrorV::UnrecognizedItem(crate::span::SpanV {
            path: Seq::empty(),
            start: crate::span::ErrorLocationV { byte: 0, line: 0, column: 0 },
            end: crate::span::ErrorLocationV { byte: 0, line: 0, column: 0 },
        }))
    } else {
        let v = variants[retained[0]];
        spec_enum_arms(
            variants,
            retained.skip(1),
            acc.push(crate::ir_items::EnumArmV { span: v.span, name: v.name }),
        )
    }
}

/// Elaborate a plain enumeration: its retained arms, then its methods.
pub open spec fn spec_elaborate_enum(
    rec: DefsV,
    module: Seq<Seq<char>>,
    items: Seq<crate::ast::AstItemV>,
    qname: Seq<Seq<char>>,
    idx: int,
    retained: Seq<int>,
) -> Result<crate::ir_items::EnumV, ErrorV> {
    if !(0 <= idx < items.len()) {
        Err(ErrorV::UnrecognizedItem(crate::span::SpanV {
            path: Seq::empty(),
            start: crate::span::ErrorLocationV { byte: 0, line: 0, column: 0 },
            end: crate::span::ErrorLocationV { byte: 0, line: 0, column: 0 },
        }))
    } else {
        match items[idx] {
            crate::ast::AstItemV::Enum(item) => {
                match spec_enum_arms(item.variants, retained, Seq::empty()) {
                    Err(e) => Err(e),
                    Ok(arms) => {
                        let selfq = Some(SelfTyV { qname, span: item.name_span });
                        match spec_elab_methods(rec, module, selfq, items, item.name, Seq::empty()) {
                            Err(e) => Err(e),
                            Ok(methods) => Ok(crate::ir_items::EnumV {
                                span: item.name_span,
                                name: item.name,
                                arms,
                                methods,
                            }),
                        }
                    },
                }
            },
            _ => Err(ErrorV::UnrecognizedItem(spec_item_span(items[idx]))),
        }
    }
}

/// Elaborate a free function: its signature, with no self type in scope.
pub open spec fn spec_elaborate_function(
    rec: DefsV,
    module: Seq<Seq<char>>,
    items: Seq<crate::ast::AstItemV>,
    idx: int,
) -> Result<crate::ir_items::FunctionV, ErrorV> {
    if !(0 <= idx < items.len()) {
        Err(ErrorV::UnrecognizedItem(crate::span::SpanV {
            path: Seq::empty(),
            start: crate::span::ErrorLocationV { byte: 0, line: 0, column: 0 },
            end: crate::span::ErrorLocationV { byte: 0, line: 0, column: 0 },
        }))
    } else {
        match items[idx] {
            crate::ast::AstItemV::Fn(item) => match spec_elab_fn_sig(rec, module, None, item.sig) {
                Err(e) => Err(e),
                Ok(m) => Ok(crate::ir_items::FunctionV {
                    span: m.span,
                    name: m.name,
                    signature: m.signature,
                }),
            },
            _ => Err(ErrorV::UnrecognizedItem(spec_item_span(items[idx]))),
        }
    }
}

/// Elaborate one recognized definition into its output item; a module
/// boundary maps to none.
pub open spec fn spec_elaborate_definition(
    rec: DefsV,
    items: Seq<crate::ast::AstItemV>,
    qname: Seq<Seq<char>>,
    def: DefinitionV,
) -> Result<Option<crate::ir_items::ItemV>, ErrorV> {
    let module = qname.take(qname.len() - 1);
    match def.kind {
        DefinitionKindV::Record(idx) => match spec_elaborate_record(rec, module, items, qname, idx) {
            Err(e) => Err(e),
            Ok(r) => Ok(Some(crate::ir_items::ItemV::Record(r))),
        },
        DefinitionKindV::Resource(idx) => match spec_elaborate_resource(rec, module, items, qname, idx) {
            Err(e) => Err(e),
            Ok(r) => Ok(Some(crate::ir_items::ItemV::Resource(r))),
        },
        DefinitionKindV::Variant(idx, retained) => match spec_elaborate_variant(
            rec,
            module,
            items,
            qname,
            idx,
            retained,
        ) {
            Err(e) => Err(e),
            Ok(v) => Ok(Some(crate::ir_items::ItemV::Variant(v))),
        },
        DefinitionKindV::Enum(idx, retained) => match spec_elaborate_enum(
            rec,
            module,
            items,
            qname,
            idx,
            retained,
        ) {
            Err(e) => Err(e),
            Ok(v) => Ok(Some(crate::ir_items::ItemV::Enum(v))),
        },
        DefinitionKindV::Function(idx) => match spec_elaborate_function(rec, module, items, idx) {
            Err(e) => Err(e),
            Ok(f) => Ok(Some(crate::ir_items::ItemV::Function(f))),
        },
        DefinitionKindV::FileModule => Ok(None),
    }
}

/// The output map after elaborating the first `n` recognized definitions,
/// in qualified-name order.
pub open spec fn spec_elaborate_upto(
    rec: DefsV,
    items: Seq<crate::ast::AstItemV>,
    n: int,
) -> Result<Seq<(Seq<Seq<char>>, crate::ir_items::ItemV)>, ErrorV>
    decreases n,
{
    if n <= 0 {
        Ok(Seq::empty())
    } else {
        match spec_elaborate_upto(rec, items, n - 1) {
            Err(e) => Err(e),
            Ok(out) => match spec_elaborate_definition(rec, items, rec[n - 1].0, rec[n - 1].1) {
                Err(e) => Err(e),
                Ok(None) => Ok(out),
                Ok(Some(item)) => Ok(crate::ordered_map::spec_insert(out, rec[n - 1].0, item)),
            },
        }
    }
}

/// The whole second pass: every recognized definition elaborated, the
/// results indexed by qualified name.
pub open spec fn spec_elaborate_all(
    rec: DefsV,
    items: Seq<crate::ast::AstItemV>,
) -> Result<Seq<(Seq<Seq<char>>, crate::ir_items::ItemV)>, ErrorV> {
    spec_elaborate_upto(rec, items, rec.len() as int)
}


/// The decimal spelling of a number.
pub fn digits_str(n: usize) -> (r: String)
    ensures
        r@ == spec_digits(n as nat),
    decreases n,
{
    if n < 10 {
        let d: &str = match n {
            0 => "0",
            1 => "1",
            2 => "2",
            3 => "3",
            4 => "4",
            5 => "5",
            6 => "6",
            7 => "7",
            8 => "8",
            _ => "9",
        };
        proof {
            reveal_strlit("0");
            reveal_strlit("1");
            reveal_strlit("2");
            reveal_strlit("3");
            reveal_strlit("4");
            reveal_strlit("5");
            reveal_strlit("6");
            reveal_strlit("7");
            reveal_strlit("8");
            reveal_strlit("9");
            assert(d@ =~= seq![spec_digit(n as nat)]);
        }
        d.to_owned()
    } else {
        let mut s = digits_str(n / 10);
        let d: &str = match n % 10 {
            0 => "0",
            1 => "1",
            2 => "2",
            3 => "3",
            4 => "4",
            5 => "5",
            6 => "6",
            7 => "7",
            8 => "8",
            _ => "9",
        };
        proof {
            reveal_strlit("0");
            reveal_strlit("1");
            reveal_strlit("2");
            reveal_strlit("3");
            reveal_strlit("4");
            reveal_strlit("5");
            reveal_strlit("6");
            reveal_strlit("7");
            reveal_strlit("8");
            reveal_strlit("9");
            assert(d@ =~= seq![spec_digit((n % 10) as nat)]);
        }
        s.append(d);
        proof {
            assert(s@ =~= spec_digits((n / 10) as nat).push(spec_digit((n % 10) as nat)));
        }
        s
    }
}

/// The name given to the positional field at `index`.
fn index_name(index: usize) -> (r: Name)
    ensures
        r@ == spec_index_name(index as nat),
{
    let mut s = String::new();
    s.append("f");
    let d = digits_str(index);
    s.append(d.as_str());
    proof {
        reveal_strlit("f");
        assert(s@ =~= seq!['f'] + spec_digits(index as nat));
    }
    Name::new(s)
}

/// Whether a written path matches the given three-segment known path.
fn path_matches3(idents: &Vec<Name>, a: &str, b: &str, c: &str) -> (r: bool)
    ensures
        r == crate::known_rust::spec_path_matches(
            idents@.map_values(|n: Name| n@),
            seq![a@, b@, c@],
        ),
{
    let ghost iv = idents@.map_values(|n: Name| n@);
    if idents.len() == 1 {
        proof {
            assert(iv[0] == idents@[0]@);
        }
        matches!(crate::ir_items::str_cmp(idents[0].text.as_str(), c), crate::ir_items::Cmp::Eq)
    } else if idents.len() == 3 {
        proof {
            assert(iv[0] == idents@[0]@ && iv[1] == idents@[1]@ && iv[2] == idents@[2]@);
        }
        let r = matches!(crate::ir_items::str_cmp(idents[0].text.as_str(), a), crate::ir_items::Cmp::Eq)
            && matches!(crate::ir_items::str_cmp(idents[1].text.as_str(), b), crate::ir_items::Cmp::Eq)
            && matches!(crate::ir_items::str_cmp(idents[2].text.as_str(), c), crate::ir_items::Cmp::Eq);
        proof {
            if iv[0] == a@ && iv[1] == b@ && iv[2] == c@ {
                assert(iv =~= seq![a@, b@, c@]);
            }
            if iv == seq![a@, b@, c@] {
                assert(iv[0] == a@ && iv[1] == b@ && iv[2] == c@);
            }
        }
        r
    } else {
        proof {
            if iv == seq![a@, b@, c@] {
                assert(iv.len() == 3);
            }
        }
        false
    }
}

/// Whether a written path matches the given two-segment known path.
fn path_matches2(idents: &Vec<Name>, a: &str, b: &str) -> (r: bool)
    ensures
        r == crate::known_rust::spec_path_matches(idents@.map_values(|n: Name| n@), seq![a@, b@]),
{
    let ghost iv = idents@.map_values(|n: Name| n@);
    if idents.len() == 1 {
        proof {
            assert(iv[0] == idents@[0]@);
        }
        matches!(crate::ir_items::str_cmp(idents[0].text.as_str(), b), crate::ir_items::Cmp::Eq)
    } else if idents.len() == 2 {
        proof {
            assert(iv[0] == idents@[0]@ && iv[1] == idents@[1]@);
        }
        let r = matches!(crate::ir_items::str_cmp(idents[0].text.as_str(), a), crate::ir_items::Cmp::Eq)
            && matches!(crate::ir_items::str_cmp(idents[1].text.as_str(), b), crate::ir_items::Cmp::Eq);
        proof {
            if iv[0] == a@ && iv[1] == b@ {
                assert(iv =~= seq![a@, b@]);
            }
            if iv == seq![a@, b@] {
                assert(iv[0] == a@ && iv[1] == b@);
            }
        }
        r
    } else {
        proof {
            if iv == seq![a@, b@] {
                assert(iv.len() == 2);
            }
        }
        false
    }
}

/// Elaborate a list of signature element types, keeping reference information.
#[verifier::loop_isolation(false)]
fn elaborate_refd_tys(
    rec: &QnameMap<Definition>,
    module: &QualifiedName,
    selfq: Option<&SelfTy>,
    tys: &Vec<&AstTy>,
) -> (r: Result<Vec<RefdTy>, Error>)
    requires
        module@.len() > 0,
    ensures
        match r {
            Ok(out) => spec_elab_refd_tys(
                rec@,
                module@,
                spec_selfq(selfq),
                tys@.map_values(|t: &AstTy| t@),
                Seq::empty(),
            ) == Ok::<Seq<RefdTyV>, ErrorV>(out@.map_values(|t: RefdTy| t@)),
            Err(e) => spec_elab_refd_tys(
                rec@,
                module@,
                spec_selfq(selfq),
                tys@.map_values(|t: &AstTy| t@),
                Seq::empty(),
            ) == Err::<Seq<RefdTyV>, ErrorV>(e@),
        },
{
    let ghost tysv = tys@.map_values(|t: &AstTy| t@);
    let empty_mods: Vec<Modifier> = Vec::new();
    let mut out: Vec<RefdTy> = Vec::new();
    proof {
        assert(tysv.skip(0) =~= tysv);
        assert(out@.map_values(|t: RefdTy| t@) =~= Seq::<RefdTyV>::empty());
        assert(empty_mods@ =~= Seq::<Modifier>::empty());
    }
    let mut i: usize = 0;
    while i < tys.len()
        invariant
            i <= tys.len(),
            tysv.len() == tys@.len(),
            spec_elab_refd_tys(rec@, module@, spec_selfq(selfq), tysv, Seq::empty())
                == spec_elab_refd_tys(
                rec@,
                module@,
                spec_selfq(selfq),
                tysv.skip(i as int),
                out@.map_values(|t: RefdTy| t@),
            ),
        decreases tys.len() - i,
    {
        proof {
            assert(tysv.skip(i as int)[0] == tysv[i as int]);
        }
        match elaborate_ty(rec, module, selfq, &empty_mods, tys[i]) {
            Err(e) => {
                return Err(e);
            }
            Ok(tv) => {
                let ghost out_old = out@;
                let ghost tvv = tv@;
                out.push(tv);
                proof {
                    assert(out@.map_values(|t: RefdTy| t@) =~= out_old.map_values(
                        |t: RefdTy| t@,
                    ).push(tvv));
                    assert(tysv.skip(i as int).skip(1) =~= tysv.skip(i + 1));
                }
            }
        }
        i = i + 1;
    }
    proof {
        assert(tysv.skip(tysv.len() as int) =~= Seq::<AstTyV>::empty());
    }
    Ok(out)
}

/// The first trait bound of an `impl Trait` type, skipping `'static`
/// lifetime bounds and precise captures.
#[verifier::loop_isolation(false)]
fn first_trait_bound<'a>(bounds: &'a Vec<AstBound>) -> (r: Result<
    Option<(&'a Vec<AstSeg>, &'a Span)>,
    Error,
>)
    ensures
        match r {
            Ok(Some(f)) => spec_first_trait_bound(crate::ast::spec_ast_bounds_view(bounds@))
                == Ok::<Option<(Seq<AstSegV>, crate::span::SpanV)>, ErrorV>(
                Some((crate::ast::spec_ast_segs_view(f.0@), f.1@)),
            ),
            Ok(None) => spec_first_trait_bound(crate::ast::spec_ast_bounds_view(bounds@)) == Ok::<
                Option<(Seq<AstSegV>, crate::span::SpanV)>,
                ErrorV,
            >(None),
            Err(e) => spec_first_trait_bound(crate::ast::spec_ast_bounds_view(bounds@)) == Err::<
                Option<(Seq<AstSegV>, crate::span::SpanV)>,
                ErrorV,
            >(e@),
        },
{
    let ghost bv = crate::ast::spec_ast_bounds_view(bounds@);
    proof {
        crate::ast::lemma_ast_bounds_view(bounds@);
        assert(bv.skip(0) =~= bv);
    }
    let mut i: usize = 0;
    while i < bounds.len()
        invariant
            i <= bounds.len(),
            bv.len() == bounds@.len(),
            spec_first_trait_bound(bv) == spec_first_trait_bound(bv.skip(i as int)),
        decreases bounds.len() - i,
    {
        proof {
            assert(bv.skip(i as int)[0] == bv[i as int]);
            assert(bv.skip(i as int).skip(1) =~= bv.skip(i + 1));
        }
        match &bounds[i] {
            AstBound::Trait { segments, span } => {
                return Ok(Some((segments, span)));
            }
            AstBound::Lifetime { is_static, span } => {
                if !*is_static {
                    return Err(Error::UnsupportedType(span.clone()));
                }
            }
            AstBound::PreciseCapture => {}
            AstBound::Other { span } => {
                return Err(Error::UnsupportedType(span.clone()));
            }
        }
        i = i + 1;
    }
    proof {
        assert(bv.skip(bv.len() as int) =~= Seq::<AstBoundV>::empty());
    }
    Ok(None)
}

/// Elaborate a declared return type, unwrapping the special result shapes
/// and recursing into a future's `Output` while marking the signature
/// asynchronous.
fn elaborate_returned_ty(
    rec: &QnameMap<Definition>,
    module: &QualifiedName,
    selfq: Option<&SelfTy>,
    t: &AstTy,
    is_async: bool,
) -> (r: Result<(RefdTy, Option<Ty>, bool), Error>)
    requires
        module@.len() > 0,
    ensures
        match r {
            Ok(v) => spec_elab_returned_ty(rec@, module@, spec_selfq(selfq), t@, is_async)
                == Ok::<(RefdTyV, Option<TyV>, bool), ErrorV>((
                v.0@,
                match v.1 {
                    Some(e) => Some(e@),
                    None => None,
                },
                v.2,
            )),
            Err(e) => spec_elab_returned_ty(rec@, module@, spec_selfq(selfq), t@, is_async)
                == Err::<(RefdTyV, Option<TyV>, bool), ErrorV>(e@),
        },
    decreases ast_ty_size(t@),
{
    proof {
        assert(ast_ty_size(t@) == 1 + crate::ast::ast_ty_kind_size(*t@.kind));
    }
    match &*t.kind {
        crate::ast::AstTyKind::Group { elem } => elaborate_returned_ty(
            rec,
            module,
            selfq,
            elem,
            is_async,
        ),
        crate::ast::AstTyKind::ImplTrait { bounds } => {
            let found = match first_trait_bound(bounds) {
                Err(e) => {
                    return Err(e);
                }
                Ok(f) => f,
            };
            match found {
                None => elaborate_returned_fallback(rec, module, selfq, t, is_async),
                Some((segments, _)) => {
                    let ghost bv = crate::ast::spec_ast_bounds_view(bounds@);
                    let ghost segsv = crate::ast::spec_ast_segs_view(segments@);
                    proof {
                        lemma_first_trait_bound_size(bv);
                    }
                    let rp = match elaborate_path(segments) {
                        Err(e) => {
                            return Err(e);
                        }
                        Ok(rp) => rp,
                    };
                    let is_future = matches!(
                        match_known_bound(&rp.idents),
                        Some(KnownBound::FutureBound),
                    );
                    if is_future {
                        if rp.tys.len() != 0 {
                            return Err(Error::UnsupportedUseOfType(t.span.clone()));
                        }
                        let ghost bsv = rp@.bindings;
                        let mut j: usize = 0;
                        loop
                            invariant
                                j <= rp.bindings.len(),
                                bsv == rp@.bindings,
                                bsv.len() == rp.bindings@.len(),
                                forall|k: int| 0 <= k < j ==> (#[trigger] bsv[k]).0 != "Output"@,
                            ensures
                                j <= rp.bindings.len(),
                                j < rp.bindings.len() ==> bsv[j as int].0 == "Output"@
                                    && crate::known_rust::spec_bget(bsv, "Output"@) == Some(
                                    bsv[j as int].1,
                                ),
                                j == rp.bindings.len() ==> crate::known_rust::spec_bget(
                                    bsv,
                                    "Output"@,
                                ) matches None,
                            decreases rp.bindings.len() - j,
                        {
                            if j == rp.bindings.len() {
                                proof {
                                    crate::known_rust::lemma_bget_none(bsv, "Output"@);
                                }
                                break;
                            }
                            proof {
                                assert(bsv[j as int] == (rp.bindings@[j as int].0@, rp.bindings@[
                                    j as int].1@));
                            }
                            if matches!(
                                crate::ir_items::str_cmp(rp.bindings[j].0.text.as_str(), "Output"),
                                crate::ir_items::Cmp::Eq,
                            ) {
                                proof {
                                    assert(bsv[j as int].0 == "Output"@);
                                    crate::known_rust::lemma_bget_at(bsv, "Output"@, j as int);
                                }
                                break;
                            }
                            assert(bsv[j as int].0 != "Output"@);
                            j = j + 1;
                        }
                        if j == rp.bindings.len() {
                            return Err(Error::BindingNotFound(
                                t.span.clone(),
                                Name::from_text("Output"),
                            ));
                        }
                        let output = rp.bindings[j].1;
                        proof {
                            assert(output@ == bsv[j as int].1);
                        }
                        if rp.bindings.len() != 1 {
                            return Err(Error::UnsupportedUseOfType(t.span.clone()));
                        }
                        if is_async {
                            return Err(Error::DoubleAsync(t.span.clone()));
                        }
                        proof {
                            lemma_extract_path_sizes(segsv, empty_rust_path());
                            lemma_bget_raw_size(bsv, "Output"@);
                            assert(ast_ty_size(output@) < ast_ty_size(t@));
                        }
                        elaborate_returned_ty(rec, module, selfq, output, true)
                    } else {
                        elaborate_returned_fallback(rec, module, selfq, t, is_async)
                    }
                }
            }
        }
        crate::ast::AstTyKind::Path { qself, segments } => {
            if *qself {
                return Err(Error::UnsupportedType(t.span.clone()));
            }
            let rp = match elaborate_path(segments) {
                Err(e) => {
                    return Err(e);
                }
                Ok(rp) => rp,
            };
            let bindings = match elaborate_bindings(rec, module, selfq, &rp.bindings) {
                Err(e) => {
                    return Err(e);
                }
                Ok(bs) => bs,
            };
            if path_matches3(&rp.idents, "std", "result", "Result") {
                if bindings.len() != 0 {
                    return Err(Error::BindingNotExpected(t.span.clone()));
                }
                match elaborate_refd_tys(rec, module, selfq, &rp.tys) {
                    Err(e) => Err(e),
                    Ok(tys) => {
                        if tys.len() == 2 {
                            let mut tys = tys;
                            let t1 = tys.pop().unwrap();
                            let t0 = tys.pop().unwrap();
                            match t1 {
                                RefdTy::Owned(err) => Ok((t0, Some(err), is_async)),
                                RefdTy::Ref(k, _) => Err(Error::ReferenceType(t.span.clone(), k)),
                            }
                        } else {
                            elaborate_returned_catch_all(
                                rec,
                                module,
                                selfq,
                                t,
                                &rp.idents,
                                tys,
                                is_async,
                            )
                        }
                    }
                }
            } else if path_matches2(&rp.idents, "anyhow", "Result") {
                if bindings.len() != 0 {
                    return Err(Error::BindingNotExpected(t.span.clone()));
                }
                match elaborate_refd_tys(rec, module, selfq, &rp.tys) {
                    Err(e) => Err(e),
                    Ok(tys) => elaborate_returned_catch_all(
                        rec,
                        module,
                        selfq,
                        t,
                        &rp.idents,
                        tys,
                        is_async,
                    ),
                }
            } else {
                elaborate_returned_fallback(rec, module, selfq, t, is_async)
            }
        }
        _ => elaborate_returned_fallback(rec, module, selfq, t, is_async),
    }
}

/// The one-argument catch-all convention on an already-elaborated argument
/// list.
fn elaborate_returned_catch_all(
    rec: &QnameMap<Definition>,
    module: &QualifiedName,
    selfq: Option<&SelfTy>,
    t: &AstTy,
    idents: &Vec<Name>,
    tys: Vec<RefdTy>,
    is_async: bool,
) -> (r: Result<(RefdTy, Option<Ty>, bool), Error>)
    requires
        module@.len() > 0,
    ensures
        match r {
            Ok(v) => spec_elab_returned_catch_all(
                rec@,
                module@,
                spec_selfq(selfq),
                t@,
                idents@.map_values(|n: Name| n@),
                tys@.map_values(|x: RefdTy| x@),
                is_async,
            ) == Ok::<(RefdTyV, Option<TyV>, bool), ErrorV>((
                v.0@,
                match v.1 {
                    Some(e) => Some(e@),
                    None => None,
                },
                v.2,
            )),
            Err(e) => spec_elab_returned_catch_all(
                rec@,
                module@,
                spec_selfq(selfq),
                t@,
                idents@.map_values(|n: Name| n@),
                tys@.map_values(|x: RefdTy| x@),
                is_async,
            ) == Err::<(RefdTyV, Option<TyV>, bool), ErrorV>(e@),
        },
{
    if path_matches2(idents, "anyhow", "Result") && tys.len() == 1 {
        let mut tys = tys;
        let t0 = tys.pop().unwrap();
        Ok((t0, Some(Ty::anyhow_error(t.span.clone())), is_async))
    } else {
        elaborate_returned_fallback(rec, module, selfq, t, is_async)
    }
}

/// The fallback return elaboration: the type itself, with no error type.
fn elaborate_returned_fallback(
    rec: &QnameMap<Definition>,
    module: &QualifiedName,
    selfq: Option<&SelfTy>,
    t: &AstTy,
    is_async: bool,
) -> (r: Result<(RefdTy, Option<Ty>, bool), Error>)
    requires
        module@.len() > 0,
    ensures
        match r {
            Ok(v) => spec_elab_returned_fallback(rec@, module@, spec_selfq(selfq), t@, is_async)
                == Ok::<(RefdTyV, Option<TyV>, bool), ErrorV>((
                v.0@,
                match v.1 {
                    Some(e) => Some(e@),
                    None => None,
                },
                v.2,
            )) && v.1 matches None,
            Err(e) => spec_elab_returned_fallback(rec@, module@, spec_selfq(selfq), t@, is_async)
                == Err::<(RefdTyV, Option<TyV>, bool), ErrorV>(e@),
        },
{
    let empty_mods: Vec<Modifier> = Vec::new();
    proof {
        assert(empty_mods@ =~= Seq::<Modifier>::empty());
    }
    match elaborate_ty(rec, module, selfq, &empty_mods, t) {
        Err(e) => Err(e),
        Ok(r) => Ok((r, None, is_async)),
    }
}

/// Elaborate a return-type position: the default return is the unit type.
fn elaborate_return_ty(
    rec: &QnameMap<Definition>,
    module: &QualifiedName,
    selfq: Option<&SelfTy>,
    output: &Option<AstTy>,
    output_span: &Span,
    is_async: bool,
) -> (r: Result<(RefdTy, Option<Ty>, bool), Error>)
    requires
        module@.len() > 0,
    ensures
        match r {
            Ok(v) => spec_elab_return_ty(
                rec@,
                module@,
                spec_selfq(selfq),
                match output {
                    Some(t) => Some(t@),
                    None => None,
                },
                output_span@,
                is_async,
            ) == Ok::<(RefdTyV, Option<TyV>, bool), ErrorV>((
                v.0@,
                match v.1 {
                    Some(e) => Some(e@),
                    None => None,
                },
                v.2,
            )),
            Err(e) => spec_elab_return_ty(
                rec@,
                module@,
                spec_selfq(selfq),
                match output {
                    Some(t) => Some(t@),
                    None => None,
                },
                output_span@,
                is_async,
            ) == Err::<(RefdTyV, Option<TyV>, bool), ErrorV>(e@),
        },
{
    match output {
        None => Ok((Ty::unit(output_span.clone()).not_refd(), None, is_async)),
        Some(t) => elaborate_returned_ty(rec, module, selfq, t, is_async),
    }
}

/// Elaborate the non-receiver inputs of a signature in order.
#[verifier::loop_isolation(false)]
fn elaborate_inputs(
    rec: &QnameMap<Definition>,
    module: &QualifiedName,
    selfq: Option<&SelfTy>,
    inputs: &Vec<crate::ast::AstInput>,
) -> (r: Result<Vec<crate::ir_items::FunctionInput>, Error>)
    requires
        module@.len() > 0,
    ensures
        match r {
            Ok(out) => spec_elab_inputs(
                rec@,
                module@,
                spec_selfq(selfq),
                inputs@.map_values(|i: crate::ast::AstInput| i@),
                Seq::empty(),
            ) == Ok::<Seq<crate::ir_items::FunctionInputV>, ErrorV>(
                out@.map_values(|i: crate::ir_items::FunctionInput| i@),
            ),
            Err(e) => spec_elab_inputs(
                rec@,
                module@,
                spec_selfq(selfq),
                inputs@.map_values(|i: crate::ast::AstInput| i@),
                Seq::empty(),
            ) == Err::<Seq<crate::ir_items::FunctionInputV>, ErrorV>(e@),
        },
{
    let ghost insv = inputs@.map_values(|i: crate::ast::AstInput| i@);
    let empty_mods: Vec<Modifier> = Vec::new();
    let mut out: Vec<crate::ir_items::FunctionInput> = Vec::new();
    proof {
        assert(insv.skip(0) =~= insv);
        assert(out@.map_values(|i: crate::ir_items::FunctionInput| i@) =~= Seq::<
            crate::ir_items::FunctionInputV,
        >::empty());
        assert(empty_mods@ =~= Seq::<Modifier>::empty());
    }
    let mut i: usize = 0;
    while i < inputs.len()
        invariant
            i <= inputs.len(),
            insv.len() == inputs@.len(),
            spec_elab_inputs(rec@, module@, spec_selfq(selfq), insv, Seq::empty())
                == spec_elab_inputs(
                rec@,
                module@,
                spec_selfq(selfq),
                insv.skip(i as int),
                out@.map_values(|x: crate::ir_items::FunctionInput| x@),
            ),
        decreases inputs.len() - i,
    {
        proof {
            assert(insv.skip(i as int)[0] == insv[i as int]);
            assert(insv[i as int] == inputs@[i as int]@);
        }
        let input = &inputs[i];
        match elaborate_ty(rec, module, selfq, &empty_mods, &input.ty) {
            Err(e) => {
                return Err(e);
            }
            Ok(tyr) => {
                match &input.name {
                    None => {
                        return Err(Error::UnsupportedInputPattern(input.span.clone()));
                    }
                    Some(n) => {
                        let inner = match tyr {
                            RefdTy::Owned(t) => t,
                            RefdTy::Ref(_, t) => t,
                        };
                        let fi = crate::ir_items::FunctionInput {
                            span: input.span.clone(),
                            name: Name::from_text(n.as_str()),
                            ty: inner,
                        };
                        let ghost out_old = out@;
                        let ghost fiv = fi@;
                        out.push(fi);
                        proof {
                            assert(out@.map_values(|x: crate::ir_items::FunctionInput| x@)
                                =~= out_old.map_values(
                                |x: crate::ir_items::FunctionInput| x@,
                            ).push(fiv));
                            assert(insv.skip(i as int).skip(1) =~= insv.skip(i + 1));
                        }
                    }
                }
            }
        }
        i = i + 1;
    }
    proof {
        assert(insv.skip(insv.len() as int) =~= Seq::<crate::ast::AstInputV>::empty());
    }
    Ok(out)
}

/// Elaborate a whole signature into a categorized method.
pub fn elaborate_fn_sig(
    rec: &QnameMap<Definition>,
    module: &QualifiedName,
    selfq: Option<&SelfTy>,
    sig: &crate::ast::AstSig,
) -> (r: Result<crate::ir_items::Method, Error>)
    requires
        module@.len() > 0,
    ensures
        match r {
            Ok(m) => spec_elab_fn_sig(rec@, module@, spec_selfq(selfq), sig@)
                == Ok::<crate::ir_items::MethodV, ErrorV>(m@),
            Err(e) => spec_elab_fn_sig(rec@, module@, spec_selfq(selfq), sig@)
                == Err::<crate::ir_items::MethodV, ErrorV>(e@),
        },
{
    if sig.generics > 0 {
        return Err(Error::GenericsNotPermitted(sig.generics_span.clone()));
    }
    let self_kind: Option<crate::ir_items::SelfKind> = match &sig.receiver {
        None => None,
        Some(r) => {
            if r.colon {
                return Err(Error::ExplicitSelfNotSupported(r.colon_span.clone()));
            } else if !r.reference {
                Some(crate::ir_items::SelfKind::ByValue)
            } else if !r.mutable {
                Some(crate::ir_items::SelfKind::ByRef)
            } else {
                Some(crate::ir_items::SelfKind::ByRefMut)
            }
        }
    };
    let inputs = match elaborate_inputs(rec, module, selfq, &sig.inputs) {
        Err(e) => {
            return Err(e);
        }
        Ok(v) => v,
    };
    let (main, error_ty, is_async) = match elaborate_return_ty(
        rec,
        module,
        selfq,
        &sig.output,
        &sig.output_span,
        sig.is_async,
    ) {
        Err(e) => {
            return Err(e);
        }
        Ok(v) => v,
    };
    let output_is_self = match (&selfq, &main) {
        (Some(st), RefdTy::Owned(t)) => t.is_user_type_of(&st.qname),
        _ => false,
    };
    let is_new = matches!(
        crate::ir_items::str_cmp(sig.name.as_str(), "new"),
        crate::ir_items::Cmp::Eq,
    );
    let category = match self_kind {
        None => if is_new && output_is_self {
            crate::ir_items::MethodCategory::Constructor
        } else {
            crate::ir_items::MethodCategory::StaticMethod
        },
        Some(crate::ir_items::SelfKind::ByValue) => if output_is_self {
            crate::ir_items::MethodCategory::BuilderMethod(crate::ir_items::SelfKind::ByValue)
        } else {
            crate::ir_items::MethodCategory::InstanceMethod(crate::ir_items::SelfKind::ByValue)
        },
        Some(k) => crate::ir_items::MethodCategory::InstanceMethod(k),
    };
    let main_ty = match main {
        RefdTy::Owned(t) => t,
        RefdTy::Ref(_, t) => t,
    };
    let m = crate::ir_items::Method {
        span: sig.name_span.clone(),
        category,
        name: Name::from_text(sig.name.as_str()),
        signature: crate::ir_items::Signature {
            is_async: if is_async {
                crate::ir_items::IsAsync::Yes
            } else {
                crate::ir_items::IsAsync::No
            },
            inputs,
            output_ty: crate::ir_items::FunctionOutput { main_ty, error_ty },
        },
    };
    proof {
        assert(m@.signature.inputs =~= m.signature.inputs@.map_values(
            |x: crate::ir_items::FunctionInput| x@,
        ));
    }
    Ok(m)
}


/// Elaborate one record or variant-arm field.
fn elaborate_record_field(
    rec: &QnameMap<Definition>,
    module: &QualifiedName,
    selfq: Option<&SelfTy>,
    index: usize,
    f: &crate::ast::AstField,
) -> (r: Result<crate::ir_items::Field, Error>)
    requires
        module@.len() > 0,
    ensures
        match r {
            Ok(v) => spec_elab_field(rec@, module@, spec_selfq(selfq), index as nat, f@)
                == Ok::<crate::ir_items::FieldV, ErrorV>(v@),
            Err(e) => spec_elab_field(rec@, module@, spec_selfq(selfq), index as nat, f@)
                == Err::<crate::ir_items::FieldV, ErrorV>(e@),
        },
{
    let empty_mods: Vec<Modifier> = Vec::new();
    proof {
        assert(empty_mods@ =~= Seq::<Modifier>::empty());
    }
    match elaborate_owned_ty(rec, module, selfq, &empty_mods, &f.ty) {
        Err(e) => Err(e),
        Ok(ty) => {
            let name = match &f.name {
                Some(n) => Name::from_text(n.as_str()),
                None => index_name(index),
            };
            Ok(crate::ir_items::Field { span: f.span.clone(), name, ty })
        }
    }
}

/// Elaborate a list of fields in order.
#[verifier::loop_isolation(false)]
fn elaborate_record_fields(
    rec: &QnameMap<Definition>,
    module: &QualifiedName,
    selfq: Option<&SelfTy>,
    fields: &Vec<crate::ast::AstField>,
) -> (r: Result<Vec<crate::ir_items::Field>, Error>)
    requires
        module@.len() > 0,
    ensures
        match r {
            Ok(out) => spec_elab_fields(
                rec@,
                module@,
                spec_selfq(selfq),
                fields@.map_values(|f: crate::ast::AstField| f@),
                0,
                Seq::empty(),
            ) == Ok::<Seq<crate::ir_items::FieldV>, ErrorV>(
                out@.map_values(|f: crate::ir_items::Field| f@),
            ),
            Err(e) => spec_elab_fields(
                rec@,
                module@,
                spec_selfq(selfq),
                fields@.map_values(|f: crate::ast::AstField| f@),
                0,
                Seq::empty(),
            ) == Err::<Seq<crate::ir_items::FieldV>, ErrorV>(e@),
        },
{
    let ghost fsv = fields@.map_values(|f: crate::ast::AstField| f@);
    let mut out: Vec<crate::ir_items::Field> = Vec::new();
    proof {
        assert(fsv.skip(0) =~= fsv);
        assert(out@.map_values(|f: crate::ir_items::Field| f@) =~= Seq::<
            crate::ir_items::FieldV,
        >::empty());
    }
    let mut i: usize = 0;
    while i < fields.len()
        invariant
            i <= fields.len(),
            fsv.len() == fields@.len(),
            spec_elab_fields(rec@, module@, spec_selfq(selfq), fsv, 0, Seq::empty())
                == spec_elab_fields(
                rec@,
                module@,
                spec_selfq(selfq),
                fsv.skip(i as int),
                i as nat,
                out@.map_values(|f: crate::ir_items::Field| f@),
            ),
        decreases fields.len() - i,
    {
        proof {
            assert(fsv.skip(i as int)[0] == fsv[i as int]);
            assert(fsv[i as int] == fields@[i as int]@);
        }
        match elaborate_record_field(rec, module, selfq, i, &fields[i]) {
            Err(e) => {
                return Err(e);
            }
            Ok(f) => {
                let ghost out_old = out@;
                let ghost fv = f@;
                out.push(f);
                proof {
                    assert(out@.map_values(|x: crate::ir_items::Field| x@) =~= out_old.map_values(
                        |x: crate::ir_items::Field| x@,
                    ).push(fv));
                    assert(fsv.skip(i as int).skip(1) =~= fsv.skip(i + 1));
                }
            }
        }
        i = i + 1;
    }
    proof {
        assert(fsv.skip(fsv.len() as int) =~= Seq::<crate::ast::AstFieldV>::empty());
    }
    Ok(out)
}

/// Collect the methods of a declaration from the file's inherent
/// implementation blocks whose self type names it.
#[verifier::loop_isolation(false)]
#[verifier::rlimit(60)]
fn elaborate_methods(
    rec: &QnameMap<Definition>,
    module: &QualifiedName,
    selfq: Option<&SelfTy>,
    file: &crate::ast::SourceFile,
    ident: &str,
) -> (r: Result<Vec<crate::ir_items::Method>, Error>)
    requires
        module@.len() > 0,
    ensures
        match r {
            Ok(out) => spec_elab_methods(
                rec@,
                module@,
                spec_selfq(selfq),
                file@.items,
                ident@,
                Seq::empty(),
            ) == Ok::<Seq<crate::ir_items::MethodV>, ErrorV>(
                out@.map_values(|m: crate::ir_items::Method| m@),
            ),
            Err(e) => spec_elab_methods(
                rec@,
                module@,
                spec_selfq(selfq),
                file@.items,
                ident@,
                Seq::empty(),
            ) == Err::<Seq<crate::ir_items::MethodV>, ErrorV>(e@),
        },
{
    let ghost itemsv = file@.items;
    let mut methods: Vec<crate::ir_items::Method> = Vec::new();
    proof {
        assert(itemsv.skip(0) =~= itemsv);
        assert(methods@.map_values(|m: crate::ir_items::Method| m@) =~= Seq::<
            crate::ir_items::MethodV,
        >::empty());
    }
    let mut i: usize = 0;
    while i < file.items.len()
        invariant
            i <= file.items.len(),
            itemsv.len() == file.items@.len(),
            spec_elab_methods(rec@, module@, spec_selfq(selfq), itemsv, ident@, Seq::empty())
                == spec_elab_methods(
                rec@,
                module@,
                spec_selfq(selfq),
                itemsv.skip(i as int),
                ident@,
                methods@.map_values(|m: crate::ir_items::Method| m@),
            ),
        decreases file.items.len() - i,
    {
        proof {
            assert(itemsv.skip(i as int)[0] == itemsv[i as int]);
            assert(itemsv[i as int] == file.items@[i as int]@);
            assert(itemsv.skip(i as int).skip(1) =~= itemsv.skip(i + 1));
        }
        match &file.items[i] {
            crate::ast::AstItem::Impl(im) => {
                let is_inherent = !im.is_trait_impl && match &im.self_ty_name {
                    Some(n) => matches!(
                        crate::ir_items::str_cmp(n.as_str(), ident),
                        crate::ir_items::Cmp::Eq,
                    ),
                    None => false,
                };
                if is_inherent {
                    let ghost msv = im@.members;
                    let ghost ms0 = methods@.map_values(|m: crate::ir_items::Method| m@);
                    proof {
                        assert(spec_is_inherent_impl(itemsv[i as int], ident@));
                        assert(msv.skip(0) =~= msv);
                    }
                    let mut j: usize = 0;
                    while j < im.members.len()
                        invariant
                            j <= im.members.len(),
                            msv.len() == im.members@.len(),
                            spec_elab_impl_members(
                                rec@,
                                module@,
                                spec_selfq(selfq),
                                im@.generics,
                                im@.generics_span,
                                msv,
                                ms0,
                            ) == spec_elab_impl_members(
                                rec@,
                                module@,
                                spec_selfq(selfq),
                                im@.generics,
                                im@.generics_span,
                                msv.skip(j as int),
                                methods@.map_values(|m: crate::ir_items::Method| m@),
                            ),
                        decreases im.members.len() - j,
                    {
                        proof {
                            assert(msv.skip(j as int)[0] == msv[j as int]);
                            assert(msv[j as int] == im.members@[j as int]@);
                            assert(msv.skip(j as int).skip(1) =~= msv.skip(j + 1));
                        }
                        match &im.members[j] {
                            crate::ast::AstImplMember::Fn { span, vis, attrs, sig } => {
                                if !crate::pass1::ignore(*vis, attrs) {
                                    if im.generics > 0 {
                                        return Err(Error::GenericsNotPermitted(
                                            im.generics_span.clone(),
                                        ));
                                    }
                                    match elaborate_fn_sig(rec, module, selfq, sig) {
                                        Err(e) => {
                                            return Err(e);
                                        }
                                        Ok(m) => {
                                            let ghost ms_old = methods@;
                                            let ghost mv = m@;
                                            methods.push(m);
                                            proof {
                                                assert(methods@.map_values(
                                                    |x: crate::ir_items::Method| x@,
                                                ) =~= ms_old.map_values(
                                                    |x: crate::ir_items::Method| x@,
                                                ).push(mv));
                                            }
                                        }
                                    }
                                }
                            }
                            crate::ast::AstImplMember::Const { span, vis, attrs } => {
                                if !crate::pass1::ignore(*vis, attrs) {
                                    return Err(Error::UnsupportedItem(span.clone()));
                                }
                            }
                            crate::ast::AstImplMember::TypeAlias { span, vis, attrs } => {
                                if !crate::pass1::ignore(*vis, attrs) {
                                    return Err(Error::UnsupportedItem(span.clone()));
                                }
                            }
                            crate::ast::AstImplMember::Macro { span, attrs } => {
                                if !crate::pass1::ignore_from_attrs(attrs) {
                                    return Err(Error::UnsupportedItem(span.clone()));
                                }
                            }
                            crate::ast::AstImplMember::Verbatim { span } => {
                                return Err(Error::UnsupportedItem(span.clone()));
                            }
                            crate::ast::AstImplMember::Other { span } => {
                                return Err(Error::UnrecognizedItem(span.clone()));
                            }
                        }
                        j = j + 1;
                    }
                    proof {
                        assert(msv.skip(msv.len() as int) =~= Seq::<
                            crate::ast::AstImplMemberV,
                        >::empty());
                    }
                } else {
                    proof {
                        assert(!spec_is_inherent_impl(itemsv[i as int], ident@));
                    }
                }
            }
            _ => {
                proof {
                    assert(!spec_is_inherent_impl(itemsv[i as int], ident@));
                }
            }
        }
        i = i + 1;
    }
    proof {
        assert(itemsv.skip(itemsv.len() as int) =~= Seq::<crate::ast::AstItemV>::empty());
    }
    Ok(methods)
}


/// Pass 2: consumes the full recognized index (so forward references
/// resolve) and produces the final items, performing all type resolution,
/// method categorization and return-type unwrapping.
pub struct Elaborator {
    /// The index pass 1 produced.
    pub recognized: QnameMap<Definition>,
}

/// Every recognized key is crate-rooted: at least the crate name and the
/// declaration's own name.
pub open spec fn keys_crate_rooted(rec: DefsV) -> bool {
    forall|i: int| 0 <= i < rec.len() ==> (#[trigger] rec[i]).0.len() >= 2
}

impl Elaborator {
    /// An elaborator over the given recognized index.
    pub fn new(recognized: QnameMap<Definition>) -> (r: Self)
        ensures
            r.recognized@ == recognized@,
    {
        Elaborator { recognized }
    }

    /// Elaborate one recognized definition into its output item.
    pub fn elaborate_definition(
        &self,
        file: &crate::ast::SourceFile,
        qname: &QualifiedName,
        def: &Definition,
    ) -> (r: Result<Option<crate::ir_items::Item>, Error>)
        requires
            qname@.len() >= 2,
        ensures
            match r {
                Ok(Some(item)) => spec_elaborate_definition(self.recognized@, file@.items, qname@, def@)
                    == Ok::<Option<crate::ir_items::ItemV>, ErrorV>(Some(item@)),
                Ok(None) => spec_elaborate_definition(self.recognized@, file@.items, qname@, def@)
                    == Ok::<Option<crate::ir_items::ItemV>, ErrorV>(None),
                Err(e) => spec_elaborate_definition(self.recognized@, file@.items, qname@, def@)
                    == Err::<Option<crate::ir_items::ItemV>, ErrorV>(e@),
            },
    {
        let module = qname.module_name();
        match &def.kind {
            crate::pass1::DefinitionKind::Record(idx) => {
                match self.elaborate_record(file, &module, qname, *idx) {
                    Err(e) => Err(e),
                    Ok(r) => Ok(Some(crate::ir_items::Item::Record(r))),
                }
            }
            crate::pass1::DefinitionKind::Resource(idx) => {
                match self.elaborate_resource(file, &module, qname, *idx) {
                    Err(e) => Err(e),
                    Ok(r) => Ok(Some(crate::ir_items::Item::Resource(r))),
                }
            }
            crate::pass1::DefinitionKind::Variant(idx, retained) => {
                match self.elaborate_variant(file, &module, qname, *idx, retained) {
                    Err(e) => Err(e),
                    Ok(v) => Ok(Some(crate::ir_items::Item::Variant(v))),
                }
            }
            crate::pass1::DefinitionKind::Enum(idx, retained) => {
                match self.elaborate_enum(file, &module, qname, *idx, retained) {
                    Err(e) => Err(e),
                    Ok(v) => Ok(Some(crate::ir_items::Item::Enum(v))),
                }
            }
            crate::pass1::DefinitionKind::Function(idx) => {
                match self.elaborate_function(file, &module, *idx) {
                    Err(e) => Err(e),
                    Ok(f) => Ok(Some(crate::ir_items::Item::Function(f))),
                }
            }
            crate::pass1::DefinitionKind::FileModule => Ok(None),
        }
    }

    /// Elaborate a record: its methods, then its fields.
    pub fn elaborate_record(
        &self,
        file: &crate::ast::SourceFile,
        module: &QualifiedName,
        qname: &QualifiedName,
        idx: usize,
    ) -> (r: Result<crate::ir_items::Record, Error>)
        requires
            module@.len() > 0,
            module@ == qname@.take(qname@.len() - 1),
            qname@.len() > 0,
        ensures
            match r {
                Ok(v) => spec_elaborate_record(self.recognized@, module@, file@.items, qname@, idx as int)
                    == Ok::<crate::ir_items::RecordV, ErrorV>(v@),
                Err(e) => spec_elaborate_record(self.recognized@, module@, file@.items, qname@, idx as int)
                    == Err::<crate::ir_items::RecordV, ErrorV>(e@),
            },
    {
        if idx >= file.items.len() {
            return Err(Error::UnrecognizedItem(empty_span()));
        }
        proof {
            assert(file@.items[idx as int] == file.items@[idx as int]@);
        }
        match &file.items[idx] {
            crate::ast::AstItem::Struct(item) => {
                if item.generics > 0 {
                    return Err(Error::GenericsNotPermitted(item.generics_span.clone()));
                }
                let selfq = SelfTy { qname: qname.clone(), span: item.name_span.clone() };
                let methods = match elaborate_methods(
                    &self.recognized,
                    module,
                    Some(&selfq),
                    file,
                    item.name.as_str(),
                ) {
                    Err(e) => {
                        return Err(e);
                    }
                    Ok(ms) => ms,
                };
                let fields = match elaborate_record_fields(
                    &self.recognized,
                    module,
                    Some(&selfq),
                    &item.fields,
                ) {
                    Err(e) => {
                        return Err(e);
                    }
                    Ok(fs) => fs,
                };
                let r = crate::ir_items::Record {
                    span: item.name_span.clone(),
                    name: qname.tail_name(),
                    fields,
                    methods,
                };
                proof {
                    assert(r@.fields =~= r.fields@.map_values(|f: crate::ir_items::Field| f@));
                    assert(r@.methods =~= r.methods@.map_values(|m: crate::ir_items::Method| m@));
                }
                Ok(r)
            }
            _ => Err(Error::UnrecognizedItem(item_span(&file.items[idx]).clone())),
        }
    }

    /// Elaborate a resource: only its methods.
    pub fn elaborate_resource(
        &self,
        file: &crate::ast::SourceFile,
        module: &QualifiedName,
        qname: &QualifiedName,
        idx: usize,
    ) -> (r: Result<crate::ir_items::Resource, Error>)
        requires
            module@.len() > 0,
            module@ == qname@.take(qname@.len() - 1),
            qname@.len() > 0,
        ensures
            match r {
                Ok(v) => spec_elaborate_resource(self.recognized@, module@, file@.items, qname@, idx as int)
                    == Ok::<crate::ir_items::ResourceV, ErrorV>(v@),
                Err(e) => spec_elaborate_resource(self.recognized@, module@, file@.items, qname@, idx as int)
                    == Err::<crate::ir_items::ResourceV, ErrorV>(e@),
            },
    {
        if idx >= file.items.len() {
            return Err(Error::UnrecognizedItem(empty_span()));
        }
        proof {
            assert(file@.items[idx as int] == file.items@[idx as int]@);
        }
        match &file.items[idx] {
            crate::ast::AstItem::Struct(item) => {
                let selfq = SelfTy { qname: qname.clone(), span: item.name_span.clone() };
                let methods = match elaborate_methods(
                    &self.recognized,
                    module,
                    Some(&selfq),
                    file,
                    item.name.as_str(),
                ) {
                    Err(e) => {
                        return Err(e);
                    }
                    Ok(ms) => ms,
                };
                let r = crate::ir_items::Resource {
                    span: item.name_span.clone(),
                    name: qname.tail_name(),
                    methods,
                };
                proof {
                    assert(r@.methods =~= r.methods@.map_values(|m: crate::ir_items::Method| m@));
                }
                Ok(r)
            }
            _ => Err(Error::UnrecognizedItem(item_span(&file.items[idx]).clone())),
        }
    }

    /// Elaborate a variant: its retained arms, then its methods.
    #[verifier::loop_isolation(false)]
    pub fn elaborate_variant(
        &self,
        file: &crate::ast::SourceFile,
        module: &QualifiedName,
        qname: &QualifiedName,
        idx: usize,
        retained: &Vec<usize>,
    ) -> (r: Result<crate::ir_items::Variant, Error>)
        requires
            module@.len() > 0,
            module@ == qname@.take(qname@.len() - 1),
            qname@.len() > 0,
        ensures
            match r {
                Ok(v) => spec_elaborate_variant(
                    self.recognized@,
                    module@,
                    file@.items,
                    qname@,
                    idx as int,
                    retained@.map_values(|u: usize| u as int),
                ) == Ok::<crate::ir_items::VariantV, ErrorV>(v@),
                Err(e) => spec_elaborate_variant(
                    self.recognized@,
                    module@,
                    file@.items,
                    qname@,
                    idx as int,
                    retained@.map_values(|u: usize| u as int),
                ) == Err::<crate::ir_items::VariantV, ErrorV>(e@),
            },
    {
        if idx >= file.items.len() {
            return Err(Error::UnrecognizedItem(empty_span()));
        }
        proof {
            assert(file@.items[idx as int] == file.items@[idx as int]@);
        }
        match &file.items[idx] {
            crate::ast::AstItem::Enum(item) => {
                let selfq = SelfTy { qname: qname.clone(), span: item.name_span.clone() };
                let ghost vsv = item@.variants;
                let ghost retv = retained@.map_values(|u: usize| u as int);
                let mut arms: Vec<crate::ir_items::VariantArm> = Vec::new();
                proof {
                    assert(retv.skip(0) =~= retv);
                    assert(arms@.map_values(|a: crate::ir_items::VariantArm| a@) =~= Seq::<
                        crate::ir_items::VariantArmV,
                    >::empty());
                }
                let mut i: usize = 0;
                while i < retained.len()
                    invariant
                        i <= retained.len(),
                        retv.len() == retained@.len(),
                        spec_elab_variant_arms(
                            self.recognized@,
                            module@,
                            Some(selfq@),
                            vsv,
                            retv,
                            Seq::empty(),
                        ) == spec_elab_variant_arms(
                            self.recognized@,
                            module@,
                            Some(selfq@),
                            vsv,
                            retv.skip(i as int),
                            arms@.map_values(|a: crate::ir_items::VariantArm| a@),
                        ),
                    decreases retained.len() - i,
                {
                    proof {
                        assert(retv.skip(i as int)[0] == retv[i as int]);
                        assert(retv.skip(i as int).skip(1) =~= retv.skip(i + 1));
                    }
                    let vi = retained[i];
                    if vi >= item.variants.len() {
                        return Err(Error::UnrecognizedItem(empty_span()));
                    }
                    proof {
                        assert(vsv[vi as int] == item.variants@[vi as int]@);
                    }
                    match self.elaborate_variant_arm(module, &selfq, &item.variants[vi]) {
                        Err(e) => {
                            return Err(e);
                        }
                        Ok(arm) => {
                            let ghost arms_old = arms@;
                            let ghost av = arm@;
                            arms.push(arm);
                            proof {
                                assert(arms@.map_values(|a: crate::ir_items::VariantArm| a@)
                                    =~= arms_old.map_values(
                                    |a: crate::ir_items::VariantArm| a@,
                                ).push(av));
                            }
                        }
                    }
                    i = i + 1;
                }
                proof {
                    assert(retv.skip(retv.len() as int) =~= Seq::<int>::empty());
                }
                let methods = match elaborate_methods(
                    &self.recognized,
                    module,
                    Some(&selfq),
                    file,
                    item.name.as_str(),
                ) {
                    Err(e) => {
                        return Err(e);
                    }
                    Ok(ms) => ms,
                };
                let r = crate::ir_items::Variant {
                    span: item.name_span.clone(),
                    name: Name::from_text(item.name.as_str()),
                    arms,
                    methods,
                };
                proof {
                    assert(r@.arms =~= r.arms@.map_values(|a: crate::ir_items::VariantArm| a@));
                    assert(r@.methods =~= r.methods@.map_values(|m: crate::ir_items::Method| m@));
                }
                Ok(r)
            }
            _ => Err(Error::UnrecognizedItem(item_span(&file.items[idx]).clone())),
        }
    }

    /// Elaborate one retained arm of a variant.
    pub fn elaborate_variant_arm(
        &self,
        module: &QualifiedName,
        selfq: &SelfTy,
        v: &crate::ast::AstVariant,
    ) -> (r: Result<crate::ir_items::VariantArm, Error>)
        requires
            module@.len() > 0,
        ensures
            match r {
                Ok(arm) => spec_elab_variant_arm(self.recognized@, module@, Some(selfq@), v@)
                    == Ok::<crate::ir_items::VariantArmV, ErrorV>(arm@),
                Err(e) => spec_elab_variant_arm(self.recognized@, module@, Some(selfq@), v@)
                    == Err::<crate::ir_items::VariantArmV, ErrorV>(e@),
            },
    {
        match elaborate_record_fields(&self.recognized, module, Some(selfq), &v.fields) {
            Err(e) => Err(e),
            Ok(fields) => {
                let r = crate::ir_items::VariantArm {
                    span: v.span.clone(),
                    name: Name::from_text(v.name.as_str()),
                    fields,
                };
                proof {
                    assert(r@.fields =~= r.fields@.map_values(|f: crate::ir_items::Field| f@));
                }
                Ok(r)
            }
        }
    }

    /// Elaborate a plain enumeration: its retained arms, then its methods.
    #[verifier::loop_isolation(false)]
    pub fn elaborate_enum(
        &self,
        file: &crate::ast::SourceFile,
        module: &QualifiedName,
        qname: &QualifiedName,
        idx: usize,
        retained: &Vec<usize>,
    ) -> (r: Result<crate::ir_items::Enum, Error>)
        requires
            module@.len() > 0,
            module@ == qname@.take(qname@.len() - 1),
            qname@.len() > 0,
        ensures
            match r {
                Ok(v) => spec_elaborate_enum(
                    self.recognized@,
                    module@,
                    file@.items,
                    qname@,
                    idx as int,
                    retained@.map_values(|u: usize| u as int),
                ) == Ok::<crate::ir_items::EnumV, ErrorV>(v@),
                Err(e) => spec_elaborate_enum(
                    self.recognized@,
                    module@,
                    file@.items,
                    qname@,
                    idx as int,
                    retained@.map_values(|u: usize| u as int),
                ) == Err::<crate::ir_items::EnumV, ErrorV>(e@),
            },
    {
        if idx >= file.items.len() {
            return Err(Error::UnrecognizedItem(empty_span()));
        }
        proof {
            assert(file@.items[idx as int] == file.items@[idx as int]@);
        }
        match &file.items[idx] {
            crate::ast::AstItem::Enum(item) => {
                let ghost vsv = item@.variants;
                let ghost retv = retained@.map_values(|u: usize| u as int);
                let mut arms: Vec<crate::ir_items::EnumArm> = Vec::new();
                proof {
                    assert(retv.skip(0) =~= retv);
                    assert(arms@.map_values(|a: crate::ir_items::EnumArm| a@) =~= Seq::<
                        crate::ir_items::EnumArmV,
                    >::empty());
                }
                let mut i: usize = 0;
                while i < retained.len()
                    invariant
                        i <= retained.len(),
                        retv.len() == retained@.len(),
                        spec_enum_arms(vsv, retv, Seq::empty()) == spec_enum_arms(
                            vsv,
                            retv.skip(i as int),
                            arms@.map_values(|a: crate::ir_items::EnumArm| a@),
                        ),
                    decreases retained.len() - i,
                {
                    proof {
                        assert(retv.skip(i as int)[0] == retv[i as int]);
                        assert(retv.skip(i as int).skip(1) =~= retv.skip(i + 1));
                    }
                    let vi = retained[i];
                    if vi >= item.variants.len() {
                        return Err(Error::UnrecognizedItem(empty_span()));
                    }
                    proof {
                        assert(vsv[vi as int] == item.variants@[vi as int]@);
                    }
                    let v = &item.variants[vi];
                    let arm = crate::ir_items::EnumArm {
                        span: v.span.clone(),
                        name: Name::from_text(v.name.as_str()),
                    };
                    let ghost arms_old = arms@;
                    let ghost av = arm@;
                    arms.push(arm);
                    proof {
                        assert(arms@.map_values(|a: crate::ir_items::EnumArm| a@)
                            =~= arms_old.map_values(|a: crate::ir_items::EnumArm| a@).push(av));
                    }
                    i = i + 1;
                }
                proof {
                    assert(retv.skip(retv.len() as int) =~= Seq::<int>::empty());
                }
                let selfq = SelfTy { qname: qname.clone(), span: item.name_span.clone() };
                let methods = match elaborate_methods(
                    &self.recognized,
                    module,
                    Some(&selfq),
                    file,
                    item.name.as_str(),
                ) {
                    Err(e) => {
                        return Err(e);
                    }
                    Ok(ms) => ms,
                };
                let r = crate::ir_items::Enum {
                    span: item.name_span.clone(),
                    name: Name::from_text(item.name.as_str()),
                    arms,
                    methods,
                };
                proof {
                    assert(r@.arms =~= r.arms@.map_values(|a: crate::ir_items::EnumArm| a@));
                    assert(r@.methods =~= r.methods@.map_values(|m: crate::ir_items::Method| m@));
                }
                Ok(r)
            }
            _ => Err(Error::UnrecognizedItem(item_span(&file.items[idx]).clone())),
        }
    }

    /// Elaborate a free function.
    pub fn elaborate_function(
        &self,
        file: &crate::ast::SourceFile,
        module: &QualifiedName,
        idx: usize,
    ) -> (r: Result<crate::ir_items::Function, Error>)
        requires
            module@.len() > 0,
        ensures
            match r {
                Ok(v) => spec_elaborate_function(self.recognized@, module@, file@.items, idx as int)
                    == Ok::<crate::ir_items::FunctionV, ErrorV>(v@),
                Err(e) => spec_elaborate_function(self.recognized@, module@, file@.items, idx as int)
                    == Err::<crate::ir_items::FunctionV, ErrorV>(e@),
            },
    {
        if idx >= file.items.len() {
            return Err(Error::UnrecognizedItem(empty_span()));
        }
        proof {
            assert(file@.items[idx as int] == file.items@[idx as int]@);
        }
        match &file.items[idx] {
            crate::ast::AstItem::Fn(item) => {
                match elaborate_fn_sig(&self.recognized, module, None, &item.sig) {
                    Err(e) => Err(e),
                    Ok(m) => Ok(crate::ir_items::Function {
                        span: m.span,
                        name: m.name,
                        signature: m.signature,
                    }),
                }
            }
            _ => Err(Error::UnrecognizedItem(item_span(&file.items[idx]).clone())),
        }
    }

    /// Elaborate every recognized definition, in qualified-name order, into
    /// the final item map. The first error aborts the whole run.
    #[verifier::loop_isolation(false)]
    pub fn into_elaborated_items(self, file: &crate::ast::SourceFile) -> (r: Result<
        QnameMap<crate::ir_items::Item>,
        Error,
    >)
        requires
            keys_crate_rooted(self.recognized@),
        ensures
            match r {
                Ok(m) => spec_elaborate_all(self.recognized@, file@.items) == Ok::<
                    Seq<(Seq<Seq<char>>, crate::ir_items::ItemV)>,
                    ErrorV,
                >(m@),
                Err(e) => spec_elaborate_all(self.recognized@, file@.items) == Err::<
                    Seq<(Seq<Seq<char>>, crate::ir_items::ItemV)>,
                    ErrorV,
                >(e@),
            },
    {
        let ghost recv = self.recognized@;
        let ghost itemsv = file@.items;
        let mut out: QnameMap<crate::ir_items::Item> = QnameMap::new();
        let mut i: usize = 0;
        while i < self.recognized.entries.len()
            invariant
                i <= self.recognized.entries.len(),
                recv.len() == self.recognized.entries@.len(),
                spec_elaborate_upto(recv, itemsv, i as int) == Ok::<
                    Seq<(Seq<Seq<char>>, crate::ir_items::ItemV)>,
                    ErrorV,
                >(out@),
            decreases self.recognized.entries.len() - i,
        {
            let entry = &self.recognized.entries[i];
            proof {
                assert(recv[i as int] == (entry.0@, entry.1@));
            }
            match self.elaborate_definition(file, &entry.0, &entry.1) {
                Err(e) => {
                    proof {
                        lemma_elaborate_upto_stuck(recv, itemsv, i as int, recv.len() as int);
                    }
                    return Err(e);
                }
                Ok(None) => {}
                Ok(Some(item)) => {
                    let k = entry.0.clone();
                    out.insert(k, item);
                }
            }
            i = i + 1;
        }
        Ok(out)
    }
}

/// Once the fold fails at step `n`, it stays failed at every later step.
proof fn lemma_elaborate_upto_stuck(
    rec: DefsV,
    items: Seq<crate::ast::AstItemV>,
    n: int,
    m: int,
)
    requires
        0 <= n < m,
        spec_elaborate_upto(rec, items, n + 1) matches Err(_),
    ensures
        spec_elaborate_upto(rec, items, m) == spec_elaborate_upto(rec, items, n + 1),
    decreases m,
{
    if m > n + 1 {
        lemma_elaborate_upto_stuck(rec, items, n, m - 1);
    }
}

/// A span for conditions with no source position.
fn empty_span() -> (r: Span)
    ensures
        r@ == (crate::span::SpanV {
            path: Seq::empty(),
            start: crate::span::ErrorLocationV { byte: 0, line: 0, column: 0 },
            end: crate::span::ErrorLocationV { byte: 0, line: 0, column: 0 },
        }),
{
    let r = Span {
        path: String::new(),
        start: crate::span::ErrorLocation { byte: 0, line: 0, column: 0 },
        end: crate::span::ErrorLocation { byte: 0, line: 0, column: 0 },
    };
    proof {
        assert(r@.path =~= Seq::<char>::empty());
    }
    r
}

/// The span a top-level item covers.
fn item_span(item: &crate::ast::AstItem) -> (r: &Span)
    ensures
        r@ == spec_item_span(item@),
{
    match item {
        crate::ast::AstItem::Struct(x) => &x.span,
        crate::ast::AstItem::Enum(x) => &x.span,
        crate::ast::AstItem::Fn(x) => &x.span,
        crate::ast::AstItem::Impl(x) => &x.span,
        crate::ast::AstItem::Mod { span, .. } => span,
        crate::ast::AstItem::Trait { span, .. } => span,
        crate::ast::AstItem::TypeAlias { span, .. } => span,
        crate::ast::AstItem::Use { span, .. } => span,
        crate::ast::AstItem::Other { span } => span,
    }
}


/// The collected type arguments and bindings of a written path never
/// outweigh the path itself.
pub proof fn lemma_extract_sizes_pub(segments: Seq<AstSegV>)
    ensures
        spec_extract_path(segments, empty_rust_path()) matches Ok(rp) ==> ast_tys_size(rp.tys)
            <= ast_segs_size(segments) && ast_bindings_size(rp.bindings) <= ast_segs_size(segments),
{
    lemma_extract_path_sizes(segments, empty_rust_path());
}

} // verus!
