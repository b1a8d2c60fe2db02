use vstd::prelude::*;

use crate::span::{Span, SpanV};

verus! {

/// Visibility of a declaration in the subject source.
#[derive(Clone, Copy, Debug, PartialEq, Eq, Structural)]
pub enum Visibility {
    /// `pub`
    Public,
    /// `pub(crate)`, `pub(super)`, ...
    Restricted,
    /// no modifier
    Inherited,
}

/// An attribute on a declaration, reduced to the single identifier of its
/// path, when its path is a single identifier.
#[derive(Debug, PartialEq, Eq)]
pub struct AstAttr {
    pub ident: Option<String>,
}

impl View for AstAttr {
    type V = Option<Seq<char>>;

    open spec fn view(&self) -> Option<Seq<char>> {
        match &self.ident {
            Some(s) => Some(s@),
            None => None,
        }
    }
}

/// A type expression of the subject source: a span plus its shape.
#[derive(Debug, PartialEq, Eq)]
pub struct AstTy {
    pub span: Span,
    pub kind: Box<AstTyKind>,
}

/// The shapes of type expressions that the pipeline distinguishes.
#[derive(Debug, PartialEq, Eq)]
pub enum AstTyKind {
    /// A named path such as `foo::Bar<T>`, possibly qualified (`<T as U>::V`).
    Path { qself: bool, segments: Vec<AstSeg> },
    /// `&T`, `&mut T`, `&'a T`
    Reference { mutable: bool, named_lifetime: bool, elem: AstTy },
    /// `[T]`
    Slice { elem: AstTy },
    /// `(T, U, ...)`
    Tuple { elems: Vec<AstTy> },
    /// `impl Bound + Bound`
    ImplTrait { bounds: Vec<AstBound> },
    /// A parenthesized or otherwise grouped type; unwraps with no effect.
    Group { elem: AstTy },
    /// Anything else; never supported.
    Other,
}

/// One segment of a path: its identifier and its generic arguments.
#[derive(Debug, PartialEq, Eq)]
pub struct AstSeg {
    pub ident: String,
    pub span: Span,
    /// True for parenthesized arguments `Fn(A) -> B`, which are never supported.
    pub parenthesized: bool,
    pub args: Vec<AstGenArg>,
}

/// One generic argument of a path segment.
#[derive(Debug, PartialEq, Eq)]
pub enum AstGenArg {
    /// A type argument.
    Ty(AstTy),
    /// An associated-type binding `Name = Ty`.
    Assoc { name: String, ty: AstTy },
    /// Anything else (a lifetime, a const); never supported.
    Other { span: Span },
}

/// One bound of an `impl Trait` type.
#[derive(Debug, PartialEq, Eq)]
pub enum AstBound {
    /// A trait bound, as a path.
    Trait { segments: Vec<AstSeg>, span: Span },
    /// A lifetime bound; only `'static` is tolerated.
    Lifetime { is_static: bool, span: Span },
    /// A precise-capture bound; ignored.
    PreciseCapture,
    /// Anything else; never supported.
    Other { span: Span },
}

/// Mathematical value of an [`AstTy`].
pub struct AstTyV {
    pub span: SpanV,
    pub kind: Box<AstTyKindV>,
}

/// Mathematical value of an [`AstTyKind`].
pub enum AstTyKindV {
    Path { qself: bool, segments: Seq<AstSegV> },
    Reference { mutable: bool, named_lifetime: bool, elem: Box<AstTyV> },
    Slice { elem: Box<AstTyV> },
    Tuple { elems: Seq<AstTyV> },
    ImplTrait { bounds: Seq<AstBoundV> },
    Group { elem: Box<AstTyV> },
    Other,
}

/// Mathematical value of an [`AstSeg`].
pub struct AstSegV {
    pub ident: Seq<char>,
    pub span: SpanV,
    pub parenthesized: bool,
    pub args: Seq<AstGenArgV>,
}

/// Mathematical value of an [`AstGenArg`].
pub enum AstGenArgV {
    Ty(Box<AstTyV>),
    Assoc { name: Seq<char>, ty: Box<AstTyV> },
    Other { span: SpanV },
}

/// Mathematical value of an [`AstBound`].
pub enum AstBoundV {
    Trait { segments: Seq<AstSegV>, span: SpanV },
    Lifetime { is_static: bool, span: SpanV },
    PreciseCapture,
    Other { span: SpanV },
}

/// Mathematical value of an [`AstTy`].
pub open spec fn spec_ast_ty_view(t: AstTy) -> AstTyV
    decreases t,
{
    AstTyV { span: t.span@, kind: Box::new(spec_ast_ty_kind_view(*t.kind)) }
}

/// Mathematical value of a sequence of type expressions.
pub open spec fn spec_ast_tys_view(s: Seq<AstTy>) -> Seq<AstTyV>
    decreases s,
    via spec_ast_tys_view_decreases
{
    if s.len() == 0 {
        Seq::empty()
    } else {
        seq![spec_ast_ty_view(s[0])] + spec_ast_tys_view(s.skip(1))
    }
}

#[via_fn]
proof fn spec_ast_tys_view_decreases(s: Seq<AstTy>) {
    if s.len() > 0 {
        assert(decreases_to!(s => s[0]));
        assert(s.skip(1) =~= s.subrange(1, s.len() as int));
        vstd::seq::axiom_seq_subrange_decreases(s, 1, s.len() as int);
        assert(decreases_to!(s => s.skip(1)));
    }
}

/// Mathematical value of an [`AstTyKind`].
pub open spec fn spec_ast_ty_kind_view(k: AstTyKind) -> AstTyKindV
    decreases k,
    via spec_ast_ty_kind_view_decreases
{
    match k {
        AstTyKind::Path { qself, segments } => AstTyKindV::Path {
            qself,
            segments: spec_ast_segs_view(segments@),
        },
        AstTyKind::Reference { mutable, named_lifetime, elem } => AstTyKindV::Reference {
            mutable,
            named_lifetime,
            elem: Box::new(spec_ast_ty_view(elem)),
        },
        AstTyKind::Slice { elem } => AstTyKindV::Slice { elem: Box::new(spec_ast_ty_view(elem)) },
        AstTyKind::Tuple { elems } => AstTyKindV::Tuple { elems: spec_ast_tys_view(elems@) },
        AstTyKind::ImplTrait { bounds } => AstTyKindV::ImplTrait {
            bounds: spec_ast_bounds_view(bounds@),
        },
        AstTyKind::Group { elem } => AstTyKindV::Group { elem: Box::new(spec_ast_ty_view(elem)) },
        AstTyKind::Other => AstTyKindV::Other,
    }
}

#[via_fn]
proof fn spec_ast_ty_kind_view_decreases(k: AstTyKind) {
    match k {
        AstTyKind::Path { qself, segments } => {
            assert(decreases_to!(k => segments));
            assert(decreases_to!(segments => segments@));
        }
        AstTyKind::Tuple { elems } => {
            assert(decreases_to!(k => elems));
            assert(decreases_to!(elems => elems@));
        }
        AstTyKind::ImplTrait { bounds } => {
            assert(decreases_to!(k => bounds));
            assert(decreases_to!(bounds => bounds@));
        }
        _ => {}
    }
}

/// Mathematical value of a sequence of path segments.
pub open spec fn spec_ast_segs_view(s: Seq<AstSeg>) -> Seq<AstSegV>
    decreases s,
    via spec_ast_segs_view_decreases
{
    if s.len() == 0 {
        Seq::empty()
    } else {
        seq![spec_ast_seg_view(s[0])] + spec_ast_segs_view(s.skip(1))
    }
}

#[via_fn]
proof fn spec_ast_segs_view_decreases(s: Seq<AstSeg>) {
    if s.len() > 0 {
        assert(decreases_to!(s => s[0]));
        assert(s.skip(1) =~= s.subrange(1, s.len() as int));
        vstd::seq::axiom_seq_subrange_decreases(s, 1, s.len() as int);
        assert(decreases_to!(s => s.skip(1)));
    }
}

/// Mathematical value of an [`AstSeg`].
pub open spec fn spec_ast_seg_view(seg: AstSeg) -> AstSegV
    decreases seg,
    via spec_ast_seg_view_decreases
{
    AstSegV {
        ident: seg.ident@,
        span: seg.span@,
        parenthesized: seg.parenthesized,
        args: spec_ast_args_view(seg.args@),
    }
}

#[via_fn]
proof fn spec_ast_seg_view_decreases(seg: AstSeg) {
    assert(decreases_to!(seg => seg.args));
    assert(decreases_to!(seg.args => seg.args@));
}

/// Mathematical value of a sequence of generic arguments.
pub open spec fn spec_ast_args_view(s: Seq<AstGenArg>) -> Seq<AstGenArgV>
    decreases s,
    via spec_ast_args_view_decreases
{
    if s.len() == 0 {
        Seq::empty()
    } else {
        seq![spec_ast_arg_view(s[0])] + spec_ast_args_view(s.skip(1))
    }
}

#[via_fn]
proof fn spec_ast_args_view_decreases(s: Seq<AstGenArg>) {
    if s.len() > 0 {
        assert(decreases_to!(s => s[0]));
        assert(s.skip(1) =~= s.subrange(1, s.len() as int));
        vstd::seq::axiom_seq_subrange_decreases(s, 1, s.len() as int);
        assert(decreases_to!(s => s.skip(1)));
    }
}

/// Mathematical value of an [`AstGenArg`].
pub open spec fn spec_ast_arg_view(a: AstGenArg) -> AstGenArgV
    decreases a,
{
    match a {
        AstGenArg::Ty(t) => AstGenArgV::Ty(Box::new(spec_ast_ty_view(t))),
        AstGenArg::Assoc { name, ty } => AstGenArgV::Assoc {
            name: name@,
            ty: Box::new(spec_ast_ty_view(ty)),
        },
        AstGenArg::Other { span } => AstGenArgV::Other { span: span@ },
    }
}

/// Mathematical value of a sequence of bounds.
pub open spec fn spec_ast_bounds_view(s: Seq<AstBound>) -> Seq<AstBoundV>
    decreases s,
    via spec_ast_bounds_view_decreases
{
    if s.len() == 0 {
        Seq::empty()
    } else {
        seq![spec_ast_bound_view(s[0])] + spec_ast_bounds_view(s.skip(1))
    }
}

#[via_fn]
proof fn spec_ast_bounds_view_decreases(s: Seq<AstBound>) {
    if s.len() > 0 {
        assert(decreases_to!(s => s[0]));
        assert(s.skip(1) =~= s.subrange(1, s.len() as int));
        vstd::seq::axiom_seq_subrange_decreases(s, 1, s.len() as int);
        assert(decreases_to!(s => s.skip(1)));
    }
}

/// Mathematical value of an [`AstBound`].
pub open spec fn spec_ast_bound_view(b: AstBound) -> AstBoundV
    decreases b,
    via spec_ast_bound_view_decreases
{
    match b {
        AstBound::Trait { segments, span } => AstBoundV::Trait {
            segments: spec_ast_segs_view(segments@),
            span: span@,
        },
        AstBound::Lifetime { is_static, span } => AstBoundV::Lifetime { is_static, span: span@ },
        AstBound::PreciseCapture => AstBoundV::PreciseCapture,
        AstBound::Other { span } => AstBoundV::Other { span: span@ },
    }
}

#[via_fn]
proof fn spec_ast_bound_view_decreases(b: AstBound) {
    if let AstBound::Trait { segments, span } = b {
        assert(decreases_to!(b => segments));
        assert(decreases_to!(segments => segments@));
    }
}

impl View for AstTy {
    type V = AstTyV;

    open spec fn view(&self) -> AstTyV {
        spec_ast_ty_view(*self)
    }
}

impl View for AstSeg {
    type V = AstSegV;

    open spec fn view(&self) -> AstSegV {
        spec_ast_seg_view(*self)
    }
}

impl View for AstGenArg {
    type V = AstGenArgV;

    open spec fn view(&self) -> AstGenArgV {
        spec_ast_arg_view(*self)
    }
}

impl View for AstBound {
    type V = AstBoundV;

    open spec fn view(&self) -> AstBoundV {
        spec_ast_bound_view(*self)
    }
}

/// The view of a type-expression sequence is elementwise.
pub proof fn lemma_ast_tys_view(s: Seq<AstTy>)
    ensures
        spec_ast_tys_view(s).len() == s.len(),
        forall|i: int| 0 <= i < s.len() ==> spec_ast_tys_view(s)[i] == spec_ast_ty_view(s[i]),
    decreases s.len(),
{
    if s.len() > 0 {
        lemma_ast_tys_view(s.skip(1));
        assert forall|i: int| 0 <= i < s.len() implies spec_ast_tys_view(s)[i] == spec_ast_ty_view(
            s[i],
        ) by {
            if i > 0 {
                assert(spec_ast_tys_view(s.skip(1))[i - 1] == spec_ast_ty_view(s.skip(1)[i - 1]));
            }
        }
    }
}

/// The view of a segment sequence is elementwise.
pub proof fn lemma_ast_segs_view(s: Seq<AstSeg>)
    ensures
        spec_ast_segs_view(s).len() == s.len(),
        forall|i: int| 0 <= i < s.len() ==> spec_ast_segs_view(s)[i] == spec_ast_seg_view(s[i]),
    decreases s.len(),
{
    if s.len() > 0 {
        lemma_ast_segs_view(s.skip(1));
        assert forall|i: int| 0 <= i < s.len() implies spec_ast_segs_view(s)[i] == spec_ast_seg_view(
            s[i],
        ) by {
            if i > 0 {
                assert(spec_ast_segs_view(s.skip(1))[i - 1] == spec_ast_seg_view(s.skip(1)[i - 1]));
            }
        }
    }
}

/// The view of an argument sequence is elementwise.
pub proof fn lemma_ast_args_view(s: Seq<AstGenArg>)
    ensures
        spec_ast_args_view(s).len() == s.len(),
        forall|i: int| 0 <= i < s.len() ==> spec_ast_args_view(s)[i] == spec_ast_arg_view(s[i]),
    decreases s.len(),
{
    if s.len() > 0 {
        lemma_ast_args_view(s.skip(1));
        assert forall|i: int| 0 <= i < s.len() implies spec_ast_args_view(s)[i] == spec_ast_arg_view(
            s[i],
        ) by {
            if i > 0 {
                assert(spec_ast_args_view(s.skip(1))[i - 1] == spec_ast_arg_view(s.skip(1)[i - 1]));
            }
        }
    }
}

/// The view of a bound sequence is elementwise.
pub proof fn lemma_ast_bounds_view(s: Seq<AstBound>)
    ensures
        spec_ast_bounds_view(s).len() == s.len(),
        forall|i: int| 0 <= i < s.len() ==> spec_ast_bounds_view(s)[i] == spec_ast_bound_view(s[i]),
    decreases s.len(),
{
    if s.len() > 0 {
        lemma_ast_bounds_view(s.skip(1));
        assert forall|i: int| 0 <= i < s.len() implies spec_ast_bounds_view(s)[i]
            == spec_ast_bound_view(s[i]) by {
            if i > 0 {
                assert(spec_ast_bounds_view(s.skip(1))[i - 1] == spec_ast_bound_view(
                    s.skip(1)[i - 1],
                ));
            }
        }
    }
}

/// The size of every bound is bounded by the size of its sequence.
pub proof fn lemma_ast_bounds_size_elem(s: Seq<AstBoundV>, i: int)
    requires
        0 <= i < s.len(),
    ensures
        ast_bound_size(s[i]) <= ast_bounds_size(s),
    decreases s.len(),
{
    if i > 0 {
        lemma_ast_bounds_size_elem(s.skip(1), i - 1);
        assert(s.skip(1)[i - 1] == s[i]);
    }
}

/// Structural size of a type expression; the measure that elaboration
/// recursion descends on.
pub open spec fn ast_ty_size(t: AstTyV) -> nat
    decreases t,
{
    1 + ast_ty_kind_size(*t.kind)
}

/// Structural size of a type shape.
pub open spec fn ast_ty_kind_size(k: AstTyKindV) -> nat
    decreases k,
    via ast_ty_kind_size_decreases
{
    match k {
        AstTyKindV::Path { qself, segments } => 1 + ast_segs_size(segments),
        AstTyKindV::Reference { mutable, named_lifetime, elem } => 1 + ast_ty_size(*elem),
        AstTyKindV::Slice { elem } => 1 + ast_ty_size(*elem),
        AstTyKindV::Tuple { elems } => 1 + ast_tys_size(elems),
        AstTyKindV::ImplTrait { bounds } => 1 + ast_bounds_size(bounds),
        AstTyKindV::Group { elem } => 1 + ast_ty_size(*elem),
        AstTyKindV::Other => 1,
    }
}

#[via_fn]
proof fn ast_ty_kind_size_decreases(k: AstTyKindV) {
    match k {
        AstTyKindV::Path { qself, segments } => {
            assert(decreases_to!(k => segments));
        }
        AstTyKindV::Tuple { elems } => {
            assert(decreases_to!(k => elems));
        }
        AstTyKindV::ImplTrait { bounds } => {
            assert(decreases_to!(k => bounds));
        }
        _ => {}
    }
}

/// Total structural size of a sequence of type expressions.
pub open spec fn ast_tys_size(s: Seq<AstTyV>) -> nat
    decreases s,
    via ast_tys_size_decreases
{
    if s.len() == 0 {
        0
    } else {
        ast_ty_size(s[0]) + ast_tys_size(s.skip(1))
    }
}

#[via_fn]
proof fn ast_tys_size_decreases(s: Seq<AstTyV>) {
    if s.len() > 0 {
        assert(decreases_to!(s => s[0]));
        assert(s.skip(1) =~= s.subrange(1, s.len() as int));
        vstd::seq::axiom_seq_subrange_decreases(s, 1, s.len() as int);
        assert(decreases_to!(s => s.skip(1)));
    }
}

/// Total structural size of a sequence of path segments.
pub open spec fn ast_segs_size(s: Seq<AstSegV>) -> nat
    decreases s,
    via ast_segs_size_decreases
{
    if s.len() == 0 {
        0
    } else {
        1 + ast_args_size(s[0].args) + ast_segs_size(s.skip(1))
    }
}

#[via_fn]
proof fn ast_segs_size_decreases(s: Seq<AstSegV>) {
    if s.len() > 0 {
        assert(decreases_to!(s => s[0]));
        assert(decreases_to!(s[0] => s[0].args));
        assert(s.skip(1) =~= s.subrange(1, s.len() as int));
        vstd::seq::axiom_seq_subrange_decreases(s, 1, s.len() as int);
        assert(decreases_to!(s => s.skip(1)));
    }
}

/// Total structural size of a sequence of generic arguments.
pub open spec fn ast_args_size(s: Seq<AstGenArgV>) -> nat
    decreases s,
    via ast_args_size_decreases
{
    if s.len() == 0 {
        0
    } else {
        ast_arg_size(s[0]) + ast_args_size(s.skip(1))
    }
}

#[via_fn]
proof fn ast_args_size_decreases(s: Seq<AstGenArgV>) {
    if s.len() > 0 {
        assert(decreases_to!(s => s[0]));
        assert(s.skip(1) =~= s.subrange(1, s.len() as int));
        vstd::seq::axiom_seq_subrange_decreases(s, 1, s.len() as int);
        assert(decreases_to!(s => s.skip(1)));
    }
}

/// Structural size of one generic argument.
pub open spec fn ast_arg_size(a: AstGenArgV) -> nat
    decreases a,
{
    match a {
        AstGenArgV::Ty(t) => 1 + ast_ty_size(*t),
        AstGenArgV::Assoc { name, ty } => 1 + ast_ty_size(*ty),
        AstGenArgV::Other { span } => 1,
    }
}

/// Total structural size of a sequence of bounds.
pub open spec fn ast_bounds_size(s: Seq<AstBoundV>) -> nat
    decreases s,
    via ast_bounds_size_decreases
{
    if s.len() == 0 {
        0
    } else {
        ast_bound_size(s[0]) + ast_bounds_size(s.skip(1))
    }
}

#[via_fn]
proof fn ast_bounds_size_decreases(s: Seq<AstBoundV>) {
    if s.len() > 0 {
        assert(decreases_to!(s => s[0]));
        assert(s.skip(1) =~= s.subrange(1, s.len() as int));
        vstd::seq::axiom_seq_subrange_decreases(s, 1, s.len() as int);
        assert(decreases_to!(s => s.skip(1)));
    }
}

/// Structural size of one bound.
pub open spec fn ast_bound_size(b: AstBoundV) -> nat
    decreases b,
    via ast_bound_size_decreases
{
    match b {
        AstBoundV::Trait { segments, span } => 1 + ast_segs_size(segments),
        AstBoundV::Lifetime { is_static, span } => 1,
        AstBoundV::PreciseCapture => 1,
        AstBoundV::Other { span } => 1,
    }
}

#[via_fn]
proof fn ast_bound_size_decreases(b: AstBoundV) {
    if let AstBoundV::Trait { segments, span } = b {
        assert(decreases_to!(b => segments));
    }
}

/// The size of every element is bounded by the size of its sequence.
pub proof fn lemma_ast_tys_size_elem(s: Seq<AstTyV>, i: int)
    requires
        0 <= i < s.len(),
    ensures
        ast_ty_size(s[i]) <= ast_tys_size(s),
    decreases s.len(),
{
    if i > 0 {
        lemma_ast_tys_size_elem(s.skip(1), i - 1);
        assert(s.skip(1)[i - 1] == s[i]);
    }
}

/// Appending one more type adds its size.
pub proof fn lemma_ast_tys_size_push(s: Seq<AstTyV>, t: AstTyV)
    ensures
        ast_tys_size(s.push(t)) == ast_tys_size(s) + ast_ty_size(t),
    decreases s.len(),
{
    assert(s.push(t).len() == s.len() + 1);
    assert(ast_tys_size(s.push(t)) == ast_ty_size(s.push(t)[0]) + ast_tys_size(s.push(t).skip(1)));
    if s.len() == 0 {
        assert(s.push(t) =~= seq![t]);
        assert(s.push(t).skip(1) =~= Seq::<AstTyV>::empty());
        assert(ast_tys_size(s) == 0);
    } else {
        lemma_ast_tys_size_push(s.skip(1), t);
        assert(s.push(t).skip(1) =~= s.skip(1).push(t));
        assert(s.push(t)[0] == s[0]);
        assert(ast_tys_size(s) == ast_ty_size(s[0]) + ast_tys_size(s.skip(1)));
    }
}

/// A field of a struct or of an enum variant.
#[derive(Debug, PartialEq, Eq)]
pub struct AstField {
    /// The name's span for a named field, the whole field's span otherwise.
    pub span: Span,
    /// The field's name, for a named field.
    pub name: Option<String>,
    pub vis: Visibility,
    pub ty: AstTy,
}

/// Mathematical value of an [`AstField`].
pub struct AstFieldV {
    pub span: SpanV,
    pub name: Option<Seq<char>>,
    pub vis: Visibility,
    pub ty: AstTyV,
}

impl View for AstField {
    type V = AstFieldV;

    open spec fn view(&self) -> AstFieldV {
        AstFieldV {
            span: self.span@,
            name: match &self.name {
                Some(n) => Some(n@),
                None => None,
            },
            vis: self.vis,
            ty: self.ty@,
        }
    }
}

/// How an enum variant's fields were written.
#[derive(Clone, Copy, Debug, PartialEq, Eq, Structural)]
pub enum AstFieldsStyle {
    /// `V { a: T }`
    Named,
    /// `V(T)`
    Unnamed,
    /// `V`
    Unit,
}

/// One variant of an enum declaration.
#[derive(Debug, PartialEq, Eq)]
pub struct AstVariant {
    /// Span of the variant's name.
    pub span: Span,
    pub name: String,
    pub attrs: Vec<AstAttr>,
    pub style: AstFieldsStyle,
    pub fields: Vec<AstField>,
}

/// Mathematical value of an [`AstVariant`].
pub struct AstVariantV {
    pub span: SpanV,
    pub name: Seq<char>,
    pub attrs: Seq<Option<Seq<char>>>,
    pub style: AstFieldsStyle,
    pub fields: Seq<AstFieldV>,
}

impl View for AstVariant {
    type V = AstVariantV;

    open spec fn view(&self) -> AstVariantV {
        AstVariantV {
            span: self.span@,
            name: self.name@,
            attrs: self.attrs@.map_values(|a: AstAttr| a@),
            style: self.style,
            fields: self.fields@.map_values(|f: AstField| f@),
        }
    }
}

/// A struct declaration.
#[derive(Debug, PartialEq, Eq)]
pub struct AstStruct {
    /// Span of the whole declaration.
    pub span: Span,
    pub name: String,
    /// Span of the name.
    pub name_span: Span,
    pub vis: Visibility,
    pub attrs: Vec<AstAttr>,
    /// Number of generic parameters.
    pub generics: usize,
    /// Span of the generics, for diagnostics.
    pub generics_span: Span,
    pub fields: Vec<AstField>,
}

/// Mathematical value of an [`AstStruct`].
pub struct AstStructV {
    pub span: SpanV,
    pub name: Seq<char>,
    pub name_span: SpanV,
    pub vis: Visibility,
    pub attrs: Seq<Option<Seq<char>>>,
    pub generics: nat,
    pub generics_span: SpanV,
    pub fields: Seq<AstFieldV>,
}

impl View for AstStruct {
    type V = AstStructV;

    open spec fn view(&self) -> AstStructV {
        AstStructV {
            span: self.span@,
            name: self.name@,
            name_span: self.name_span@,
            vis: self.vis,
            attrs: self.attrs@.map_values(|a: AstAttr| a@),
            generics: self.generics as nat,
            generics_span: self.generics_span@,
            fields: self.fields@.map_values(|f: AstField| f@),
        }
    }
}

/// An enum declaration.
#[derive(Debug, PartialEq, Eq)]
pub struct AstEnum {
    pub span: Span,
    pub name: String,
    pub name_span: Span,
    pub vis: Visibility,
    pub attrs: Vec<AstAttr>,
    pub generics: usize,
    pub generics_span: Span,
    pub variants: Vec<AstVariant>,
}

/// Mathematical value of an [`AstEnum`].
pub struct AstEnumV {
    pub span: SpanV,
    pub name: Seq<char>,
    pub name_span: SpanV,
    pub vis: Visibility,
    pub attrs: Seq<Option<Seq<char>>>,
    pub generics: nat,
    pub generics_span: SpanV,
    pub variants: Seq<AstVariantV>,
}

impl View for AstEnum {
    type V = AstEnumV;

    open spec fn view(&self) -> AstEnumV {
        AstEnumV {
            span: self.span@,
            name: self.name@,
            name_span: self.name_span@,
            vis: self.vis,
            attrs: self.attrs@.map_values(|a: AstAttr| a@),
            generics: self.generics as nat,
            generics_span: self.generics_span@,
            variants: self.variants@.map_values(|v: AstVariant| v@),
        }
    }
}

/// The `self` parameter of a method, if any.
#[derive(Debug, PartialEq, Eq)]
pub struct AstReceiver {
    /// `&self` or `&mut self` rather than `self`.
    pub reference: bool,
    /// `&mut self`.
    pub mutable: bool,
    /// An explicitly typed `self: T`.
    pub colon: bool,
    /// Span of the explicit `:`, for diagnostics.
    pub colon_span: Span,
}

/// Mathematical value of an [`AstReceiver`].
pub struct AstReceiverV {
    pub reference: bool,
    pub mutable: bool,
    pub colon: bool,
    pub colon_span: SpanV,
}

impl View for AstReceiver {
    type V = AstReceiverV;

    open spec fn view(&self) -> AstReceiverV {
        AstReceiverV {
            reference: self.reference,
            mutable: self.mutable,
            colon: self.colon,
            colon_span: self.colon_span@,
        }
    }
}

/// One non-receiver parameter of a function or method.
#[derive(Debug, PartialEq, Eq)]
pub struct AstInput {
    /// Span of the parameter's pattern.
    pub span: Span,
    /// The parameter's name, when the pattern is a single identifier.
    pub name: Option<String>,
    pub ty: AstTy,
}

/// Mathematical value of an [`AstInput`].
pub struct AstInputV {
    pub span: SpanV,
    pub name: Option<Seq<char>>,
    pub ty: AstTyV,
}

impl View for AstInput {
    type V = AstInputV;

    open spec fn view(&self) -> AstInputV {
        AstInputV {
            span: self.span@,
            name: match &self.name {
                Some(n) => Some(n@),
                None => None,
            },
            ty: self.ty@,
        }
    }
}

/// The signature of a function or method.
#[derive(Debug, PartialEq, Eq)]
pub struct AstSig {
    pub name: String,
    /// Span of the name.
    pub name_span: Span,
    /// Number of generic parameters.
    pub generics: usize,
    pub generics_span: Span,
    pub is_async: bool,
    pub receiver: Option<AstReceiver>,
    pub inputs: Vec<AstInput>,
    /// The declared return type; `None` for the default unit return.
    pub output: Option<AstTy>,
    /// Span of the return-type position.
    pub output_span: Span,
}

/// Mathematical value of an [`AstSig`].
pub struct AstSigV {
    pub name: Seq<char>,
    pub name_span: SpanV,
    pub generics: nat,
    pub generics_span: SpanV,
    pub is_async: bool,
    pub receiver: Option<AstReceiverV>,
    pub inputs: Seq<AstInputV>,
    pub output: Option<AstTyV>,
    pub output_span: SpanV,
}

impl View for AstSig {
    type V = AstSigV;

    open spec fn view(&self) -> AstSigV {
        AstSigV {
            name: self.name@,
            name_span: self.name_span@,
            generics: self.generics as nat,
            generics_span: self.generics_span@,
            is_async: self.is_async,
            receiver: match &self.receiver {
                Some(r) => Some(r@),
                None => None,
            },
            inputs: self.inputs@.map_values(|i: AstInput| i@),
            output: match &self.output {
                Some(t) => Some(t@),
                None => None,
            },
            output_span: self.output_span@,
        }
    }
}

/// A free function declaration.
#[derive(Debug, PartialEq, Eq)]
pub struct AstFn {
    pub span: Span,
    pub vis: Visibility,
    pub attrs: Vec<AstAttr>,
    pub sig: AstSig,
}

/// Mathematical value of an [`AstFn`].
pub struct AstFnV {
    pub span: SpanV,
    pub vis: Visibility,
    pub attrs: Seq<Option<Seq<char>>>,
    pub sig: AstSigV,
}

impl View for AstFn {
    type V = AstFnV;

    open spec fn view(&self) -> AstFnV {
        AstFnV {
            span: self.span@,
            vis: self.vis,
            attrs: self.attrs@.map_values(|a: AstAttr| a@),
            sig: self.sig@,
        }
    }
}

/// One member of an `impl` block.
#[derive(Debug, PartialEq, Eq)]
pub enum AstImplMember {
    /// An associated function or method.
    Fn { span: Span, vis: Visibility, attrs: Vec<AstAttr>, sig: AstSig },
    /// An associated constant.
    Const { span: Span, vis: Visibility, attrs: Vec<AstAttr> },
    /// An associated type.
    TypeAlias { span: Span, vis: Visibility, attrs: Vec<AstAttr> },
    /// A macro invocation.
    Macro { span: Span, attrs: Vec<AstAttr> },
    /// Unparsed tokens.
    Verbatim { span: Span },
    /// Anything else.
    Other { span: Span },
}

/// Mathematical value of an [`AstImplMember`].
pub enum AstImplMemberV {
    Fn { span: SpanV, vis: Visibility, attrs: Seq<Option<Seq<char>>>, sig: AstSigV },
    Const { span: SpanV, vis: Visibility, attrs: Seq<Option<Seq<char>>> },
    TypeAlias { span: SpanV, vis: Visibility, attrs: Seq<Option<Seq<char>>> },
    Macro { span: SpanV, attrs: Seq<Option<Seq<char>>> },
    Verbatim { span: SpanV },
    Other { span: SpanV },
}

impl View for AstImplMember {
    type V = AstImplMemberV;

    open spec fn view(&self) -> AstImplMemberV {
        match self {
            AstImplMember::Fn { span, vis, attrs, sig } => AstImplMemberV::Fn {
                span: span@,
                vis: *vis,
                attrs: attrs@.map_values(|a: AstAttr| a@),
                sig: sig@,
            },
            AstImplMember::Const { span, vis, attrs } => AstImplMemberV::Const {
                span: span@,
                vis: *vis,
                attrs: attrs@.map_values(|a: AstAttr| a@),
            },
            AstImplMember::TypeAlias { span, vis, attrs } => AstImplMemberV::TypeAlias {
                span: span@,
                vis: *vis,
                attrs: attrs@.map_values(|a: AstAttr| a@),
            },
            AstImplMember::Macro { span, attrs } => AstImplMemberV::Macro {
                span: span@,
                attrs: attrs@.map_values(|a: AstAttr| a@),
            },
            AstImplMember::Verbatim { span } => AstImplMemberV::Verbatim { span: span@ },
            AstImplMember::Other { span } => AstImplMemberV::Other { span: span@ },
        }
    }
}

/// An `impl` block.
#[derive(Debug, PartialEq, Eq)]
pub struct AstImpl {
    pub span: Span,
    /// Number of generic parameters on the block.
    pub generics: usize,
    pub generics_span: Span,
    /// True for `impl Trait for Type`.
    pub is_trait_impl: bool,
    /// The self type's identifier, when the self type is a plain single-segment path.
    pub self_ty_name: Option<String>,
    pub members: Vec<AstImplMember>,
}

/// Mathematical value of an [`AstImpl`].
pub struct AstImplV {
    pub span: SpanV,
    pub generics: nat,
    pub generics_span: SpanV,
    pub is_trait_impl: bool,
    pub self_ty_name: Option<Seq<char>>,
    pub members: Seq<AstImplMemberV>,
}

impl View for AstImpl {
    type V = AstImplV;

    open spec fn view(&self) -> AstImplV {
        AstImplV {
            span: self.span@,
            generics: self.generics as nat,
            generics_span: self.generics_span@,
            is_trait_impl: self.is_trait_impl,
            self_ty_name: match &self.self_ty_name {
                Some(n) => Some(n@),
                None => None,
            },
            members: self.members@.map_values(|m: AstImplMember| m@),
        }
    }
}

/// One top-level item of the crate's root file.
#[derive(Debug, PartialEq, Eq)]
pub enum AstItem {
    Struct(AstStruct),
    Enum(AstEnum),
    Fn(AstFn),
    Impl(AstImpl),
    Mod { span: Span, vis: Visibility, attrs: Vec<AstAttr> },
    Trait { span: Span, vis: Visibility, attrs: Vec<AstAttr> },
    TypeAlias { span: Span, vis: Visibility, attrs: Vec<AstAttr> },
    Use { span: Span, vis: Visibility, attrs: Vec<AstAttr> },
    Other { span: Span },
}

/// Mathematical value of an [`AstItem`].
pub enum AstItemV {
    Struct(AstStructV),
    Enum(AstEnumV),
    Fn(AstFnV),
    Impl(AstImplV),
    Mod { span: SpanV, vis: Visibility, attrs: Seq<Option<Seq<char>>> },
    Trait { span: SpanV, vis: Visibility, attrs: Seq<Option<Seq<char>>> },
    TypeAlias { span: SpanV, vis: Visibility, attrs: Seq<Option<Seq<char>>> },
    Use { span: SpanV, vis: Visibility, attrs: Seq<Option<Seq<char>>> },
    Other { span: SpanV },
}

impl View for AstItem {
    type V = AstItemV;

    open spec fn view(&self) -> AstItemV {
        match self {
            AstItem::Struct(s) => AstItemV::Struct(s@),
            AstItem::Enum(e) => AstItemV::Enum(e@),
            AstItem::Fn(f) => AstItemV::Fn(f@),
            AstItem::Impl(i) => AstItemV::Impl(i@),
            AstItem::Mod { span, vis, attrs } => AstItemV::Mod {
                span: span@,
                vis: *vis,
                attrs: attrs@.map_values(|a: AstAttr| a@),
            },
            AstItem::Trait { span, vis, attrs } => AstItemV::Trait {
                span: span@,
                vis: *vis,
                attrs: attrs@.map_values(|a: AstAttr| a@),
            },
            AstItem::TypeAlias { span, vis, attrs } => AstItemV::TypeAlias {
                span: span@,
                vis: *vis,
                attrs: attrs@.map_values(|a: AstAttr| a@),
            },
            AstItem::Use { span, vis, attrs } => AstItemV::Use {
                span: span@,
                vis: *vis,
                attrs: attrs@.map_values(|a: AstAttr| a@),
            },
            AstItem::Other { span } => AstItemV::Other { span: span@ },
        }
    }
}

/// The syntax tree of one source file: its top-level items in order.
#[derive(Debug, PartialEq, Eq)]
pub struct SourceFile {
    pub items: Vec<AstItem>,
}

/// Mathematical value of a [`SourceFile`].
pub struct SourceFileV {
    pub items: Seq<AstItemV>,
}

impl View for SourceFile {
    type V = SourceFileV;

    open spec fn view(&self) -> SourceFileV {
        SourceFileV { items: self.items@.map_values(|i: AstItem| i@) }
    }
}

} // verus!
