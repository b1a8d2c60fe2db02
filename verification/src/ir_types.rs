use vstd::prelude::*;

use crate::span::{Span, SpanV};
use crate::ir_items::QualifiedName;

verus! {

/// Different patterns that are recognized as being a "string" in the subject source.
#[derive(Clone, Copy, Debug, PartialEq, Eq, Structural)]
pub enum StringRepr {
    /// `String`
    String,
    /// `&str` (the precise kind of reference is captured elsewhere)
    StrRef,
    /// `impl ToString`
    ImplToString,
}

/// Different patterns that are recognized as being a "Vec" in the subject source.
#[derive(Clone, Copy, Debug, PartialEq, Eq, Structural)]
pub enum VecRepr {
    /// `Vec`
    Vec,
    /// `&[T]` (of some kind)
    SliceRef,
}

/// Different patterns that are recognized as being a "Map" or "Set" in the subject source.
#[derive(Clone, Copy, Debug, PartialEq, Eq, Structural)]
pub enum MapSetRepr {
    Hash,
    BTree,
    Index,
}

/// Different patterns that are recognized as being a "Path" in the subject source.
#[derive(Clone, Copy, Debug, PartialEq, Eq, Structural)]
pub enum PathRepr {
    /// `&Path`
    PathRef,
    /// `PathBuf`
    PathBuf,
}

/// Different patterns that are recognized as being an "Option" in the subject source.
#[derive(Clone, Copy, Debug, PartialEq, Eq, Structural)]
pub enum OptionRepr {
    /// `Option<E>`
    Option,
}

/// Different patterns that are recognized as being a "Result" in the subject source.
#[derive(Clone, Copy, Debug, PartialEq, Eq, Structural)]
pub enum ResultRepr {
    /// `Result<T, E>`
    Result,
}

/// Different patterns that are recognized as being a "Tuple" in the subject source.
#[derive(Clone, Copy, Debug, PartialEq, Eq, Structural)]
pub enum TupleRepr {
    /// `(...)` of the given arity
    Tuple(usize),
}

/// Auto traits that may decorate a future or error object.
#[derive(Clone, Copy, Debug, PartialEq, Eq, Structural)]
pub struct AutoTraits {
    pub send: bool,
    pub sync: bool,
    pub unpin: bool,
}

impl Default for AutoTraits {
    fn default() -> (r: Self)
        ensures
            r == (AutoTraits { send: false, sync: false, unpin: false }),
    {
        AutoTraits { send: false, sync: false, unpin: false }
    }
}

/// Different patterns that are recognized as being a "Future" in the subject source.
#[derive(Clone, Copy, Debug, PartialEq, Eq, Structural)]
pub enum FutureRepr {
    /// `impl Future<Output = T>`
    ImplFuture(AutoTraits),
    /// `Pin<Box<dyn Future<Output = T>>>`
    PinBoxDynFuture(AutoTraits),
}

/// Different patterns that are recognized as being an "Error" in the subject source.
#[derive(Clone, Copy, Debug, PartialEq, Eq, Structural)]
pub enum ErrorRepr {
    /// The ambient catch-all error type of the `anyhow` convention.
    AnyhowError,
    /// `Box<dyn Error>`
    BoxDynError(AutoTraits),
}

/// Recognized scalar types, named after their subject-language spelling.
#[derive(Clone, Copy, Debug, PartialEq, Eq, Structural)]
pub enum Scalar {
    Boolean,
    Char,
    I8,
    I16,
    I32,
    I64,
    U8,
    U16,
    U32,
    U64,
    F32,
    F64,
}

impl Scalar {
    /// The subject-language spelling of the scalar.
    pub fn as_str(&self) -> (r: &'static str)
        ensures
            r@ == spec_scalar_str(*self),
    {
        match self {
            Scalar::Boolean => "bool",
            Scalar::Char => "char",
            Scalar::I8 => "i8",
            Scalar::I16 => "i16",
            Scalar::I32 => "i32",
            Scalar::I64 => "i64",
            Scalar::U8 => "u8",
            Scalar::U16 => "u16",
            Scalar::U32 => "u32",
            Scalar::U64 => "u64",
            Scalar::F32 => "f32",
            Scalar::F64 => "f64",
        }
    }
}

/// The subject-language spelling of each scalar.
pub open spec fn spec_scalar_str(s: Scalar) -> Seq<char> {
    match s {
        Scalar::Boolean => "bool"@,
        Scalar::Char => "char"@,
        Scalar::I8 => "i8"@,
        Scalar::I16 => "i16"@,
        Scalar::I32 => "i32"@,
        Scalar::I64 => "i64"@,
        Scalar::U8 => "u8"@,
        Scalar::U16 => "u16"@,
        Scalar::U32 => "u32"@,
        Scalar::U64 => "u64"@,
        Scalar::F32 => "f32"@,
        Scalar::F64 => "f64"@,
    }
}

/// The kind of reference that wrapped a signature element.
#[derive(Clone, Copy, Debug, PartialEq, Eq, Structural)]
pub enum RefKind {
    /// `&T` with no specified lifetime
    AnonRef,
    /// `impl AsRef<T>`
    ImplAsRef,
}

/// An immutable node of the type tree: a source span plus the canonical
/// shape of the type. Two nodes mean the same thing exactly when their
/// kinds are equal; the span only records where the spelling stood.
#[derive(Debug, PartialEq, Eq)]
pub struct Ty {
    pub span: Span,
    pub kind: Box<TypeKind>,
}

/// The canonical shape of a type: a closed, tagged union. Every shape that
/// admits more than one subject-language spelling carries a representation
/// tag recording which spelling produced it.
#[derive(Debug, PartialEq, Eq)]
pub enum TypeKind {
    MapOf { key: Ty, value: Ty, repr: MapSetRepr },
    Vec { element: Ty, repr: VecRepr },
    SetOf { element: Ty, repr: MapSetRepr },
    Path { repr: PathRepr },
    String { repr: StringRepr },
    Option { element: Ty, repr: OptionRepr },
    Result { ok: Ty, err: Ty, repr: ResultRepr },
    Tuple { elements: Vec<Ty>, repr: TupleRepr },
    Scalar(Scalar),
    Future { output: Ty, repr: FutureRepr },
    /// A generic exception/error value.
    Error { repr: ErrorRepr },
    /// A type defined by the user, referenced by qualified name.
    UserType { qname: QualifiedName },
}

/// Mathematical value of a [`Ty`].
pub struct TyV {
    pub span: SpanV,
    pub kind: Box<TypeKindV>,
}

/// Mathematical value of a [`TypeKind`].
pub enum TypeKindV {
    MapOf { key: Box<TyV>, value: Box<TyV>, repr: MapSetRepr },
    Vec { element: Box<TyV>, repr: VecRepr },
    SetOf { element: Box<TyV>, repr: MapSetRepr },
    Path { repr: PathRepr },
    String { repr: StringRepr },
    Option { element: Box<TyV>, repr: OptionRepr },
    Result { ok: Box<TyV>, err: Box<TyV>, repr: ResultRepr },
    Tuple { elements: Seq<TyV>, repr: TupleRepr },
    Scalar(Scalar),
    Future { output: Box<TyV>, repr: FutureRepr },
    Error { repr: ErrorRepr },
    UserType { qname: Seq<Seq<char>> },
}

/// Mathematical value of a [`Ty`].
pub open spec fn spec_ty_view(t: Ty) -> TyV
    decreases t,
{
    TyV { span: t.span@, kind: Box::new(spec_type_kind_view(*t.kind)) }
}

/// Mathematical value of a sequence of types.
pub open spec fn spec_tys_view(s: Seq<Ty>) -> Seq<TyV>
    decreases s,
    via spec_tys_view_decreases
{
    if s.len() == 0 {
        Seq::empty()
    } else {
        seq![spec_ty_view(s[0])] + spec_tys_view(s.skip(1))
    }
}

#[via_fn]
proof fn spec_tys_view_decreases(s: Seq<Ty>) {
    if s.len() > 0 {
        assert(decreases_to!(s => s[0]));
        assert(s.skip(1) =~= s.subrange(1, s.len() as int));
        vstd::seq::axiom_seq_subrange_decreases(s, 1, s.len() as int);
        assert(decreases_to!(s => s.skip(1)));
    }
}

/// The view of a type sequence is the sequence of the views.
pub proof fn lemma_tys_view_is_map(s: Seq<Ty>)
    ensures
        spec_tys_view(s) == s.map_values(|t: Ty| t@),
{
    lemma_tys_view(s);
    assert(spec_tys_view(s) =~= s.map_values(|t: Ty| t@));
}

/// The view of a type sequence is elementwise.
pub proof fn lemma_tys_view(s: Seq<Ty>)
    ensures
        spec_tys_view(s).len() == s.len(),
        forall|i: int| 0 <= i < s.len() ==> spec_tys_view(s)[i] == spec_ty_view(s[i]),
    decreases s.len(),
{
    if s.len() > 0 {
        lemma_tys_view(s.skip(1));
        assert forall|i: int| 0 <= i < s.len() implies spec_tys_view(s)[i] == spec_ty_view(s[i]) by {
            if i > 0 {
                assert(spec_tys_view(s.skip(1))[i - 1] == spec_ty_view(s.skip(1)[i - 1]));
            }
        }
    }
}

/// Mathematical value of a [`TypeKind`].
pub open spec fn spec_type_kind_view(k: TypeKind) -> TypeKindV
    decreases k,
    via spec_type_kind_view_decreases
{
    match k {
        TypeKind::MapOf { key, value, repr } => TypeKindV::MapOf {
            key: Box::new(spec_ty_view(key)),
            value: Box::new(spec_ty_view(value)),
            repr,
        },
        TypeKind::Vec { element, repr } => TypeKindV::Vec {
            element: Box::new(spec_ty_view(element)),
            repr,
        },
        TypeKind::SetOf { element, repr } => TypeKindV::SetOf {
            element: Box::new(spec_ty_view(element)),
            repr,
        },
        TypeKind::Path { repr } => TypeKindV::Path { repr },
        TypeKind::String { repr } => TypeKindV::String { repr },
        TypeKind::Option { element, repr } => TypeKindV::Option {
            element: Box::new(spec_ty_view(element)),
            repr,
        },
        TypeKind::Result { ok, err, repr } => TypeKindV::Result {
            ok: Box::new(spec_ty_view(ok)),
            err: Box::new(spec_ty_view(err)),
            repr,
        },
        TypeKind::Tuple { elements, repr } => TypeKindV::Tuple {
            elements: spec_tys_view(elements@),
            repr,
        },
        TypeKind::Scalar(s) => TypeKindV::Scalar(s),
        TypeKind::Future { output, repr } => TypeKindV::Future {
            output: Box::new(spec_ty_view(output)),
            repr,
        },
        TypeKind::Error { repr } => TypeKindV::Error { repr },
        TypeKind::UserType { qname } => TypeKindV::UserType { qname: qname@ },
    }
}

#[via_fn]
proof fn spec_type_kind_view_decreases(k: TypeKind) {
    if let TypeKind::Tuple { elements, repr } = k {
        assert(decreases_to!(k => elements));
        assert(decreases_to!(elements => elements@));
    }
}

impl View for Ty {
    type V = TyV;

    open spec fn view(&self) -> TyV {
        spec_ty_view(*self)
    }
}

impl View for TypeKind {
    type V = TypeKindV;

    open spec fn view(&self) -> TypeKindV {
        spec_type_kind_view(*self)
    }
}

impl Ty {
    /// Pair a span with a type kind.
    pub fn new(span: Span, kind: TypeKind) -> (r: Self)
        ensures
            r@ == (TyV { span: span@, kind: Box::new(kind@) }),
    {
        Ty { span, kind: Box::new(kind) }
    }

    /// The opaque error type of the ambient catch-all error convention.
    pub fn anyhow_error(span: Span) -> (r: Self)
        ensures
            r@ == (TyV { span: span@, kind: Box::new(TypeKindV::Error { repr: ErrorRepr::AnyhowError }) }),
    {
        Ty::new(span, TypeKind::Error { repr: ErrorRepr::AnyhowError })
    }

    /// The canonical shape of this type.
    pub fn kind(&self) -> (r: &TypeKind)
        ensures
            r@ == *self@.kind,
    {
        &*self.kind
    }

    /// Returns the unit type: the empty tuple.
    pub fn unit(span: Span) -> (r: Self)
        ensures
            r@ == (TyV {
                span: span@,
                kind: Box::new(TypeKindV::Tuple { elements: Seq::empty(), repr: TupleRepr::Tuple(0) }),
            }),
    {
        let r = Ty::new(span, TypeKind::Tuple { elements: Vec::new(), repr: TupleRepr::Tuple(0) });
        proof {
            assert(spec_tys_view(Seq::<Ty>::empty()) =~= Seq::<TyV>::empty());
        }
        r
    }

    /// A reference to a user-defined type, by qualified name.
    pub fn user(span: Span, qname: &QualifiedName) -> (r: Self)
        ensures
            r@ == (TyV { span: span@, kind: Box::new(TypeKindV::UserType { qname: qname@ }) }),
    {
        Ty::new(span, TypeKind::UserType { qname: qname.clone() })
    }

    /// Wrap this type as one that was spelled behind a reference of kind `kind`.
    pub fn refd(self, kind: RefKind) -> (r: RefdTy)
        ensures
            r@ == RefdTyV::Ref(kind, self@),
    {
        RefdTy::Ref(kind, self)
    }

    /// Wrap this type as one that was spelled as an owned value.
    pub fn not_refd(self) -> (r: RefdTy)
        ensures
            r@ == RefdTyV::Owned(self@),
    {
        RefdTy::Owned(self)
    }

    /// True when this type is a reference to the user type named `qname`.
    pub fn is_user_type_of(&self, qname: &QualifiedName) -> (r: bool)
        ensures
            r == spec_is_user_of(self@, qname@),
    {
        match &*self.kind {
            TypeKind::UserType { qname: q } => {
                matches!(crate::ir_items::qname_cmp(q, qname), crate::ir_items::Cmp::Eq)
            }
            _ => false,
        }
    }
}

/// True when the type's shape is a reference to the user type named `q`.
pub open spec fn spec_is_user_of(t: TyV, q: Seq<Seq<char>>) -> bool {
    match *t.kind {
        TypeKindV::UserType { qname } => qname == q,
        _ => false,
    }
}

impl TypeKind {
    /// Pair this kind with a span, wrapped behind a reference of kind `kind`.
    pub fn refd(self, span: Span, kind: RefKind) -> (r: RefdTy)
        ensures
            r@ == RefdTyV::Ref(kind, TyV { span: span@, kind: Box::new(self@) }),
    {
        Ty::new(span, self).refd(kind)
    }

    /// Pair this kind with a span as an owned value.
    pub fn not_refd(self, span: Span) -> (r: RefdTy)
        ensures
            r@ == RefdTyV::Owned(TyV { span: span@, kind: Box::new(self@) }),
    {
        Ty::new(span, self).not_refd()
    }
}

/// A potentially referenced type. At most one level of referencing is
/// representable; these appear only at the outermost position of a
/// signature element during elaboration.
#[derive(Debug, PartialEq, Eq)]
pub enum RefdTy {
    /// `T`, an owned value
    Owned(Ty),
    /// Something created from a `&T`
    Ref(RefKind, Ty),
}

/// Mathematical value of a [`RefdTy`].
pub enum RefdTyV {
    Owned(TyV),
    Ref(RefKind, TyV),
}

impl View for RefdTy {
    type V = RefdTyV;

    open spec fn view(&self) -> RefdTyV {
        match self {
            RefdTy::Owned(t) => RefdTyV::Owned(t@),
            RefdTy::Ref(k, t) => RefdTyV::Ref(*k, t@),
        }
    }
}

/// The type under the optional reference.
pub open spec fn spec_refd_inner(r: RefdTyV) -> TyV {
    match r {
        RefdTyV::Owned(t) => t,
        RefdTyV::Ref(_, t) => t,
    }
}

impl RefdTy {
    /// The type under the optional reference.
    pub fn ty(&self) -> (r: &Ty)
        ensures
            r@ == spec_refd_inner(self@),
    {
        match self {
            RefdTy::Owned(ty) => ty,
            RefdTy::Ref(_, ty) => ty,
        }
    }
}

} // verus!
