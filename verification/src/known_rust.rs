use vstd::prelude::*;

use crate::error::{Error, ErrorV};
use crate::ir_items::{str_cmp, Cmp, Name};
use crate::ir_types::{
    ErrorRepr, MapSetRepr, OptionRepr, PathRepr, RefKind, ResultRepr, Scalar, StringRepr, Ty, TyV,
    TypeKind, TypeKindV, VecRepr,
};
use crate::span::{Span, SpanV};

verus! {

/// A pending wrapper collected while walking into a type expression.
/// Exactly one wrapper kind exists: a reference.
#[derive(Clone, Copy, Debug, PartialEq, Eq, Structural)]
pub enum Modifier {
    /// `&T` or `impl AsRef<T>`
    Ref(RefKind),
}

/// The well-known standard-library and convention paths that the type
/// elaborator recognizes, each standing for one table entry.
#[derive(Clone, Copy, Debug, PartialEq, Eq, Structural)]
pub enum KnownType {
    /// `std::result::Result<T, E>`
    ResultStd,
    /// `anyhow::Result<T>`: the ambient catch-all error convention
    ResultAnyhow,
    /// `std::option::Option<T>`
    OptionStd,
    /// `std::string::String`
    StringStd,
    /// `str`, behind exactly one reference
    StrRef,
    /// `std::vec::Vec<T>`
    VecStd,
    /// `std::collections::HashMap<K, V>`
    HashMapStd,
    /// `std::collections::BTreeMap<K, V>`
    BTreeMapStd,
    /// `std::collections::HashSet<T>`
    HashSetStd,
    /// `std::collections::BTreeSet<T>`
    BTreeSetStd,
    /// `std::path::Path`, behind exactly one reference
    PathRefStd,
    /// `std::path::PathBuf`
    PathBufStd,
    /// A scalar type such as `u32`
    ScalarTy(Scalar),
}

/// The recognized `impl Trait` bounds.
#[derive(Clone, Copy, Debug, PartialEq, Eq, Structural)]
pub enum KnownBound {
    /// `impl ToString`
    ToStringBound,
    /// `impl Future<Output = T>`
    FutureBound,
    /// `impl AsRef<T>`: a reference modifier, not a shape of its own
    AsRefBound,
}

/// Whether a user-written path matches a known absolute path: a single bare
/// identifier matches by final segment only (the identifier is assumed to be
/// imported or in the prelude); a multi-segment path must match exactly.
pub open spec fn spec_path_matches(idents: Seq<Seq<char>>, known: Seq<Seq<char>>) -> bool {
    if idents.len() == 1 {
        idents[0] == known.last()
    } else {
        idents == known
    }
}

/// The known-type table: maps a path to the entry it names, if any. Entries
/// are keyed by absolute path; a single identifier matches by last segment.
pub open spec fn spec_match_known_type(idents: Seq<Seq<char>>) -> Option<KnownType> {
    if spec_path_matches(idents, seq!["std"@, "result"@, "Result"@]) {
        Some(KnownType::ResultStd)
    } else if spec_path_matches(idents, seq!["anyhow"@, "Result"@]) {
        Some(KnownType::ResultAnyhow)
    } else if spec_path_matches(idents, seq!["std"@, "option"@, "Option"@]) {
        Some(KnownType::OptionStd)
    } else if spec_path_matches(idents, seq!["std"@, "string"@, "String"@]) {
        Some(KnownType::StringStd)
    } else if spec_path_matches(idents, seq!["str"@]) {
        Some(KnownType::StrRef)
    } else if spec_path_matches(idents, seq!["std"@, "vec"@, "Vec"@]) {
        Some(KnownType::VecStd)
    } else if spec_path_matches(idents, seq!["std"@, "collections"@, "HashMap"@]) {
        Some(KnownType::HashMapStd)
    } else if spec_path_matches(idents, seq!["std"@, "collections"@, "BTreeMap"@]) {
        Some(KnownType::BTreeMapStd)
    } else if spec_path_matches(idents, seq!["std"@, "collections"@, "HashSet"@]) {
        Some(KnownType::HashSetStd)
    } else if spec_path_matches(idents, seq!["std"@, "collections"@, "BTreeSet"@]) {
        Some(KnownType::BTreeSetStd)
    } else if spec_path_matches(idents, seq!["std"@, "path"@, "Path"@]) {
        Some(KnownType::PathRefStd)
    } else if spec_path_matches(idents, seq!["std"@, "path"@, "PathBuf"@]) {
        Some(KnownType::PathBufStd)
    } else if spec_path_matches(idents, seq!["bool"@]) {
        Some(KnownType::ScalarTy(Scalar::Boolean))
    } else if spec_path_matches(idents, seq!["char"@]) {
        Some(KnownType::ScalarTy(Scalar::Char))
    } else if spec_path_matches(idents, seq!["u8"@]) {
        Some(KnownType::ScalarTy(Scalar::U8))
    } else if spec_path_matches(idents, seq!["u16"@]) {
        Some(KnownType::ScalarTy(Scalar::U16))
    } else if spec_path_matches(idents, seq!["u32"@]) {
        Some(KnownType::ScalarTy(Scalar::U32))
    } else if spec_path_matches(idents, seq!["u64"@]) {
        Some(KnownType::ScalarTy(Scalar::U64))
    } else if spec_path_matches(idents, seq!["i8"@]) {
        Some(KnownType::ScalarTy(Scalar::I8))
    } else if spec_path_matches(idents, seq!["i16"@]) {
        Some(KnownType::ScalarTy(Scalar::I16))
    } else if spec_path_matches(idents, seq!["i32"@]) {
        Some(KnownType::ScalarTy(Scalar::I32))
    } else if spec_path_matches(idents, seq!["i64"@]) {
        Some(KnownType::ScalarTy(Scalar::I64))
    } else if spec_path_matches(idents, seq!["f32"@]) {
        Some(KnownType::ScalarTy(Scalar::F32))
    } else if spec_path_matches(idents, seq!["f64"@]) {
        Some(KnownType::ScalarTy(Scalar::F64))
    } else {
        None
    }
}

/// The trait-bound table: maps a trait path to the entry it names, if any.
pub open spec fn spec_match_known_bound(idents: Seq<Seq<char>>) -> Option<KnownBound> {
    if spec_path_matches(idents, seq!["std"@, "string"@, "ToString"@]) {
        Some(KnownBound::ToStringBound)
    } else if spec_path_matches(idents, seq!["std"@, "task"@, "Future"@]) {
        Some(KnownBound::FutureBound)
    } else if spec_path_matches(idents, seq!["std"@, "convert"@, "AsRef"@]) {
        Some(KnownBound::AsRefBound)
    } else {
        None
    }
}

/// True when the name's text equals the literal.
fn name_is(n: &Name, s: &str) -> (r: bool)
    ensures
        r == (n@ == s@),
{
    matches!(str_cmp(n.text.as_str(), s), Cmp::Eq)
}

/// Look a user-written path up in the known-type table.
pub fn match_known_type(idents: &Vec<Name>) -> (r: Option<KnownType>)
    ensures
        r == spec_match_known_type(idents@.map_values(|n: Name| n@)),
{
    let ghost iv = idents@.map_values(|n: Name| n@);
    if idents.len() == 1 {
        let n = &idents[0];
        proof {
            assert(iv[0] == n@);
        }
        if name_is(n, "Result") {
            Some(KnownType::ResultStd)
        } else if name_is(n, "Option") {
            Some(KnownType::OptionStd)
        } else if name_is(n, "String") {
            Some(KnownType::StringStd)
        } else if name_is(n, "str") {
            Some(KnownType::StrRef)
        } else if name_is(n, "Vec") {
            Some(KnownType::VecStd)
        } else if name_is(n, "HashMap") {
            Some(KnownType::HashMapStd)
        } else if name_is(n, "BTreeMap") {
            Some(KnownType::BTreeMapStd)
        } else if name_is(n, "HashSet") {
            Some(KnownType::HashSetStd)
        } else if name_is(n, "BTreeSet") {
            Some(KnownType::BTreeSetStd)
        } else if name_is(n, "Path") {
            Some(KnownType::PathRefStd)
        } else if name_is(n, "PathBuf") {
            Some(KnownType::PathBufStd)
        } else if name_is(n, "bool") {
            Some(KnownType::ScalarTy(Scalar::Boolean))
        } else if name_is(n, "char") {
            Some(KnownType::ScalarTy(Scalar::Char))
        } else if name_is(n, "u8") {
            Some(KnownType::ScalarTy(Scalar::U8))
        } else if name_is(n, "u16") {
            Some(KnownType::ScalarTy(Scalar::U16))
        } else if name_is(n, "u32") {
            Some(KnownType::ScalarTy(Scalar::U32))
        } else if name_is(n, "u64") {
            Some(KnownType::ScalarTy(Scalar::U64))
        } else if name_is(n, "i8") {
            Some(KnownType::ScalarTy(Scalar::I8))
        } else if name_is(n, "i16") {
            Some(KnownType::ScalarTy(Scalar::I16))
        } else if name_is(n, "i32") {
            Some(KnownType::ScalarTy(Scalar::I32))
        } else if name_is(n, "i64") {
            Some(KnownType::ScalarTy(Scalar::I64))
        } else if name_is(n, "f32") {
            Some(KnownType::ScalarTy(Scalar::F32))
        } else if name_is(n, "f64") {
            Some(KnownType::ScalarTy(Scalar::F64))
        } else {
            None
        }
    } else if idents.len() == 2 {
        proof {
            assert(iv[0] == idents@[0]@ && iv[1] == idents@[1]@);
        }
        if name_is(&idents[0], "anyhow") && name_is(&idents[1], "Result") {
            proof {
                assert(iv =~= seq!["anyhow"@, "Result"@]);
            }
            Some(KnownType::ResultAnyhow)
        } else {
            proof {
                assert(iv != seq!["anyhow"@, "Result"@]) by {
                    if iv == seq!["anyhow"@, "Result"@] {
                        assert(iv[0] == "anyhow"@ && iv[1] == "Result"@);
                    }
                }
                lemma_known_len(iv);
            }
            None
        }
    } else if idents.len() == 3 {
        let a = &idents[0];
        let b = &idents[1];
        let c = &idents[2];
        proof {
            assert(iv[0] == a@ && iv[1] == b@ && iv[2] == c@);
        }
        let r = if name_is(a, "std") && name_is(b, "result") && name_is(c, "Result") {
            Some(KnownType::ResultStd)
        } else if name_is(a, "std") && name_is(b, "option") && name_is(c, "Option") {
            Some(KnownType::OptionStd)
        } else if name_is(a, "std") && name_is(b, "string") && name_is(c, "String") {
            Some(KnownType::StringStd)
        } else if name_is(a, "std") && name_is(b, "vec") && name_is(c, "Vec") {
            Some(KnownType::VecStd)
        } else if name_is(a, "std") && name_is(b, "collections") && name_is(c, "HashMap") {
            Some(KnownType::HashMapStd)
        } else if name_is(a, "std") && name_is(b, "collections") && name_is(c, "BTreeMap") {
            Some(KnownType::BTreeMapStd)
        } else if name_is(a, "std") && name_is(b, "collections") && name_is(c, "HashSet") {
            Some(KnownType::HashSetStd)
        } else if name_is(a, "std") && name_is(b, "collections") && name_is(c, "BTreeSet") {
            Some(KnownType::BTreeSetStd)
        } else if name_is(a, "std") && name_is(b, "path") && name_is(c, "Path") {
            Some(KnownType::PathRefStd)
        } else if name_is(a, "std") && name_is(b, "path") && name_is(c, "PathBuf") {
            Some(KnownType::PathBufStd)
        } else {
            None
        };
        proof {
            lemma_eq3(iv, "std"@, "result"@, "Result"@);
            lemma_eq3(iv, "std"@, "option"@, "Option"@);
            lemma_eq3(iv, "std"@, "string"@, "String"@);
            lemma_eq3(iv, "std"@, "vec"@, "Vec"@);
            lemma_eq3(iv, "std"@, "collections"@, "HashMap"@);
            lemma_eq3(iv, "std"@, "collections"@, "BTreeMap"@);
            lemma_eq3(iv, "std"@, "collections"@, "HashSet"@);
            lemma_eq3(iv, "std"@, "collections"@, "BTreeSet"@);
            lemma_eq3(iv, "std"@, "path"@, "Path"@);
            lemma_eq3(iv, "std"@, "path"@, "PathBuf"@);
            lemma_known_len(iv);
        }
        r
    } else {
        proof {
            lemma_known_len(iv);
        }
        None
    }
}

/// A sequence of three equals `seq![a, b, c]` exactly when the elements match.
proof fn lemma_eq3(iv: Seq<Seq<char>>, a: Seq<char>, b: Seq<char>, c: Seq<char>)
    requires
        iv.len() == 3,
    ensures
        (iv == seq![a, b, c]) == (iv[0] == a && iv[1] == b && iv[2] == c),
{
    if iv[0] == a && iv[1] == b && iv[2] == c {
        assert(iv =~= seq![a, b, c]);
    }
    if iv == seq![a, b, c] {
        assert(iv[0] == a && iv[1] == b && iv[2] == c);
    }
}

/// A path whose length matches no table entry matches nothing.
proof fn lemma_known_len(iv: Seq<Seq<char>>)
    requires
        iv.len() != 1,
    ensures
        iv.len() != 2 && iv.len() != 3 ==> (spec_match_known_type(iv) matches None) && (
        spec_match_known_bound(iv) matches None),
        iv.len() == 2 ==> ((spec_match_known_type(iv) matches Some(k) ==> k
            == KnownType::ResultAnyhow) && (spec_match_known_bound(iv) matches None)),
        iv.len() == 3 ==> spec_match_known_type(iv) != Some(KnownType::ResultAnyhow),
{
}

/// Look a trait path up in the trait-bound table.
pub fn match_known_bound(idents: &Vec<Name>) -> (r: Option<KnownBound>)
    ensures
        r == spec_match_known_bound(idents@.map_values(|n: Name| n@)),
{
    let ghost iv = idents@.map_values(|n: Name| n@);
    if idents.len() == 1 {
        let n = &idents[0];
        proof {
            assert(iv[0] == n@);
        }
        if name_is(n, "ToString") {
            Some(KnownBound::ToStringBound)
        } else if name_is(n, "Future") {
            Some(KnownBound::FutureBound)
        } else if name_is(n, "AsRef") {
            Some(KnownBound::AsRefBound)
        } else {
            None
        }
    } else if idents.len() == 3 {
        let a = &idents[0];
        let b = &idents[1];
        let c = &idents[2];
        proof {
            assert(iv[0] == a@ && iv[1] == b@ && iv[2] == c@);
        }
        let r = if name_is(a, "std") && name_is(b, "string") && name_is(c, "ToString") {
            Some(KnownBound::ToStringBound)
        } else if name_is(a, "std") && name_is(b, "task") && name_is(c, "Future") {
            Some(KnownBound::FutureBound)
        } else if name_is(a, "std") && name_is(b, "convert") && name_is(c, "AsRef") {
            Some(KnownBound::AsRefBound)
        } else {
            None
        };
        proof {
            lemma_eq3(iv, "std"@, "string"@, "ToString"@);
            lemma_eq3(iv, "std"@, "task"@, "Future"@);
            lemma_eq3(iv, "std"@, "convert"@, "AsRef"@);
            lemma_known_len(iv);
        }
        r
    } else {
        proof {
            lemma_known_len(iv);
        }
        None
    }
}

/// A type node: a span paired with a shape.
pub open spec fn mk_ty(span: SpanV, k: TypeKindV) -> TyV {
    TyV { span, kind: Box::new(k) }
}

/// The associated-type bindings collected from a path, as a little map:
/// looking up the first binding with the given name.
pub open spec fn spec_bget<T>(bs: Seq<(Seq<char>, T)>, k: Seq<char>) -> Option<T>
    decreases bs.len(),
{
    if bs.len() == 0 {
        None
    } else if bs[0].0 == k {
        Some(bs[0].1)
    } else {
        spec_bget(bs.skip(1), k)
    }
}

/// Binding a name: replaces the first binding with an equal name, else appends.
pub open spec fn spec_binsert<T>(
    bs: Seq<(Seq<char>, T)>,
    k: Seq<char>,
    v: T,
) -> Seq<(Seq<char>, T)>
    decreases bs.len(),
{
    if bs.len() == 0 {
        seq![(k, v)]
    } else if bs[0].0 == k {
        bs.update(0, (k, v))
    } else {
        seq![bs[0]] + spec_binsert(bs.skip(1), k, v)
    }
}

/// What a matched known-type entry produces, given the wrappers pending
/// around the written type, its type arguments (already elaborated as owned
/// types), and its associated-type bindings. A mismatch with the entry's
/// expected wrappers, arity or bindings is an error, not a silent non-match.
pub open spec fn spec_make_known_type(
    shape: KnownType,
    span: SpanV,
    modifiers: Seq<Modifier>,
    tys: Seq<TyV>,
    bindings: Seq<(Seq<char>, TyV)>,
) -> Result<crate::ir_types::RefdTyV, ErrorV> {
    match shape {
        KnownType::StrRef => if modifiers.len() != 1 {
            Err(ErrorV::UnsupportedUseOfType(span))
        } else if tys.len() != 0 {
            Err(ErrorV::UnsupportedUseOfType(span))
        } else if bindings.len() != 0 {
            Err(ErrorV::UnsupportedUseOfType(span))
        } else {
            match modifiers[0] {
                Modifier::Ref(r) => Ok(crate::ir_types::RefdTyV::Ref(
                    r,
                    mk_ty(span, TypeKindV::String { repr: StringRepr::StrRef }),
                )),
            }
        },
        KnownType::PathRefStd => if modifiers.len() != 1 {
            Err(ErrorV::UnsupportedUseOfType(span))
        } else if tys.len() != 0 {
            Err(ErrorV::UnsupportedUseOfType(span))
        } else if bindings.len() != 0 {
            Err(ErrorV::UnsupportedUseOfType(span))
        } else {
            match modifiers[0] {
                Modifier::Ref(r) => Ok(crate::ir_types::RefdTyV::Ref(
                    r,
                    mk_ty(span, TypeKindV::Path { repr: PathRepr::PathRef }),
                )),
            }
        },
        _ => if modifiers.len() != 0 {
            Err(ErrorV::UnsupportedUseOfType(span))
        } else if tys.len() != spec_known_type_arity(shape) {
            Err(ErrorV::UnsupportedUseOfType(span))
        } else if bindings.len() != 0 {
            Err(ErrorV::UnsupportedUseOfType(span))
        } else {
            Ok(crate::ir_types::RefdTyV::Owned(mk_ty(span, spec_known_type_kind(shape, span, tys))))
        },
    }
}

/// How many type arguments each owned table entry expects.
pub open spec fn spec_known_type_arity(shape: KnownType) -> int {
    match shape {
        KnownType::ResultStd => 2,
        KnownType::ResultAnyhow => 1,
        KnownType::OptionStd => 1,
        KnownType::StringStd => 0,
        KnownType::StrRef => 0,
        KnownType::VecStd => 1,
        KnownType::HashMapStd => 2,
        KnownType::BTreeMapStd => 2,
        KnownType::HashSetStd => 1,
        KnownType::BTreeSetStd => 1,
        KnownType::PathRefStd => 0,
        KnownType::PathBufStd => 0,
        KnownType::ScalarTy(_) => 0,
    }
}

/// The shape each owned table entry constructs from its arguments.
pub open spec fn spec_known_type_kind(shape: KnownType, span: SpanV, tys: Seq<TyV>) -> TypeKindV {
    match shape {
        KnownType::ResultStd => TypeKindV::Result {
            ok: Box::new(tys[0]),
            err: Box::new(tys[1]),
            repr: ResultRepr::Result,
        },
        KnownType::ResultAnyhow => TypeKindV::Result {
            ok: Box::new(tys[0]),
            err: Box::new(mk_ty(span, TypeKindV::Error { repr: ErrorRepr::AnyhowError })),
            repr: ResultRepr::Result,
        },
        KnownType::OptionStd => TypeKindV::Option { element: Box::new(tys[0]), repr: OptionRepr::Option },
        KnownType::StringStd => TypeKindV::String { repr: StringRepr::String },
        KnownType::VecStd => TypeKindV::Vec { element: Box::new(tys[0]), repr: VecRepr::Vec },
        KnownType::HashMapStd => TypeKindV::MapOf {
            key: Box::new(tys[0]),
            value: Box::new(tys[1]),
            repr: MapSetRepr::Hash,
        },
        KnownType::BTreeMapStd => TypeKindV::MapOf {
            key: Box::new(tys[0]),
            value: Box::new(tys[1]),
            repr: MapSetRepr::BTree,
        },
        KnownType::HashSetStd => TypeKindV::SetOf { element: Box::new(tys[0]), repr: MapSetRepr::Hash },
        KnownType::BTreeSetStd => TypeKindV::SetOf { element: Box::new(tys[0]), repr: MapSetRepr::BTree },
        KnownType::PathBufStd => TypeKindV::Path { repr: PathRepr::PathBuf },
        KnownType::ScalarTy(s) => TypeKindV::Scalar(s),
        KnownType::StrRef => TypeKindV::String { repr: StringRepr::StrRef },
        KnownType::PathRefStd => TypeKindV::Path { repr: PathRepr::PathRef },
    }
}

/// What a matched trait-bound entry produces. The `AsRef` entry never
/// reaches this: it is a wrapper, consumed by the caller.
pub open spec fn spec_make_known_bound(
    bound: KnownBound,
    span: SpanV,
    modifiers: Seq<Modifier>,
    tys: Seq<TyV>,
    bindings: Seq<(Seq<char>, TyV)>,
) -> Result<crate::ir_types::RefdTyV, ErrorV> {
    match bound {
        KnownBound::ToStringBound => if modifiers.len() != 0 {
            Err(ErrorV::UnsupportedUseOfType(span))
        } else if tys.len() != 0 {
            Err(ErrorV::UnsupportedUseOfType(span))
        } else if bindings.len() != 0 {
            Err(ErrorV::UnsupportedUseOfType(span))
        } else {
            Ok(crate::ir_types::RefdTyV::Owned(mk_ty(span, TypeKindV::String { repr: StringRepr::ImplToString })))
        },
        KnownBound::FutureBound => if modifiers.len() != 0 {
            Err(ErrorV::UnsupportedUseOfType(span))
        } else if tys.len() != 0 {
            Err(ErrorV::UnsupportedUseOfType(span))
        } else {
            match spec_bget(bindings, "Output"@) {
                None => Err(ErrorV::BindingNotFound(span, "Output"@)),
                Some(output) => if bindings.len() != 1 {
                    Err(ErrorV::UnsupportedUseOfType(span))
                } else {
                    Ok(crate::ir_types::RefdTyV::Owned(mk_ty(span, TypeKindV::Future {
                        output: Box::new(output),
                        repr: crate::ir_types::FutureRepr::ImplFuture(crate::ir_types::AutoTraits {
                            send: false,
                            sync: false,
                            unpin: false,
                        }),
                    })))
                },
            }
        },
        KnownBound::AsRefBound => Err(ErrorV::UnsupportedUseOfType(span)),
    }
}

/// Looking up the binding found first at position `i` yields that binding.
pub proof fn lemma_bget_at<T>(bs: Seq<(Seq<char>, T)>, k: Seq<char>, i: int)
    requires
        0 <= i < bs.len(),
        bs[i].0 == k,
        forall|j: int| 0 <= j < i ==> (#[trigger] bs[j]).0 != k,
    ensures
        spec_bget(bs, k) == Some(bs[i].1),
    decreases i,
{
    if i > 0 {
        assert forall|j: int| 0 <= j < i - 1 implies (#[trigger] bs.skip(1)[j]).0 != k by {
            assert(bs.skip(1)[j] == bs[j + 1]);
        }
        assert(bs.skip(1)[i - 1] == bs[i]);
        lemma_bget_at(bs.skip(1), k, i - 1);
    }
}

/// When no binding carries the name, lookup yields nothing.
pub proof fn lemma_bget_none<T>(bs: Seq<(Seq<char>, T)>, k: Seq<char>)
    requires
        forall|j: int| 0 <= j < bs.len() ==> (#[trigger] bs[j]).0 != k,
    ensures
        spec_bget(bs, k) == None::<T>,
    decreases bs.len(),
{
    if bs.len() > 0 {
        assert forall|j: int| 0 <= j < bs.len() - 1 implies (#[trigger] bs.skip(1)[j]).0 != k by {
            assert(bs.skip(1)[j] == bs[j + 1]);
        }
        lemma_bget_none(bs.skip(1), k);
    }
}

/// The bindings of a path, keyed by name.
pub open spec fn bindings_view<T: View>(bs: Seq<(Name, T)>) -> Seq<(Seq<char>, <T as View>::V)> {
    bs.map_values(|p: (Name, T)| (p.0@, p.1@))
}

/// Record an associated-type binding, replacing one with an equal name.
pub fn bindings_insert<T: View>(bs: &mut Vec<(Name, T)>, k: Name, v: T)
    ensures
        bindings_view(final(bs)@) == spec_binsert(bindings_view(old(bs)@), k@, v@),
{
    let ghost bs0 = bindings_view(bs@);
    let ghost kk = k@;
    let ghost vv = v@;
    let mut i: usize = 0;
    loop
        invariant
            i <= bs.len(),
            bindings_view(bs@) == bs0,
            bindings_view(old(bs)@) == bs0,
            kk == k@,
            vv == v@,
            forall|j: int| 0 <= j < i ==> (#[trigger] bs0[j]).0 != kk,
        ensures
            i <= bs.len(),
            bindings_view(bs@) == bs0,
            i < bs.len() ==> bs0[i as int].0 == kk,
            i == bs.len() ==> forall|j: int| 0 <= j < bs0.len() ==> (#[trigger] bs0[j]).0 != kk,
        decreases bs.len() - i,
    {
        if i == bs.len() {
            break;
        }
        if matches!(str_cmp(bs[i].0.text.as_str(), k.text.as_str()), Cmp::Eq) {
            assert(bs0[i as int].0 == kk);
            break;
        }
        assert(bs0[i as int].0 != kk);
        i = i + 1;
    }
    if i < bs.len() {
        let _ = bs.remove(i);
        bs.insert(i, (k, v));
        proof {
            assert(bindings_view(bs@) =~= bs0.update(i as int, (kk, vv)));
            lemma_binsert_at(bs0, kk, vv, i as int);
        }
    } else {
        bs.push((k, v));
        proof {
            assert(bindings_view(bs@) =~= bs0.push((kk, vv)));
            lemma_binsert_end(bs0, kk, vv);
        }
    }
}

/// When the first match is at `i`, inserting updates that position.
proof fn lemma_binsert_at<T>(bs: Seq<(Seq<char>, T)>, k: Seq<char>, v: T, i: int)
    requires
        0 <= i < bs.len(),
        bs[i].0 == k,
        forall|j: int| 0 <= j < i ==> (#[trigger] bs[j]).0 != k,
    ensures
        spec_binsert(bs, k, v) == bs.update(i, (k, v)),
    decreases i,
{
    if i == 0 {
    } else {
        assert forall|j: int| 0 <= j < i - 1 implies (#[trigger] bs.skip(1)[j]).0 != k by {
            assert(bs.skip(1)[j] == bs[j + 1]);
        }
        assert(bs.skip(1)[i - 1] == bs[i]);
        lemma_binsert_at(bs.skip(1), k, v, i - 1);
        assert(seq![bs[0]] + bs.skip(1).update(i - 1, (k, v)) =~= bs.update(i, (k, v)));
    }
}

/// When no name matches, inserting appends at the end.
proof fn lemma_binsert_end<T>(bs: Seq<(Seq<char>, T)>, k: Seq<char>, v: T)
    requires
        forall|j: int| 0 <= j < bs.len() ==> (#[trigger] bs[j]).0 != k,
    ensures
        spec_binsert(bs, k, v) == bs.push((k, v)),
    decreases bs.len(),
{
    if bs.len() == 0 {
        assert(spec_binsert(bs, k, v) =~= bs.push((k, v)));
    } else {
        assert forall|j: int| 0 <= j < bs.len() - 1 implies (#[trigger] bs.skip(1)[j]).0 != k by {
            assert(bs.skip(1)[j] == bs[j + 1]);
        }
        lemma_binsert_end(bs.skip(1), k, v);
        assert(seq![bs[0]] + bs.skip(1).push((k, v)) =~= bs.push((k, v)));
    }
}

/// Build the type a matched known-type entry stands for, checking the
/// pending wrappers, the argument count and the bindings against what the
/// entry expects.
pub fn make_known_type(
    shape: KnownType,
    span: Span,
    modifiers: &Vec<Modifier>,
    tys: Vec<Ty>,
    bindings: Vec<(Name, Ty)>,
) -> (r: Result<crate::ir_types::RefdTy, Error>)
    ensures
        match r {
            Ok(t) => spec_make_known_type(
                shape,
                span@,
                modifiers@,
                tys@.map_values(|t: Ty| t@),
                bindings_view(bindings@),
                ) == Ok::<crate::ir_types::RefdTyV, ErrorV>(t@),
            Err(e) => spec_make_known_type(
                shape,
                span@,
                modifiers@,
                tys@.map_values(|t: Ty| t@),
                bindings_view(bindings@),
            ) == Err::<crate::ir_types::RefdTyV, ErrorV>(e@),
        },
{
    let ghost tysv = tys@.map_values(|t: Ty| t@);
    let is_ref_entry = matches!(shape, KnownType::StrRef) || matches!(shape, KnownType::PathRefStd);
    if is_ref_entry {
        if modifiers.len() != 1 || tys.len() != 0 || bindings.len() != 0 {
            return Err(Error::UnsupportedUseOfType(span));
        }
        let r = match modifiers[0] {
            Modifier::Ref(rk) => rk,
        };
        let kind = if matches!(shape, KnownType::StrRef) {
            TypeKind::String { repr: StringRepr::StrRef }
        } else {
            TypeKind::Path { repr: PathRepr::PathRef }
        };
        return Ok(Ty::new(span, kind).refd(r));
    }
    if modifiers.len() != 0 {
        return Err(Error::UnsupportedUseOfType(span));
    }
    let expected: usize = match shape {
        KnownType::ResultStd => 2,
        KnownType::ResultAnyhow => 1,
        KnownType::OptionStd => 1,
        KnownType::VecStd => 1,
        KnownType::HashMapStd => 2,
        KnownType::BTreeMapStd => 2,
        KnownType::HashSetStd => 1,
        KnownType::BTreeSetStd => 1,
        _ => 0,
    };
    if tys.len() != expected {
        return Err(Error::UnsupportedUseOfType(span));
    }
    if bindings.len() != 0 {
        return Err(Error::UnsupportedUseOfType(span));
    }
    let mut tys = tys;
    match shape {
        KnownType::ResultStd => {
            let err = tys.pop().unwrap();
            let ok = tys.pop().unwrap();
            proof {
                assert(tysv[0] == ok@ && tysv[1] == err@);
            }
            Ok(Ty::new(span, TypeKind::Result { ok, err, repr: ResultRepr::Result }).not_refd())
        }
        KnownType::ResultAnyhow => {
            let ok = tys.pop().unwrap();
            let err = Ty::anyhow_error(span.clone());
            Ok(Ty::new(span, TypeKind::Result { ok, err, repr: ResultRepr::Result }).not_refd())
        }
        KnownType::OptionStd => {
            let element = tys.pop().unwrap();
            Ok(Ty::new(span, TypeKind::Option { element, repr: OptionRepr::Option }).not_refd())
        }
        KnownType::StringStd => Ok(
            Ty::new(span, TypeKind::String { repr: StringRepr::String }).not_refd(),
        ),
        KnownType::VecStd => {
            let element = tys.pop().unwrap();
            Ok(Ty::new(span, TypeKind::Vec { element, repr: VecRepr::Vec }).not_refd())
        }
        KnownType::HashMapStd => {
            let value = tys.pop().unwrap();
            let key = tys.pop().unwrap();
            proof {
                assert(tysv[0] == key@ && tysv[1] == value@);
            }
            Ok(Ty::new(span, TypeKind::MapOf { key, value, repr: MapSetRepr::Hash }).not_refd())
        }
        KnownType::BTreeMapStd => {
            let value = tys.pop().unwrap();
            let key = tys.pop().unwrap();
            proof {
                assert(tysv[0] == key@ && tysv[1] == value@);
            }
            Ok(Ty::new(span, TypeKind::MapOf { key, value, repr: MapSetRepr::BTree }).not_refd())
        }
        KnownType::HashSetStd => {
            let element = tys.pop().unwrap();
            Ok(Ty::new(span, TypeKind::SetOf { element, repr: MapSetRepr::Hash }).not_refd())
        }
        KnownType::BTreeSetStd => {
            let element = tys.pop().unwrap();
            Ok(Ty::new(span, TypeKind::SetOf { element, repr: MapSetRepr::BTree }).not_refd())
        }
        KnownType::PathBufStd => Ok(
            Ty::new(span, TypeKind::Path { repr: PathRepr::PathBuf }).not_refd(),
        ),
        KnownType::ScalarTy(s) => Ok(Ty::new(span, TypeKind::Scalar(s)).not_refd()),
        KnownType::StrRef => Err(Error::UnsupportedUseOfType(span)),
        KnownType::PathRefStd => Err(Error::UnsupportedUseOfType(span)),
    }
}

/// Build the type a matched trait-bound entry stands for.
pub fn make_known_bound(
    bound: KnownBound,
    span: Span,
    modifiers: &Vec<Modifier>,
    tys: Vec<Ty>,
    bindings: Vec<(Name, Ty)>,
) -> (r: Result<crate::ir_types::RefdTy, Error>)
    ensures
        match r {
            Ok(t) => spec_make_known_bound(
                bound,
                span@,
                modifiers@,
                tys@.map_values(|t: Ty| t@),
                bindings_view(bindings@),
            ) == Ok::<crate::ir_types::RefdTyV, ErrorV>(t@),
            Err(e) => spec_make_known_bound(
                bound,
                span@,
                modifiers@,
                tys@.map_values(|t: Ty| t@),
                bindings_view(bindings@),
            ) == Err::<crate::ir_types::RefdTyV, ErrorV>(e@),
        },
{
    let ghost bsv = bindings_view(bindings@);
    match bound {
        KnownBound::ToStringBound => {
            if modifiers.len() != 0 || tys.len() != 0 || bindings.len() != 0 {
                return Err(Error::UnsupportedUseOfType(span));
            }
            Ok(Ty::new(span, TypeKind::String { repr: StringRepr::ImplToString }).not_refd())
        }
        KnownBound::FutureBound => {
            if modifiers.len() != 0 || tys.len() != 0 {
                return Err(Error::UnsupportedUseOfType(span));
            }
            let blen = bindings.len();
            let mut bindings = bindings;
            let mut i: usize = 0;
            loop
                invariant
                    i <= bindings.len(),
                    bindings_view(bindings@) == bsv,
                    forall|j: int| 0 <= j < i ==> (#[trigger] bsv[j]).0 != "Output"@,
                ensures
                    i <= bindings.len(),
                    bindings_view(bindings@) == bsv,
                    i < bindings.len() ==> bsv[i as int].0 == "Output"@,
                    i == bindings.len() ==> spec_bget(bsv, "Output"@) matches None,
                decreases bindings.len() - i,
            {
                if i == bindings.len() {
                    proof {
                        lemma_bget_none(bsv, "Output"@);
                    }
                    break;
                }
                if matches!(str_cmp(bindings[i].0.text.as_str(), "Output"), Cmp::Eq) {
                    assert(bsv[i as int].0 == "Output"@);
                    break;
                }
                assert(bsv[i as int].0 != "Output"@);
                i = i + 1;
            }
            if i == bindings.len() {
                return Err(Error::BindingNotFound(span, Name::from_text("Output")));
            }
            let (_, output) = bindings.remove(i);
            proof {
                lemma_bget_at(bsv, "Output"@, i as int);
            }
            if blen != 1 {
                return Err(Error::UnsupportedUseOfType(span));
            }
            Ok(Ty::new(
                span,
                TypeKind::Future {
                    output,
                    repr: crate::ir_types::FutureRepr::ImplFuture(
                        crate::ir_types::AutoTraits { send: false, sync: false, unpin: false },
                    ),
                },
            ).not_refd())
        }
        KnownBound::AsRefBound => Err(Error::UnsupportedUseOfType(span)),
    }
}

} // verus!
