use vstd::prelude::*;

use crate::ast::{AstItemV, SourceFile};
use crate::error::{Error, ErrorV};
use crate::ir_items::{Idl, IdlV, ItemV, Name, QualifiedName};
use crate::ordered_map::{entries_sorted, lemma_insert_keys, lemma_insert_sorted, QnameMap};
use crate::pass1::{spec_recognize_all, spec_recognize_item, spec_recognize_upto, DefsV, Recognizer};
use crate::pass2::{keys_crate_rooted, spec_elaborate_all, spec_elaborate_upto, Elaborator};

verus! {

/// The whole extraction pipeline on an already-parsed source tree: recognize
/// every public top-level declaration, then elaborate each one, producing
/// the final interface artifact.
pub open spec fn spec_extract_idl(crate_name: Seq<char>, items: Seq<AstItemV>) -> Result<
    IdlV,
    ErrorV,
> {
    match spec_recognize_all(seq![crate_name], items) {
        Err(e) => Err(e),
        Ok(defs) => match spec_elaborate_all(defs, items) {
            Err(e) => Err(e),
            Ok(m) => Ok(IdlV { crate_name, definitions: m }),
        },
    }
}

/// Every key the recognizer produces extends its module path by one name.
pub proof fn lemma_recognize_keys_rooted(
    module: Seq<Seq<char>>,
    items: Seq<AstItemV>,
    init: DefsV,
    n: int,
)
    requires
        forall|i: int| 0 <= i < init.len() ==> (#[trigger] init[i]).0.len() == module.len() + 1,
    ensures
        spec_recognize_upto(module, items, init, n) matches Ok(defs) ==> forall|i: int|
            0 <= i < defs.len() ==> (#[trigger] defs[i]).0.len() == module.len() + 1,
    decreases n,
{
    if n > 0 {
        lemma_recognize_keys_rooted(module, items, init, n - 1);
        match spec_recognize_upto(module, items, init, n - 1) {
            Err(_) => {}
            Ok(defs) => {
                lemma_recognize_item_keys(module, defs, items[n - 1], n - 1);
            }
        }
    }
}

/// One recognition step only adds keys that extend the module by one name.
proof fn lemma_recognize_item_keys(
    module: Seq<Seq<char>>,
    defs: DefsV,
    item: AstItemV,
    idx: int,
)
    requires
        forall|i: int| 0 <= i < defs.len() ==> (#[trigger] defs[i]).0.len() == module.len() + 1,
    ensures
        spec_recognize_item(module, defs, item, idx) matches Ok(defs2) ==> forall|i: int|
            0 <= i < defs2.len() ==> (#[trigger] defs2[i]).0.len() == module.len() + 1,
{
    match item {
        AstItemV::Struct(s) => {
            lemma_insert_keys(defs, module.push(s.name), crate::pass1::DefinitionV {
                kind: crate::pass1::DefinitionKindV::Record(idx),
            });
            lemma_insert_keys(defs, module.push(s.name), crate::pass1::DefinitionV {
                kind: crate::pass1::DefinitionKindV::Resource(idx),
            });
        }
        AstItemV::Enum(e) => {
            let retained = crate::pass1::spec_retained(e.variants);
            lemma_insert_keys(defs, module.push(e.name), crate::pass1::DefinitionV {
                kind: crate::pass1::DefinitionKindV::Variant(idx, retained),
            });
            lemma_insert_keys(defs, module.push(e.name), crate::pass1::DefinitionV {
                kind: crate::pass1::DefinitionKindV::Enum(idx, retained),
            });
        }
        AstItemV::Fn(f) => {
            lemma_insert_keys(defs, module.push(f.sig.name), crate::pass1::DefinitionV {
                kind: crate::pass1::DefinitionKindV::Function(idx),
            });
        }
        _ => {}
    }
}

/// The elaborated output map is sorted strictly by qualified name: this is
/// the ordering invariant behind the determinism of the emitted artifact.
pub proof fn lemma_elaborate_sorted(rec: DefsV, items: Seq<AstItemV>, n: int)
    ensures
        spec_elaborate_upto(rec, items, n) matches Ok(out) ==> entries_sorted(out),
    decreases n,
{
    if n > 0 {
        lemma_elaborate_sorted(rec, items, n - 1);
        match spec_elaborate_upto(rec, items, n - 1) {
            Err(_) => {}
            Ok(out) => {
                match crate::pass2::spec_elaborate_definition(rec, items, rec[n - 1].0, rec[n - 1].1) {
                    Err(_) => {}
                    Ok(None) => {}
                    Ok(Some(item)) => {
                        lemma_insert_sorted(out, rec[n - 1].0, item);
                    }
                }
            }
        }
    } else {
        assert(entries_sorted(Seq::<(Seq<Seq<char>>, ItemV)>::empty()));
    }
}

/// The syntax-tree walker: recognizes and elaborates the public interface of
/// one crate root.
pub struct Parser {
}

impl Parser {
    /// A fresh parser.
    pub fn new() -> (r: Self)
        ensures
            true,
    {
        Parser {  }
    }

    /// Extract the interface of the crate with the given name from its
    /// already-parsed root source tree. The result's definitions are in
    /// strictly increasing qualified-name order.
    pub fn parse_crate_named(&mut self, crate_name: Name, file: &SourceFile) -> (r: Result<
        Idl,
        Error,
    >)
        ensures
            match r {
                Ok(idl) => spec_extract_idl(crate_name@, file@.items) == Ok::<IdlV, ErrorV>(idl@)
                    && idl.wf(),
                Err(e) => spec_extract_idl(crate_name@, file@.items) == Err::<IdlV, ErrorV>(e@),
            },
    {
        extract_idl(crate_name, file)
    }
}

/// The text of a path split on `/`, the separator of the expected
/// `<crate>/src/../*.rs` shape.
pub open spec fn spec_split_path(s: Seq<char>, cur: Seq<char>) -> Seq<Seq<char>>
    decreases s.len(),
{
    if s.len() == 0 {
        seq![cur]
    } else if s[0] == '/' {
        seq![cur] + spec_split_path(s.skip(1), Seq::empty())
    } else {
        spec_split_path(s.skip(1), cur.push(s[0]))
    }
}

/// A split is never empty.
pub proof fn lemma_split_path_nonempty(s: Seq<char>, cur: Seq<char>)
    ensures
        spec_split_path(s, cur).len() >= 1,
    decreases s.len(),
{
    if s.len() > 0 && s[0] == '/' {
        lemma_split_path_nonempty(s.skip(1), Seq::empty());
    } else if s.len() > 0 {
        lemma_split_path_nonempty(s.skip(1), cur.push(s[0]));
    }
}

/// The position of the last `.` in a file name, if any.
pub open spec fn spec_last_dot(s: Seq<char>) -> Option<int>
    decreases s.len(),
{
    if s.len() == 0 {
        None
    } else if s.last() == '.' {
        Some(s.len() - 1)
    } else {
        spec_last_dot(s.drop_last())
    }
}

/// The position of the last `src` among the directories, if any.
pub open spec fn spec_last_src(dirs: Seq<Seq<char>>) -> Option<int>
    decreases dirs.len(),
{
    if dirs.len() == 0 {
        None
    } else if dirs.last() == "src"@ {
        Some(dirs.len() - 1)
    } else {
        spec_last_src(dirs.drop_last())
    }
}

/// The crate name deduced from the path of the crate's root source file:
/// the path must name a `.rs` file with a non-empty stem, and the name is
/// the parent of the nearest ancestor directory named `src`.
pub open spec fn spec_extract_crate_name(path: Seq<char>) -> Result<Seq<char>, ErrorV> {
    let segs = spec_split_path(path, Seq::empty());
    let file = segs.last();
    match spec_last_dot(file) {
        None => Err(ErrorV::InvalidPath(path)),
        Some(p) => if p == 0 || file.skip(p + 1) != "rs"@ {
            Err(ErrorV::InvalidPath(path))
        } else {
            let dirs = segs.drop_last();
            match spec_last_src(dirs) {
                None => Err(ErrorV::InvalidPath(path)),
                Some(j) => if j == 0 {
                    Err(ErrorV::InvalidPath(path))
                } else {
                    Ok(dirs[j - 1])
                },
            }
        },
    }
}

/// Split a path on `/`.
#[verifier::loop_isolation(false)]
fn split_path(path: &str) -> (r: Vec<String>)
    ensures
        r@.map_values(|x: String| x@) == spec_split_path(path@, Seq::empty()),
        r@.len() >= 1,
{
    let pv = path;
    let n = path.unicode_len();
    let mut segs: Vec<String> = Vec::new();
    let mut start: usize = 0;
    let mut i: usize = 0;
    proof {
        assert(path@.skip(0) =~= path@);
        assert(path@.subrange(0, 0) =~= Seq::<char>::empty());
        assert(segs@.map_values(|x: String| x@) =~= Seq::<Seq<char>>::empty());
    }
    while i < n
        invariant
            start <= i <= n,
            n == path@.len(),
            spec_split_path(path@, Seq::empty()) == segs@.map_values(|x: String| x@)
                + spec_split_path(path@.skip(i as int), path@.subrange(start as int, i as int)),
        decreases n - i,
    {
        proof {
            assert(path@.skip(i as int)[0] == path@[i as int]);
            assert(path@.skip(i as int).skip(1) =~= path@.skip(i + 1));
        }
        let c = path.get_char(i);
        if c == '/' {
            let piece = path.substring_char(start, i);
            let ghost segs_old = segs@;
            segs.push(piece.to_owned());
            proof {
                assert(segs@.map_values(|x: String| x@) =~= segs_old.map_values(|x: String| x@)
                    .push(path@.subrange(start as int, i as int)));
                assert(path@.subrange(i + 1, i + 1) =~= Seq::<char>::empty());
            }
            start = i + 1;
        } else {
            proof {
                assert(path@.subrange(start as int, i + 1) =~= path@.subrange(
                    start as int,
                    i as int,
                ).push(path@[i as int]));
            }
        }
        i = i + 1;
    }
    let piece = path.substring_char(start, n);
    let ghost segs_old = segs@;
    segs.push(piece.to_owned());
    proof {
        assert(path@.skip(n as int).len() == 0);
        assert(segs@.map_values(|x: String| x@) =~= segs_old.map_values(|x: String| x@).push(
            path@.subrange(start as int, n as int),
        ));
    }
    segs
}

/// Deduce the crate name from the path of the crate's root source file: the
/// path must name a `.rs` file found under some `src` directory, and the
/// parent of the nearest such `src` is the crate name. Whether the file
/// exists on disk is the caller's concern.
#[verifier::loop_isolation(false)]
pub fn extract_crate_name(path: &str) -> (r: Result<Name, Error>)
    ensures
        match r {
            Ok(name) => spec_extract_crate_name(path@) == Ok::<Seq<char>, ErrorV>(name@),
            Err(e) => spec_extract_crate_name(path@) == Err::<Seq<char>, ErrorV>(e@),
        },
{
    proof {
        reveal_strlit("rs");
        reveal_strlit("src");
    }
    let segs = split_path(path);
    let ghost segsv = segs@.map_values(|x: String| x@);
    let file = &segs[segs.len() - 1];
    proof {
        assert(segsv.last() == file@);
    }
    let ghost fv = file@;
    let flen = file.as_str().unicode_len();
    let mut p: usize = flen;
    let mut found_dot = false;
    proof {
        assert(file@.subrange(0, flen as int) =~= file@);
    }
    while p > 0 && !found_dot
        invariant
            p <= flen,
            flen == file@.len(),
            found_dot ==> p < flen && file@[p as int] == '.',
            found_dot ==> spec_last_dot(file@) == Some(p as int),
            !found_dot ==> spec_last_dot(file@.subrange(0, p as int)) == spec_last_dot(file@),
        decreases p, if found_dot { 0int } else { 1int },
    {
        proof {
            assert(file@.subrange(0, p as int).drop_last() =~= file@.subrange(0, p - 1));
            assert(file@.subrange(0, p as int).last() == file@[p - 1]);
        }
        if file.as_str().get_char(p - 1) == '.' {
            proof {
                lemma_last_dot_at(file@, p - 1);
            }
            p = p - 1;
            found_dot = true;
        } else {
            p = p - 1;
        }
    }
    if !found_dot {
        proof {
            assert(file@.subrange(0, 0).len() == 0);
        }
        return Err(Error::InvalidPath(path.to_owned()));
    }
    if p == 0 {
        return Err(Error::InvalidPath(path.to_owned()));
    }
    let ext = file.as_str().substring_char(p + 1, flen);
    if !matches!(crate::ir_items::str_cmp(ext, "rs"), crate::ir_items::Cmp::Eq) {
        proof {
            assert(file@.subrange(p + 1, flen as int) =~= file@.skip(p + 1));
        }
        return Err(Error::InvalidPath(path.to_owned()));
    }
    proof {
        assert(file@.subrange(p + 1, flen as int) =~= file@.skip(p + 1));
    }
    let ghost dirs = segsv.drop_last();
    let mut j: usize = segs.len() - 1;
    let mut found_src = false;
    proof {
        assert(dirs.subrange(0, dirs.len() as int) =~= dirs);
    }
    while j > 0 && !found_src
        invariant
            j <= segs.len() - 1,
            segsv.len() == segs@.len(),
            found_src ==> j < segsv.len() - 1 && dirs[j as int] == "src"@,
            found_src ==> spec_last_src(dirs) == Some(j as int),
            !found_src ==> spec_last_src(dirs.subrange(0, j as int)) == spec_last_src(dirs),
        decreases j, if found_src { 0int } else { 1int },
    {
        proof {
            assert(dirs.subrange(0, j as int).drop_last() =~= dirs.subrange(0, j - 1));
            assert(dirs.subrange(0, j as int).last() == dirs[j - 1]);
            assert(dirs[j - 1] == segsv[j - 1]);
            assert(segsv[j - 1] == segs@[j - 1]@);
        }
        if matches!(
            crate::ir_items::str_cmp(segs[j - 1].as_str(), "src"),
            crate::ir_items::Cmp::Eq,
        ) {
            proof {
                lemma_last_src_at(dirs, j - 1);
            }
            j = j - 1;
            found_src = true;
        } else {
            j = j - 1;
        }
    }
    if !found_src {
        proof {
            assert(dirs.subrange(0, 0).len() == 0);
        }
        return Err(Error::InvalidPath(path.to_owned()));
    }
    if j == 0 {
        return Err(Error::InvalidPath(path.to_owned()));
    }
    proof {
        assert(dirs[j - 1] == segsv[j - 1]);
        assert(segsv[j - 1] == segs@[j - 1]@);
    }
    Ok(Name::new(segs[j - 1].clone()))
}

/// When the character at `p` is the last dot, the search finds it.
proof fn lemma_last_dot_at(s: Seq<char>, p: int)
    requires
        0 <= p < s.len(),
        s[p] == '.',
        spec_last_dot(s.subrange(0, p + 1)) == spec_last_dot(s),
    ensures
        spec_last_dot(s) == Some(p),
{
    assert(s.subrange(0, p + 1).last() == s[p]);
}

/// When the directory at `j` is the last `src`, the search finds it.
proof fn lemma_last_src_at(dirs: Seq<Seq<char>>, j: int)
    requires
        0 <= j < dirs.len(),
        dirs[j] == "src"@,
        spec_last_src(dirs.subrange(0, j + 1)) == spec_last_src(dirs),
    ensures
        spec_last_src(dirs) == Some(j),
{
    assert(dirs.subrange(0, j + 1).last() == dirs[j]);
}

/// Run the two passes over one crate root: the driver of the pipeline.
pub fn extract_idl(crate_name: Name, file: &SourceFile) -> (r: Result<Idl, Error>)
    ensures
        match r {
            Ok(idl) => spec_extract_idl(crate_name@, file@.items) == Ok::<IdlV, ErrorV>(idl@)
                && idl.wf(),
            Err(e) => spec_extract_idl(crate_name@, file@.items) == Err::<IdlV, ErrorV>(e@),
        },
{
    let crate_qname = QualifiedName::from_name(&crate_name);
    let recognizer = Recognizer::new(crate_qname);
    let recognized = match recognizer.into_recognized(file) {
        Err(e) => {
            return Err(e);
        }
        Ok(m) => m,
    };
    proof {
        lemma_recognize_keys_rooted(
            seq![crate_name@],
            file@.items,
            Seq::empty(),
            file@.items.len() as int,
        );
        assert(keys_crate_rooted(recognized@));
    }
    let elaborator = Elaborator::new(recognized);
    let ghost recv = elaborator.recognized@;
    let definitions = match elaborator.into_elaborated_items(file) {
        Err(e) => {
            return Err(e);
        }
        Ok(m) => m,
    };
    proof {
        lemma_elaborate_sorted(recv, file@.items, recv.len() as int);
    }
    Ok(Idl { crate_name, definitions })
}

} // verus!
