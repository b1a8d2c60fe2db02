use vstd::prelude::*;

use crate::ast::{
    AstAttr, AstEnum, AstFieldV, AstFn, AstItem, AstItemV, AstStruct, AstVariantV,
    AstFieldsStyle, AstStructV, AstEnumV, AstFnV, SourceFile, Visibility,
};
use crate::error::{Error, ErrorV};
use crate::ir_items::{Name, QualifiedName, str_cmp, Cmp};
use crate::ordered_map::{spec_insert, QnameMap};

verus! {

/// What pass 1 recorded about one public declaration: which of the shapes it
/// has, and where in the file's item list it stands. Pass 2 resolves the rest.
#[derive(Debug, PartialEq, Eq)]
pub enum DefinitionKind {
    /// A struct with only private fields, at the given item index.
    Resource(usize),
    /// A struct with only public fields, at the given item index.
    Record(usize),
    /// An enum with a data-carrying retained variant: the item index and the
    /// indices of the retained (non-ignored) variants.
    Variant(usize, Vec<usize>),
    /// An enum with no data-carrying retained variant.
    Enum(usize, Vec<usize>),
    /// A free function, at the given item index.
    Function(usize),
    /// A module boundary; kept for name resolution, mapped to no output item.
    FileModule,
}

/// Mathematical value of a [`DefinitionKind`].
pub enum DefinitionKindV {
    Resource(int),
    Record(int),
    Variant(int, Seq<int>),
    Enum(int, Seq<int>),
    Function(int),
    FileModule,
}

impl View for DefinitionKind {
    type V = DefinitionKindV;

    open spec fn view(&self) -> DefinitionKindV {
        match self {
            DefinitionKind::Resource(i) => DefinitionKindV::Resource(*i as int),
            DefinitionKind::Record(i) => DefinitionKindV::Record(*i as int),
            DefinitionKind::Variant(i, vs) => DefinitionKindV::Variant(
                *i as int,
                vs@.map_values(|v: usize| v as int),
            ),
            DefinitionKind::Enum(i, vs) => DefinitionKindV::Enum(
                *i as int,
                vs@.map_values(|v: usize| v as int),
            ),
            DefinitionKind::Function(i) => DefinitionKindV::Function(*i as int),
            DefinitionKind::FileModule => DefinitionKindV::FileModule,
        }
    }
}

/// A recognized public declaration, before elaboration.
#[derive(Debug, PartialEq, Eq)]
pub struct Definition {
    pub kind: DefinitionKind,
}

/// Mathematical value of a [`Definition`].
pub struct DefinitionV {
    pub kind: DefinitionKindV,
}

impl View for Definition {
    type V = DefinitionV;

    open spec fn view(&self) -> DefinitionV {
        DefinitionV { kind: self.kind@ }
    }
}

/// The recognized-definition index.
pub type DefsV = Seq<(Seq<Seq<char>>, DefinitionV)>;

/// Whether attributes alone make a declaration ignored: a conditional
/// compilation attribute or the explicit ignore marker.
pub open spec fn spec_ignore_from_attrs(attrs: Seq<Option<Seq<char>>>) -> bool {
    exists|i: int|
        0 <= i < attrs.len() && (attrs[i] == Some("cfg"@) || attrs[i] == Some("ignore"@))
}

/// Whether a declaration is ignored: not fully public, or ignored by attributes.
pub open spec fn spec_ignore(vis: Visibility, attrs: Seq<Option<Seq<char>>>) -> bool {
    vis != Visibility::Public || spec_ignore_from_attrs(attrs)
}

/// Number of public fields.
pub open spec fn spec_count_public(fields: Seq<AstFieldV>) -> int
    decreases fields.len(),
{
    if fields.len() == 0 {
        0
    } else {
        (if fields[0].vis == Visibility::Public {
            1int
        } else {
            0int
        }) + spec_count_public(fields.skip(1))
    }
}

proof fn lemma_count_public_snoc(fields: Seq<AstFieldV>, i: int)
    requires
        0 <= i < fields.len(),
    ensures
        spec_count_public(fields.take(i + 1)) == spec_count_public(fields.take(i)) + (
        if fields[i].vis == Visibility::Public {
            1int
        } else {
            0int
        }),
    decreases i,
{
    let t1 = fields.take(i + 1);
    let t0 = fields.take(i);
    if i == 0 {
        assert(t1 =~= seq![fields[0]]);
        assert(t1.skip(1) =~= Seq::<AstFieldV>::empty());
        assert(t0 =~= Seq::<AstFieldV>::empty());
    } else {
        lemma_count_public_snoc(fields.skip(1), i - 1);
        assert(t1.skip(1) =~= fields.skip(1).take(i));
        assert(t0.skip(1) =~= fields.skip(1).take(i - 1));
        assert(fields.skip(1)[i - 1] == fields[i]);
    }
}

pub proof fn lemma_count_public_bounds(fields: Seq<AstFieldV>)
    ensures
        0 <= spec_count_public(fields) <= fields.len(),
    decreases fields.len(),
{
    if fields.len() > 0 {
        lemma_count_public_bounds(fields.skip(1));
    }
}

/// The indices of the variants retained after the attribute filter.
pub open spec fn spec_retained(vs: Seq<AstVariantV>) -> Seq<int>
    decreases vs.len(),
{
    if vs.len() == 0 {
        Seq::empty()
    } else {
        let rest = spec_retained(vs.skip(1)).map_values(|i: int| i + 1);
        if !spec_ignore_from_attrs(vs[0].attrs) {
            seq![0int] + rest
        } else {
            rest
        }
    }
}

proof fn lemma_retained_snoc(vs: Seq<AstVariantV>, i: int)
    requires
        0 <= i < vs.len(),
    ensures
        spec_retained(vs.take(i + 1)) == if !spec_ignore_from_attrs(vs[i].attrs) {
            spec_retained(vs.take(i)).push(i)
        } else {
            spec_retained(vs.take(i))
        },
    decreases i,
{
    let t1 = vs.take(i + 1);
    let t0 = vs.take(i);
    if i == 0 {
        assert(t1 =~= seq![vs[0]]);
        assert(t1.skip(1) =~= Seq::<AstVariantV>::empty());
        assert(t0 =~= Seq::<AstVariantV>::empty());
        if !spec_ignore_from_attrs(vs[0].attrs) {
            assert(spec_retained(t1) =~= spec_retained(t0).push(0));
        } else {
            assert(spec_retained(t1) =~= spec_retained(t0));
        }
    } else {
        lemma_retained_snoc(vs.skip(1), i - 1);
        assert(t1.skip(1) =~= vs.skip(1).take(i));
        assert(t0.skip(1) =~= vs.skip(1).take(i - 1));
        assert(vs.skip(1)[i - 1] == vs[i]);
        assert(t1[0] == vs[0] && t0[0] == vs[0]);
        let rest1 = spec_retained(vs.skip(1).take(i)).map_values(|x: int| x + 1);
        let rest0 = spec_retained(vs.skip(1).take(i - 1)).map_values(|x: int| x + 1);
        if !spec_ignore_from_attrs(vs[i].attrs) {
            assert(rest1 =~= rest0.push(i));
            if !spec_ignore_from_attrs(vs[0].attrs) {
                assert(seq![0int] + rest1 =~= (seq![0int] + rest0).push(i));
            }
        } else {
            assert(rest1 =~= rest0);
        }
    }
}

/// Whether any retained variant carries fields.
pub open spec fn spec_variants_have_args(vs: Seq<AstVariantV>) -> bool {
    exists|i: int|
        0 <= i < vs.len() && !spec_ignore_from_attrs((#[trigger] vs[i]).attrs) && vs[i].style
            != AstFieldsStyle::Unit
}

/// What recognizing a struct adds to the index: a `Record` when all fields
/// are public, a `Resource` when none is, and an error on a mix or on
/// generic parameters; ignored structs add nothing.
pub open spec fn spec_recognize_struct(
    module: Seq<Seq<char>>,
    defs: DefsV,
    s: AstStructV,
    idx: int,
) -> Result<DefsV, ErrorV> {
    if spec_ignore(s.vis, s.attrs) {
        Ok(defs)
    } else if s.generics > 0 {
        Err(ErrorV::GenericsNotPermitted(s.generics_span))
    } else {
        let qname = module.push(s.name);
        let public_fields = spec_count_public(s.fields);
        if public_fields > 0 && public_fields == s.fields.len() {
            Ok(spec_insert(defs, qname, DefinitionV { kind: DefinitionKindV::Record(idx) }))
        } else if public_fields == 0 {
            Ok(spec_insert(defs, qname, DefinitionV { kind: DefinitionKindV::Resource(idx) }))
        } else {
            Err(ErrorV::MixedPublicPrivateFields(s.span))
        }
    }
}

/// What recognizing an enum adds to the index: a `Variant` when a retained
/// arm carries fields, otherwise an `Enum`; an error on generic parameters;
/// ignored enums add nothing.
pub open spec fn spec_recognize_enum(
    module: Seq<Seq<char>>,
    defs: DefsV,
    e: AstEnumV,
    idx: int,
) -> Result<DefsV, ErrorV> {
    if spec_ignore(e.vis, e.attrs) {
        Ok(defs)
    } else if e.generics > 0 {
        Err(ErrorV::GenericsNotPermitted(e.generics_span))
    } else {
        let qname = module.push(e.name);
        let retained = spec_retained(e.variants);
        if spec_variants_have_args(e.variants) {
            Ok(spec_insert(defs, qname, DefinitionV { kind: DefinitionKindV::Variant(idx, retained) }))
        } else {
            Ok(spec_insert(defs, qname, DefinitionV { kind: DefinitionKindV::Enum(idx, retained) }))
        }
    }
}

/// What recognizing a free function adds to the index.
pub open spec fn spec_recognize_fn(
    module: Seq<Seq<char>>,
    defs: DefsV,
    f: AstFnV,
    idx: int,
) -> Result<DefsV, ErrorV> {
    if spec_ignore(f.vis, f.attrs) {
        Ok(defs)
    } else if f.sig.generics > 0 {
        Err(ErrorV::GenericsNotPermitted(f.sig.generics_span))
    } else {
        let qname = module.push(f.sig.name);
        Ok(spec_insert(defs, qname, DefinitionV { kind: DefinitionKindV::Function(idx) }))
    }
}

/// What recognizing one top-level item adds to the index. Ignored items and
/// `impl` blocks (which pass 2 consumes) add nothing; modules, traits, type
/// aliases, imports and unrecognized items fail unless ignored.
pub open spec fn spec_recognize_item(
    module: Seq<Seq<char>>,
    defs: DefsV,
    item: AstItemV,
    idx: int,
) -> Result<DefsV, ErrorV> {
    match item {
        AstItemV::Struct(s) => spec_recognize_struct(module, defs, s, idx),
        AstItemV::Enum(e) => spec_recognize_enum(module, defs, e, idx),
        AstItemV::Fn(f) => spec_recognize_fn(module, defs, f, idx),
        AstItemV::Impl(_) => Ok(defs),
        AstItemV::Mod { span, vis, attrs } => if spec_ignore(vis, attrs) {
            Ok(defs)
        } else {
            Err(ErrorV::UnsupportedItem(span))
        },
        AstItemV::Trait { span, vis, attrs } => if spec_ignore(vis, attrs) {
            Ok(defs)
        } else {
            Err(ErrorV::UnsupportedItem(span))
        },
        AstItemV::TypeAlias { span, vis, attrs } => if spec_ignore(vis, attrs) {
            Ok(defs)
        } else {
            Err(ErrorV::UnsupportedItem(span))
        },
        AstItemV::Use { span, vis, attrs } => if spec_ignore(vis, attrs) {
            Ok(defs)
        } else {
            Err(ErrorV::UnsupportedItem(span))
        },
        AstItemV::Other { span } => Err(ErrorV::UnsupportedItem(span)),
    }
}

/// The index after recognizing the first `n` items, starting from `init`.
pub open spec fn spec_recognize_upto(
    module: Seq<Seq<char>>,
    items: Seq<AstItemV>,
    init: DefsV,
    n: int,
) -> Result<DefsV, ErrorV>
    decreases n,
{
    if n <= 0 {
        Ok(init)
    } else {
        match spec_recognize_upto(module, items, init, n - 1) {
            Err(e) => Err(e),
            Ok(defs) => spec_recognize_item(module, defs, items[n - 1], n - 1),
        }
    }
}

/// The whole first pass over a file's items.
pub open spec fn spec_recognize_all(
    module: Seq<Seq<char>>,
    items: Seq<AstItemV>,
) -> Result<DefsV, ErrorV> {
    spec_recognize_upto(module, items, Seq::empty(), items.len() as int)
}

/// If true, ignore this declaration: only fully public declarations without
/// a conditional-compilation or explicit ignore marker attribute take part.
pub fn ignore(vis: Visibility, attrs: &Vec<AstAttr>) -> (r: bool)
    ensures
        r == spec_ignore(vis, attrs@.map_values(|a: AstAttr| a@)),
{
    if !is_public(vis) {
        return true;
    }
    ignore_from_attrs(attrs)
}

/// Whether the attributes alone make a declaration ignored.
pub fn ignore_from_attrs(attrs: &Vec<AstAttr>) -> (r: bool)
    ensures
        r == spec_ignore_from_attrs(attrs@.map_values(|a: AstAttr| a@)),
{
    let ghost vs = attrs@.map_values(|a: AstAttr| a@);
    let mut i: usize = 0;
    while i < attrs.len()
        invariant
            i <= attrs.len(),
            vs == attrs@.map_values(|a: AstAttr| a@),
            forall|j: int| 0 <= j < i ==> vs[j] != Some("cfg"@) && vs[j] != Some("ignore"@),
        decreases attrs.len() - i,
    {
        match &attrs[i].ident {
            Some(id) => {
                let is_cfg = matches!(str_cmp(id.as_str(), "cfg"), Cmp::Eq);
                let is_ignore = matches!(str_cmp(id.as_str(), "ignore"), Cmp::Eq);
                if is_cfg || is_ignore {
                    assert(vs[i as int] == Some("cfg"@) || vs[i as int] == Some("ignore"@));
                    return true;
                }
                assert(vs[i as int] != Some("cfg"@) && vs[i as int] != Some("ignore"@));
            }
            None => {
                assert(vs[i as int] matches None);
            }
        }
        i = i + 1;
    }
    false
}

/// True when the declaration is fully public.
pub fn is_public(vis: Visibility) -> (r: bool)
    ensures
        r == (vis == Visibility::Public),
{
    match vis {
        Visibility::Public => true,
        Visibility::Restricted => false,
        Visibility::Inherited => false,
    }
}

/// Wrap an identifier's text as a name.
pub fn recognize_name(ident: &str) -> (r: Name)
    ensures
        r@ == ident@,
{
    Name::from_text(ident)
}

/// Pass 1: a single linear walk over a file's top-level declarations that
/// classifies each public one into a [`Definition`] and indexes it by
/// qualified name, without resolving any types.
pub struct Recognizer {
    /// The module the walked declarations live in (the crate's root name).
    pub module_name: QualifiedName,
    /// The index built so far.
    pub recognized: QnameMap<Definition>,
}

impl Recognizer {
    /// A recognizer for the module `module_name`, with an empty index.
    pub fn new(module_name: QualifiedName) -> (r: Self)
        ensures
            r.module_name@ == module_name@,
            r.recognized@ == Seq::<(Seq<Seq<char>>, DefinitionV)>::empty(),
    {
        Recognizer { module_name, recognized: QnameMap::new() }
    }

    /// Classify one struct declaration.
    pub fn recognize_struct(&mut self, item: &AstStruct, idx: usize) -> (r: Result<(), Error>)
        ensures
            final(self).module_name@ == old(self).module_name@,
            match r {
                Ok(()) => spec_recognize_struct(
                    old(self).module_name@,
                    old(self).recognized@,
                    item@,
                    idx as int,
                ) == Ok::<DefsV, ErrorV>(final(self).recognized@),
                Err(e) => spec_recognize_struct(
                    old(self).module_name@,
                    old(self).recognized@,
                    item@,
                    idx as int,
                ) == Err::<DefsV, ErrorV>(e@) && final(self).recognized@ == old(self).recognized@,
            },
    {
        if ignore(item.vis, &item.attrs) {
            return Ok(());
        }

        let name = recognize_name(item.name.as_str());
        let qname = self.module_name.join(&name);

        if item.generics > 0 {
            return Err(Error::GenericsNotPermitted(item.generics_span.clone()));
        }

        let ghost fieldsv = item@.fields;
        let mut public_fields: usize = 0;
        let mut i: usize = 0;
        while i < item.fields.len()
            invariant
                i <= item.fields.len(),
                fieldsv == item@.fields,
                fieldsv.len() == item.fields@.len(),
                public_fields <= i,
                public_fields as int == spec_count_public(fieldsv.take(i as int)),
            decreases item.fields.len() - i,
        {
            proof {
                lemma_count_public_snoc(fieldsv, i as int);
            }
            if is_public(item.fields[i].vis) {
                public_fields = public_fields + 1;
            }
            i = i + 1;
        }
        proof {
            assert(fieldsv.take(fieldsv.len() as int) =~= fieldsv);
        }

        if public_fields > 0 && public_fields == item.fields.len() {
            self.recognized.insert(qname, Definition { kind: DefinitionKind::Record(idx) });
            Ok(())
        } else if public_fields == 0 {
            self.recognized.insert(qname, Definition { kind: DefinitionKind::Resource(idx) });
            Ok(())
        } else {
            Err(Error::MixedPublicPrivateFields(item.span.clone()))
        }
    }

    /// Classify one enum declaration.
    pub fn recognize_enum(&mut self, item: &AstEnum, idx: usize) -> (r: Result<(), Error>)
        ensures
            final(self).module_name@ == old(self).module_name@,
            match r {
                Ok(()) => spec_recognize_enum(
                    old(self).module_name@,
                    old(self).recognized@,
                    item@,
                    idx as int,
                ) == Ok::<DefsV, ErrorV>(final(self).recognized@),
                Err(e) => spec_recognize_enum(
                    old(self).module_name@,
                    old(self).recognized@,
                    item@,
                    idx as int,
                ) == Err::<DefsV, ErrorV>(e@) && final(self).recognized@ == old(self).recognized@,
            },
    {
        if ignore(item.vis, &item.attrs) {
            return Ok(());
        }

        if item.generics > 0 {
            return Err(Error::GenericsNotPermitted(item.generics_span.clone()));
        }

        let ghost vs = item@.variants;
        let mut unignored_variants: Vec<usize> = Vec::new();
        let mut variants_have_args = false;
        let mut i: usize = 0;
        while i < item.variants.len()
            invariant
                i <= item.variants.len(),
                vs == item@.variants,
                vs.len() == item.variants@.len(),
                unignored_variants@.map_values(|v: usize| v as int) == spec_retained(
                    vs.take(i as int),
                ),
                variants_have_args == exists|j: int|
                    0 <= j < i && !spec_ignore_from_attrs((#[trigger] vs[j]).attrs) && vs[j].style
                        != AstFieldsStyle::Unit,
            decreases item.variants.len() - i,
        {
            proof {
                lemma_retained_snoc(vs, i as int);
            }
            if !ignore_from_attrs(&item.variants[i].attrs) {
                unignored_variants.push(i);
                proof {
                    assert(unignored_variants@.map_values(|v: usize| v as int) =~= spec_retained(
                        vs.take(i + 1),
                    ));
                }
                let has = matches!(item.variants[i].style, AstFieldsStyle::Named)
                    || matches!(item.variants[i].style, AstFieldsStyle::Unnamed);
                if has {
                    variants_have_args = true;
                }
            }
            i = i + 1;
        }
        proof {
            assert(vs.take(vs.len() as int) =~= vs);
        }

        let name = recognize_name(item.name.as_str());
        let qname = self.module_name.join(&name);

        if variants_have_args {
            self.recognized.insert(
                qname,
                Definition { kind: DefinitionKind::Variant(idx, unignored_variants) },
            );
            Ok(())
        } else {
            self.recognized.insert(
                qname,
                Definition { kind: DefinitionKind::Enum(idx, unignored_variants) },
            );
            Ok(())
        }
    }

    /// Classify one free function declaration.
    pub fn recognize_fn(&mut self, item: &AstFn, idx: usize) -> (r: Result<(), Error>)
        ensures
            final(self).module_name@ == old(self).module_name@,
            match r {
                Ok(()) => spec_recognize_fn(
                    old(self).module_name@,
                    old(self).recognized@,
                    item@,
                    idx as int,
                ) == Ok::<DefsV, ErrorV>(final(self).recognized@),
                Err(e) => spec_recognize_fn(
                    old(self).module_name@,
                    old(self).recognized@,
                    item@,
                    idx as int,
                ) == Err::<DefsV, ErrorV>(e@) && final(self).recognized@ == old(self).recognized@,
            },
    {
        if ignore(item.vis, &item.attrs) {
            return Ok(());
        }

        let name = recognize_name(item.sig.name.as_str());
        let qname = self.module_name.join(&name);

        if item.sig.generics > 0 {
            return Err(Error::GenericsNotPermitted(item.sig.generics_span.clone()));
        }

        self.recognized.insert(qname, Definition { kind: DefinitionKind::Function(idx) });
        Ok(())
    }

    /// Classify one top-level item.
    pub fn recognize_item(&mut self, item: &AstItem, idx: usize) -> (r: Result<(), Error>)
        ensures
            final(self).module_name@ == old(self).module_name@,
            match r {
                Ok(()) => spec_recognize_item(
                    old(self).module_name@,
                    old(self).recognized@,
                    item@,
                    idx as int,
                ) == Ok::<DefsV, ErrorV>(final(self).recognized@),
                Err(e) => spec_recognize_item(
                    old(self).module_name@,
                    old(self).recognized@,
                    item@,
                    idx as int,
                ) == Err::<DefsV, ErrorV>(e@) && final(self).recognized@ == old(self).recognized@,
            },
    {
        match item {
            AstItem::Struct(s) => self.recognize_struct(s, idx),
            AstItem::Enum(e) => self.recognize_enum(e, idx),
            AstItem::Fn(f) => self.recognize_fn(f, idx),
            AstItem::Impl(_) => Ok(()),
            AstItem::Mod { span, vis, attrs } => {
                if ignore(*vis, attrs) {
                    Ok(())
                } else {
                    Err(Error::UnsupportedItem(span.clone()))
                }
            }
            AstItem::Trait { span, vis, attrs } => {
                if ignore(*vis, attrs) {
                    Ok(())
                } else {
                    Err(Error::UnsupportedItem(span.clone()))
                }
            }
            AstItem::TypeAlias { span, vis, attrs } => {
                if ignore(*vis, attrs) {
                    Ok(())
                } else {
                    Err(Error::UnsupportedItem(span.clone()))
                }
            }
            AstItem::Use { span, vis, attrs } => {
                if ignore(*vis, attrs) {
                    Ok(())
                } else {
                    Err(Error::UnsupportedItem(span.clone()))
                }
            }
            AstItem::Other { span } => Err(Error::UnsupportedItem(span.clone())),
        }
    }

    /// Walk every top-level item and return the finished index.
    #[verifier::loop_isolation(false)]
    pub fn into_recognized(self, file: &SourceFile) -> (r: Result<QnameMap<Definition>, Error>)
        ensures
            match r {
                Ok(m) => spec_recognize_upto(
                    self.module_name@,
                    file@.items,
                    self.recognized@,
                    file@.items.len() as int,
                ) == Ok::<DefsV, ErrorV>(m@),
                Err(e) => spec_recognize_upto(
                    self.module_name@,
                    file@.items,
                    self.recognized@,
                    file@.items.len() as int,
                ) == Err::<DefsV, ErrorV>(e@),
            },
    {
        let mut this = self;
        let ghost module = this.module_name@;
        let ghost itemsv = file@.items;
        let ghost init = this.recognized@;
        let mut i: usize = 0;
        while i < file.items.len()
            invariant
                i <= file.items.len(),
                itemsv == file@.items,
                itemsv.len() == file.items@.len(),
                this.module_name@ == module,
                spec_recognize_upto(module, itemsv, init, i as int) == Ok::<DefsV, ErrorV>(
                    this.recognized@,
                ),
            decreases file.items.len() - i,
        {
            match this.recognize_item(&file.items[i], i) {
                Ok(()) => {}
                Err(e) => {
                    proof {
                        lemma_recognize_upto_step(module, itemsv, init, i as int, itemsv.len() as int);
                    }
                    return Err(e);
                }
            }
            i = i + 1;
        }
        Ok(this.recognized)
    }
}

/// Once the fold fails at step `n`, it stays failed at every later step.
proof fn lemma_recognize_upto_step(
    module: Seq<Seq<char>>,
    items: Seq<AstItemV>,
    init: DefsV,
    n: int,
    m: int,
)
    requires
        0 <= n < m,
        spec_recognize_upto(module, items, init, n + 1) matches Err(_),
    ensures
        spec_recognize_upto(module, items, init, m) == spec_recognize_upto(
            module,
            items,
            init,
            n + 1,
        ),
    decreases m,
{
    if m > n + 1 {
        lemma_recognize_upto_step(module, items, init, n, m - 1);
    }
}

} // verus!
