use vstd::prelude::*;

verus! {

broadcast use vstd::utf8::char_u32_cast;

/// Result of a three-way comparison.
#[derive(Clone, Copy, Debug, PartialEq, Eq, Structural)]
pub enum Cmp {
    Lt,
    Eq,
    Gt,
}

/// Strict lexicographic order on character sequences, by Unicode scalar value.
/// This is the order in which definitions are kept and emitted.
pub open spec fn seq_char_lt(a: Seq<char>, b: Seq<char>) -> bool
    decreases a.len(),
{
    if b.len() == 0 {
        false
    } else if a.len() == 0 {
        true
    } else if a[0] != b[0] {
        (a[0] as u32) < (b[0] as u32)
    } else {
        seq_char_lt(a.skip(1), b.skip(1))
    }
}

/// Exactly one of `a < b`, `a == b`, `b < a` holds.
pub proof fn lemma_seq_char_lt_trichotomy(a: Seq<char>, b: Seq<char>)
    ensures
        seq_char_lt(a, b) || seq_char_lt(b, a) || a == b,
        seq_char_lt(a, b) ==> !seq_char_lt(b, a) && a != b,
        seq_char_lt(b, a) ==> !seq_char_lt(a, b) && a != b,
    decreases a.len(),
{
    if b.len() == 0 {
        if a.len() == 0 {
            assert(a =~= b);
        }
    } else if a.len() == 0 {
    } else if a[0] != b[0] {
        assert((a[0] as u32) != (b[0] as u32)) by {
            if (a[0] as u32) == (b[0] as u32) {
                vstd::utf8::char_u32_cast(a[0], a[0] as u32);
                vstd::utf8::char_u32_cast(b[0], b[0] as u32);
            }
        }
    } else {
        lemma_seq_char_lt_trichotomy(a.skip(1), b.skip(1));
        if a.skip(1) == b.skip(1) {
            assert(a =~= b) by {
                assert forall|i: int| 0 <= i < a.len() implies a[i] == b[i] by {
                    if i > 0 {
                        assert(a.skip(1)[i - 1] == b.skip(1)[i - 1]);
                    }
                }
            }
        }
        if a == b {
            assert(a.skip(1) =~= b.skip(1));
        }
    }
}

/// The order on character sequences is transitive.
pub proof fn lemma_seq_char_lt_trans(a: Seq<char>, b: Seq<char>, c: Seq<char>)
    requires
        seq_char_lt(a, b),
        seq_char_lt(b, c),
    ensures
        seq_char_lt(a, c),
    decreases a.len(),
{
    if a.len() == 0 {
    } else {
        if a[0] == b[0] && b[0] == c[0] {
            lemma_seq_char_lt_trans(a.skip(1), b.skip(1), c.skip(1));
        }
    }
}

/// An interned identifier; equality and order go by its text.
#[derive(Debug, PartialEq, Eq)]
pub struct Name {
    pub text: String,
}

impl View for Name {
    type V = Seq<char>;

    open spec fn view(&self) -> Seq<char> {
        self.text@
    }
}

impl Clone for Name {
    fn clone(&self) -> (r: Self)
        ensures
            r@ == self@,
    {
        Name { text: self.text.clone() }
    }
}

/// Names the string that convert_case's `to_case` with `Case::Camel` returns
/// for the given characters; the conversion depends on the characters alone.
pub uninterp spec fn camel_case_of(s: Seq<char>) -> Seq<char>;

/// Names the string that convert_case's `to_case` with `Case::UpperCamel`
/// returns for the given characters; the conversion depends on the characters alone.
pub uninterp spec fn upper_camel_case_of(s: Seq<char>) -> Seq<char>;

/// Relies on convert_case::Casing::to_case with Case::Camel, which rewrites
/// an identifier into "camelCase" as a function of its characters alone.
#[verifier::external_body]
fn to_camel_case(s: &str) -> (r: String)
    ensures
        r@ == camel_case_of(s@),
{
    convert_case::Casing::to_case(&s, convert_case::Case::Camel)
}

/// Relies on convert_case::Casing::to_case with Case::UpperCamel, which rewrites
/// an identifier into "UpperCamelCase" as a function of its characters alone.
#[verifier::external_body]
fn to_upper_camel_case(s: &str) -> (r: String)
    ensures
        r@ == upper_camel_case_of(s@),
{
    convert_case::Casing::to_case(&s, convert_case::Case::UpperCamel)
}

impl Name {
    /// Wrap an owned string as a name.
    pub fn new(text: String) -> (r: Name)
        ensures
            r@ == text@,
    {
        Name { text }
    }

    /// Make a name from borrowed text.
    pub fn from_text(s: &str) -> (r: Name)
        ensures
            r@ == s@,
    {
        Name { text: s.to_owned() }
    }

    /// The conventional name given to an associated output type.
    pub fn output() -> (r: Name)
        ensures
            r@ == "Output"@,
    {
        Name::from_text("Output")
    }

    /// Convert the name to "camelCase".
    pub fn camel_case(&self) -> (r: Name)
        ensures
            r@ == camel_case_of(self@),
    {
        Name { text: to_camel_case(self.text.as_str()) }
    }

    /// Convert the name to "UpperCamelCase".
    pub fn upper_camel_case(&self) -> (r: Name)
        ensures
            r@ == upper_camel_case_of(self@),
    {
        Name { text: to_upper_camel_case(self.text.as_str()) }
    }
}

/// Three-way comparison of two strings in the lexicographic order.
pub fn str_cmp(a: &str, b: &str) -> (r: Cmp)
    ensures
        r == Cmp::Lt <==> seq_char_lt(a@, b@),
        r == Cmp::Eq <==> a@ == b@,
        r == Cmp::Gt <==> seq_char_lt(b@, a@),
{
    let a_len = a.unicode_len();
    let b_len = b.unicode_len();
    let mut i: usize = 0;
    loop
        invariant
            i <= a_len,
            i <= b_len,
            a_len == a@.len(),
            b_len == b@.len(),
            forall|j: int| 0 <= j < i ==> a@[j] == b@[j],
        decreases a_len - i,
    {
        proof {
            lemma_seq_char_lt_trichotomy(a@, b@);
        }
        if i == a_len || i == b_len {
            proof {
                lemma_seq_char_lt_common_prefix(a@, b@, i as int);
            }
            if a_len == b_len {
                proof {
                    assert(a@ =~= b@);
                }
                return Cmp::Eq;
            } else if a_len < b_len {
                return Cmp::Lt;
            } else {
                return Cmp::Gt;
            }
        }
        let ca = a.get_char(i);
        let cb = b.get_char(i);
        let ua = ca as u32;
        let ub = cb as u32;
        if ua < ub {
            proof {
                lemma_seq_char_lt_common_prefix(a@, b@, i as int);
            }
            return Cmp::Lt;
        } else if ua > ub {
            proof {
                lemma_seq_char_lt_common_prefix(a@, b@, i as int);
            }
            return Cmp::Gt;
        }
        assert(a@[i as int] == b@[i as int]);
        i = i + 1;
    }
}

/// When the first `i` characters agree, the order is decided by the rest.
proof fn lemma_seq_char_lt_common_prefix(a: Seq<char>, b: Seq<char>, i: int)
    requires
        0 <= i <= a.len(),
        0 <= i <= b.len(),
        forall|j: int| 0 <= j < i ==> a[j] == b[j],
    ensures
        seq_char_lt(a, b) == seq_char_lt(a.skip(i), b.skip(i)),
        (a == b) == (a.skip(i) == b.skip(i)),
    decreases i,
{
    if i > 0 {
        assert(a.len() > 0 && b.len() > 0);
        assert(a[0] == b[0]);
        assert(seq_char_lt(a, b) == seq_char_lt(a.skip(1), b.skip(1)));
        assert forall|j: int| 0 <= j < i - 1 implies a.skip(1)[j] == b.skip(1)[j] by {
            assert(a[j + 1] == b[j + 1]);
        }
        lemma_seq_char_lt_common_prefix(a.skip(1), b.skip(1), i - 1);
        assert(a.skip(1).skip(i - 1) =~= a.skip(i));
        assert(b.skip(1).skip(i - 1) =~= b.skip(i));
        if a.skip(1) == b.skip(1) {
            assert forall|j: int| 0 <= j < a.len() implies a[j] == b[j] by {
                if j > 0 {
                    assert(a.skip(1)[j - 1] == b.skip(1)[j - 1]);
                }
            }
            assert(a =~= b);
        }
        if a == b {
            assert(a.skip(1) =~= b.skip(1));
        }
    } else {
        assert(a.skip(0) =~= a);
        assert(b.skip(0) =~= b);
    }
}

/// Three-way comparison of two names.
pub fn name_cmp(a: &Name, b: &Name) -> (r: Cmp)
    ensures
        r == Cmp::Lt <==> seq_char_lt(a@, b@),
        r == Cmp::Eq <==> a@ == b@,
        r == Cmp::Gt <==> seq_char_lt(b@, a@),
{
    str_cmp(a.text.as_str(), b.text.as_str())
}

/// Strict lexicographic order on qualified names: segment by segment,
/// with each segment compared as a character sequence.
pub open spec fn qname_lt(a: Seq<Seq<char>>, b: Seq<Seq<char>>) -> bool
    decreases a.len(),
{
    if b.len() == 0 {
        false
    } else if a.len() == 0 {
        true
    } else if a[0] != b[0] {
        seq_char_lt(a[0], b[0])
    } else {
        qname_lt(a.skip(1), b.skip(1))
    }
}

/// Exactly one of `a < b`, `a == b`, `b < a` holds for qualified names.
pub proof fn lemma_qname_lt_trichotomy(a: Seq<Seq<char>>, b: Seq<Seq<char>>)
    ensures
        qname_lt(a, b) || qname_lt(b, a) || a == b,
        qname_lt(a, b) ==> !qname_lt(b, a) && a != b,
        qname_lt(b, a) ==> !qname_lt(a, b) && a != b,
    decreases a.len(),
{
    if b.len() == 0 {
        if a.len() == 0 {
            assert(a =~= b);
        }
    } else if a.len() == 0 {
    } else if a[0] != b[0] {
        lemma_seq_char_lt_trichotomy(a[0], b[0]);
    } else {
        lemma_qname_lt_trichotomy(a.skip(1), b.skip(1));
        if a.skip(1) == b.skip(1) {
            assert forall|j: int| 0 <= j < a.len() implies a[j] == b[j] by {
                if j > 0 {
                    assert(a.skip(1)[j - 1] == b.skip(1)[j - 1]);
                }
            }
            assert(a =~= b);
        }
        if a == b {
            assert(a.skip(1) =~= b.skip(1));
        }
    }
}

/// The order on qualified names is transitive.
pub proof fn lemma_qname_lt_trans(a: Seq<Seq<char>>, b: Seq<Seq<char>>, c: Seq<Seq<char>>)
    requires
        qname_lt(a, b),
        qname_lt(b, c),
    ensures
        qname_lt(a, c),
    decreases a.len(),
{
    if a.len() == 0 {
    } else {
        if a[0] == b[0] && b[0] == c[0] {
            lemma_qname_lt_trans(a.skip(1), b.skip(1), c.skip(1));
        } else if a[0] == b[0] {
            lemma_seq_char_lt_trichotomy(b[0], c[0]);
        } else if b[0] == c[0] {
            lemma_seq_char_lt_trichotomy(a[0], b[0]);
        } else {
            lemma_seq_char_lt_trans(a[0], b[0], c[0]);
            lemma_seq_char_lt_trichotomy(a[0], c[0]);
            if a[0] == c[0] {
                lemma_seq_char_lt_trichotomy(a[0], b[0]);
                lemma_seq_char_lt_trans(b[0], c[0], b[0]);
            }
        }
    }
}

/// An ordered, non-empty path of names locating a declaration within a crate.
/// The first element is the enclosing crate's root name.
#[derive(Debug, PartialEq, Eq)]
pub struct QualifiedName {
    pub names: Vec<Name>,
}

impl View for QualifiedName {
    type V = Seq<Seq<char>>;

    open spec fn view(&self) -> Seq<Seq<char>> {
        self.names@.map_values(|n: Name| n@)
    }
}

impl Clone for QualifiedName {
    fn clone(&self) -> (r: Self)
        ensures
            r@ == self@,
    {
        let mut names: Vec<Name> = Vec::new();
        let mut i: usize = 0;
        while i < self.names.len()
            invariant
                i <= self.names.len(),
                names@.len() == i as int,
                forall|j: int| 0 <= j < i ==> names@[j]@ == self.names@[j]@,
            decreases self.names.len() - i,
        {
            names.push(self.names[i].clone());
            i = i + 1;
        }
        let r = QualifiedName { names };
        proof {
            assert(r@ =~= self@);
        }
        r
    }
}

/// Text of a path joined by a separator.
pub open spec fn join_text(names: Seq<Seq<char>>, sep: Seq<char>) -> Seq<char>
    decreases names.len(),
{
    if names.len() == 0 {
        Seq::empty()
    } else if names.len() == 1 {
        names[0]
    } else {
        names[0] + sep + join_text(names.skip(1), sep)
    }
}

/// Joining one more segment appends a separator and the segment.
proof fn lemma_join_text_snoc(names: Seq<Seq<char>>, sep: Seq<char>, i: int)
    requires
        0 < i < names.len(),
    ensures
        join_text(names.take(i + 1), sep) == join_text(names.take(i), sep) + sep + names[i],
    decreases i,
{
    let t1 = names.take(i + 1);
    let t0 = names.take(i);
    if i == 1 {
        assert(t1 =~= seq![names[0], names[1]]);
        assert(t1.skip(1) =~= seq![names[1]]);
        assert(t0 =~= seq![names[0]]);
        assert(join_text(t1, sep) == t1[0] + sep + join_text(t1.skip(1), sep));
    } else {
        lemma_join_text_snoc(names.skip(1), sep, i - 1);
        assert(t1.skip(1) =~= names.skip(1).take(i));
        assert(t0.skip(1) =~= names.skip(1).take(i - 1));
        assert(names.skip(1)[i - 1] == names[i]);
        assert(join_text(t1, sep) == names[0] + sep + join_text(t1.skip(1), sep));
        assert(join_text(t0, sep) == names[0] + sep + join_text(t0.skip(1), sep));
        assert((names[0] + sep + (join_text(names.skip(1).take(i - 1), sep) + sep + names.skip(1)[i - 1]))
            =~= (names[0] + sep + join_text(names.skip(1).take(i - 1), sep)) + sep + names[i]);
    }
}

impl QualifiedName {
    /// Create a qualified name from a vector of names.
    pub fn new(names: Vec<Name>) -> (r: Self)
        ensures
            r@ == names@.map_values(|n: Name| n@),
    {
        QualifiedName { names }
    }

    /// A qualified name with no segments at all; only used transiently.
    pub fn empty() -> (r: Self)
        ensures
            r@ == Seq::<Seq<char>>::empty(),
    {
        let r = QualifiedName { names: Vec::new() };
        proof {
            assert(r@ =~= Seq::<Seq<char>>::empty());
        }
        r
    }

    /// A qualified name holding just the given name.
    pub fn from_name(name: &Name) -> (r: Self)
        ensures
            r@ == seq![name@],
    {
        let mut names: Vec<Name> = Vec::new();
        names.push(name.clone());
        let r = QualifiedName { names };
        proof {
            assert(r@ =~= seq![name@]);
        }
        r
    }

    /// Return a version of the qualified name joined by `.`.
    pub fn dotted(&self) -> (r: String)
        ensures
            r@ == join_text(self@, "."@),
    {
        self.to_string(".")
    }

    /// Return a string version joined by the given separator.
    pub fn to_string(&self, sep: &str) -> (r: String)
        ensures
            r@ == join_text(self@, sep@),
    {
        let mut acc = String::new();
        if self.names.len() == 0 {
            proof {
                assert(acc@ =~= join_text(self@, sep@));
            }
            return acc;
        }
        acc.append(self.names[0].text.as_str());
        let mut i: usize = 1;
        proof {
            assert(self@.take(1) =~= seq![self@[0]]);
            assert(acc@ =~= join_text(self@.take(1), sep@));
        }
        while i < self.names.len()
            invariant
                1 <= i <= self.names.len(),
                acc@ == join_text(self@.take(i as int), sep@),
            decreases self.names.len() - i,
        {
            acc.append(sep);
            acc.append(self.names[i].text.as_str());
            proof {
                lemma_join_text_snoc(self@, sep@, i as int);
            }
            i = i + 1;
        }
        proof {
            assert(self@.take(self@.len() as int) =~= self@);
        }
        acc
    }

    /// Convert all names to "camelCase".
    pub fn camel_case(&self) -> (r: QualifiedName)
        ensures
            r@ == self@.map_values(|t: Seq<char>| camel_case_of(t)),
    {
        let mut names: Vec<Name> = Vec::new();
        let mut i: usize = 0;
        while i < self.names.len()
            invariant
                i <= self.names.len(),
                names@.len() == i as int,
                forall|j: int| 0 <= j < i ==> names@[j]@ == camel_case_of(self.names@[j]@),
            decreases self.names.len() - i,
        {
            names.push(self.names[i].camel_case());
            i = i + 1;
        }
        let r = QualifiedName { names };
        proof {
            assert(r@ =~= self@.map_values(|t: Seq<char>| camel_case_of(t)));
        }
        r
    }

    /// Convert all names to "UpperCamelCase".
    pub fn upper_camel_case(&self) -> (r: QualifiedName)
        ensures
            r@ == self@.map_values(|t: Seq<char>| upper_camel_case_of(t)),
    {
        let mut names: Vec<Name> = Vec::new();
        let mut i: usize = 0;
        while i < self.names.len()
            invariant
                i <= self.names.len(),
                names@.len() == i as int,
                forall|j: int| 0 <= j < i ==> names@[j]@ == upper_camel_case_of(self.names@[j]@),
            decreases self.names.len() - i,
        {
            names.push(self.names[i].upper_camel_case());
            i = i + 1;
        }
        let r = QualifiedName { names };
        proof {
            assert(r@ =~= self@.map_values(|t: Seq<char>| upper_camel_case_of(t)));
        }
        r
    }

    /// Returns a version of `self` with a new name appended to the end.
    pub fn join(&self, name: &Name) -> (r: Self)
        ensures
            r@ == self@.push(name@),
    {
        let mut r = self.clone();
        r.names.push(name.clone());
        proof {
            assert(r@ =~= self@.push(name@));
        }
        r
    }

    /// The last name of the path.
    pub fn tail_name(&self) -> (r: Name)
        requires
            self@.len() > 0,
        ensures
            r@ == self@.last(),
    {
        self.names[self.names.len() - 1].clone()
    }

    /// The qualified name minus its last component, paired with that component.
    pub fn split_module_name(&self) -> (r: (QualifiedName, Name))
        requires
            self@.len() > 0,
        ensures
            r.0@ == self@.take(self@.len() - 1),
            r.1@ == self@.last(),
    {
        (self.module_name(), self.tail_name())
    }

    /// The qualified name minus its last component.
    pub fn module_name(&self) -> (r: QualifiedName)
        requires
            self@.len() > 0,
        ensures
            r@ == self@.take(self@.len() - 1),
    {
        let mut names: Vec<Name> = Vec::new();
        let mut i: usize = 0;
        while i < self.names.len() - 1
            invariant
                self.names.len() > 0,
                i <= self.names.len() - 1,
                names@.len() == i as int,
                forall|j: int| 0 <= j < i ==> names@[j]@ == self.names@[j]@,
            decreases self.names.len() - i,
        {
            names.push(self.names[i].clone());
            i = i + 1;
        }
        let r = QualifiedName { names };
        proof {
            assert(r@ =~= self@.take(self@.len() - 1));
        }
        r
    }

    /// Append to `self` the module that contains `name`, that is, all of
    /// `name`'s segments but the last.
    pub fn set_to_module_of(&mut self, name: &QualifiedName)
        requires
            name@.len() > 0,
        ensures
            final(self)@ == old(self)@ + name@.take(name@.len() - 1),
    {
        let ghost orig = self@;
        let mut i: usize = 0;
        while i < name.names.len() - 1
            invariant
                name@.len() > 0,
                i <= name.names.len() - 1,
                self@ == orig + name@.take(i as int),
            decreases name.names.len() - i,
        {
            self.names.push(name.names[i].clone());
            proof {
                assert(orig + name@.take(i + 1) =~= (orig + name@.take(i as int)).push(name@[i as int]));
            }
            i = i + 1;
        }
    }

    /// Clear to an empty list of segments.
    pub fn clear(&mut self)
        ensures
            final(self)@ == Seq::<Seq<char>>::empty(),
    {
        self.names.clear();
        proof {
            assert(self@ =~= Seq::<Seq<char>>::empty());
        }
    }

    /// Just the crate's root segment.
    pub fn just_crate(&self) -> (r: QualifiedName)
        requires
            self@.len() > 0,
        ensures
            r@ == seq![self@[0]],
    {
        QualifiedName::from_name(&self.names[0])
    }
}

/// Three-way comparison of two qualified names.
pub fn qname_cmp(a: &QualifiedName, b: &QualifiedName) -> (r: Cmp)
    ensures
        r == Cmp::Lt <==> qname_lt(a@, b@),
        r == Cmp::Eq <==> a@ == b@,
        r == Cmp::Gt <==> qname_lt(b@, a@),
{
    let a_len = a.names.len();
    let b_len = b.names.len();
    let mut i: usize = 0;
    loop
        invariant
            i <= a_len,
            i <= b_len,
            a_len == a@.len(),
            b_len == b@.len(),
            forall|j: int| 0 <= j < i ==> a@[j] == b@[j],
        decreases a_len - i,
    {
        proof {
            lemma_qname_lt_trichotomy(a@, b@);
        }
        if i == a_len || i == b_len {
            proof {
                lemma_qname_lt_common_prefix(a@, b@, i as int);
            }
            if a_len == b_len {
                proof {
                    assert(a@ =~= b@);
                }
                return Cmp::Eq;
            } else if a_len < b_len {
                return Cmp::Lt;
            } else {
                return Cmp::Gt;
            }
        }
        match name_cmp(&a.names[i], &b.names[i]) {
            Cmp::Lt => {
                proof {
                    lemma_qname_lt_common_prefix(a@, b@, i as int);
                    lemma_seq_char_lt_trichotomy(a@[i as int], b@[i as int]);
                }
                return Cmp::Lt;
            }
            Cmp::Gt => {
                proof {
                    lemma_qname_lt_common_prefix(a@, b@, i as int);
                    lemma_seq_char_lt_trichotomy(a@[i as int], b@[i as int]);
                }
                return Cmp::Gt;
            }
            Cmp::Eq => {
                assert(a@[i as int] == b@[i as int]);
                i = i + 1;
            }
        }
    }
}

/// Indicates if this is an async function or not.
#[derive(Clone, Copy, Debug, PartialEq, Eq, Structural)]
pub enum IsAsync {
    No,
    Yes,
}

/// The shape of a method's `self` parameter.
#[derive(Clone, Copy, Debug, PartialEq, Eq, Structural)]
pub enum SelfKind {
    /// `fn (self)`
    ByValue,
    /// `fn (&self)`
    ByRef,
    /// `fn (&mut self)`
    ByRefMut,
}

/// How a method is categorized for the generators.
#[derive(Clone, Copy, Debug, PartialEq, Eq, Structural)]
pub enum MethodCategory {
    /// A method named `new` with no receiver returning the owning type by value.
    Constructor,
    /// A by-value receiver returning the owning type: `fn method(self, ..) -> Self`.
    BuilderMethod(SelfKind),
    /// Any other method that takes `self`, `&self`, or `&mut self`.
    InstanceMethod(SelfKind),
    /// A method with no `self`.
    StaticMethod,
}

/// A field in a record or in a variant arm.
#[derive(Debug, PartialEq, Eq)]
pub struct Field {
    /// Span identifying this field in the subject source.
    pub span: crate::span::Span,
    /// Name of the field.
    pub name: Name,
    /// Type of the field.
    pub ty: crate::ir_types::Ty,
}

/// Mathematical value of a [`Field`].
pub struct FieldV {
    pub span: crate::span::SpanV,
    pub name: Seq<char>,
    pub ty: crate::ir_types::TyV,
}

impl View for Field {
    type V = FieldV;

    open spec fn view(&self) -> FieldV {
        FieldV { span: self.span@, name: self.name@, ty: self.ty@ }
    }
}

/// A function or method argument.
#[derive(Debug, PartialEq, Eq)]
pub struct FunctionInput {
    /// Span identifying this parameter in the subject source.
    pub span: crate::span::Span,
    /// Name of the parameter.
    pub name: Name,
    /// Type of the parameter.
    pub ty: crate::ir_types::Ty,
}

/// Mathematical value of a [`FunctionInput`].
pub struct FunctionInputV {
    pub span: crate::span::SpanV,
    pub name: Seq<char>,
    pub ty: crate::ir_types::TyV,
}

impl View for FunctionInput {
    type V = FunctionInputV;

    open spec fn view(&self) -> FunctionInputV {
        FunctionInputV { span: self.span@, name: self.name@, ty: self.ty@ }
    }
}

/// A function's return: a main type returned on success and an optional
/// error type thrown on failure.
#[derive(Debug, PartialEq, Eq)]
pub struct FunctionOutput {
    /// Type of the value returned on success.
    pub main_ty: crate::ir_types::Ty,
    /// Type of the value returned on error.
    pub error_ty: Option<crate::ir_types::Ty>,
}

/// Mathematical value of a [`FunctionOutput`].
pub struct FunctionOutputV {
    pub main_ty: crate::ir_types::TyV,
    pub error_ty: Option<crate::ir_types::TyV>,
}

impl View for FunctionOutput {
    type V = FunctionOutputV;

    open spec fn view(&self) -> FunctionOutputV {
        FunctionOutputV {
            main_ty: self.main_ty@,
            error_ty: match &self.error_ty {
                Some(t) => Some(t@),
                None => None,
            },
        }
    }
}

/// Signature of a function or method, excluding any `self` parameter.
#[derive(Debug, PartialEq, Eq)]
pub struct Signature {
    /// Is this an async function?
    pub is_async: IsAsync,
    /// The ordered list of function arguments.
    pub inputs: Vec<FunctionInput>,
    /// The function's return.
    pub output_ty: FunctionOutput,
}

/// Mathematical value of a [`Signature`].
pub struct SignatureV {
    pub is_async: IsAsync,
    pub inputs: Seq<FunctionInputV>,
    pub output_ty: FunctionOutputV,
}

impl View for Signature {
    type V = SignatureV;

    open spec fn view(&self) -> SignatureV {
        SignatureV {
            is_async: self.is_async,
            inputs: self.inputs@.map_values(|i: FunctionInput| i@),
            output_ty: self.output_ty@,
        }
    }
}

/// A method attached to a resource, record, variant or enum.
#[derive(Debug, PartialEq, Eq)]
pub struct Method {
    /// Span identifying this method in the subject source.
    pub span: crate::span::Span,
    /// Method category.
    pub category: MethodCategory,
    /// Name of the method.
    pub name: Name,
    /// Method signature.
    pub signature: Signature,
}

/// Mathematical value of a [`Method`].
pub struct MethodV {
    pub span: crate::span::SpanV,
    pub category: MethodCategory,
    pub name: Seq<char>,
    pub signature: SignatureV,
}

impl View for Method {
    type V = MethodV;

    open spec fn view(&self) -> MethodV {
        MethodV { span: self.span@, category: self.category, name: self.name@, signature: self.signature@ }
    }
}

/// A standalone exported function.
#[derive(Debug, PartialEq, Eq)]
pub struct Function {
    /// Span identifying this item in the subject source (currently its name).
    pub span: crate::span::Span,
    /// Name of the function.
    pub name: Name,
    /// Its signature.
    pub signature: Signature,
}

/// Mathematical value of a [`Function`].
pub struct FunctionV {
    pub span: crate::span::SpanV,
    pub name: Seq<char>,
    pub signature: SignatureV,
}

impl View for Function {
    type V = FunctionV;

    open spec fn view(&self) -> FunctionV {
        FunctionV { span: self.span@, name: self.name@, signature: self.signature@ }
    }
}

/// A *Resource* is a structure with opaque contents and methods.
/// It typically maps to a class or something like it.
#[derive(Debug, PartialEq, Eq)]
pub struct Resource {
    /// Span identifying this item in the subject source (currently its name).
    pub span: crate::span::Span,
    pub name: Name,
    pub methods: Vec<Method>,
}

/// Mathematical value of a [`Resource`].
pub struct ResourceV {
    pub span: crate::span::SpanV,
    pub name: Seq<char>,
    pub methods: Seq<MethodV>,
}

impl View for Resource {
    type V = ResourceV;

    open spec fn view(&self) -> ResourceV {
        ResourceV {
            span: self.span@,
            name: self.name@,
            methods: self.methods@.map_values(|m: Method| m@),
        }
    }
}

/// One arm of a *Variant*, carrying zero or more fields.
#[derive(Debug, PartialEq, Eq)]
pub struct VariantArm {
    /// Span identifying this arm in the subject source (currently its name).
    pub span: crate::span::Span,
    pub name: Name,
    pub fields: Vec<Field>,
}

/// Mathematical value of a [`VariantArm`].
pub struct VariantArmV {
    pub span: crate::span::SpanV,
    pub name: Seq<char>,
    pub fields: Seq<FieldV>,
}

impl View for VariantArm {
    type V = VariantArmV;

    open spec fn view(&self) -> VariantArmV {
        VariantArmV {
            span: self.span@,
            name: self.name@,
            fields: self.fields@.map_values(|f: Field| f@),
        }
    }
}

/// A *Variant* corresponds to a general tagged union whose arms carry data.
#[derive(Debug, PartialEq, Eq)]
pub struct Variant {
    /// Span identifying this item in the subject source (currently its name).
    pub span: crate::span::Span,
    pub name: Name,
    pub arms: Vec<VariantArm>,
    pub methods: Vec<Method>,
}

/// Mathematical value of a [`Variant`].
pub struct VariantV {
    pub span: crate::span::SpanV,
    pub name: Seq<char>,
    pub arms: Seq<VariantArmV>,
    pub methods: Seq<MethodV>,
}

impl View for Variant {
    type V = VariantV;

    open spec fn view(&self) -> VariantV {
        VariantV {
            span: self.span@,
            name: self.name@,
            arms: self.arms@.map_values(|a: VariantArm| a@),
            methods: self.methods@.map_values(|m: Method| m@),
        }
    }
}

/// One arm of an *Enum*; it never carries data.
#[derive(Debug, PartialEq, Eq)]
pub struct EnumArm {
    pub span: crate::span::Span,
    pub name: Name,
}

/// Mathematical value of an [`EnumArm`].
pub struct EnumArmV {
    pub span: crate::span::SpanV,
    pub name: Seq<char>,
}

impl View for EnumArm {
    type V = EnumArmV;

    open spec fn view(&self) -> EnumArmV {
        EnumArmV { span: self.span@, name: self.name@ }
    }
}

/// An *Enum* corresponds to a C-like tagged union with no data-carrying arms.
#[derive(Debug, PartialEq, Eq)]
pub struct Enum {
    /// Span identifying this item in the subject source (currently its name).
    pub span: crate::span::Span,
    pub name: Name,
    pub arms: Vec<EnumArm>,
    pub methods: Vec<Method>,
}

/// Mathematical value of an [`Enum`].
pub struct EnumV {
    pub span: crate::span::SpanV,
    pub name: Seq<char>,
    pub arms: Seq<EnumArmV>,
    pub methods: Seq<MethodV>,
}

impl View for Enum {
    type V = EnumV;

    open spec fn view(&self) -> EnumV {
        EnumV {
            span: self.span@,
            name: self.name@,
            arms: self.arms@.map_values(|a: EnumArm| a@),
            methods: self.methods@.map_values(|m: Method| m@),
        }
    }
}

/// A *Record* is a structure with a known and fixed set of public fields.
#[derive(Debug, PartialEq, Eq)]
pub struct Record {
    /// Span identifying this item in the subject source (currently its name).
    pub span: crate::span::Span,
    /// Name of the record.
    pub name: Name,
    /// List of fields and their types.
    pub fields: Vec<Field>,
    /// Methods attached to this record.
    pub methods: Vec<Method>,
}

/// Mathematical value of a [`Record`].
pub struct RecordV {
    pub span: crate::span::SpanV,
    pub name: Seq<char>,
    pub fields: Seq<FieldV>,
    pub methods: Seq<MethodV>,
}

impl View for Record {
    type V = RecordV;

    open spec fn view(&self) -> RecordV {
        RecordV {
            span: self.span@,
            name: self.name@,
            fields: self.fields@.map_values(|f: Field| f@),
            methods: self.methods@.map_values(|m: Method| m@),
        }
    }
}

/// An exported declaration: one of the five shapes the extraction produces.
#[derive(Debug, PartialEq, Eq)]
pub enum Item {
    /// A structure with opaque contents and methods.
    Resource(Resource),
    /// A structure with a known and fixed set of fields and types.
    Record(Record),
    /// A general tagged union with data-carrying arms.
    Variant(Variant),
    /// A C-like tagged union.
    Enum(Enum),
    /// A standalone function.
    Function(Function),
}

/// Mathematical value of an [`Item`].
pub enum ItemV {
    Resource(ResourceV),
    Record(RecordV),
    Variant(VariantV),
    Enum(EnumV),
    Function(FunctionV),
}

impl View for Item {
    type V = ItemV;

    open spec fn view(&self) -> ItemV {
        match self {
            Item::Resource(r) => ItemV::Resource(r@),
            Item::Record(r) => ItemV::Record(r@),
            Item::Variant(v) => ItemV::Variant(v@),
            Item::Enum(e) => ItemV::Enum(e@),
            Item::Function(f) => ItemV::Function(f@),
        }
    }
}

/// The name under which an item was declared.
pub open spec fn spec_item_name(i: ItemV) -> Seq<char> {
    match i {
        ItemV::Resource(r) => r.name,
        ItemV::Record(r) => r.name,
        ItemV::Variant(v) => v.name,
        ItemV::Enum(e) => e.name,
        ItemV::Function(f) => f.name,
    }
}

impl Item {
    /// The name under which this item was declared.
    pub fn name(&self) -> (r: &Name)
        ensures
            r@ == spec_item_name(self@),
    {
        match self {
            Item::Resource(r) => &r.name,
            Item::Record(r) => &r.name,
            Item::Variant(v) => &v.name,
            Item::Enum(e) => &e.name,
            Item::Function(f) => &f.name,
        }
    }
}

/// The sole externally visible artifact of an extraction run: the crate's
/// name plus an ordered map from qualified name to exported item.
#[derive(Debug, PartialEq, Eq)]
pub struct Idl {
    /// The name of the crate whose interface was extracted.
    pub crate_name: Name,
    /// The exported definitions, in strictly increasing qualified-name order.
    pub definitions: crate::ordered_map::QnameMap<Item>,
}

/// Mathematical value of an [`Idl`].
pub struct IdlV {
    pub crate_name: Seq<char>,
    pub definitions: Seq<(Seq<Seq<char>>, ItemV)>,
}

impl View for Idl {
    type V = IdlV;

    open spec fn view(&self) -> IdlV {
        IdlV { crate_name: self.crate_name@, definitions: self.definitions@ }
    }
}

impl Idl {
    /// The ordering invariant: definitions are sorted by qualified name.
    pub open spec fn wf(&self) -> bool {
        crate::ordered_map::entries_sorted(self@.definitions)
    }
}

/// When the first `i` segments agree, the order is decided by the rest.
proof fn lemma_qname_lt_common_prefix(a: Seq<Seq<char>>, b: Seq<Seq<char>>, i: int)
    requires
        0 <= i <= a.len(),
        0 <= i <= b.len(),
        forall|j: int| 0 <= j < i ==> a[j] == b[j],
    ensures
        qname_lt(a, b) == qname_lt(a.skip(i), b.skip(i)),
        (a == b) == (a.skip(i) == b.skip(i)),
    decreases i,
{
    if i > 0 {
        assert(a.len() > 0 && b.len() > 0);
        assert(a[0] == b[0]);
        assert(qname_lt(a, b) == qname_lt(a.skip(1), b.skip(1)));
        assert forall|j: int| 0 <= j < i - 1 implies a.skip(1)[j] == b.skip(1)[j] by {
            assert(a[j + 1] == b[j + 1]);
        }
        lemma_qname_lt_common_prefix(a.skip(1), b.skip(1), i - 1);
        assert(a.skip(1).skip(i - 1) =~= a.skip(i));
        assert(b.skip(1).skip(i - 1) =~= b.skip(i));
        if a.skip(1) == b.skip(1) {
            assert forall|j: int| 0 <= j < a.len() implies a[j] == b[j] by {
                if j > 0 {
                    assert(a.skip(1)[j - 1] == b.skip(1)[j - 1]);
                }
            }
            assert(a =~= b);
        }
        if a == b {
            assert(a.skip(1) =~= b.skip(1));
        }
    } else {
        assert(a.skip(0) =~= a);
        assert(b.skip(0) =~= b);
    }
}

} // verus!
