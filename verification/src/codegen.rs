use vstd::prelude::*;

verus! {

/// The characters that open an indented block.
pub open spec fn spec_opens_block(c: char) -> bool {
    c == '{' || c == '(' || c == '['
}

/// The characters that close an indented block.
pub open spec fn spec_closes_block(c: char) -> bool {
    c == '}' || c == ')' || c == ']'
}

/// The given number of indentation steps, four spaces each.
pub open spec fn spec_indentation(n: nat) -> Seq<char>
    decreases n,
{
    if n == 0 {
        Seq::empty()
    } else {
        spec_indentation((n - 1) as nat) + "    "@
    }
}

/// A buffer for generated code that indents by the block opening and closing
/// characters at the edges of each written line.
#[derive(Debug, PartialEq, Eq)]
pub struct CodeWriter {
    /// Everything written so far.
    pub contents: String,
    /// The current indentation depth, in steps of four spaces.
    pub indent: usize,
}

impl CodeWriter {
    /// An empty writer at depth zero.
    pub fn new() -> (r: Self)
        ensures
            r.contents@ == Seq::<char>::empty(),
            r.indent == 0,
    {
        CodeWriter { contents: String::new(), indent: 0 }
    }

    /// Append one line: a line starting with a closing character dedents
    /// first, the line goes in under the current indentation, and a line
    /// ending with an opening character indents what follows.
    pub fn write_fmt(&mut self, line: &str)
        requires
            old(self).indent <= usize::MAX / 4,
            line@.len() > 0 && spec_closes_block(line@[0]) ==> old(self).indent > 0,
        ensures
            final(self).indent as int == ({
                let depth: int = if line@.len() > 0 && spec_closes_block(line@[0]) {
                    old(self).indent - 1
                } else {
                    old(self).indent as int
                };
                if line@.len() > 0 && spec_opens_block(line@[line@.len() - 1]) {
                    depth + 1
                } else {
                    depth
                }
            }),
            final(self).contents@ == old(self).contents@ + spec_indentation(
                if line@.len() > 0 && spec_closes_block(line@[0]) {
                    (old(self).indent - 1) as nat
                } else {
                    old(self).indent as nat
                },
            ) + line@ + "\n"@,
    {
        let n = line.unicode_len();
        if n > 0 {
            let c0 = line.get_char(0);
            if c0 == '}' || c0 == ')' || c0 == ']' {
                self.indent = self.indent - 1;
            }
        }
        let ghost depth = self.indent as nat;
        proof {
            assert(self.contents@ =~= old(self).contents@ + spec_indentation(0));
        }
        let mut i: usize = 0;
        while i < self.indent
            invariant
                i <= self.indent,
                self.indent <= usize::MAX / 4,
                self.contents@ == old(self).contents@ + spec_indentation(i as nat),
                depth == self.indent as nat,
                self.indent == if line@.len() > 0 && spec_closes_block(line@[0]) {
                    (old(self).indent - 1) as int
                } else {
                    old(self).indent as int
                },
            decreases self.indent - i,
        {
            self.contents.append("    ");
            proof {
                assert(self.contents@ =~= old(self).contents@ + spec_indentation((i + 1) as nat));
            }
            i = i + 1;
        }
        self.contents.append(line);
        self.contents.append("\n");
        proof {
            assert(self.contents@ =~= old(self).contents@ + spec_indentation(depth) + line@
                + "\n"@);
        }
        if n > 0 {
            let cl = line.get_char(n - 1);
            if cl == '{' || cl == '(' || cl == '[' {
                self.indent = self.indent + 1;
            }
        }
    }
}

/// Pair each item with `sep`, except the last, which is paired with
/// `last_sep`; the items keep their order.
pub fn with_separator<S: Copy, I>(sep: S, last_sep: S, items: Vec<I>) -> (r: Vec<(I, S)>)
    ensures
        r@.len() == items@.len(),
        forall|i: int| 0 <= i < items@.len() ==> (#[trigger] r@[i]).0 == items@[i],
        forall|i: int| 0 <= i < items@.len() ==> (#[trigger] r@[i]).1 == (if i + 1
            == items@.len() {
            last_sep
        } else {
            sep
        }),
{
    let ghost orig = items@;
    let mut items = items;
    let mut r: Vec<(I, S)> = Vec::new();
    while items.len() > 0
        invariant
            r@.len() + items@.len() == orig.len(),
            items@ =~= orig.skip(r@.len() as int),
            forall|i: int| 0 <= i < r@.len() ==> (#[trigger] r@[i]).0 == orig[i],
            forall|i: int| 0 <= i < r@.len() ==> (#[trigger] r@[i]).1 == (if i + 1 == orig.len() {
                last_sep
            } else {
                sep
            }),
        decreases items.len(),
    {
        let it = items.remove(0);
        proof {
            assert(items@ =~= orig.skip(r@.len() as int + 1));
        }
        if items.len() == 0 {
            r.push((it, last_sep));
        } else {
            r.push((it, sep));
        }
    }
    r
}

} // verus!
