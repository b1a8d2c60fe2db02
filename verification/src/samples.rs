use vstd::prelude::*;

verus! {

/// The character class of the sample subject library: a plain enumeration,
/// the shape the pipeline classifies as an `Enum`.
#[derive(Clone, Copy, Debug, PartialEq, Eq, Structural)]
pub enum Class {
    Fighter,
    Wizard,
    Rogue,
    Cleric,
}

/// The sample subject type with only private fields: the shape the pipeline
/// classifies as a `Resource`.
#[derive(Debug)]
pub struct Character {
    name: String,
    class: Class,
    level: u32,
}

impl Character {
    /// The character's name.
    pub closed spec fn spec_name(&self) -> Seq<char> {
        self.name@
    }

    /// The character's class.
    pub closed spec fn spec_class(&self) -> Class {
        self.class
    }

    /// The character's level.
    pub closed spec fn spec_level(&self) -> u32 {
        self.level
    }

    /// A fresh character at level one.
    pub fn new(name: &str, class: Class) -> (r: Self)
        ensures
            r.spec_name() == name@,
            r.spec_class() == class,
            r.spec_level() == 1,
    {
        Character { name: name.to_owned(), class, level: 1 }
    }

    /// The character's class.
    pub fn class(&self) -> (r: Class)
        ensures
            r == self.spec_class(),
    {
        self.class
    }

    /// The character's name.
    pub fn name(&self) -> (r: &str)
        ensures
            r@ == self.spec_name(),
    {
        self.name.as_str()
    }

    /// Raise the character's level by one.
    pub fn level_up(&mut self)
        requires
            old(self).spec_level() < u32::MAX,
        ensures
            final(self).spec_level() == old(self).spec_level() + 1,
            final(self).spec_name() == old(self).spec_name(),
            final(self).spec_class() == old(self).spec_class(),
    {
        self.level = self.level + 1;
    }

    /// The character's level.
    pub fn level(&self) -> (r: u32)
        ensures
            r == self.spec_level(),
    {
        self.level
    }
}

/// Greet someone by name, or the world.
pub fn greet(name: Option<&str>) -> (r: String)
    ensures
        match name {
            Some(n) => r@ == "Hello, "@ + n@ + "!"@,
            None => r@ == "Hello, world"@,
        },
{
    match name {
        Some(n) => {
            let mut s = String::new();
            s.append("Hello, ");
            s.append(n);
            s.append("!");
            proof {
                assert(s@ =~= "Hello, "@ + n@ + "!"@);
            }
            s
        }
        None => String::from_str("Hello, world"),
    }
}

/// The sample subject type whose `language` method is a builder: a by-value
/// receiver returning the owning type.
#[derive(Debug)]
pub struct Greetings {
    language: String,
}

impl Greetings {
    /// The configured language code.
    pub closed spec fn spec_language(&self) -> Seq<char> {
        self.language@
    }

    /// Greetings in the default language.
    pub fn new() -> (r: Self)
        ensures
            r.spec_language() == "en"@,
    {
        Greetings { language: String::from_str("en") }
    }

    /// Choose a language; a builder method.
    pub fn language(self, language: &str) -> (r: Self)
        ensures
            r.spec_language() == language@,
    {
        let mut r = self;
        r.language = language.to_owned();
        r
    }

    /// Greet `name` in the configured language; only `en` and `es` are known.
    pub fn greet(self, name: String) -> (r: Result<String, String>)
        ensures
            self.spec_language() == "en"@ ==> (r matches Ok(s) && s@ == "Hello, "@ + name@ + "!"@),
            self.spec_language() == "es"@ ==> (r matches Ok(s) && s@ == "Hola, "@ + name@ + "!"@),
            self.spec_language() != "en"@ && self.spec_language() != "es"@ ==> (r matches Err(m)
                && m@ == "unknown language "@ + self.spec_language()),
    {
        proof {
            reveal_strlit("en");
            reveal_strlit("es");
            assert("en"@ != "es"@) by {
                if "en"@ == "es"@ {
                    assert("en"@[1] == "es"@[1]);
                }
            }
        }
        let is_en = matches!(
            crate::ir_items::str_cmp(self.language.as_str(), "en"),
            crate::ir_items::Cmp::Eq,
        );
        let is_es = matches!(
            crate::ir_items::str_cmp(self.language.as_str(), "es"),
            crate::ir_items::Cmp::Eq,
        );
        if is_en {
            let mut s = String::new();
            s.append("Hello, ");
            s.append(name.as_str());
            s.append("!");
            proof {
                assert(s@ =~= "Hello, "@ + name@ + "!"@);
            }
            Ok(s)
        } else if is_es {
            let mut s = String::new();
            s.append("Hola, ");
            s.append(name.as_str());
            s.append("!");
            proof {
                assert(s@ =~= "Hola, "@ + name@ + "!"@);
            }
            Ok(s)
        } else {
            let mut s = String::new();
            s.append("unknown language ");
            s.append(self.language.as_str());
            proof {
                assert(s@ =~= "unknown language "@ + self.language@);
            }
            Err(s)
        }
    }
}

} // verus!
