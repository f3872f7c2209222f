//! Kernel source templates: immutable sequences of literal text and named
//! placeholders, specialized by functional updates.
//!
//! Registering a value for a placeholder never mutates the receiver — it
//! returns a new template — so a template can be shared as a constant and
//! specialized differently per call. Registering a key the template does not
//! mention is a no-op on the rendered source, and a placeholder that was
//! never registered renders as its raw marker, left for the downstream
//! compiler to reject.

use vstd::prelude::*;
use vstd::string::*;

verus! {

/// One piece of a kernel source template.
pub enum TemplatePart {
    /// Literal source text, rendered as it stands.
    Literal(String),
    /// A named placeholder, rendered as its registered value.
    Placeholder(String),
}

/// The mathematical value of one template part: its text as a character
/// sequence.
pub enum TemplatePartView {
    Literal(Seq<char>),
    Placeholder(Seq<char>),
}

impl View for TemplatePart {
    type V = TemplatePartView;

    open spec fn view(&self) -> TemplatePartView {
        match self {
            TemplatePart::Literal(s) => TemplatePartView::Literal(s@),
            TemplatePart::Placeholder(s) => TemplatePartView::Placeholder(s@),
        }
    }
}

/// An immutable kernel source template together with the placeholder
/// values registered so far.
pub struct SourceTemplate {
    parts: Vec<TemplatePart>,
    bindings: Vec<(String, String)>,
}

/// The value the earliest registration bound to `key`, if any. The first
/// registration of a key wins: once a placeholder is substituted, a later
/// registration of the same key has nothing left to replace.
pub open spec fn spec_binding_for(bs: Seq<(Seq<char>, Seq<char>)>, key: Seq<char>) -> Option<
    Seq<char>,
>
    decreases bs.len(),
{
    if bs.len() == 0 {
        None
    } else if bs[0].0 == key {
        Some(bs[0].1)
    } else {
        spec_binding_for(bs.skip(1), key)
    }
}

/// How one template part renders under the given bindings.
pub open spec fn spec_part_source(p: TemplatePartView, bs: Seq<(Seq<char>, Seq<char>)>) -> Seq<
    char,
> {
    match p {
        TemplatePartView::Literal(s) => s,
        TemplatePartView::Placeholder(k) => match spec_binding_for(bs, k) {
            Some(v) => v,
            None => "{{"@ + k + "}}"@,
        },
    }
}

/// How a sequence of template parts renders under the given bindings.
pub open spec fn spec_source_of(parts: Seq<TemplatePartView>, bs: Seq<(Seq<char>, Seq<char>)>) -> Seq<
    char,
>
    decreases parts.len(),
{
    if parts.len() == 0 {
        Seq::empty()
    } else {
        spec_source_of(parts.drop_last(), bs) + spec_part_source(parts.last(), bs)
    }
}

impl SourceTemplate {
    /// The parts the template was built from.
    pub closed spec fn spec_parts(self) -> Seq<TemplatePartView> {
        self.parts@.map(|i: int, p: TemplatePart| p@)
    }

    /// The registered placeholder bindings, in registration order.
    pub closed spec fn spec_bindings(self) -> Seq<(Seq<char>, Seq<char>)> {
        self.bindings@.map(|i: int, b: (String, String)| (b.0@, b.1@))
    }

    /// The concrete source the template renders to.
    pub open spec fn spec_source(self) -> Seq<char> {
        spec_source_of(self.spec_parts(), self.spec_bindings())
    }

    /// An empty template with no parts and no bindings.
    pub fn new() -> (t: Self)
        ensures
            t.spec_parts() =~= Seq::<TemplatePartView>::empty(),
            t.spec_bindings() =~= Seq::<(Seq<char>, Seq<char>)>::empty(),
    {
        SourceTemplate { parts: Vec::new(), bindings: Vec::new() }
    }

    /// Appends literal source text to the template.
    pub fn literal(self, text: &str) -> (t: Self)
        ensures
            t.spec_parts() =~= self.spec_parts().push(TemplatePartView::Literal(text@)),
            t.spec_bindings() == self.spec_bindings(),
    {
        let mut parts = self.parts;
        parts.push(TemplatePart::Literal(String::from_str(text)));
        let t = SourceTemplate { parts, bindings: self.bindings };
        proof {
            assert(t.spec_parts()[self.spec_parts().len() as int]
                == TemplatePartView::Literal(text@)) by {
                assert(t.parts@.last() matches TemplatePart::Literal(s) && s@ == text@);
            }
        }
        t
    }

    /// Appends a named placeholder to the template.
    pub fn placeholder(self, key: &str) -> (t: Self)
        ensures
            t.spec_parts() =~= self.spec_parts().push(TemplatePartView::Placeholder(key@)),
            t.spec_bindings() == self.spec_bindings(),
    {
        let mut parts = self.parts;
        parts.push(TemplatePart::Placeholder(String::from_str(key)));
        let t = SourceTemplate { parts, bindings: self.bindings };
        proof {
            assert(t.spec_parts()[self.spec_parts().len() as int]
                == TemplatePartView::Placeholder(key@)) by {
                assert(t.parts@.last() matches TemplatePart::Placeholder(s) && s@ == key@);
            }
        }
        t
    }

    /// Registers a value for a placeholder, returning a new template and
    /// leaving the receiver's parts untouched. A key the template does not
    /// mention changes nothing in the rendered source.
    pub fn register(self, key: &str, value: &str) -> (t: Self)
        ensures
            t.spec_parts() == self.spec_parts(),
            t.spec_bindings() =~= self.spec_bindings().push((key@, value@)),
    {
        let mut bindings = self.bindings;
        bindings.push((String::from_str(key), String::from_str(value)));
        SourceTemplate { parts: self.parts, bindings }
    }

    /// Looks up the value the earliest registration bound to `key`.
    fn lookup<'a>(bindings: &'a Vec<(String, String)>, key: &String) -> (r: Option<&'a String>)
        ensures
            match r {
                Some(v) => spec_binding_for(
                    bindings@.map(|i: int, b: (String, String)| (b.0@, b.1@)),
                    key@,
                ) == Some(v@),
                None => spec_binding_for(
                    bindings@.map(|i: int, b: (String, String)| (b.0@, b.1@)),
                    key@,
                ) is None,
            },
    {
        let ghost bs = bindings@.map(|i: int, b: (String, String)| (b.0@, b.1@));
        proof {
            assert(bs.skip(0) =~= bs);
        }
        let mut i: usize = 0;
        while i < bindings.len()
            invariant
                i <= bindings.len(),
                bs == bindings@.map(|i: int, b: (String, String)| (b.0@, b.1@)),
                spec_binding_for(bs, key@) == spec_binding_for(bs.skip(i as int), key@),
            decreases bindings.len() - i,
        {
            if bindings[i].0 == *key {
                proof {
                    assert(bs.skip(i as int)[0] == bs[i as int]);
                }
                return Some(&bindings[i].1);
            }
            proof {
                assert(bs.skip(i as int)[0] == bs[i as int]);
                assert(bs.skip(i as int).skip(1) =~= bs.skip(i as int + 1));
            }
            i = i + 1;
        }
        proof {
            assert(bs.skip(i as int) =~= Seq::empty());
        }
        None
    }

    /// Renders the template to a concrete kernel source string, substituting
    /// every placeholder with its earliest registered value and leaving an
    /// unregistered placeholder as its raw marker.
    pub fn complete(&self) -> (r: String)
        ensures
            r@ == self.spec_source(),
    {
        let ghost bs = self.spec_bindings();
        let mut out = String::new();
        let mut i: usize = 0;
        while i < self.parts.len()
            invariant
                i <= self.parts.len(),
                bs == self.spec_bindings(),
                out@ == spec_source_of(self.spec_parts().take(i as int), bs),
            decreases self.parts.len() - i,
        {
            proof {
                let taken = self.spec_parts().take(i as int + 1);
                assert(taken.drop_last() =~= self.spec_parts().take(i as int));
                assert(taken.last() == self.spec_parts()[i as int]);
            }
            match &self.parts[i] {
                TemplatePart::Literal(s) => {
                    out.append(s.as_str());
                },
                TemplatePart::Placeholder(k) => {
                    match Self::lookup(&self.bindings, k) {
                        Some(v) => {
                            out.append(v.as_str());
                        },
                        None => {
                            out.append("{{");
                            out.append(k.as_str());
                            out.append("}}");
                        },
                    }
                },
            }
            i = i + 1;
        }
        proof {
            assert(self.spec_parts().take(i as int) =~= self.spec_parts());
        }
        out
    }
}

} // verus!
