//! The templating collaborator, as this core requires it: a renderable value
//! either produces a string deterministically or fails with a render error.
//! `BindingTemplate` is the general form, a named template over named input
//! bindings; it fails exactly when a placeholder has no binding.

use crate::responder::PageError;
use vstd::prelude::*;
use vstd::string::StringExecFns;

verus! {

/// A renderable template value. Rendering is deterministic: whether it
/// succeeds and what it produces are functions of the value alone.
pub trait Template {
    /// Whether rendering this value succeeds.
    spec fn renders(&self) -> bool;

    /// The characters rendering produces, when it succeeds.
    spec fn output(&self) -> Seq<char>;

    /// Renders the value to a string, or fails with a render error.
    fn render(&self) -> (r: Result<String, PageError>)
        ensures
            r is Ok <==> self.renders(),
            r matches Ok(s) ==> s@ == self.output(),
            r matches Err(e) ==> e == PageError::TemplateRenderError,
    ;
}

/// Rendering the same template value twice yields byte-identical output: any
/// two results that `Template::render` may return for one value agree.
pub proof fn lemma_render_deterministic<T: Template>(
    t: &T,
    r1: Result<String, PageError>,
    r2: Result<String, PageError>,
)
    requires
        r1 is Ok <==> t.renders(),
        r1 matches Ok(s) ==> s@ == t.output(),
        r2 is Ok <==> t.renders(),
        r2 matches Ok(s) ==> s@ == t.output(),
    ensures
        r1 is Ok <==> r2 is Ok,
        (r1 is Ok && r2 is Ok) ==> r1->Ok_0@ == r2->Ok_0@,
{
}

/// One piece of a [`BindingTemplate`]: literal text, or a placeholder to be
/// filled from the named bindings.
pub enum Segment {
    Lit(String),
    Var(String),
}

/// The first binding for `name`, if any.
pub open spec fn spec_lookup(bindings: Seq<(String, String)>, name: Seq<char>) -> Option<
    Seq<char>,
>
    decreases bindings.len(),
{
    if bindings.len() == 0 {
        None
    } else if bindings[0].0@ == name {
        Some(bindings[0].1@)
    } else {
        spec_lookup(bindings.drop_first(), name)
    }
}

/// The rendering of a sequence of segments under the given bindings: the
/// concatenation of literals and looked-up values, or nothing if some
/// placeholder has no binding.
pub open spec fn spec_render_segments(
    segments: Seq<Segment>,
    bindings: Seq<(String, String)>,
) -> Option<Seq<char>>
    decreases segments.len(),
{
    if segments.len() == 0 {
        Some(Seq::empty())
    } else {
        match spec_render_segments(segments.drop_last(), bindings) {
            None => None,
            Some(done) => match segments.last() {
                Segment::Lit(s) => Some(done + s@),
                Segment::Var(name) => match spec_lookup(bindings, name@) {
                    None => None,
                    Some(value) => Some(done + value),
                },
            },
        }
    }
}

/// If a sequence of segments renders, so does each of its prefixes.
proof fn lemma_prefix_renders(
    segments: Seq<Segment>,
    bindings: Seq<(String, String)>,
    i: int,
)
    requires
        0 <= i <= segments.len(),
        spec_render_segments(segments, bindings) is Some,
    ensures
        spec_render_segments(segments.subrange(0, i), bindings) is Some,
    decreases segments.len() - i,
{
    if i == segments.len() {
        assert(segments.subrange(0, i) =~= segments);
    } else {
        lemma_prefix_renders(segments, bindings, i + 1);
        let longer = segments.subrange(0, i + 1);
        assert(longer.drop_last() =~= segments.subrange(0, i));
    }
}

/// A named template over named input bindings: literal text interleaved with
/// placeholders, each placeholder filled from the first binding of its name.
pub struct BindingTemplate {
    pub segments: Vec<Segment>,
    pub bindings: Vec<(String, String)>,
}

impl BindingTemplate {
    /// The first binding for `name`, if any.
    fn lookup<'a>(bindings: &'a Vec<(String, String)>, name: &String) -> (r: Option<&'a String>)
        ensures
            match r {
                Some(value) => spec_lookup(bindings@, name@) == Some(value@),
                None => spec_lookup(bindings@, name@) is None,
            },
    {
        let n = bindings.len();
        proof {
            assert(bindings@.subrange(0, n as int) =~= bindings@);
        }
        let mut j: usize = 0;
        while j < n
            invariant
                j <= n,
                n == bindings@.len(),
                spec_lookup(bindings@, name@) == spec_lookup(bindings@.subrange(j as int, n as int), name@),
            decreases n - j,
        {
            if bindings[j].0 == *name {
                return Some(&bindings[j].1);
            }
            proof {
                assert(bindings@.subrange(j as int, n as int).drop_first() =~= bindings@.subrange(
                    j + 1,
                    n as int,
                ));
            }
            j += 1;
        }
        None
    }
}

impl Template for BindingTemplate {
    open spec fn renders(&self) -> bool {
        spec_render_segments(self.segments@, self.bindings@) is Some
    }

    open spec fn output(&self) -> Seq<char> {
        spec_render_segments(self.segments@, self.bindings@)->0
    }

    fn render(&self) -> (r: Result<String, PageError>)
        ensures
            r is Ok <==> self.renders(),
            r matches Ok(s) ==> s@ == self.output(),
            r matches Err(e) ==> e == PageError::TemplateRenderError,
    {
        let n = self.segments.len();
        let mut out = String::new();
        let mut i: usize = 0;
        while i < n
            invariant
                i <= n,
                n == self.segments@.len(),
                spec_render_segments(self.segments@.subrange(0, i as int), self.bindings@)
                    == Some(out@),
            decreases n - i,
        {
            let ghost done = self.segments@.subrange(0, i as int);
            match &self.segments[i] {
                Segment::Lit(s) => out.append(s.as_str()),
                Segment::Var(name) => match Self::lookup(&self.bindings, name) {
                    Some(value) => out.append(value.as_str()),
                    None => {
                        proof {
                            if self.renders() {
                                lemma_prefix_renders(self.segments@, self.bindings@, i + 1);
                                assert(self.segments@.subrange(0, i + 1).drop_last() =~= done);
                                assert(self.segments@.subrange(0, i + 1).last()
                                    == self.segments@[i as int]);
                                assert(false);
                            }
                        }
                        return Err(PageError::TemplateRenderError);
                    },
                },
            }
            proof {
                assert(self.segments@.subrange(0, i + 1).drop_last() =~= done);
                assert(self.segments@.subrange(0, i + 1).last() == self.segments@[i as int]);
            }
            i += 1;
        }
        proof {
            assert(self.segments@.subrange(0, n as int) =~= self.segments@);
        }
        Ok(out)
    }
}

} // verus!
