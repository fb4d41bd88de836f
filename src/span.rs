//! Spans, expansion contexts and the source text that spans point into.
use vstd::prelude::*;

verus! {

/// The expansion context of text written directly in the analysed file.
pub const ROOT_CTXT: u32 = 0;

/// A half-open byte range `[lo, hi)` of the source text, tagged with the
/// expansion context that produced it.
#[derive(Clone, Copy, Debug, PartialEq, Eq)]
pub struct Span {
    pub lo: usize,
    pub hi: usize,
    pub ctxt: u32,
}

/// A span comes from a macro expansion when its context is not the file's own.
pub open spec fn spec_in_macro(sp: Span) -> bool {
    sp.ctxt != ROOT_CTXT
}

/// Two spans were produced by different expansions.
pub open spec fn spec_differing_macro_contexts(a: Span, b: Span) -> bool {
    a.ctxt != b.ctxt
}

/// The span strictly between two nodes: from `lo` up to `hi`, in the file's own context.
pub open spec fn spec_mk_sp(lo: usize, hi: usize) -> Span {
    Span { lo, hi, ctxt: ROOT_CTXT }
}

/// The text under a span, when the span denotes a range of the buffer.
pub open spec fn spec_snippet(src: Seq<u8>, sp: Span) -> Option<Seq<u8>> {
    if sp.lo <= sp.hi && sp.hi <= src.len() {
        Some(src.subrange(sp.lo as int, sp.hi as int))
    } else {
        None
    }
}

pub fn in_macro(sp: Span) -> (r: bool)
    ensures
        r == spec_in_macro(sp),
{
    sp.ctxt != ROOT_CTXT
}

pub fn differing_macro_contexts(a: Span, b: Span) -> (r: bool)
    ensures
        r == spec_differing_macro_contexts(a, b),
{
    a.ctxt != b.ctxt
}

pub fn mk_sp(lo: usize, hi: usize) -> (r: Span)
    ensures
        r == spec_mk_sp(lo, hi),
{
    Span { lo, hi, ctxt: ROOT_CTXT }
}

/// The source buffer of one file, read-only for the whole pass.
pub struct Context {
    pub src: Vec<u8>,
}

impl Context {
    pub fn new(src: Vec<u8>) -> (r: Context)
        ensures
            r.src@ == src@,
    {
        Context { src }
    }

    /// A copy of the text under `sp`, or `None` when `sp` is not a range of the buffer.
    pub fn snippet_opt(&self, sp: Span) -> (r: Option<Vec<u8>>)
        ensures
            match r {
                Some(t) => spec_snippet(self.src@, sp) == Some(t@),
                None => spec_snippet(self.src@, sp) is None,
            },
    {
        if sp.lo <= sp.hi && sp.hi <= self.src.len() {
            let mut out: Vec<u8> = Vec::new();
            let mut i: usize = sp.lo;
            while i < sp.hi
                invariant
                    sp.lo <= i <= sp.hi,
                    sp.hi <= self.src@.len(),
                    out@ == self.src@.subrange(sp.lo as int, i as int),
                decreases sp.hi - i,
            {
                out.push(self.src[i]);
                i = i + 1;
            }
            Some(out)
        } else {
            None
        }
    }
}

} // verus!
