use vstd::prelude::*;
use crate::hir::{Span, SrcRange};

verus! {

/// Whether the range holds a line break of the text, so that its two ends lie
/// on different lines. Positions past the end of the text count as the last
/// line.
pub open spec fn is_multiline_spec(text: Seq<char>, r: SrcRange) -> bool {
    exists|i: int| r.lo <= i < r.hi && 0 <= i < text.len() && text[i] == '\n'
}

/// The text of a range, or `None` when the range is not a range of the text.
pub open spec fn snippet_spec(text: Seq<char>, r: SrcRange) -> Option<Seq<char>> {
    if r.lo <= r.hi && r.hi <= text.len() {
        Some(text.subrange(r.lo as int, r.hi as int))
    } else {
        None
    }
}

/// The text the user wrote for a span: that of the macro call for an expanded
/// span, or `default` when there is none.
pub open spec fn snippet_with_macro_callsite_spec(
    text: Seq<char>,
    span: Span,
    default: Seq<char>,
) -> Seq<char> {
    match snippet_spec(text, span.source_callsite_spec()) {
        Some(s) => s,
        None => default,
    }
}

/// The source text of the program, with positions counted in characters.
#[derive(Clone, Debug)]
pub struct SourceMap {
    pub text: Vec<char>,
}

impl SourceMap {
    pub fn snippet_opt(&self, r: SrcRange) -> (out: Option<Vec<char>>)
        ensures
            match (out, snippet_spec(self.text@, r)) {
                (Some(v), Some(s)) => v@ == s,
                (None, None) => true,
                _ => false,
            },
    {
        if r.lo <= r.hi && r.hi <= self.text.len() {
            let mut v: Vec<char> = Vec::new();
            let mut i: usize = r.lo;
            while i < r.hi
                invariant
                    r.lo <= i <= r.hi <= self.text.len(),
                    v@ == self.text@.subrange(r.lo as int, i as int),
                decreases r.hi - i,
            {
                v.push(self.text[i]);
                i = i + 1;
            }
            Some(v)
        } else {
            None
        }
    }

    pub fn is_multiline(&self, r: SrcRange) -> (out: bool)
        ensures
            out == is_multiline_spec(self.text@, r),
    {
        let mut i: usize = r.lo;
        while i < r.hi && i < self.text.len()
            invariant
                r.lo <= i,
                forall|j: int| r.lo <= j < i && 0 <= j < self.text.len() ==> self.text@[j] != '\n',
            decreases r.hi - i,
        {
            if self.text[i] == '\n' {
                return true;
            }
            i = i + 1;
        }
        false
    }

    pub fn snippet_with_macro_callsite(&self, span: &Span, default: &Vec<char>) -> (out: Vec<char>)
        ensures
            out@ == snippet_with_macro_callsite_spec(self.text@, *span, default@),
    {
        match self.snippet_opt(span.source_callsite()) {
            Some(s) => s,
            None => {
                let mut v: Vec<char> = Vec::new();
                let mut i: usize = 0;
                while i < default.len()
                    invariant
                        i <= default.len(),
                        v@ == default@.subrange(0, i as int),
                    decreases default.len() - i,
                {
                    v.push(default[i]);
                    i = i + 1;
                }
                v
            }
        }
    }
}

} // verus!
