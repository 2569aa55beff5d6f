use vstd::prelude::*;
use vstd::multiset::Multiset;
use crate::hir::{Block, BlockCheckMode, Expr, ExprKind, SrcRange};
use crate::source_map::{is_multiline_spec, snippet_with_macro_callsite_spec, SourceMap};

verus! {

pub const LINT_NAME: &'static str = "semicolon_if_nothing_returned";

pub const MESSAGE: &'static str = "consider adding a `;` to the last statement for consistent formatting";

pub const HELP: &'static str = "add a `;` here";

/// How far a suggested fix can be trusted.
#[derive(Clone, Copy, Debug, PartialEq, Eq, Structural)]
pub enum Applicability {
    MachineApplicable,
    MaybeIncorrect,
    HasPlaceholders,
    Unspecified,
}

/// A finding of the rule: where it points and the text that should replace
/// the pointed-at source.
#[derive(Clone, Debug)]
pub struct Diagnostic {
    pub lint: &'static str,
    pub span: SrcRange,
    pub message: &'static str,
    pub help: &'static str,
    pub suggestion: Vec<char>,
    pub applicability: Applicability,
}

/// The content of a finding that depends on the block: the range it points at
/// and the replacement text.
pub struct Finding {
    pub span: SrcRange,
    pub replacement: Seq<char>,
}

impl Diagnostic {
    /// This diagnostic reports `f`, with the rule's fixed name, wording and
    /// applicability.
    pub open spec fn reports(&self, f: Finding) -> bool {
        &&& self.lint == LINT_NAME
        &&& self.message == MESSAGE
        &&& self.help == HELP
        &&& self.applicability == Applicability::MaybeIncorrect
        &&& self.span == f.span
        &&& self.suggestion@ == f.replacement
    }
}

/// The text rendered for a trailing expression whose source cannot be found.
pub open spec fn placeholder() -> Seq<char> {
    seq!['}']
}

pub open spec fn ends_with_brace(s: Seq<char>) -> bool {
    s.len() > 0 && s.last() == '}'
}

/// The block is the only content, written on one line, of a closure, of a
/// block expression, or is an unsafe block.
pub open spec fn inside_block_on_same_line_spec(block: Block, last_expr: Expr, text: Seq<char>) -> bool {
    match block.parent {
        None => false,
        Some(parent) => {
            &&& (!(block.rules is DefaultBlock) || parent.kind is Closure || parent.kind is Block)
            &&& block.stmts@.len() == 0
            &&& !is_multiline_spec(text, parent.span.to_spec(last_expr.span))
        },
    }
}

/// What the rule reports for a block, if anything.
pub open spec fn check_block_spec(block: Block, text: Seq<char>) -> Option<Finding> {
    if block.span.from_expansion_spec() {
        None
    } else {
        match block.expr {
            None => None,
            Some(e) => {
                let snippet = snippet_with_macro_callsite_spec(text, e.span, placeholder());
                if !e.ty.is_unit_spec() || ends_with_brace(snippet)
                    || inside_block_on_same_line_spec(block, e, text) || e.kind is DropTemps {
                    None
                } else {
                    Some(Finding { span: e.span.source_callsite_spec(), replacement: snippet.push(';') })
                }
            },
        }
    }
}

/// What the rule reports for each block in turn, in the order of the blocks.
pub open spec fn check_blocks_spec(blocks: Seq<Block>, text: Seq<char>) -> Seq<Finding>
    decreases blocks.len(),
{
    if blocks.len() == 0 {
        Seq::empty()
    } else {
        let before = check_blocks_spec(blocks.drop_last(), text);
        match check_block_spec(blocks.last(), text) {
            Some(f) => before.push(f),
            None => before,
        }
    }
}

/// `a` starts before `b`, or at the same place and ends no later.
pub open spec fn precedes(a: SrcRange, b: SrcRange) -> bool {
    a.lo < b.lo || (a.lo == b.lo && a.hi <= b.hi)
}

pub open spec fn sorted_by_position(diags: Seq<Diagnostic>) -> bool {
    forall|i: int, j: int| 0 <= i < j < diags.len() ==> precedes(#[trigger] diags[i].span, #[trigger] diags[j].span)
}

/// Whether the block, with `last_expr` as its trailing expression, is exempt
/// as a compact one-line form.
pub fn check_if_inside_block_on_same_line(sm: &SourceMap, block: &Block, last_expr: &Expr) -> (r: bool)
    ensures
        r == inside_block_on_same_line_spec(*block, *last_expr, sm.text@),
{
    match &block.parent {
        None => false,
        Some(parent) => {
            let unsafe_block = match block.rules {
                BlockCheckMode::DefaultBlock => false,
                _ => true,
            };
            let nesting = match parent.kind {
                ExprKind::Closure | ExprKind::Block => true,
                _ => false,
            };
            if (unsafe_block || nesting) && block.stmts.len() == 0 {
                !sm.is_multiline(parent.span.to(&last_expr.span))
            } else {
                false
            }
        },
    }
}

/// Puts diagnostics in the order of their position in the source: by start,
/// then by end.
pub fn sort_by_position(diags: Vec<Diagnostic>) -> (r: Vec<Diagnostic>)
    ensures
        r@.to_multiset() == diags@.to_multiset(),
        sorted_by_position(r@),
{
    let ghost original = diags@;
    let mut rest = diags;
    let mut r: Vec<Diagnostic> = Vec::new();
    proof {
        r@.to_multiset_ensures();
        assert(r@.to_multiset().len() == 0);
        assert(r@.to_multiset() =~= Multiset::empty());
        assert(r@.to_multiset().add(rest@.to_multiset()) =~= original.to_multiset());
    }
    while rest.len() > 0
        invariant
            r@.to_multiset().add(rest@.to_multiset()) == original.to_multiset(),
            sorted_by_position(r@),
        decreases rest.len(),
    {
        let ghost before = rest@;
        let d = rest.pop().unwrap();
        proof {
            assert(before =~= rest@.push(d));
        }
        let mut p: usize = 0;
        while p < r.len() && !precedes_exec(d.span, r[p].span)
            invariant
                p <= r@.len(),
                forall|j: int| 0 <= j < p ==> !precedes(d.span, #[trigger] r@[j].span),
            decreases r@.len() - p,
        {
            p = p + 1;
        }
        let ghost old_r = r@;
        r.insert(p, d);
        proof {
            assert(r@ == old_r.insert(p as int, d));
            assert(sorted_by_position(r@)) by {
                assert forall|i: int, j: int| 0 <= i < j < r@.len() implies precedes(
                    #[trigger] r@[i].span,
                    #[trigger] r@[j].span,
                ) by {
                    if i < p && j > p {
                        assert(precedes(old_r[i].span, old_r[p as int].span));
                    }
                };
            };
            vstd::seq_lib::to_multiset_build(rest@, d);
            vstd::seq_lib::to_multiset_insert(old_r, p as int, d);
            assert(rest@.push(d).to_multiset() == rest@.to_multiset().insert(d));
            assert(r@.to_multiset() == old_r.to_multiset().insert(d));
            assert(r@.to_multiset().add(rest@.to_multiset()) =~= old_r.to_multiset().add(
                before.to_multiset(),
            ));
        }
    }
    proof {
        rest@.to_multiset_ensures();
        assert(rest@.to_multiset().len() == 0);
        assert(rest@.to_multiset() =~= Multiset::empty());
        assert(r@.to_multiset() =~= r@.to_multiset().add(rest@.to_multiset()));
    }
    r
}

fn precedes_exec(a: SrcRange, b: SrcRange) -> (r: bool)
    ensures
        r == precedes(a, b),
{
    a.lo < b.lo || (a.lo == b.lo && a.hi <= b.hi)
}

/// The rule that asks for a `;` after a trailing expression of unit type.
#[derive(Clone, Copy, Debug)]
pub struct SemicolonIfNothingReturned;

impl SemicolonIfNothingReturned {
    /// Decides whether `block` is reported, and with which fix.
    pub fn check_block(&self, sm: &SourceMap, block: &Block) -> (r: Option<Diagnostic>)
        ensures
            match (r, check_block_spec(*block, sm.text@)) {
                (Some(d), Some(f)) => d.reports(f),
                (None, None) => true,
                _ => false,
            },
    {
        if block.span.from_expansion() {
            return None;
        }
        let expr = match &block.expr {
            None => {
                return None;
            },
            Some(e) => e,
        };
        if !expr.ty.is_unit() {
            return None;
        }
        let snippet = sm.snippet_with_macro_callsite(&expr.span, &vec!['}']);
        if snippet.len() > 0 && snippet[snippet.len() - 1] == '}' {
            return None;
        }
        if check_if_inside_block_on_same_line(sm, block, expr) {
            return None;
        }
        if let ExprKind::DropTemps = expr.kind {
            return None;
        }
        let mut suggestion = snippet;
        suggestion.push(';');
        Some(Diagnostic {
            lint: LINT_NAME,
            span: expr.span.source_callsite(),
            message: MESSAGE,
            help: HELP,
            suggestion,
            applicability: Applicability::MaybeIncorrect,
        })
    }

    /// Checks each block in turn and collects what is reported.
    pub fn check_blocks(&self, sm: &SourceMap, blocks: &Vec<Block>) -> (r: Vec<Diagnostic>)
        ensures
            r@.len() == check_blocks_spec(blocks@, sm.text@).len(),
            forall|i: int| 0 <= i < r@.len() ==> #[trigger] r@[i].reports(check_blocks_spec(blocks@, sm.text@)[i]),
    {
        let mut r: Vec<Diagnostic> = Vec::new();
        let mut i: usize = 0;
        while i < blocks.len()
            invariant
                i <= blocks.len(),
                r@.len() == check_blocks_spec(blocks@.subrange(0, i as int), sm.text@).len(),
                forall|k: int| 0 <= k < r@.len() ==> #[trigger] r@[k].reports(check_blocks_spec(blocks@.subrange(0, i as int), sm.text@)[k]),
            decreases blocks.len() - i,
        {
            let ghost prefix = blocks@.subrange(0, i as int);
            let ghost next = blocks@.subrange(0, i + 1);
            assert(next.drop_last() =~= prefix);
            assert(next.last() == blocks@[i as int]);
            match self.check_block(sm, &blocks[i]) {
                Some(d) => {
                    r.push(d);
                },
                None => {},
            }
            i = i + 1;
        }
        assert(blocks@.subrange(0, blocks@.len() as int) =~= blocks@);
        r
    }
}

} // verus!
