use vstd::prelude::*;
use crate::hir::{Block, Stmt};
use crate::lint::{check_block_spec, check_blocks_spec, ends_with_brace, placeholder};
use crate::source_map::{snippet_spec, snippet_with_macro_callsite_spec};

verus! {

/// A block whose trailing expression has a type other than unit is never
/// reported.
pub proof fn lemma_non_unit_tail_not_reported(block: Block, text: Seq<char>)
    requires
        block.expr is Some,
        !block.expr->0.ty.is_unit_spec(),
    ensures
        check_block_spec(block, text) is None,
{
}

/// A block without a trailing expression is never reported.
pub proof fn lemma_no_tail_not_reported(block: Block, text: Seq<char>)
    requires
        block.expr is None,
    ensures
        check_block_spec(block, text) is None,
{
}

/// A block whose trailing expression comes from a macro expansion with no
/// source text behind it is never reported.
pub proof fn lemma_generated_tail_not_reported(block: Block, text: Seq<char>)
    requires
        block.expr is Some,
        block.expr->0.span.from_expansion_spec(),
        snippet_spec(text, block.expr->0.span.source_callsite_spec()) is None,
    ensures
        check_block_spec(block, text) is None,
{
    assert(ends_with_brace(placeholder()));
}

/// A block whose trailing expression renders to text ending in `}` is never
/// reported, whatever its type.
pub proof fn lemma_brace_tail_not_reported(block: Block, text: Seq<char>)
    requires
        block.expr is Some,
        ends_with_brace(
            snippet_with_macro_callsite_spec(text, block.expr->0.span, placeholder()),
        ),
    ensures
        check_block_spec(block, text) is None,
{
}

/// Once the trailing expression of a block is turned into a `;`-terminated
/// statement, the block is not reported again, whatever the new text is.
pub proof fn lemma_fixed_block_not_reported(block: Block, fixed: Block, new_text: Seq<char>)
    requires
        block.expr is Some,
        fixed.stmts@ == block.stmts@.push(Stmt::Semi(block.expr->0)),
        fixed.expr is None,
    ensures
        check_block_spec(fixed, new_text) is None,
{
}

/// The findings over a program depend on the blocks and the text alone: two
/// runs over the same program give the same findings in the same order.
pub proof fn lemma_check_blocks_deterministic(
    blocks1: Seq<Block>,
    text1: Seq<char>,
    blocks2: Seq<Block>,
    text2: Seq<char>,
)
    requires
        blocks1 == blocks2,
        text1 == text2,
    ensures
        check_blocks_spec(blocks1, text1) == check_blocks_spec(blocks2, text2),
{
}

} // verus!
