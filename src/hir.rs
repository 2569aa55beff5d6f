use vstd::prelude::*;

verus! {

/// A half-open range `[lo, hi)` of character positions in the source text.
#[derive(Clone, Copy, Debug, PartialEq, Eq, Structural)]
pub struct SrcRange {
    pub lo: usize,
    pub hi: usize,
}

/// The location of a node. `call_site` is `Some` when the node was produced by
/// a macro expansion; it then holds the range of the outermost macro call in
/// the text the user wrote.
#[derive(Clone, Copy, Debug, PartialEq, Eq, Structural)]
pub struct Span {
    pub range: SrcRange,
    pub call_site: Option<SrcRange>,
}

impl Span {
    /// The span was produced by a macro expansion.
    pub open spec fn from_expansion_spec(&self) -> bool {
        self.call_site.is_some()
    }

    /// The range of the text the user wrote: the macro call site for expanded
    /// spans, the span itself otherwise.
    pub open spec fn source_callsite_spec(&self) -> SrcRange {
        match self.call_site {
            Some(c) => c,
            None => self.range,
        }
    }

    pub fn from_expansion(&self) -> (r: bool)
        ensures
            r == self.from_expansion_spec(),
    {
        self.call_site.is_some()
    }

    pub fn source_callsite(&self) -> (r: SrcRange)
        ensures
            r == self.source_callsite_spec(),
    {
        match self.call_site {
            Some(c) => c,
            None => self.range,
        }
    }

    /// The smallest range enclosing both spans.
    pub open spec fn to_spec(&self, end: Span) -> SrcRange {
        SrcRange {
            lo: if self.range.lo <= end.range.lo { self.range.lo } else { end.range.lo },
            hi: if self.range.hi >= end.range.hi { self.range.hi } else { end.range.hi },
        }
    }

    pub fn to(&self, end: &Span) -> (r: SrcRange)
        ensures
            r == self.to_spec(*end),
    {
        SrcRange {
            lo: if self.range.lo <= end.range.lo { self.range.lo } else { end.range.lo },
            hi: if self.range.hi >= end.range.hi { self.range.hi } else { end.range.hi },
        }
    }
}

/// The type that type inference assigned to an expression.
#[derive(Clone, Copy, Debug, PartialEq, Eq, Structural)]
pub enum Ty {
    /// The unit type `()`.
    Unit,
    /// The never type, of expressions that do not return.
    Never,
    /// Any other type, zero-sized ones included.
    Other,
}

impl Ty {
    pub open spec fn is_unit_spec(&self) -> bool {
        *self is Unit
    }

    pub fn is_unit(&self) -> (r: bool)
        ensures
            r == self.is_unit_spec(),
    {
        match self {
            Ty::Unit => true,
            _ => false,
        }
    }
}

/// The kinds of expression the rule tells apart.
#[derive(Clone, Copy, Debug, PartialEq, Eq, Structural)]
pub enum ExprKind {
    Closure,
    Block,
    /// The wrapper the compiler puts around desugared `for` loops.
    DropTemps,
    /// Calls, literals, paths and everything else.
    Other,
}

#[derive(Clone, Copy, Debug, PartialEq, Eq, Structural)]
pub struct Expr {
    pub kind: ExprKind,
    pub ty: Ty,
    pub span: Span,
}

#[derive(Clone, Copy, Debug, PartialEq, Eq, Structural)]
pub enum Stmt {
    /// A `let` binding.
    Local(Span),
    /// A nested item.
    Item(Span),
    /// An expression without a trailing `;`, such as a block-like expression.
    Expr(Expr),
    /// An expression terminated by `;`.
    Semi(Expr),
}

#[derive(Clone, Copy, Debug, PartialEq, Eq, Structural)]
pub enum BlockCheckMode {
    DefaultBlock,
    UnsafeBlock,
}

/// A block after type checking: its statements, its optional trailing
/// expression, its mode and span, and the expression it is directly nested
/// in, if any.
#[derive(Clone, Debug)]
pub struct Block {
    pub stmts: Vec<Stmt>,
    pub expr: Option<Expr>,
    pub rules: BlockCheckMode,
    pub span: Span,
    pub parent: Option<Expr>,
}

} // verus!
