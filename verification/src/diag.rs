//! Diagnostic-side values exchanged with the host: severity levels, the
//! confidence attached to a suggested fix, and the node a diagnostic is
//! emitted on.
use vstd::prelude::*;

use crate::ids::{ExprId, FieldId, ItemId, StmtId, VariantId};

verus! {

/// The lint level attached to a diagnostic. Severities form a fixed total
/// order: `Allow < Warn < Deny < Forbid`, exposed through [`Level::rank`].
#[derive(Debug, Clone, Copy, PartialEq, Eq, Structural)]
pub enum Level {
    Allow,
    Warn,
    Deny,
    Forbid,
}

impl Level {
    /// Position of this level in the severity order.
    pub open spec fn rank(self) -> int {
        match self {
            Level::Allow => 0,
            Level::Warn => 1,
            Level::Deny => 2,
            Level::Forbid => 3,
        }
    }
}

/// Confidence that a suggested fix can be applied as given.
#[derive(Debug, Clone, Copy, PartialEq, Eq, Structural)]
pub enum Applicability {
    MachineApplicable,
    MaybeIncorrect,
    HasPlaceholders,
    Unspecified,
}

/// The node a diagnostic attaches to. Each variant carries the stable
/// identifier of the node.
#[derive(Debug, Clone, Copy, PartialEq, Eq, Structural)]
pub enum EmissionNode {
    Expr(ExprId),
    Item(ItemId),
    Stmt(StmtId),
    Field(FieldId),
    Variant(VariantId),
}

} // verus!
