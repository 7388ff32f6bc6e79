//! Stable, run-scoped identifiers handed to lint plugins.
//!
//! Every identifier is a small fixed-width `Copy` value that mirrors the byte
//! layout of the host compiler identifier it stands for. Two layout families
//! exist: definition-like identifiers carry a crate number and a definition
//! index, expression-like identifiers carry an owner index and an
//! item-local index. An identifier is meaningful only relative to the
//! analysis run that produced it.
use vstd::prelude::*;

verus! {

/// Identifier of a crate in the host's crate graph.
#[derive(Debug, Clone, Copy, PartialEq, Eq, Hash, Structural)]
pub struct CrateId {
    pub data: u32,
}

/// Identifier of an item, definition-like layout.
#[derive(Debug, Clone, Copy, PartialEq, Eq, Hash, Structural)]
pub struct ItemId {
    pub krate: u32,
    pub index: u32,
}

/// Identifier of a user-defined type, definition-like layout.
#[derive(Debug, Clone, Copy, PartialEq, Eq, Hash, Structural)]
pub struct TyDefId {
    pub krate: u32,
    pub index: u32,
}

/// Identifier of a generic parameter, definition-like layout.
#[derive(Debug, Clone, Copy, PartialEq, Eq, Hash, Structural)]
pub struct GenericId {
    pub krate: u32,
    pub index: u32,
}

/// Identifier of an enum variant, definition-like layout.
#[derive(Debug, Clone, Copy, PartialEq, Eq, Hash, Structural)]
pub struct VariantId {
    pub krate: u32,
    pub index: u32,
}

/// Identifier of an expression, expression-like layout.
#[derive(Debug, Clone, Copy, PartialEq, Eq, Hash, Structural)]
pub struct ExprId {
    pub owner: u32,
    pub index: u32,
}

/// Identifier of a variable binding, expression-like layout.
#[derive(Debug, Clone, Copy, PartialEq, Eq, Hash, Structural)]
pub struct VarId {
    pub owner: u32,
    pub index: u32,
}

/// Identifier of a field expression or pattern, expression-like layout.
#[derive(Debug, Clone, Copy, PartialEq, Eq, Hash, Structural)]
pub struct FieldId {
    pub owner: u32,
    pub index: u32,
}

/// Identifier of a `let` statement, expression-like layout.
#[derive(Debug, Clone, Copy, PartialEq, Eq, Hash, Structural)]
pub struct LetStmtId {
    pub owner: u32,
    pub index: u32,
}

/// Identifier of a function or constant body, expression-like layout.
#[derive(Debug, Clone, Copy, PartialEq, Eq, Hash, Structural)]
pub struct BodyId {
    pub owner: u32,
    pub index: u32,
}

/// Identifier of an interned string in the host's symbol table.
#[derive(Debug, Clone, Copy, PartialEq, Eq, Hash, Structural)]
pub struct SymbolId {
    pub data: u32,
}

/// Identifier of a span, mirroring the host's packed span representation
/// bit for bit.
#[derive(Debug, Clone, Copy, PartialEq, Eq, Hash, Structural)]
pub struct SpanId {
    pub raw: u64,
}

/// The identifier a statement carries: statements are either expressions,
/// items, or `let` statements, and borrow the identifier of that node.
#[derive(Debug, Clone, Copy, PartialEq, Eq, Hash, Structural)]
pub enum StmtIdInner {
    Expr(ExprId),
    Item(ItemId),
    LetStmt(LetStmtId),
}

/// Identifier of a statement.
#[derive(Debug, Clone, Copy, PartialEq, Eq, Hash, Structural)]
pub struct StmtId {
    pub data: StmtIdInner,
}

impl StmtId {
    /// The identifier of the node this statement wraps.
    pub fn data(&self) -> (r: StmtIdInner)
        ensures
            r == self.data,
    {
        self.data
    }
}

} // verus!
