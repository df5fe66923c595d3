//! The Abstract Syntax Tree.
//!
//! These are the value types the parser produces; the parser itself is
//! a later stage. Nodes refer to one another through typed intern ids:
//! indices into whatever arena the caller interns nodes in.

use crate::span::{Span, Spanned};
use crate::strings::StringId;
use vstd::prelude::*;

verus! {

/// An identifier to intern an `Item`.
#[derive(Debug, Clone, Copy, Hash, PartialEq, Eq, Structural)]
pub struct ItemId(pub u32);

/// An identifier to intern a `Stmt`.
#[derive(Debug, Clone, Copy, Hash, PartialEq, Eq, Structural)]
pub struct StmtId(pub u32);

/// An identifier to intern an `Expr`.
#[derive(Debug, Clone, Copy, Hash, PartialEq, Eq, Structural)]
pub struct ExprId(pub u32);

/// An identifier to intern a `Type`.
#[derive(Debug, Clone, Copy, Hash, PartialEq, Eq, Structural)]
pub struct TypeId(pub u32);

/// Any type that the user can choose as a function
/// argument or type field.
#[derive(Debug, Clone, Hash, PartialEq, Eq, Structural)]
pub enum Type {
    Int { width: u16, signed: bool },
    Float { width: u16 },
    Bool,
    String,
    Unit,
    Char,
    Pointer(TypeId),
}

/// A name in the source, tied to where it was written.
#[derive(Debug, Clone, Hash, PartialEq, Eq)]
pub struct Identifier {
    pub span: Span,
    pub id: StringId,
}

/// A braced sequence of statements.
#[derive(Debug, Clone, Hash, PartialEq, Eq)]
pub struct Block {
    pub span: Span,
    pub stmts: Vec<StmtId>,
}

/// A top-level item.
#[derive(Debug, Clone, Hash, PartialEq, Eq)]
pub struct Item {
    pub span: Span,
    pub kind: ItemKind,
}

/// What a top-level item is.
#[derive(Debug, Clone, Hash, PartialEq, Eq)]
pub enum ItemKind {
    TypeDef(TypeDef),
    Def(Def),
}

/// A type definition with named fields.
#[derive(Debug, Clone, Hash, PartialEq, Eq)]
pub struct TypeDef {
    pub name: Identifier,
    pub fields: Vec<(Identifier, TypeId)>,
}

/// A function definition.
#[derive(Debug, Clone, Hash, PartialEq, Eq)]
pub struct Def {
    pub name: Identifier,
    pub args: Vec<(Identifier, TypeId)>,
    pub return_ty: TypeId,
    pub stmts: Vec<StmtId>,
}

/// A statement.
#[derive(Debug, Clone, Hash, PartialEq, Eq)]
pub struct Stmt {
    pub span: Span,
    pub kind: StmtKind,
}

/// What a statement is.
#[derive(Debug, Clone, Hash, PartialEq, Eq)]
pub enum StmtKind {
    Var(Var),
    Expr(ExprId),
}

/// A let / var stmt.
#[derive(Debug, Clone, Hash, PartialEq, Eq)]
pub struct Var {
    pub name: Identifier,
    pub ty: Option<Type>,
    pub val: ExprId,
}

/// An expression.
#[derive(Debug, Clone, Hash, PartialEq, Eq)]
pub struct Expr {
    pub span: Span,
    pub kind: ExprKind,
}

/// What an expression is.
#[derive(Debug, Clone, Hash, PartialEq, Eq)]
pub enum ExprKind {
    Literal(Literal),
    Binary(Binary),
    Comparison(Comparison),
    Unary(Unary),
    Tuple(Tuple),
    NamedTuple(NamedTuple),
    If(If),
    Match(Match),
    While(While),
}

/// A while loop, looping forever when it has no condition.
#[derive(Debug, Clone, Hash, PartialEq, Eq)]
pub struct While {
    pub cond: Option<ExprId>,
    pub block: Block,
}

/// A match expression.
#[derive(Debug, Clone, Hash, PartialEq, Eq)]
pub struct Match {
    pub val: ExprId,
    pub arms: Vec<MatchArm>,
}

/// One arm of a match expression.
#[derive(Debug, Clone, Hash, PartialEq, Eq)]
pub struct MatchArm {
    pub pattern: MatchPattern,
    pub body: Block,
}

/// What a match arm matches on.
#[derive(Debug, Clone, Hash, PartialEq, Eq)]
pub enum MatchPattern {
    Literal(Literal),
    Wildcard,
}

/// An if expression with any number of else-if arms.
#[derive(Debug, Clone, Hash, PartialEq, Eq)]
pub struct If {
    pub cond: ExprId,
    pub then: Block,
    pub arms: Vec<IfArm>,
    pub else_: Block,
}

/// One else-if arm.
#[derive(Debug, Clone, Hash, PartialEq, Eq)]
pub struct IfArm {
    pub cond: ExprId,
    pub action: Block,
}

/// A tuple with named fields.
#[derive(Debug, Clone, Hash, PartialEq, Eq)]
pub struct NamedTuple {
    pub values: Vec<(Identifier, ExprId)>,
}

/// A positional tuple.
#[derive(Debug, Clone, Hash, PartialEq, Eq)]
pub struct Tuple {
    pub values: Vec<ExprId>,
}

/// A binary operation.
#[derive(Debug, Clone, Hash, PartialEq, Eq)]
pub struct Binary {
    pub left: ExprId,
    pub op: Spanned<BinOp>,
    pub right: ExprId,
}

/// A comparison operation.
#[derive(Debug, Clone, Hash, PartialEq, Eq)]
pub struct Comparison {
    pub left: ExprId,
    pub op: Spanned<CmpOp>,
    pub right: ExprId,
}

/// A unary operation.
#[derive(Debug, Clone, Hash, PartialEq, Eq)]
pub struct Unary {
    pub op: Spanned<UnOp>,
    pub val: ExprId,
}

/// A binary operator.
#[derive(Debug, Clone, Hash, PartialEq, Eq, Structural)]
pub enum BinOp {
    LogicalAnd,
    LogicalOr,
    BitiwseAnd,
    BitwiseOr,
    BitwiseXor,
    LeftShift,
    RightShift,
    Add,
    Sub,
    Mul,
    Div,
    Mod,
    Pow,
}

/// A comparison operator.
#[derive(Debug, Clone, Hash, PartialEq, Eq, Structural)]
pub enum CmpOp {
    Equal,
    NotEqual,
    Less,
    LessEqual,
    Greater,
    GreaterEqual,
}

/// A unary operator.
#[derive(Debug, Clone, Hash, PartialEq, Eq, Structural)]
pub enum UnOp {
    Ref,
    Deref,
    Not,
    Plus,
    Minus,
}

/// A literal value.
#[derive(Debug, Clone, Hash, PartialEq, Eq)]
pub enum Literal {
    Int(Int),
    Float(Float),
    Bool(bool),
    String(String),
    Char(char),
    Unit,
}

/// An integer literal.
#[derive(Debug, Clone, Hash, PartialEq, Eq, Structural)]
pub struct Int {
    pub signed: bool,
    pub val: u128,
}

/// Whether a bit pattern encodes an IEEE 754 binary64 NaN: all exponent
/// bits set with a nonzero mantissa.
pub open spec fn is_nan_bits(bits: u64) -> bool {
    (bits >> 52) & 0x7FF == 0x7FF && bits & 0xF_FFFF_FFFF_FFFF != 0
}

/// A float literal, held as the bit pattern of its IEEE 754 binary64
/// value. The value is never NaN, so bit equality is value equality and
/// the literal can serve as a hash key.
#[derive(Debug, Clone, Copy, Hash, PartialEq, Eq, Structural)]
pub struct Float {
    bits: u64,
}

impl Float {
    /// The held bit pattern.
    pub closed spec fn bits_spec(self) -> u64 {
        self.bits
    }

    /// The bit pattern never encodes a NaN.
    #[verifier::type_invariant]
    pub closed spec fn wf(self) -> bool {
        !is_nan_bits(self.bits)
    }

    /// Wraps the bit pattern of a float value.
    pub fn new(bits: u64) -> (r: Self)
        requires
            !is_nan_bits(bits),
        ensures
            r.bits_spec() == bits,
    {
        Self { bits }
    }

    /// The bit pattern of the held value.
    pub fn bits(self) -> (r: u64)
        ensures
            r == self.bits_spec(),
    {
        self.bits
    }
}

} // verus!
