//! The syntax tree that a function body is lifted into.

use vstd::prelude::*;
use crate::types::{RefField, RefFloat, RefFun, RefInt, RefString, RefType, Reg};

verus! {

/// A constant value.
#[derive(Clone, Copy, Debug, PartialEq, Eq, Structural)]
pub enum Constant {
    InlineInt(i32),
    Int(RefInt),
    Float(RefFloat),
    String(RefString),
    Bool(bool),
    Null,
    This,
}

/// A pure unary or binary operation.
#[derive(Debug)]
pub enum Operation {
    Add(Box<Expr>, Box<Expr>),
    Sub(Box<Expr>, Box<Expr>),
    Mul(Box<Expr>, Box<Expr>),
    Div(Box<Expr>, Box<Expr>),
    Mod(Box<Expr>, Box<Expr>),
    Shl(Box<Expr>, Box<Expr>),
    Shr(Box<Expr>, Box<Expr>),
    And(Box<Expr>, Box<Expr>),
    Or(Box<Expr>, Box<Expr>),
    Xor(Box<Expr>, Box<Expr>),
    Neg(Box<Expr>),
    Not(Box<Expr>),
    Incr(Box<Expr>),
    Decr(Box<Expr>),
    Eq(Box<Expr>, Box<Expr>),
    NotEq(Box<Expr>, Box<Expr>),
    Gt(Box<Expr>, Box<Expr>),
    Gte(Box<Expr>, Box<Expr>),
    Lt(Box<Expr>, Box<Expr>),
    Lte(Box<Expr>, Box<Expr>),
}

/// An expression.
#[derive(Debug)]
pub enum Expr {
    /// A structural value: the values of some fields of a `Virtual` type, by field position.
    Anonymous(RefType, Vec<(RefField, Expr)>),
    Array(Box<Expr>, Box<Expr>),
    Call { fun: Box<Expr>, args: Vec<Expr> },
    Constant(Constant),
    Constructor { ty: RefType, args: Vec<Expr> },
    Closure(RefFun, Vec<Statement>),
    /// An enum value: its type, the constructor's position and the arguments.
    EnumConstr(RefType, usize, Vec<Expr>),
    Field(Box<Expr>, String),
    FunRef(RefFun),
    IfElse { cond: Box<Expr>, if_: Vec<Statement>, else_: Vec<Statement> },
    Op(Operation),
    /// A construct that could not be recovered, with a description.
    Unknown(String),
    /// A register, with the pool index of its debug name when it has one.
    Variable(Reg, Option<RefString>),
}

/// A statement.
#[derive(Debug)]
pub enum Statement {
    Assign { declaration: bool, variable: Expr, assign: Expr },
    ExprStatement(Expr),
    Return(Option<Expr>),
    IfElse { cond: Expr, if_: Vec<Statement>, else_: Vec<Statement> },
    Switch { arg: Expr, default: Vec<Statement>, cases: Vec<(Expr, Vec<Statement>)> },
    While { cond: Expr, stmts: Vec<Statement> },
    Break,
    Continue,
    Throw(Expr),
    Try { stmts: Vec<Statement> },
    Catch { stmts: Vec<Statement> },
    Comment(String),
}

/// A field of a class.
#[derive(Clone, Debug)]
pub struct ClassField {
    pub name: String,
    pub static_: bool,
    pub ty: RefType,
}

/// A reconstructed method.
#[derive(Debug)]
pub struct Method {
    pub fun: RefFun,
    pub static_: bool,
    pub dynamic: bool,
    pub statements: Vec<Statement>,
}

/// A reconstructed class.
#[derive(Debug)]
pub struct Class {
    pub name: String,
    pub parent: Option<String>,
    pub fields: Vec<ClassField>,
    pub methods: Vec<Method>,
}

} // verus!
