//! The syntax tree that the evaluator consumes.

use vstd::prelude::*;
use std::rc::Rc;
use crate::ir::Val;
use crate::scope::Scope;

verus! {

/// Where a node of the syntax tree was read.
#[derive(Debug, PartialEq)]
pub struct Position {
    pub file: Option<String>,
    pub line: usize,
    pub column: usize,
    pub offset: usize,
}

impl Position {
    /// A position without a file.
    pub fn new(line: usize, column: usize, offset: usize) -> (r: Position)
        ensures
            r == (Position { file: None, line, column, offset }),
    {
        Position { file: None, line, column, offset }
    }

    /// The same position, in the named file.
    pub fn with_file(self, file: String) -> (r: Position)
        ensures
            r == (Position { file: Some(file), ..self }),
    {
        Position { file: Some(file), line: self.line, column: self.column, offset: self.offset }
    }
}

impl Clone for Position {
    fn clone(&self) -> (r: Position)
        ensures
            r == *self,
    {
        let file = match &self.file {
            Some(f) => Some(f.clone()),
            None => None,
        };
        Position { file, line: self.line, column: self.column, offset: self.offset }
    }
}

/// A word of the source with its position.
#[derive(Debug, PartialEq)]
pub struct Token {
    pub fragment: String,
    pub pos: Position,
}

impl Token {
    /// A token with the given text.
    pub fn new(fragment: String, pos: Position) -> (r: Token)
        ensures
            r == (Token { fragment, pos }),
    {
        Token { fragment, pos }
    }
}

/// A literal with its position.
#[derive(Debug, PartialEq)]
pub struct PositionedItem<T> {
    pub pos: Position,
    pub val: T,
}

impl<T> PositionedItem<T> {
    /// A literal at a position.
    pub fn new(val: T, pos: Position) -> (r: PositionedItem<T>)
        ensures
            r == (PositionedItem { pos, val }),
    {
        PositionedItem { pos, val }
    }
}

/// A list literal.
#[derive(Debug, PartialEq)]
pub struct ListDef {
    pub elems: Vec<Expression>,
    pub pos: Position,
}

/// The simple values: literals, symbols, tuple and list literals.
///
/// A float literal holds the bit pattern of an IEEE 754 double.
#[derive(Debug, PartialEq)]
pub enum Value {
    Empty(Position),
    Boolean(PositionedItem<bool>),
    Int(PositionedItem<i64>),
    Float(PositionedItem<u64>),
    Str(PositionedItem<String>),
    Symbol(PositionedItem<String>),
    Tuple(PositionedItem<Vec<(Token, Expression)>>),
    List(ListDef),
}

/// The binary operators.
#[derive(Clone, Copy, Debug, PartialEq, Eq, Structural)]
pub enum BinaryExprType {
    Add,
    Sub,
    Mul,
    Div,
    Mod,
    AND,
    OR,
    Equal,
    GT,
    LT,
    NotEqual,
    GTEqual,
    LTEqual,
    REMatch,
    NotREMatch,
    IN,
    IS,
    DOT,
}

/// A binary operation.
#[derive(Debug, PartialEq)]
pub struct BinaryOpDef {
    pub kind: BinaryExprType,
    pub left: Box<Expression>,
    pub right: Box<Expression>,
    pub pos: Position,
}

/// A copy of a tuple or an instantiation of a module, with overrides.
#[derive(Debug, PartialEq)]
pub struct CopyDef {
    pub selector: Value,
    pub fields: Vec<(Token, Expression)>,
    pub pos: Position,
}

/// A function call.
#[derive(Debug, PartialEq)]
pub struct CallDef {
    pub funcref: Value,
    pub arglist: Vec<Expression>,
    pub pos: Position,
}

/// A select expression: a discriminator, the cases and an optional default.
#[derive(Debug, PartialEq)]
pub struct SelectDef {
    pub val: Box<Expression>,
    pub default: Option<Box<Expression>>,
    pub tuple: Vec<(Token, Expression)>,
    pub pos: Position,
}

/// A function: its parameters, its body and, once evaluated, the scope it captured.
#[derive(Debug, PartialEq)]
pub struct FuncDef {
    pub scope: Option<Scope>,
    pub argdefs: Vec<PositionedItem<String>>,
    pub fields: Rc<Expression>,
    pub pos: Position,
}

/// A module: its parameters with their defaults, its statements and an optional
/// output expression. Once evaluated it also holds the default argument tuple
/// and the directory against which its relative imports resolve.
#[derive(Debug, PartialEq)]
pub struct ModuleDef {
    pub pos: Position,
    pub arg_set: Rc<Vec<(Token, Expression)>>,
    pub out_expr: Option<Rc<Expression>>,
    pub arg_tuple: Option<Rc<Val>>,
    pub statements: Rc<Vec<Statement>>,
    pub root: Option<String>,
}

/// A range: start, optional step, end.
#[derive(Debug, PartialEq)]
pub struct RangeDef {
    pub pos: Position,
    pub start: Box<Expression>,
    pub step: Option<Box<Expression>>,
    pub end: Box<Expression>,
}

/// An import of another program.
#[derive(Debug, PartialEq)]
pub struct ImportDef {
    pub pos: Position,
    pub path: Token,
}

/// An include of a file through a named decoder.
#[derive(Debug, PartialEq)]
pub struct IncludeDef {
    pub pos: Position,
    pub path: Token,
    pub typ: Token,
}

/// The arguments of a format expression.
#[derive(Debug, PartialEq)]
pub enum FormatArgs {
    List(Vec<Expression>),
    Single(Box<Expression>),
}

/// A format expression. `embedded` holds, in order, the parsed expressions of
/// the template's `@{..}` sections.
#[derive(Debug, PartialEq)]
pub struct FormatDef {
    pub template: String,
    pub args: FormatArgs,
    pub embedded: Vec<Expression>,
    pub pos: Position,
}

/// A `fail` expression.
#[derive(Debug, PartialEq)]
pub struct FailDef {
    pub pos: Position,
    pub message: Box<Expression>,
}

/// A negation.
#[derive(Debug, PartialEq)]
pub struct NotDef {
    pub pos: Position,
    pub expr: Box<Expression>,
}

/// A traced expression.
#[derive(Debug, PartialEq)]
pub struct DebugDef {
    pub pos: Position,
    pub expr: Box<Expression>,
}

/// A reduction over a container.
#[derive(Debug, PartialEq)]
pub struct ReduceOpDef {
    pub func: Box<Expression>,
    pub acc: Box<Expression>,
    pub target: Box<Expression>,
    pub pos: Position,
}

/// A map or a filter over a container.
#[derive(Debug, PartialEq)]
pub struct MapFilterOpDef {
    pub func: Box<Expression>,
    pub target: Box<Expression>,
    pub pos: Position,
}

/// The higher-order operations.
#[derive(Debug, PartialEq)]
pub enum FuncOpDef {
    Reduce(ReduceOpDef),
    MapEach(MapFilterOpDef),
    Filter(MapFilterOpDef),
}

/// An expression.
#[derive(Debug, PartialEq)]
pub enum Expression {
    Simple(Value),
    Not(NotDef),
    Binary(BinaryOpDef),
    Copy(CopyDef),
    Range(RangeDef),
    Grouped(Box<Expression>, Position),
    Format(FormatDef),
    Include(IncludeDef),
    Import(ImportDef),
    Call(CallDef),
    Func(FuncDef),
    Select(SelectDef),
    FuncOp(FuncOpDef),
    Module(ModuleDef),
    Fail(FailDef),
    Debug(DebugDef),
}

/// A `let` binding.
#[derive(Debug, PartialEq)]
pub struct LetDef {
    pub name: Token,
    pub value: Expression,
}

/// A statement.
#[derive(Debug, PartialEq)]
pub enum Statement {
    Expression(Expression),
    Let(LetDef),
    Assert(Expression),
    Output(Position, Token, Expression),
}

impl Value {
    /// Where the value was read.
    pub open spec fn pos_spec(self) -> Position {
        match self {
            Value::Empty(p) => p,
            Value::Boolean(i) => i.pos,
            Value::Int(i) => i.pos,
            Value::Float(i) => i.pos,
            Value::Str(i) => i.pos,
            Value::Symbol(i) => i.pos,
            Value::Tuple(i) => i.pos,
            Value::List(d) => d.pos,
        }
    }

    /// Where the value was read.
    pub fn pos(&self) -> (r: &Position)
        ensures
            *r == self.pos_spec(),
    {
        match self {
            Value::Empty(p) => p,
            Value::Boolean(i) => &i.pos,
            Value::Int(i) => &i.pos,
            Value::Float(i) => &i.pos,
            Value::Str(i) => &i.pos,
            Value::Symbol(i) => &i.pos,
            Value::Tuple(i) => &i.pos,
            Value::List(d) => &d.pos,
        }
    }
}

impl FuncOpDef {
    /// Where the operation was read.
    pub open spec fn pos_spec(self) -> Position {
        match self {
            FuncOpDef::Reduce(d) => d.pos,
            FuncOpDef::MapEach(d) => d.pos,
            FuncOpDef::Filter(d) => d.pos,
        }
    }

    /// Where the operation was read.
    pub fn pos(&self) -> (r: &Position)
        ensures
            *r == self.pos_spec(),
    {
        match self {
            FuncOpDef::Reduce(d) => &d.pos,
            FuncOpDef::MapEach(d) => &d.pos,
            FuncOpDef::Filter(d) => &d.pos,
        }
    }
}

impl Expression {
    /// Where the expression was read.
    pub open spec fn pos_spec(self) -> Position {
        match self {
            Expression::Simple(v) => v.pos_spec(),
            Expression::Not(d) => d.pos,
            Expression::Binary(d) => d.pos,
            Expression::Copy(d) => d.pos,
            Expression::Range(d) => d.pos,
            Expression::Grouped(_, p) => p,
            Expression::Format(d) => d.pos,
            Expression::Include(d) => d.pos,
            Expression::Import(d) => d.pos,
            Expression::Call(d) => d.pos,
            Expression::Func(d) => d.pos,
            Expression::Select(d) => d.pos,
            Expression::FuncOp(d) => d.pos_spec(),
            Expression::Module(d) => d.pos,
            Expression::Fail(d) => d.pos,
            Expression::Debug(d) => d.pos,
        }
    }

    /// Where the expression was read.
    pub fn pos(&self) -> (r: &Position)
        ensures
            *r == self.pos_spec(),
    {
        match self {
            Expression::Simple(v) => v.pos(),
            Expression::Not(d) => &d.pos,
            Expression::Binary(d) => &d.pos,
            Expression::Copy(d) => &d.pos,
            Expression::Range(d) => &d.pos,
            Expression::Grouped(_, p) => p,
            Expression::Format(d) => &d.pos,
            Expression::Include(d) => &d.pos,
            Expression::Import(d) => &d.pos,
            Expression::Call(d) => &d.pos,
            Expression::Func(d) => &d.pos,
            Expression::Select(d) => &d.pos,
            Expression::FuncOp(d) => d.pos(),
            Expression::Module(d) => &d.pos,
            Expression::Fail(d) => &d.pos,
            Expression::Debug(d) => &d.pos,
        }
    }
}

} // verus!
