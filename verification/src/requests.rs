//! The files that a program asks for: every import and include that stands in
//! its syntax tree, in the order in which they are written.

use vstd::prelude::*;

use crate::ast::{Expression, FormatArgs, FuncOpDef, Statement, Token, Value};

verus! {

/// One import or include: the path as it is written and, for an include, the
/// name of the decoder.
#[derive(Debug, PartialEq)]
pub struct FileRequest {
    pub path: String,
    pub decoder: Option<String>,
}

/// The requests of an expression, after `acc`.
pub open spec fn expr_requests(e: Expression, acc: Seq<FileRequest>) -> Seq<FileRequest>
    decreases e, 0nat,
{
    match e {
        Expression::Simple(v) => value_requests(v, acc),
        Expression::Not(d) => expr_requests(*d.expr, acc),
        Expression::Binary(d) => expr_requests(*d.right, expr_requests(*d.left, acc)),
        Expression::Copy(d) => fields_requests(d.fields@, 0, value_requests(d.selector, acc)),
        Expression::Range(d) => {
            let start = expr_requests(*d.start, acc);
            let step = match d.step {
                Some(s) => expr_requests(*s, start),
                None => start,
            };
            expr_requests(*d.end, step)
        },
        Expression::Grouped(inner, _) => expr_requests(*inner, acc),
        Expression::Format(d) => exprs_requests(
            d.embedded@,
            0,
            match d.args {
                FormatArgs::List(args) => exprs_requests(args@, 0, acc),
                FormatArgs::Single(arg) => expr_requests(*arg, acc),
            },
        ),
        Expression::Include(d) => acc.push(
            FileRequest { path: d.path.fragment, decoder: Some(d.typ.fragment) },
        ),
        Expression::Import(d) => acc.push(FileRequest { path: d.path.fragment, decoder: None }),
        Expression::Call(d) => exprs_requests(d.arglist@, 0, value_requests(d.funcref, acc)),
        Expression::Func(d) => expr_requests(*d.fields, acc),
        Expression::Select(d) => {
            let val = expr_requests(*d.val, acc);
            let default = match d.default {
                Some(x) => expr_requests(*x, val),
                None => val,
            };
            fields_requests(d.tuple@, 0, default)
        },
        Expression::FuncOp(d) => match d {
            FuncOpDef::Reduce(r) => expr_requests(
                *r.target,
                expr_requests(*r.acc, expr_requests(*r.func, acc)),
            ),
            FuncOpDef::MapEach(m) => expr_requests(*m.target, expr_requests(*m.func, acc)),
            FuncOpDef::Filter(m) => expr_requests(*m.target, expr_requests(*m.func, acc)),
        },
        Expression::Module(d) => {
            let args = fields_requests((*d.arg_set)@, 0, acc);
            let out = match d.out_expr {
                Some(x) => expr_requests(*x, args),
                None => args,
            };
            stmts_requests((*d.statements)@, 0, out)
        },
        Expression::Fail(d) => expr_requests(*d.message, acc),
        Expression::Debug(d) => expr_requests(*d.expr, acc),
    }
}

/// The requests of a simple value, after `acc`.
pub open spec fn value_requests(v: Value, acc: Seq<FileRequest>) -> Seq<FileRequest>
    decreases v, 0nat,
{
    match v {
        Value::Tuple(t) => fields_requests(t.val@, 0, acc),
        Value::List(d) => exprs_requests(d.elems@, 0, acc),
        _ => acc,
    }
}

/// The requests of the expressions from index `i` on, after `acc`.
pub open spec fn exprs_requests(es: Seq<Expression>, i: int, acc: Seq<FileRequest>) -> Seq<
    FileRequest,
>
    decreases es, es.len() - i,
{
    if 0 <= i < es.len() {
        exprs_requests(es, i + 1, expr_requests(es[i], acc))
    } else {
        acc
    }
}

/// The requests of the named expressions from index `i` on, after `acc`.
pub open spec fn fields_requests(fs: Seq<(Token, Expression)>, i: int, acc: Seq<FileRequest>) -> Seq<
    FileRequest,
>
    decreases fs, fs.len() - i,
{
    if 0 <= i < fs.len() {
        fields_requests(fs, i + 1, expr_requests(fs[i].1, acc))
    } else {
        acc
    }
}

/// The requests of a statement, after `acc`.
pub open spec fn stmt_requests(s: Statement, acc: Seq<FileRequest>) -> Seq<FileRequest>
    decreases s, 0nat,
{
    match s {
        Statement::Expression(e) => expr_requests(e, acc),
        Statement::Let(d) => expr_requests(d.value, acc),
        Statement::Assert(e) => expr_requests(e, acc),
        Statement::Output(_, _, e) => expr_requests(e, acc),
    }
}

/// The requests of the statements from index `i` on, after `acc`.
pub open spec fn stmts_requests(ss: Seq<Statement>, i: int, acc: Seq<FileRequest>) -> Seq<
    FileRequest,
>
    decreases ss, ss.len() - i,
{
    if 0 <= i < ss.len() {
        stmts_requests(ss, i + 1, stmt_requests(ss[i], acc))
    } else {
        acc
    }
}

/// Adds the requests of an expression.
pub fn collect_expr(e: &Expression, acc: &mut Vec<FileRequest>)
    ensures
        final(acc)@ == expr_requests(*e, old(acc)@),
    decreases *e, 0nat,
{
    match e {
        Expression::Simple(v) => collect_value(v, acc),
        Expression::Not(d) => collect_expr(&d.expr, acc),
        Expression::Binary(d) => {
            collect_expr(&d.left, acc);
            collect_expr(&d.right, acc);
        },
        Expression::Copy(d) => {
            collect_value(&d.selector, acc);
            collect_fields(&d.fields, 0, acc);
        },
        Expression::Range(d) => {
            collect_expr(&d.start, acc);
            match &d.step {
                Some(s) => collect_expr(s, acc),
                None => {},
            }
            collect_expr(&d.end, acc);
        },
        Expression::Grouped(inner, _) => collect_expr(inner, acc),
        Expression::Format(d) => {
            match &d.args {
                FormatArgs::List(args) => collect_exprs(args, 0, acc),
                FormatArgs::Single(arg) => collect_expr(arg, acc),
            }
            collect_exprs(&d.embedded, 0, acc);
        },
        Expression::Include(d) => {
            acc.push(
                FileRequest { path: d.path.fragment.clone(), decoder: Some(d.typ.fragment.clone()) },
            );
        },
        Expression::Import(d) => {
            acc.push(FileRequest { path: d.path.fragment.clone(), decoder: None });
        },
        Expression::Call(d) => {
            collect_value(&d.funcref, acc);
            collect_exprs(&d.arglist, 0, acc);
        },
        Expression::Func(d) => collect_expr(&d.fields, acc),
        Expression::Select(d) => {
            collect_expr(&d.val, acc);
            match &d.default {
                Some(x) => collect_expr(x, acc),
                None => {},
            }
            collect_fields(&d.tuple, 0, acc);
        },
        Expression::FuncOp(d) => match d {
            FuncOpDef::Reduce(r) => {
                collect_expr(&r.func, acc);
                collect_expr(&r.acc, acc);
                collect_expr(&r.target, acc);
            },
            FuncOpDef::MapEach(m) => {
                collect_expr(&m.func, acc);
                collect_expr(&m.target, acc);
            },
            FuncOpDef::Filter(m) => {
                collect_expr(&m.func, acc);
                collect_expr(&m.target, acc);
            },
        },
        Expression::Module(d) => {
            collect_fields(&d.arg_set, 0, acc);
            match &d.out_expr {
                Some(x) => collect_expr(x, acc),
                None => {},
            }
            collect_stmts(&d.statements, 0, acc);
        },
        Expression::Fail(d) => collect_expr(&d.message, acc),
        Expression::Debug(d) => collect_expr(&d.expr, acc),
    }
}

/// Adds the requests of a simple value.
pub fn collect_value(v: &Value, acc: &mut Vec<FileRequest>)
    ensures
        final(acc)@ == value_requests(*v, old(acc)@),
    decreases *v, 0nat,
{
    match v {
        Value::Tuple(t) => collect_fields(&t.val, 0, acc),
        Value::List(d) => collect_exprs(&d.elems, 0, acc),
        _ => {},
    }
}

/// Adds the requests of the expressions from index `i` on.
pub fn collect_exprs(es: &Vec<Expression>, i: usize, acc: &mut Vec<FileRequest>)
    ensures
        final(acc)@ == exprs_requests(es@, i as int, old(acc)@),
    decreases *es, es.len() - i,
{
    if i < es.len() {
        collect_expr(&es[i], acc);
        collect_exprs(es, i + 1, acc);
    }
}

/// Adds the requests of the named expressions from index `i` on.
pub fn collect_fields(fs: &Vec<(Token, Expression)>, i: usize, acc: &mut Vec<FileRequest>)
    ensures
        final(acc)@ == fields_requests(fs@, i as int, old(acc)@),
    decreases *fs, fs.len() - i,
{
    if i < fs.len() {
        collect_expr(&fs[i].1, acc);
        collect_fields(fs, i + 1, acc);
    }
}

/// Adds the requests of the statements from index `i` on.
pub fn collect_stmts(ss: &Vec<Statement>, i: usize, acc: &mut Vec<FileRequest>)
    ensures
        final(acc)@ == stmts_requests(ss@, i as int, old(acc)@),
    decreases *ss, ss.len() - i,
{
    if i < ss.len() {
        collect_stmt(&ss[i], acc);
        collect_stmts(ss, i + 1, acc);
    }
}

/// Adds the requests of a statement.
pub fn collect_stmt(s: &Statement, acc: &mut Vec<FileRequest>)
    ensures
        final(acc)@ == stmt_requests(*s, old(acc)@),
    decreases *s, 0nat,
{
    match s {
        Statement::Expression(e) => collect_expr(e, acc),
        Statement::Let(d) => collect_expr(&d.value, acc),
        Statement::Assert(e) => collect_expr(e, acc),
        Statement::Output(_, _, e) => collect_expr(e, acc),
    }
}

/// The imports and includes of a program, in the order in which they are
/// written.
pub fn requests(program: &Vec<Statement>) -> (r: Vec<FileRequest>)
    ensures
        r@ == stmts_requests(program@, 0, Seq::empty()),
{
    let mut acc: Vec<FileRequest> = Vec::new();
    collect_stmts(program, 0, &mut acc);
    acc
}

} // verus!
