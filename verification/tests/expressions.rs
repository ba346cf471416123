#![allow(dead_code)]
#![allow(unused_imports)]

use std::rc::Rc;
use ucg::assets::{MemoryCache, Session};
use ucg::ast::{BinaryExprType, BinaryOpDef, CallDef, CopyDef, DebugDef, Expression, FailDef,
    FormatArgs, FormatDef, FuncDef, FuncOpDef, ImportDef, IncludeDef, LetDef, ListDef,
    MapFilterOpDef, ModuleDef, NotDef, Position, PositionedItem, RangeDef, ReduceOpDef, SelectDef,
    Statement, Token, Value};
use ucg::build::{AssertCollector, FileBuilder, DEFAULT_DEPTH};
use ucg::error::{BuildError, ErrorType};
use ucg::ir::Val;
use ucg::loader::{Decoded, FileEntry, FileTree, Source, StdLib};
use ucg::scope::Scope;

fn pos() -> Position {
    Position::new(1, 1, 0)
}

fn at(line: usize, column: usize) -> Position {
    Position::new(line, column, 0)
}

fn int_lit(i: i64) -> Expression {
    Expression::Simple(Value::Int(PositionedItem::new(i, pos())))
}

fn float_lit(f: f64) -> Expression {
    Expression::Simple(Value::Float(PositionedItem::new(f.to_bits(), pos())))
}

fn bool_lit(b: bool) -> Expression {
    Expression::Simple(Value::Boolean(PositionedItem::new(b, pos())))
}

fn null_lit() -> Expression {
    Expression::Simple(Value::Empty(pos()))
}

fn str_lit(s: &str) -> Expression {
    Expression::Simple(Value::Str(PositionedItem::new(s.to_string(), pos())))
}

fn sym_value(name: &str) -> Value {
    Value::Symbol(PositionedItem::new(name.to_string(), pos()))
}

fn sym(name: &str) -> Expression {
    Expression::Simple(sym_value(name))
}

fn tok(name: &str) -> Token {
    Token::new(name.to_string(), pos())
}

fn bin(kind: BinaryExprType, left: Expression, right: Expression) -> Expression {
    Expression::Binary(BinaryOpDef { kind, left: Box::new(left), right: Box::new(right), pos: pos() })
}

fn dot(left: Expression, right: Expression) -> Expression {
    bin(BinaryExprType::DOT, left, right)
}

fn list_lit(elems: Vec<Expression>) -> Expression {
    Expression::Simple(Value::List(ListDef { elems, pos: pos() }))
}

fn fields(fs: Vec<(&str, Expression)>) -> Vec<(Token, Expression)> {
    fs.into_iter().map(|(n, e)| (tok(n), e)).collect()
}

fn tuple_lit(fs: Vec<(&str, Expression)>) -> Expression {
    Expression::Simple(Value::Tuple(PositionedItem::new(fields(fs), pos())))
}

fn func(args: Vec<&str>, body: Expression) -> Expression {
    Expression::Func(FuncDef {
        scope: None,
        argdefs: args.into_iter().map(|a| PositionedItem::new(a.to_string(), pos())).collect(),
        fields: Rc::new(body),
        pos: pos(),
    })
}

fn call(name: &str, args: Vec<Expression>) -> Expression {
    Expression::Call(CallDef { funcref: sym_value(name), arglist: args, pos: pos() })
}

fn copy(name: &str, fs: Vec<(&str, Expression)>) -> Expression {
    Expression::Copy(CopyDef { selector: sym_value(name), fields: fields(fs), pos: pos() })
}

fn map_op(f: Expression, target: Expression) -> Expression {
    Expression::FuncOp(FuncOpDef::MapEach(MapFilterOpDef {
        func: Box::new(f),
        target: Box::new(target),
        pos: pos(),
    }))
}

fn filter_op(f: Expression, target: Expression) -> Expression {
    Expression::FuncOp(FuncOpDef::Filter(MapFilterOpDef {
        func: Box::new(f),
        target: Box::new(target),
        pos: pos(),
    }))
}

fn reduce_op(f: Expression, acc: Expression, target: Expression) -> Expression {
    Expression::FuncOp(FuncOpDef::Reduce(ReduceOpDef {
        func: Box::new(f),
        acc: Box::new(acc),
        target: Box::new(target),
        pos: pos(),
    }))
}

fn range(start: Expression, step: Option<Expression>, end: Expression) -> Expression {
    Expression::Range(RangeDef {
        pos: pos(),
        start: Box::new(start),
        step: step.map(Box::new),
        end: Box::new(end),
    })
}

fn select(val: Expression, cases: Vec<(&str, Expression)>, default: Option<Expression>) -> Expression {
    Expression::Select(SelectDef {
        val: Box::new(val),
        default: default.map(Box::new),
        tuple: fields(cases),
        pos: pos(),
    })
}

fn fail_with(message: Expression) -> Expression {
    Expression::Fail(FailDef { pos: pos(), message: Box::new(message) })
}

fn not(e: Expression) -> Expression {
    Expression::Not(NotDef { pos: pos(), expr: Box::new(e) })
}

fn import_of(path: &str) -> Expression {
    Expression::Import(ImportDef { pos: pos(), path: tok(path) })
}

fn include_of(typ: &str, path: &str) -> Expression {
    Expression::Include(IncludeDef { pos: pos(), path: tok(path), typ: tok(typ) })
}

fn module(
    file: Option<&str>,
    args: Vec<(&str, Expression)>,
    statements: Vec<Statement>,
    out: Option<Expression>,
) -> Expression {
    let p = match file {
        Some(f) => pos().with_file(f.to_string()),
        None => pos(),
    };
    Expression::Module(ModuleDef {
        pos: p,
        arg_set: Rc::new(fields(args)),
        out_expr: out.map(Rc::new),
        arg_tuple: None,
        statements: Rc::new(statements),
        root: None,
    })
}

fn let_stmt(name: &str, value: Expression) -> Statement {
    Statement::Let(LetDef { name: tok(name), value })
}

fn expr_stmt(e: Expression) -> Statement {
    Statement::Expression(e)
}

fn output_stmt(typ: &str, e: Expression) -> Statement {
    Statement::Output(pos(), tok(typ), e)
}

fn assertion(ok: Expression, desc: Expression) -> Statement {
    Statement::Assert(tuple_lit(vec![("ok", ok), ("desc", desc)]))
}

fn tuple_val(fs: Vec<(&str, Val)>) -> Val {
    Val::Tuple(fs.into_iter().map(|(n, v)| (n.to_string(), Rc::new(v))).collect())
}

fn list_val(items: Vec<Val>) -> Val {
    Val::List(items.into_iter().map(Rc::new).collect())
}

fn text_val(s: &str) -> Val {
    Val::Str(s.to_string())
}

fn float_val(f: f64) -> Val {
    Val::Float(f.to_bits())
}

fn source_file(path: &str, text: &str, program: Vec<Statement>) -> FileEntry {
    FileEntry {
        path: path.to_string(),
        text: text.to_string(),
        source: Source::Parsed(Rc::new(program)),
        decoded: Vec::new(),
    }
}

fn link(path: &str) -> (String, String) {
    (path.to_string(), path.to_string())
}

fn builder_over(
    search: Vec<&str>,
    env: Vec<(&str, &str)>,
    std: StdLib,
    files: FileTree,
) -> FileBuilder {
    FileBuilder::new(
        "/work".to_string(),
        Rc::new(search.into_iter().map(|s| s.to_string()).collect()),
        env.into_iter().map(|(k, v)| (k.to_string(), v.to_string())).collect(),
        Rc::new(std),
        Rc::new(files),
    )
}

fn builder_with(files: FileTree) -> FileBuilder {
    builder_over(Vec::new(), Vec::new(), StdLib::new(), files)
}

fn builder() -> FileBuilder {
    builder_with(FileTree::new())
}

fn run(program: Vec<Statement>) -> Result<Rc<Val>, BuildError> {
    let mut b = builder();
    let mut cache = Session::new();
    b.eval_stmts_last(&program, &mut cache, DEFAULT_DEPTH)
}

fn eval(e: Expression) -> Result<Rc<Val>, BuildError> {
    run(vec![expr_stmt(e)])
}

fn value_of(e: Expression) -> Rc<Val> {
    match eval(e) {
        Ok(v) => v,
        Err(e) => panic!("evaluation failed: {}", e.render()),
    }
}

fn error_of(e: Expression) -> BuildError {
    match eval(e) {
        Ok(v) => panic!("evaluation gave {:?}", v),
        Err(e) => e,
    }
}

fn innermost(e: &BuildError) -> &BuildError {
    match &e.cause {
        Some(c) => innermost(c),
        None => e,
    }
}


fn session_run(b: &mut FileBuilder, session: &mut Session, program: Vec<Statement>) -> Result<Rc<Val>, BuildError> {
    b.eval_stmts_last(&program, session, DEFAULT_DEPTH)
}

#[test]
fn literals_evaluate_to_themselves() {
    assert_eq!(*value_of(int_lit(7)), Val::Int(7));
    assert_eq!(*value_of(bool_lit(true)), Val::Boolean(true));
    assert_eq!(*value_of(null_lit()), Val::Empty);
    assert_eq!(*value_of(str_lit("héllo")), text_val("héllo"));
    assert_eq!(
        *value_of(list_lit(vec![int_lit(1), str_lit("a"), null_lit()])),
        list_val(vec![Val::Int(1), text_val("a"), Val::Empty])
    );
    assert_eq!(
        *value_of(tuple_lit(vec![("b", int_lit(2)), ("a", int_lit(1))])),
        tuple_val(vec![("b", Val::Int(2)), ("a", Val::Int(1))])
    );
    assert_eq!(*value_of(Expression::Grouped(Box::new(int_lit(3)), pos())), Val::Int(3));
}

#[test]
fn a_symbol_without_a_binding_is_no_such_symbol() {
    let e = error_of(sym("nothing"));
    assert_eq!(e.err_type, ErrorType::NoSuchSymbol);
    assert_eq!(e.msg, "Unable to find binding nothing");
    assert_eq!(e.pos, Some(pos()));
}

#[test]
fn env_is_the_snapshot_of_the_environment() {
    let mut b = builder_over(vec![], vec![("HOME", "/home/me"), ("SHELL", "sh")], StdLib::new(), FileTree::new());
    let mut session = Session::new();
    let v = session_run(&mut b, &mut session, vec![expr_stmt(dot(sym("env"), sym("HOME")))]).unwrap();
    assert_eq!(*v, text_val("/home/me"));
    let e = session_run(&mut b, &mut session, vec![expr_stmt(dot(sym("env"), sym("MISSING")))]).unwrap_err();
    assert_eq!(e.err_type, ErrorType::NoSuchSymbol);
    b.set_strict(false);
    let v = session_run(&mut b, &mut session, vec![expr_stmt(dot(sym("env"), sym("MISSING")))]).unwrap();
    assert_eq!(*v, Val::Empty);
}

#[test]
fn dot_selects_fields_and_elements() {
    let t = || tuple_lit(vec![
        ("a", int_lit(1)),
        ("inner", tuple_lit(vec![("b", str_lit("x"))])),
        ("xs", list_lit(vec![int_lit(10), int_lit(20)])),
    ]);
    assert_eq!(*value_of(dot(t(), sym("a"))), Val::Int(1));
    assert_eq!(*value_of(dot(t(), str_lit("a"))), Val::Int(1));
    assert_eq!(*value_of(dot(dot(t(), sym("inner")), sym("b"))), text_val("x"));
    assert_eq!(*value_of(dot(dot(t(), sym("xs")), int_lit(1))), Val::Int(20));
    assert_eq!(
        *value_of(dot(dot(t(), sym("xs")), Expression::Grouped(Box::new(bin(BinaryExprType::Sub, int_lit(1), int_lit(1))), pos()))),
        Val::Int(10)
    );
    assert_eq!(
        *value_of(dot(t(), Expression::Grouped(Box::new(bin(BinaryExprType::Add, str_lit("inn"), str_lit("er"))), pos()))),
        tuple_val(vec![("b", text_val("x"))])
    );
}

#[test]
fn dot_on_what_is_not_there_is_no_such_symbol() {
    let e = error_of(dot(tuple_lit(vec![("a", int_lit(1))]), sym("b")));
    assert_eq!(e.err_type, ErrorType::NoSuchSymbol);
    assert_eq!(e.msg, "Unable to find binding b");
    let e = error_of(dot(list_lit(vec![int_lit(1)]), int_lit(1)));
    assert_eq!(e.err_type, ErrorType::NoSuchSymbol);
    assert_eq!(e.msg, "Unable to 1 match element in list.");
    let e = error_of(dot(list_lit(vec![int_lit(1)]), int_lit(-1)));
    assert_eq!(e.msg, "Unable to -1 match element in list.");
    let e = error_of(dot(tuple_lit(vec![]), int_lit(0)));
    assert_eq!(e.err_type, ErrorType::TypeFail);
    assert_eq!(e.msg, "Not a list in index lookup.");
    let e = error_of(dot(tuple_lit(vec![]), Expression::Grouped(Box::new(bool_lit(true)), pos())));
    assert_eq!(e.err_type, ErrorType::NoSuchSymbol);
    assert_eq!(e.msg, "Invalid selector lookup Boolean");
}

#[test]
fn self_is_the_tuple_that_is_copied() {
    let program = vec![
        let_stmt("t", tuple_lit(vec![("a", int_lit(1)), ("b", int_lit(0))])),
        expr_stmt(copy("t", vec![("b", bin(BinaryExprType::Add, dot(sym("self"), sym("a")), int_lit(41)))])),
    ];
    assert_eq!(*run(program).unwrap(), tuple_val(vec![("a", Val::Int(1)), ("b", Val::Int(42))]));
}

#[test]
fn copy_keeps_the_order_of_the_source_and_appends_in_override_order() {
    let program = vec![
        let_stmt("t", tuple_lit(vec![("z", int_lit(1)), ("m", int_lit(2)), ("a", int_lit(3))])),
        expr_stmt(copy(
            "t",
            vec![("q", int_lit(9)), ("a", int_lit(30)), ("b", int_lit(8)), ("q", int_lit(90)), ("z", int_lit(10))],
        )),
    ];
    assert_eq!(
        *run(program).unwrap(),
        tuple_val(vec![
            ("z", Val::Int(10)),
            ("m", Val::Int(2)),
            ("a", Val::Int(30)),
            ("q", Val::Int(90)),
            ("b", Val::Int(8)),
        ])
    );
}

#[test]
fn copy_lets_the_empty_value_in_and_out() {
    let program = vec![
        let_stmt("t", tuple_lit(vec![("a", int_lit(1)), ("b", null_lit())])),
        expr_stmt(copy("t", vec![("a", null_lit()), ("b", str_lit("now a string"))])),
    ];
    assert_eq!(
        *run(program).unwrap(),
        tuple_val(vec![("a", Val::Empty), ("b", text_val("now a string"))])
    );
}

#[test]
fn copy_of_a_tuple_with_a_field_twice_is_a_type_failure() {
    let program = vec![
        let_stmt("t", tuple_lit(vec![("a", int_lit(1)), ("b", int_lit(2)), ("a", int_lit(3))])),
        expr_stmt(copy("t", vec![])),
    ];
    let e = run(program).unwrap_err();
    assert_eq!(e.err_type, ErrorType::TypeFail);
    assert_eq!(e.msg, "Duplicate field: a in tuple");
    assert_eq!(e.pos, None);
}

#[test]
fn copy_of_what_is_no_tuple_or_module_is_a_type_failure() {
    let program = vec![let_stmt("n", int_lit(1)), expr_stmt(copy("n", vec![]))];
    let e = run(program).unwrap_err();
    assert_eq!(e.err_type, ErrorType::TypeFail);
    assert_eq!(e.msg, "Expected Tuple or Module but got (Integer)");
}

#[test]
fn ranges_include_both_ends() {
    let ints = |v: Vec<i64>| list_val(v.into_iter().map(Val::Int).collect());
    assert_eq!(*value_of(range(int_lit(1), None, int_lit(4))), ints(vec![1, 2, 3, 4]));
    assert_eq!(*value_of(range(int_lit(0), Some(int_lit(2)), int_lit(6))), ints(vec![0, 2, 4, 6]));
    assert_eq!(*value_of(range(int_lit(0), Some(int_lit(4)), int_lit(6))), ints(vec![0, 4]));
    assert_eq!(*value_of(range(int_lit(-2), None, int_lit(1))), ints(vec![-2, -1, 0, 1]));
    assert_eq!(*value_of(range(int_lit(3), None, int_lit(3))), ints(vec![3]));
    assert_eq!(*value_of(range(int_lit(4), None, int_lit(3))), ints(vec![]));
    assert_eq!(
        *value_of(range(int_lit(i64::MAX - 1), None, int_lit(i64::MAX))),
        ints(vec![i64::MAX - 1, i64::MAX])
    );
}

#[test]
fn a_negative_step_is_read_as_unsigned() {
    assert_eq!(
        *value_of(range(int_lit(1), Some(int_lit(-1)), int_lit(5))),
        list_val(vec![Val::Int(1)])
    );
    assert_eq!(*value_of(range(int_lit(5), Some(int_lit(-1)), int_lit(1))), list_val(vec![]));
}

#[test]
fn a_range_cannot_step_by_zero() {
    let e = error_of(range(int_lit(1), Some(int_lit(0)), int_lit(5)));
    assert_eq!(e.err_type, ErrorType::Unsupported);
    assert_eq!(e.msg, "A range cannot step by 0");
}

#[test]
fn the_bounds_of_a_range_are_integers() {
    let e = error_of(range(str_lit("a"), None, int_lit(5)));
    assert_eq!(e.err_type, ErrorType::TypeFail);
    assert_eq!(e.msg, "Expected an integer for range start but got (String)");
    let e = error_of(range(int_lit(1), Some(bool_lit(true)), int_lit(5)));
    assert_eq!(e.msg, "Expected an integer for range step but got (Boolean)");
    let e = error_of(range(int_lit(1), None, null_lit()));
    assert_eq!(e.msg, "Expected an integer for range end but got (EmptyValue)");
}

#[test]
fn select_picks_the_case_of_the_name() {
    let cases = || vec![("a", int_lit(1)), ("b", int_lit(2)), ("a", int_lit(3))];
    assert_eq!(*value_of(select(str_lit("a"), cases(), None)), Val::Int(1));
    assert_eq!(*value_of(select(str_lit("b"), cases(), Some(int_lit(0)))), Val::Int(2));
    assert_eq!(*value_of(select(str_lit("c"), cases(), Some(int_lit(0)))), Val::Int(0));
    let e = error_of(select(str_lit("c"), cases(), None));
    assert_eq!(e.err_type, ErrorType::TypeFail);
    assert_eq!(e.msg, "Unhandled select case \"c\" with no default");
}

#[test]
fn select_on_a_boolean_picks_true_or_false() {
    let cases = || vec![("true", str_lit("yes")), ("false", str_lit("no"))];
    assert_eq!(*value_of(select(bool_lit(true), cases(), None)), text_val("yes"));
    assert_eq!(*value_of(select(bool_lit(false), cases(), None)), text_val("no"));
    assert_eq!(
        *value_of(select(bool_lit(false), vec![("true", int_lit(1))], Some(int_lit(2)))),
        Val::Int(2)
    );
    let e = error_of(select(bool_lit(false), vec![("true", int_lit(1))], None));
    assert_eq!(e.msg, "Unhandled select case false with no default");
}

#[test]
fn select_evaluates_only_the_case_it_picks() {
    let cases = vec![("a", fail_with(str_lit("not picked"))), ("b", int_lit(2))];
    assert_eq!(*value_of(select(str_lit("b"), cases, Some(fail_with(str_lit("no default"))))), Val::Int(2));
}

#[test]
fn positional_format_replaces_each_placeholder() {
    let f = |tmpl: &str, args: Vec<Expression>| {
        Expression::Format(FormatDef {
            template: tmpl.to_string(),
            args: FormatArgs::List(args),
            embedded: vec![],
            pos: pos(),
        })
    };
    assert_eq!(
        *value_of(f("@ and @!", vec![int_lit(1), str_lit("two")])),
        text_val("1 and two!")
    );
    assert_eq!(*value_of(f("mail\\@host is @", vec![bool_lit(true)])), text_val("mail@host is true"));
    assert_eq!(*value_of(f("nothing", vec![])), text_val("nothing"));
    assert_eq!(*value_of(f("@", vec![null_lit()])), text_val("NULL"));
    let e = error_of(f("@ @", vec![int_lit(1)]));
    assert_eq!(e.err_type, ErrorType::FormatError);
    assert_eq!(e.msg, "Too few arguments to string formatter.");
    let e = error_of(f("@", vec![int_lit(1), int_lit(2)]));
    assert_eq!(e.err_type, ErrorType::FormatError);
    assert_eq!(e.msg, "Too many arguments to string formatter.");
}

#[test]
fn expression_format_evaluates_its_sections_with_item_bound() {
    let f = |tmpl: &str, embedded: Vec<Expression>, arg: Expression| {
        Expression::Format(FormatDef {
            template: tmpl.to_string(),
            args: FormatArgs::Single(Box::new(arg)),
            embedded,
            pos: pos(),
        })
    };
    let item = || tuple_lit(vec![("name", str_lit("ucg")), ("n", int_lit(2))]);
    assert_eq!(
        *value_of(f(
            "@{item.name}@ has @{item.n + 1}@ parts",
            vec![dot(sym("item"), sym("name")), bin(BinaryExprType::Add, dot(sym("item"), sym("n")), int_lit(1))],
            item()
        )),
        text_val("ucg has 3 parts")
    );
    assert_eq!(*value_of(f("plain \\@{text", vec![], item())), text_val("plain @{text"));
    let e = error_of(f("@{item.name", vec![dot(sym("item"), sym("name"))], item()));
    assert_eq!(e.err_type, ErrorType::FormatError);
    assert_eq!(e.msg, "Expected a closing }@ in format string");
    let e = error_of(f("@{a}@ @{b}@", vec![int_lit(1)], item()));
    assert_eq!(e.err_type, ErrorType::FormatError);
    assert_eq!(e.msg, "Too few expressions for format string");
}

#[test]
fn a_call_binds_arguments_to_parameters_in_order() {
    let program = vec![
        let_stmt("sub", func(vec!["a", "b"], bin(BinaryExprType::Sub, sym("a"), sym("b")))),
        expr_stmt(call("sub", vec![int_lit(10), int_lit(3)])),
    ];
    assert_eq!(*run(program).unwrap(), Val::Int(7));
}

#[test]
fn a_function_sees_the_scope_that_it_captured() {
    let program = vec![
        let_stmt("base", int_lit(100)),
        let_stmt("add", func(vec!["x"], bin(BinaryExprType::Add, sym("base"), sym("x")))),
        let_stmt("later", int_lit(1)),
        expr_stmt(call("add", vec![int_lit(5)])),
    ];
    assert_eq!(*run(program).unwrap(), Val::Int(105));
    let program = vec![
        let_stmt("f", func(vec![], sym("later"))),
        let_stmt("later", int_lit(1)),
        expr_stmt(call("f", vec![])),
    ];
    let e = run(program).unwrap_err();
    assert_eq!(e.err_type, ErrorType::NoSuchSymbol);
}

#[test]
fn an_argument_shadows_a_captured_binding() {
    let program = vec![
        let_stmt("x", int_lit(1)),
        let_stmt("f", func(vec!["x"], sym("x"))),
        expr_stmt(call("f", vec![int_lit(2)])),
    ];
    assert_eq!(*run(program).unwrap(), Val::Int(2));
}

#[test]
fn too_many_arguments_are_a_bad_arg_len() {
    let program = vec![
        let_stmt("f", func(vec!["a"], sym("a"))),
        expr_stmt(call("f", vec![int_lit(1), int_lit(2)])),
    ];
    let e = run(program).unwrap_err();
    assert_eq!(e.err_type, ErrorType::BadArgLen);
    assert_eq!(e.msg, "Func called with too many args");
}

#[test]
fn too_few_arguments_leave_parameters_unbound() {
    let program = vec![
        let_stmt("first", func(vec!["a", "b"], sym("a"))),
        let_stmt("second", func(vec!["a", "b"], sym("b"))),
        expr_stmt(call("first", vec![int_lit(1)])),
    ];
    assert_eq!(*run(program).unwrap(), Val::Int(1));
    let program = vec![
        let_stmt("second", func(vec!["a", "b"], sym("b"))),
        expr_stmt(call("second", vec![int_lit(1)])),
    ];
    let e = run(program).unwrap_err();
    assert_eq!(e.err_type, ErrorType::NoSuchSymbol);
    assert_eq!(e.msg, "Unable to find binding b");
}

#[test]
fn a_call_of_what_is_no_function_is_a_type_failure() {
    let program = vec![let_stmt("n", int_lit(1)), expr_stmt(call("n", vec![]))];
    let e = run(program).unwrap_err();
    assert_eq!(e.err_type, ErrorType::TypeFail);
    assert_eq!(e.msg, "Integer is not a Function");
}

#[test]
fn map_collects_what_the_function_returns() {
    let double = func(vec!["x"], bin(BinaryExprType::Mul, sym("x"), int_lit(2)));
    assert_eq!(
        *value_of(map_op(double, list_lit(vec![int_lit(1), int_lit(2), int_lit(3)]))),
        list_val(vec![Val::Int(2), Val::Int(4), Val::Int(6)])
    );
    let swap = func(vec!["k", "v"], list_lit(vec![bin(BinaryExprType::Add, sym("k"), str_lit("_")), sym("k")]));
    assert_eq!(
        *value_of(map_op(swap, tuple_lit(vec![("a", int_lit(1)), ("b", int_lit(2))]))),
        tuple_val(vec![("a_", text_val("a")), ("b_", text_val("b"))])
    );
    let shout = func(vec!["c"], bin(BinaryExprType::Add, sym("c"), str_lit("!")));
    assert_eq!(*value_of(map_op(shout, str_lit("ab"))), text_val("a!b!"));
}

#[test]
fn map_over_a_tuple_wants_a_name_and_a_value() {
    let t = || tuple_lit(vec![("a", int_lit(1))]);
    let e = error_of(map_op(func(vec!["k", "v"], sym("v")), t()));
    assert_eq!(e.err_type, ErrorType::TypeFail);
    assert_eq!(e.msg, "map on a tuple field expects a list as output but got (Integer)");
    let e = error_of(map_op(func(vec!["k", "v"], list_lit(vec![sym("k")])), t()));
    assert_eq!(e.msg, "map on a tuple field expects a list of size 2 as output but got size 1");
    let e = error_of(map_op(func(vec!["k", "v"], list_lit(vec![sym("v"), sym("k")])), t()));
    assert_eq!(e.msg, "map on tuple expects the first item out list to be a string but got Integer");
    let e = error_of(map_op(func(vec!["c"], int_lit(1)), str_lit("a")));
    assert_eq!(e.msg, "Expected string map return but got (Integer)");
}

#[test]
fn filter_drops_for_false_and_for_the_empty_value() {
    let pick = |body: Expression| func(vec!["x"], body);
    let xs = || list_lit(vec![int_lit(1), int_lit(2), int_lit(3)]);
    assert_eq!(*value_of(filter_op(pick(bool_lit(false)), xs())), list_val(vec![]));
    assert_eq!(*value_of(filter_op(pick(null_lit()), xs())), list_val(vec![]));
    assert_eq!(
        *value_of(filter_op(pick(int_lit(0)), xs())),
        list_val(vec![Val::Int(1), Val::Int(2), Val::Int(3)])
    );
    assert_eq!(
        *value_of(filter_op(pick(bin(BinaryExprType::GT, sym("x"), int_lit(1))), xs())),
        list_val(vec![Val::Int(2), Val::Int(3)])
    );
    let by_name = func(vec!["k", "v"], bin(BinaryExprType::Equal, sym("k"), str_lit("b")));
    assert_eq!(
        *value_of(filter_op(by_name, tuple_lit(vec![("a", int_lit(1)), ("b", int_lit(2))]))),
        tuple_val(vec![("b", Val::Int(2))])
    );
    let not_b = func(vec!["c"], bin(BinaryExprType::NotEqual, sym("c"), str_lit("b")));
    assert_eq!(*value_of(filter_op(not_b, str_lit("abcb"))), text_val("ac"));
    let e = error_of(filter_op(func(vec!["c"], int_lit(1)), str_lit("a")));
    assert_eq!(e.err_type, ErrorType::TypeFail);
    assert_eq!(e.msg, "Expected boolean or NULL for filter return but got (Integer)");
}

#[test]
fn reduce_folds_from_the_left() {
    let join = func(vec!["acc", "x"], bin(BinaryExprType::Add, sym("acc"), sym("x")));
    assert_eq!(
        *value_of(reduce_op(join, str_lit(">"), list_lit(vec![str_lit("a"), str_lit("b"), str_lit("c")]))),
        text_val(">abc")
    );
    let keys = func(vec!["acc", "k", "v"], bin(BinaryExprType::Add, sym("acc"), sym("k")));
    assert_eq!(
        *value_of(reduce_op(keys, str_lit(""), tuple_lit(vec![("x", int_lit(1)), ("y", int_lit(2))]))),
        text_val("xy")
    );
    let rev = func(vec!["acc", "c"], bin(BinaryExprType::Add, sym("c"), sym("acc")));
    assert_eq!(*value_of(reduce_op(rev, str_lit(""), str_lit("abc"))), text_val("cba"));
    let keep = func(vec!["acc", "x"], sym("acc"));
    assert_eq!(*value_of(reduce_op(keep, int_lit(7), list_lit(vec![]))), Val::Int(7));
}

#[test]
fn higher_order_operations_want_a_function_and_a_container() {
    let e = error_of(map_op(int_lit(1), list_lit(vec![])));
    assert_eq!(e.err_type, ErrorType::TypeFail);
    assert_eq!(e.msg, "Expected func but got (Integer)");
    let e = error_of(filter_op(func(vec!["x"], sym("x")), int_lit(1)));
    assert_eq!(e.msg, "Expected List or Tuple as target but got Integer");
    let e = error_of(reduce_op(func(vec!["a", "x"], sym("a")), int_lit(0), bool_lit(true)));
    assert_eq!(e.msg, "Expected List Str, or Tuple as target but got Boolean");
    let e = error_of(reduce_op(null_lit(), int_lit(0), list_lit(vec![])));
    assert_eq!(e.msg, "Expected func but got (EmptyValue)");
}

#[test]
fn fail_raises_its_message() {
    let e = error_of(fail_with(bin(BinaryExprType::Add, str_lit("no "), str_lit("way"))));
    assert_eq!(e.err_type, ErrorType::UserDefined);
    assert_eq!(e.msg, "no way");
    let e = error_of(fail_with(int_lit(1)));
    assert_eq!(e.err_type, ErrorType::TypeFail);
    assert_eq!(e.msg, "Expected string for message but got (Integer)");
}

#[test]
fn debug_returns_the_value_and_leaves_a_trace() {
    let mut b = builder();
    let mut session = Session::new();
    let traced = Expression::Debug(DebugDef {
        pos: at(3, 4).with_file("main.ucg".to_string()),
        expr: Box::new(tuple_lit(vec![("a", list_lit(vec![int_lit(1), str_lit("x")])), ("b", null_lit())])),
    });
    let v = session_run(&mut b, &mut session, vec![expr_stmt(traced)]).unwrap();
    assert_eq!(*v, tuple_val(vec![("a", list_val(vec![Val::Int(1), text_val("x")])), ("b", Val::Empty)]));
    assert_eq!(
        session.notices,
        vec!["TRACE: {a = [1, \"x\"], b = NULL} at main.ucg line: 3, column: 4".to_string()]
    );
    let failing = Expression::Debug(DebugDef { pos: pos(), expr: Box::new(fail_with(str_lit("no"))) });
    assert!(session_run(&mut b, &mut session, vec![expr_stmt(failing)]).is_err());
    assert_eq!(session.notices.len(), 1);
}

#[test]
fn evaluation_that_nests_too_deeply_is_an_error() {
    let mut e = int_lit(1);
    for _ in 0..10 {
        e = Expression::Grouped(Box::new(e), pos());
    }
    let b = builder();
    let mut session = Session::new();
    let scope = b.scope.spawn_child();
    assert_eq!(*b.eval_expr(&e, &scope, &mut session, 11).unwrap(), Val::Int(1));
    let err = b.eval_expr(&e, &scope, &mut session, 10).unwrap_err();
    assert_eq!(err.err_type, ErrorType::Unsupported);
    assert_eq!(err.msg, "Evaluation nests too deeply");
    let err = b.eval_expr(&int_lit(1), &scope, &mut session, 0).unwrap_err();
    assert_eq!(err.msg, "Evaluation nests too deeply");
}

#[test]
fn evaluating_twice_gives_equal_values() {
    let program = || vec![
        let_stmt("t", tuple_lit(vec![("a", list_lit(vec![int_lit(1), str_lit("x")]))])),
        let_stmt("f", func(vec!["x"], bin(BinaryExprType::Add, sym("x"), int_lit(1)))),
        expr_stmt(tuple_lit(vec![
            ("copy", copy("t", vec![("b", call("f", vec![int_lit(1)]))])),
            ("chars", map_op(func(vec!["c"], sym("c")), str_lit("e\u{301}x"))),
            ("hit", bin(BinaryExprType::REMatch, str_lit("abc"), str_lit("b."))),
        ])),
    ];
    let first = run(program()).unwrap();
    let second = run(program()).unwrap();
    assert_eq!(first, second);
    assert_eq!(first.equal(&second).unwrap(), true);
}

#[test]
fn reduce_calls_its_function_once_for_each_element() {
    let mut b = builder();
    let mut session = Session::new();
    let step = func(
        vec!["acc", "x"],
        Expression::Debug(DebugDef {
            pos: pos(),
            expr: Box::new(bin(
                BinaryExprType::Add,
                bin(BinaryExprType::Mul, sym("acc"), int_lit(10)),
                sym("x"),
            )),
        }),
    );
    let program = vec![expr_stmt(reduce_op(
        step,
        int_lit(0),
        list_lit(vec![int_lit(1), int_lit(2), int_lit(3), int_lit(4)]),
    ))];
    let v = session_run(&mut b, &mut session, program).unwrap();
    assert_eq!(*v, Val::Int(1234));
    assert_eq!(
        session.notices,
        vec![
            "TRACE: 1 at <eval> line: 1, column: 1",
            "TRACE: 12 at <eval> line: 1, column: 1",
            "TRACE: 123 at <eval> line: 1, column: 1",
            "TRACE: 1234 at <eval> line: 1, column: 1",
        ]
    );
}

#[test]
fn reduce_stops_at_the_first_call_that_fails() {
    let mut b = builder();
    let mut session = Session::new();
    let step = func(
        vec!["acc", "x"],
        Expression::Debug(DebugDef {
            pos: pos(),
            expr: Box::new(bin(BinaryExprType::Div, sym("acc"), sym("x"))),
        }),
    );
    let program = vec![expr_stmt(reduce_op(
        step,
        int_lit(100),
        list_lit(vec![int_lit(5), int_lit(0), int_lit(2)]),
    ))];
    let e = session_run(&mut b, &mut session, program).unwrap_err();
    assert_eq!(e.err_type, ErrorType::Unsupported);
    assert_eq!(session.notices.len(), 1);
}

#[test]
fn an_overridden_field_holds_a_value_of_the_type_of_the_override() {
    let overrides: Vec<(Expression, Val)> = vec![
        (int_lit(7), Val::Int(7)),
        (null_lit(), Val::Empty),
    ];
    for (e, expected) in overrides {
        let program = vec![
            let_stmt("t", tuple_lit(vec![("a", str_lit("s")), ("f", int_lit(1)), ("z", bool_lit(true))])),
            expr_stmt(copy("t", vec![("f", e)])),
        ];
        let copy = run(program).unwrap();
        match &*copy {
            Val::Tuple(fs) => {
                assert_eq!(fs.len(), 3);
                assert_eq!(fs[1].0, "f");
                assert!(expected.type_equal(&fs[1].1));
                assert_eq!(*fs[1].1, expected);
            }
            other => panic!("the copy is {:?}", other),
        }
    }
}

#[test]
fn the_requests_of_a_program_are_its_imports_and_includes_in_order() {
    let program = vec![
        let_stmt("a", import_of("a.ucg")),
        expr_stmt(list_lit(vec![include_of("json", "b.json"), func(vec![], import_of("std/c.ucg"))])),
        let_stmt(
            "m",
            module(None, vec![("d", include_of("str", "d.txt"))], vec![let_stmt("e", import_of("/abs/e.ucg"))], Some(import_of("f.ucg"))),
        ),
        Statement::Assert(select(import_of("g.ucg"), vec![("x", import_of("i.ucg"))], Some(import_of("h.ucg")))),
        output_stmt("json", copy("t", vec![("k", bin(BinaryExprType::Add, import_of("j.ucg"), int_lit(1)))])),
        expr_stmt(int_lit(1)),
    ];
    let found: Vec<(String, Option<String>)> =
        ucg::requests::requests(&program).into_iter().map(|r| (r.path, r.decoder)).collect();
    let expected: Vec<(String, Option<String>)> = vec![
        ("a.ucg", None),
        ("b.json", Some("json")),
        ("std/c.ucg", None),
        ("d.txt", Some("str")),
        ("f.ucg", None),
        ("/abs/e.ucg", None),
        ("g.ucg", None),
        ("h.ucg", None),
        ("i.ucg", None),
        ("j.ucg", None),
    ]
    .into_iter()
    .map(|(p, d)| (p.to_string(), d.map(|x: &str| x.to_string())))
    .collect();
    assert_eq!(found, expected);
    assert!(ucg::requests::requests(&vec![]).is_empty());
}

#[test]
fn the_candidate_paths_are_listed_in_the_order_they_are_tried() {
    let b = builder_over(vec!["/lib1", "/lib2"], vec![], StdLib::new(), FileTree::new());
    let scope = b.scope.spawn_child();
    assert_eq!(b.candidate_paths(&scope, "x.ucg", true), vec!["/work/x.ucg", "/lib1/x.ucg", "/lib2/x.ucg"]);
    assert_eq!(b.candidate_paths(&scope, "x.ucg", false), vec!["/work/x.ucg"]);
    assert_eq!(b.candidate_paths(&scope, "/abs/x.ucg", true), vec!["/abs/x.ucg"]);
    let mut rooted = b.scope.spawn_child();
    rooted.import_root = Some("/mod".to_string());
    assert_eq!(b.candidate_paths(&rooted, "x.ucg", true), vec!["/mod/x.ucg"]);
}
