#![allow(dead_code)]
#![allow(unused_imports)]

use std::rc::Rc;
use ucg::assets::{MemoryCache, Session};
use ucg::ast::{BinaryExprType, BinaryOpDef, CallDef, CopyDef, DebugDef, Expression, FailDef,
    FormatArgs, FormatDef, FuncDef, FuncOpDef, ImportDef, IncludeDef, LetDef, ListDef,
    MapFilterOpDef, ModuleDef, NotDef, Position, PositionedItem, RangeDef, ReduceOpDef, SelectDef,
    Statement, Token, Value};
use ucg::build::{AssertCollector, FileBuilder, DEFAULT_DEPTH};
use ucg::error::{BuildError, ErrorType};
use ucg::ir::Val;
use ucg::loader::{Decoded, FileEntry, FileTree, Source, StdLib};
use ucg::scope::Scope;

fn pos() -> Position {
    Position::new(1, 1, 0)
}

fn at(line: usize, column: usize) -> Position {
    Position::new(line, column, 0)
}

fn int_lit(i: i64) -> Expression {
    Expression::Simple(Value::Int(PositionedItem::new(i, pos())))
}

fn float_lit(f: f64) -> Expression {
    Expression::Simple(Value::Float(PositionedItem::new(f.to_bits(), pos())))
}

fn bool_lit(b: bool) -> Expression {
    Expression::Simple(Value::Boolean(PositionedItem::new(b, pos())))
}

fn null_lit() -> Expression {
    Expression::Simple(Value::Empty(pos()))
}

fn str_lit(s: &str) -> Expression {
    Expression::Simple(Value::Str(PositionedItem::new(s.to_string(), pos())))
}

fn sym_value(name: &str) -> Value {
    Value::Symbol(PositionedItem::new(name.to_string(), pos()))
}

fn sym(name: &str) -> Expression {
    Expression::Simple(sym_value(name))
}

fn tok(name: &str) -> Token {
    Token::new(name.to_string(), pos())
}

fn bin(kind: BinaryExprType, left: Expression, right: Expression) -> Expression {
    Expression::Binary(BinaryOpDef { kind, left: Box::new(left), right: Box::new(right), pos: pos() })
}

fn dot(left: Expression, right: Expression) -> Expression {
    bin(BinaryExprType::DOT, left, right)
}

fn list_lit(elems: Vec<Expression>) -> Expression {
    Expression::Simple(Value::List(ListDef { elems, pos: pos() }))
}

fn fields(fs: Vec<(&str, Expression)>) -> Vec<(Token, Expression)> {
    fs.into_iter().map(|(n, e)| (tok(n), e)).collect()
}

fn tuple_lit(fs: Vec<(&str, Expression)>) -> Expression {
    Expression::Simple(Value::Tuple(PositionedItem::new(fields(fs), pos())))
}

fn func(args: Vec<&str>, body: Expression) -> Expression {
    Expression::Func(FuncDef {
        scope: None,
        argdefs: args.into_iter().map(|a| PositionedItem::new(a.to_string(), pos())).collect(),
        fields: Rc::new(body),
        pos: pos(),
    })
}

fn call(name: &str, args: Vec<Expression>) -> Expression {
    Expression::Call(CallDef { funcref: sym_value(name), arglist: args, pos: pos() })
}

fn copy(name: &str, fs: Vec<(&str, Expression)>) -> Expression {
    Expression::Copy(CopyDef { selector: sym_value(name), fields: fields(fs), pos: pos() })
}

fn map_op(f: Expression, target: Expression) -> Expression {
    Expression::FuncOp(FuncOpDef::MapEach(MapFilterOpDef {
        func: Box::new(f),
        target: Box::new(target),
        pos: pos(),
    }))
}

fn filter_op(f: Expression, target: Expression) -> Expression {
    Expression::FuncOp(FuncOpDef::Filter(MapFilterOpDef {
        func: Box::new(f),
        target: Box::new(target),
        pos: pos(),
    }))
}

fn reduce_op(f: Expression, acc: Expression, target: Expression) -> Expression {
    Expression::FuncOp(FuncOpDef::Reduce(ReduceOpDef {
        func: Box::new(f),
        acc: Box::new(acc),
        target: Box::new(target),
        pos: pos(),
    }))
}

fn range(start: Expression, step: Option<Expression>, end: Expression) -> Expression {
    Expression::Range(RangeDef {
        pos: pos(),
        start: Box::new(start),
        step: step.map(Box::new),
        end: Box::new(end),
    })
}

fn select(val: Expression, cases: Vec<(&str, Expression)>, default: Option<Expression>) -> Expression {
    Expression::Select(SelectDef {
        val: Box::new(val),
        default: default.map(Box::new),
        tuple: fields(cases),
        pos: pos(),
    })
}

fn fail_with(message: Expression) -> Expression {
    Expression::Fail(FailDef { pos: pos(), message: Box::new(message) })
}

fn not(e: Expression) -> Expression {
    Expression::Not(NotDef { pos: pos(), expr: Box::new(e) })
}

fn import_of(path: &str) -> Expression {
    Expression::Import(ImportDef { pos: pos(), path: tok(path) })
}

fn include_of(typ: &str, path: &str) -> Expression {
    Expression::Include(IncludeDef { pos: pos(), path: tok(path), typ: tok(typ) })
}

fn module(
    file: Option<&str>,
    args: Vec<(&str, Expression)>,
    statements: Vec<Statement>,
    out: Option<Expression>,
) -> Expression {
    let p = match file {
        Some(f) => pos().with_file(f.to_string()),
        None => pos(),
    };
    Expression::Module(ModuleDef {
        pos: p,
        arg_set: Rc::new(fields(args)),
        out_expr: out.map(Rc::new),
        arg_tuple: None,
        statements: Rc::new(statements),
        root: None,
    })
}

fn let_stmt(name: &str, value: Expression) -> Statement {
    Statement::Let(LetDef { name: tok(name), value })
}

fn expr_stmt(e: Expression) -> Statement {
    Statement::Expression(e)
}

fn output_stmt(typ: &str, e: Expression) -> Statement {
    Statement::Output(pos(), tok(typ), e)
}

fn assertion(ok: Expression, desc: Expression) -> Statement {
    Statement::Assert(tuple_lit(vec![("ok", ok), ("desc", desc)]))
}

fn tuple_val(fs: Vec<(&str, Val)>) -> Val {
    Val::Tuple(fs.into_iter().map(|(n, v)| (n.to_string(), Rc::new(v))).collect())
}

fn list_val(items: Vec<Val>) -> Val {
    Val::List(items.into_iter().map(Rc::new).collect())
}

fn text_val(s: &str) -> Val {
    Val::Str(s.to_string())
}

fn float_val(f: f64) -> Val {
    Val::Float(f.to_bits())
}

fn source_file(path: &str, text: &str, program: Vec<Statement>) -> FileEntry {
    FileEntry {
        path: path.to_string(),
        text: text.to_string(),
        source: Source::Parsed(Rc::new(program)),
        decoded: Vec::new(),
    }
}

fn link(path: &str) -> (String, String) {
    (path.to_string(), path.to_string())
}

fn builder_over(
    search: Vec<&str>,
    env: Vec<(&str, &str)>,
    std: StdLib,
    files: FileTree,
) -> FileBuilder {
    FileBuilder::new(
        "/work".to_string(),
        Rc::new(search.into_iter().map(|s| s.to_string()).collect()),
        env.into_iter().map(|(k, v)| (k.to_string(), v.to_string())).collect(),
        Rc::new(std),
        Rc::new(files),
    )
}

fn builder_with(files: FileTree) -> FileBuilder {
    builder_over(Vec::new(), Vec::new(), StdLib::new(), files)
}

fn builder() -> FileBuilder {
    builder_with(FileTree::new())
}

fn run(program: Vec<Statement>) -> Result<Rc<Val>, BuildError> {
    let mut b = builder();
    let mut cache = Session::new();
    b.eval_stmts_last(&program, &mut cache, DEFAULT_DEPTH)
}

fn eval(e: Expression) -> Result<Rc<Val>, BuildError> {
    run(vec![expr_stmt(e)])
}

fn value_of(e: Expression) -> Rc<Val> {
    match eval(e) {
        Ok(v) => v,
        Err(e) => panic!("evaluation failed: {}", e.render()),
    }
}

fn error_of(e: Expression) -> BuildError {
    match eval(e) {
        Ok(v) => panic!("evaluation gave {:?}", v),
        Err(e) => e,
    }
}

fn innermost(e: &BuildError) -> &BuildError {
    match &e.cause {
        Some(c) => innermost(c),
        None => e,
    }
}


#[test]
fn integers_add_subtract_multiply() {
    assert_eq!(*value_of(bin(BinaryExprType::Add, int_lit(40), int_lit(2))), Val::Int(42));
    assert_eq!(*value_of(bin(BinaryExprType::Sub, int_lit(1), int_lit(3))), Val::Int(-2));
    assert_eq!(*value_of(bin(BinaryExprType::Mul, int_lit(-6), int_lit(7))), Val::Int(-42));
}

#[test]
fn integer_division_rounds_toward_zero() {
    assert_eq!(*value_of(bin(BinaryExprType::Div, int_lit(7), int_lit(2))), Val::Int(3));
    assert_eq!(*value_of(bin(BinaryExprType::Div, int_lit(-7), int_lit(2))), Val::Int(-3));
    assert_eq!(*value_of(bin(BinaryExprType::Div, int_lit(7), int_lit(-2))), Val::Int(-3));
}

#[test]
fn integer_remainder_takes_the_sign_of_the_dividend() {
    assert_eq!(*value_of(bin(BinaryExprType::Mod, int_lit(7), int_lit(2))), Val::Int(1));
    assert_eq!(*value_of(bin(BinaryExprType::Mod, int_lit(-7), int_lit(2))), Val::Int(-1));
    assert_eq!(*value_of(bin(BinaryExprType::Mod, int_lit(7), int_lit(-2))), Val::Int(1));
}

#[test]
fn integer_overflow_is_an_error() {
    let e = error_of(bin(BinaryExprType::Add, int_lit(i64::MAX), int_lit(1)));
    assert_eq!(e.err_type, ErrorType::Unsupported);
    assert_eq!(e.msg, "Integer result of the '+' operation is undefined or out of range");
    let e = error_of(bin(BinaryExprType::Mul, int_lit(i64::MIN), int_lit(-1)));
    assert_eq!(e.err_type, ErrorType::Unsupported);
    let e = error_of(bin(BinaryExprType::Sub, int_lit(i64::MIN), int_lit(1)));
    assert_eq!(e.msg, "Integer result of the '-' operation is undefined or out of range");
}

#[test]
fn division_by_zero_is_an_error() {
    let e = error_of(bin(BinaryExprType::Div, int_lit(1), int_lit(0)));
    assert_eq!(e.err_type, ErrorType::Unsupported);
    assert_eq!(e.msg, "Integer result of the '/' operation is undefined or out of range");
    let e = error_of(bin(BinaryExprType::Mod, int_lit(1), int_lit(0)));
    assert_eq!(e.msg, "Integer result of the 'modulus' operation is undefined or out of range");
}

#[test]
fn strings_and_lists_concatenate() {
    assert_eq!(
        *value_of(bin(BinaryExprType::Add, str_lit("foo"), str_lit("bar"))),
        text_val("foobar")
    );
    assert_eq!(
        *value_of(bin(
            BinaryExprType::Add,
            list_lit(vec![int_lit(1)]),
            list_lit(vec![str_lit("a"), int_lit(2)])
        )),
        list_val(vec![Val::Int(1), text_val("a"), Val::Int(2)])
    );
}

#[test]
fn operands_of_different_types_are_a_type_failure() {
    let e = error_of(bin(BinaryExprType::Add, int_lit(1), str_lit("a")));
    assert_eq!(e.err_type, ErrorType::TypeFail);
    assert_eq!(e.msg, "Expected Integer but got (String)");
    let e = error_of(bin(BinaryExprType::Add, str_lit("a"), int_lit(1)));
    assert_eq!(e.msg, "Expected String but got (Integer)");
    let e = error_of(bin(BinaryExprType::Add, list_lit(vec![]), int_lit(1)));
    assert_eq!(e.msg, "Expected List but got (Integer)");
    let e = error_of(bin(BinaryExprType::Sub, float_lit(2.0), int_lit(1)));
    assert_eq!(e.msg, "Expected Float but got (Integer)");
}

#[test]
fn arithmetic_on_other_values_is_unsupported() {
    let e = error_of(bin(BinaryExprType::Add, bool_lit(true), bool_lit(false)));
    assert_eq!(e.err_type, ErrorType::Unsupported);
    assert_eq!(e.msg, "Boolean does not support the '+' operation");
    let e = error_of(bin(BinaryExprType::Mul, str_lit("a"), int_lit(2)));
    assert_eq!(e.msg, "String does not support the '*' operation");
    let e = error_of(bin(BinaryExprType::Mod, tuple_lit(vec![]), int_lit(2)));
    assert_eq!(e.msg, "Tuple does not support the 'modulus' operation");
}

#[test]
fn floats_are_carried_but_not_computed_on() {
    assert_eq!(*value_of(float_lit(1.5)), float_val(1.5));
    let e = error_of(bin(BinaryExprType::Add, float_lit(1.5), float_lit(2.5)));
    assert_eq!(e.err_type, ErrorType::Unsupported);
    assert_eq!(e.msg, "Float does not support the '+' operation");
    let e = error_of(bin(BinaryExprType::Div, float_lit(1.5), float_lit(2.5)));
    assert_eq!(e.msg, "Float does not support the '/' operation");
}

#[test]
fn integers_are_ordered() {
    assert_eq!(*value_of(bin(BinaryExprType::GT, int_lit(2), int_lit(1))), Val::Boolean(true));
    assert_eq!(*value_of(bin(BinaryExprType::GT, int_lit(1), int_lit(1))), Val::Boolean(false));
    assert_eq!(*value_of(bin(BinaryExprType::LT, int_lit(-2), int_lit(1))), Val::Boolean(true));
    assert_eq!(*value_of(bin(BinaryExprType::LTEqual, int_lit(1), int_lit(1))), Val::Boolean(true));
    assert_eq!(*value_of(bin(BinaryExprType::GTEqual, int_lit(0), int_lit(1))), Val::Boolean(false));
}

#[test]
fn floats_are_ordered_as_their_values_are() {
    let cases = vec![
        (1.5, 2.5),
        (-2.5, -1.5),
        (-1.0, 1.0),
        (0.0, 1e-300),
        (-1e300, 1e300),
        (f64::NEG_INFINITY, f64::INFINITY),
        (0.0, -0.0),
        (-0.0, 0.0),
        (3.25, 3.25),
        (f64::NAN, 1.0),
        (1.0, f64::NAN),
        (f64::NAN, f64::NAN),
    ];
    for (a, b) in cases {
        assert_eq!(
            *value_of(bin(BinaryExprType::LT, float_lit(a), float_lit(b))),
            Val::Boolean(a < b),
            "{} < {}",
            a,
            b
        );
        assert_eq!(
            *value_of(bin(BinaryExprType::GT, float_lit(a), float_lit(b))),
            Val::Boolean(a > b),
            "{} > {}",
            a,
            b
        );
        assert_eq!(
            *value_of(bin(BinaryExprType::LTEqual, float_lit(a), float_lit(b))),
            Val::Boolean(a <= b),
            "{} <= {}",
            a,
            b
        );
        assert_eq!(
            *value_of(bin(BinaryExprType::GTEqual, float_lit(a), float_lit(b))),
            Val::Boolean(a >= b),
            "{} >= {}",
            a,
            b
        );
    }
}

#[test]
fn ordering_across_types_is_a_type_failure() {
    let e = error_of(bin(BinaryExprType::LT, int_lit(1), float_lit(1.0)));
    assert_eq!(e.err_type, ErrorType::TypeFail);
    assert_eq!(e.msg, "Expected Integer but got (Float)");
    let e = error_of(bin(BinaryExprType::GTEqual, str_lit("a"), str_lit("b")));
    assert_eq!(e.msg, "Expected String but got (String)");
}

#[test]
fn equality_is_deep() {
    let t = |b: i64| tuple_lit(vec![("a", list_lit(vec![int_lit(1), int_lit(b)]))]);
    assert_eq!(*value_of(bin(BinaryExprType::Equal, t(2), t(2))), Val::Boolean(true));
    assert_eq!(*value_of(bin(BinaryExprType::Equal, t(2), t(3))), Val::Boolean(false));
    assert_eq!(*value_of(bin(BinaryExprType::NotEqual, t(2), t(3))), Val::Boolean(true));
    assert_eq!(*value_of(bin(BinaryExprType::NotEqual, t(2), t(2))), Val::Boolean(false));
}

#[test]
fn equality_with_the_empty_value_is_false_without_error() {
    assert_eq!(*value_of(bin(BinaryExprType::Equal, null_lit(), int_lit(1))), Val::Boolean(false));
    assert_eq!(*value_of(bin(BinaryExprType::Equal, str_lit("a"), null_lit())), Val::Boolean(false));
    assert_eq!(*value_of(bin(BinaryExprType::Equal, null_lit(), null_lit())), Val::Boolean(true));
}

#[test]
fn equality_across_types_is_a_type_failure_at_the_right_operand() {
    let right = Expression::Simple(Value::Str(PositionedItem::new("a".to_string(), at(3, 9))));
    let e = error_of(bin(BinaryExprType::Equal, int_lit(1), right));
    assert_eq!(e.err_type, ErrorType::TypeFail);
    assert_eq!(e.msg, "Expected Integer but got (String)");
    assert_eq!(e.pos, Some(at(3, 9)));
}

#[test]
fn and_does_not_evaluate_its_right_operand_after_false() {
    let boom = fail_with(str_lit("evaluated"));
    assert_eq!(
        *value_of(bin(BinaryExprType::AND, bool_lit(false), boom)),
        Val::Boolean(false)
    );
    assert_eq!(
        *value_of(bin(BinaryExprType::AND, bool_lit(true), bool_lit(false))),
        Val::Boolean(false)
    );
    assert_eq!(
        *value_of(bin(BinaryExprType::AND, bool_lit(true), bool_lit(true))),
        Val::Boolean(true)
    );
    let e = error_of(bin(BinaryExprType::AND, bool_lit(true), fail_with(str_lit("evaluated"))));
    assert_eq!(e.err_type, ErrorType::UserDefined);
}

#[test]
fn or_does_not_evaluate_its_right_operand_after_true() {
    let boom = fail_with(str_lit("evaluated"));
    assert_eq!(*value_of(bin(BinaryExprType::OR, bool_lit(true), boom)), Val::Boolean(true));
    assert_eq!(
        *value_of(bin(BinaryExprType::OR, bool_lit(false), bool_lit(true))),
        Val::Boolean(true)
    );
    assert_eq!(
        *value_of(bin(BinaryExprType::OR, bool_lit(false), bool_lit(false))),
        Val::Boolean(false)
    );
}

#[test]
fn boolean_operators_want_booleans() {
    let e = error_of(bin(BinaryExprType::AND, int_lit(1), bool_lit(true)));
    assert_eq!(e.err_type, ErrorType::TypeFail);
    assert_eq!(e.msg, "Expected boolean value for operator but got (Integer)");
    let e = error_of(bin(BinaryExprType::OR, bool_lit(false), str_lit("x")));
    assert_eq!(e.msg, "Expected boolean value for operator but got (String)");
}

#[test]
fn regular_expressions_match_anywhere_in_the_text() {
    assert_eq!(
        *value_of(bin(BinaryExprType::REMatch, str_lit("foobar"), str_lit("o+b"))),
        Val::Boolean(true)
    );
    assert_eq!(
        *value_of(bin(BinaryExprType::REMatch, str_lit("foobar"), str_lit("^bar"))),
        Val::Boolean(false)
    );
    assert_eq!(
        *value_of(bin(BinaryExprType::NotREMatch, str_lit("foobar"), str_lit("^bar"))),
        Val::Boolean(true)
    );
    assert_eq!(
        *value_of(bin(BinaryExprType::NotREMatch, str_lit("oob"), str_lit("o+b"))),
        Val::Boolean(false)
    );
}

#[test]
fn a_pattern_that_does_not_compile_is_an_error() {
    let e = error_of(bin(BinaryExprType::REMatch, str_lit("foo"), str_lit("foo(bar")));
    assert_eq!(e.err_type, ErrorType::Unsupported);
    assert_eq!(e.msg, "Invalid regular expression foo(bar");
}

#[test]
fn matching_wants_strings() {
    let e = error_of(bin(BinaryExprType::REMatch, int_lit(1), str_lit("a")));
    assert_eq!(e.err_type, ErrorType::TypeFail);
    assert_eq!(e.msg, "Expected string but got (Integer)");
    let e = error_of(bin(BinaryExprType::REMatch, str_lit("a"), int_lit(1)));
    assert_eq!(e.msg, "Expected string for regex but got (Integer)");
}

#[test]
fn in_on_a_list_is_deep_membership() {
    let xs = || list_lit(vec![int_lit(1), list_lit(vec![int_lit(2)]), str_lit("a")]);
    assert_eq!(*value_of(bin(BinaryExprType::IN, int_lit(1), xs())), Val::Boolean(true));
    assert_eq!(
        *value_of(bin(BinaryExprType::IN, list_lit(vec![int_lit(2)]), xs())),
        Val::Boolean(true)
    );
    assert_eq!(*value_of(bin(BinaryExprType::IN, str_lit("b"), xs())), Val::Boolean(false));
    assert_eq!(*value_of(bin(BinaryExprType::IN, int_lit(2), xs())), Val::Boolean(false));
    assert_eq!(*value_of(bin(BinaryExprType::IN, int_lit(2), list_lit(vec![]))), Val::Boolean(false));
}

#[test]
fn in_on_a_tuple_is_field_presence() {
    let t = || tuple_lit(vec![("a", int_lit(1)), ("b", null_lit())]);
    assert_eq!(*value_of(bin(BinaryExprType::IN, sym("a"), t())), Val::Boolean(true));
    assert_eq!(*value_of(bin(BinaryExprType::IN, str_lit("b"), t())), Val::Boolean(true));
    assert_eq!(*value_of(bin(BinaryExprType::IN, sym("c"), t())), Val::Boolean(false));
}

#[test]
fn in_wants_a_list_or_a_tuple() {
    let e = error_of(bin(BinaryExprType::IN, int_lit(1), int_lit(2)));
    assert_eq!(e.err_type, ErrorType::TypeFail);
    assert_eq!(e.msg, "Invalid righthand type for in operator Integer");
}

#[test]
fn is_tests_the_type_of_a_value() {
    let cases: Vec<(Expression, &str)> = vec![
        (str_lit("a"), "str"),
        (bool_lit(true), "bool"),
        (null_lit(), "null"),
        (int_lit(1), "int"),
        (float_lit(1.0), "float"),
        (tuple_lit(vec![]), "tuple"),
        (list_lit(vec![]), "list"),
        (func(vec![], int_lit(1)), "func"),
        (module(None, vec![], vec![], None), "module"),
    ];
    let names = vec!["str", "bool", "null", "int", "float", "tuple", "list", "func", "module"];
    for (i, (_, own)) in cases.iter().enumerate() {
        for name in names.iter() {
            let e = match i {
                0 => str_lit("a"),
                1 => bool_lit(true),
                2 => null_lit(),
                3 => int_lit(1),
                4 => float_lit(1.0),
                5 => tuple_lit(vec![]),
                6 => list_lit(vec![]),
                7 => func(vec![], int_lit(1)),
                _ => module(None, vec![], vec![], None),
            };
            assert_eq!(
                *value_of(bin(BinaryExprType::IS, e, str_lit(name))),
                Val::Boolean(own == name),
                "{} is {}",
                own,
                name
            );
        }
    }
}

#[test]
fn is_wants_a_type_name() {
    let e = error_of(bin(BinaryExprType::IS, int_lit(1), str_lit("number")));
    assert_eq!(e.err_type, ErrorType::TypeFail);
    assert_eq!(e.msg, "Expected valid type name but got (number)");
    let e = error_of(bin(BinaryExprType::IS, int_lit(1), int_lit(2)));
    assert_eq!(e.msg, "Expected string expression but got (Integer)");
}

#[test]
fn not_negates_a_boolean() {
    assert_eq!(*value_of(not(bool_lit(true))), Val::Boolean(false));
    assert_eq!(*value_of(not(bool_lit(false))), Val::Boolean(true));
    let e = error_of(not(int_lit(1)));
    assert_eq!(e.err_type, ErrorType::TypeFail);
    assert_eq!(e.msg, "Expected boolean for expression but got (Integer)");
}

#[test]
fn operands_are_evaluated_from_left_to_right() {
    let e = error_of(bin(
        BinaryExprType::Add,
        fail_with(str_lit("left")),
        fail_with(str_lit("right")),
    ));
    assert_eq!(e.msg, "left");
    let e = error_of(list_lit(vec![int_lit(1), fail_with(str_lit("second")), fail_with(str_lit("third"))]));
    assert_eq!(e.msg, "second");
}
