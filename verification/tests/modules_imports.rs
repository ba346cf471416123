#![allow(dead_code)]
#![allow(unused_imports)]

use std::rc::Rc;
use ucg::assets::{MemoryCache, Session};
use ucg::ast::{BinaryExprType, BinaryOpDef, CallDef, CopyDef, DebugDef, Expression, FailDef,
    FormatArgs, FormatDef, FuncDef, FuncOpDef, ImportDef, IncludeDef, LetDef, ListDef,
    MapFilterOpDef, ModuleDef, NotDef, Position, PositionedItem, RangeDef, ReduceOpDef, SelectDef,
    Statement, Token, Value};
use ucg::build::{AssertCollector, FileBuilder, DEFAULT_DEPTH};
use ucg::error::{BuildError, ErrorType};
use ucg::ir::Val;
use ucg::loader::{Decoded, FileEntry, FileTree, Source, StdLib};
use ucg::scope::Scope;

fn pos() -> Position {
    Position::new(1, 1, 0)
}

fn at(line: usize, column: usize) -> Position {
    Position::new(line, column, 0)
}

fn int_lit(i: i64) -> Expression {
    Expression::Simple(Value::Int(PositionedItem::new(i, pos())))
}

fn float_lit(f: f64) -> Expression {
    Expression::Simple(Value::Float(PositionedItem::new(f.to_bits(), pos())))
}

fn bool_lit(b: bool) -> Expression {
    Expression::Simple(Value::Boolean(PositionedItem::new(b, pos())))
}

fn null_lit() -> Expression {
    Expression::Simple(Value::Empty(pos()))
}

fn str_lit(s: &str) -> Expression {
    Expression::Simple(Value::Str(PositionedItem::new(s.to_string(), pos())))
}

fn sym_value(name: &str) -> Value {
    Value::Symbol(PositionedItem::new(name.to_string(), pos()))
}

fn sym(name: &str) -> Expression {
    Expression::Simple(sym_value(name))
}

fn tok(name: &str) -> Token {
    Token::new(name.to_string(), pos())
}

fn bin(kind: BinaryExprType, left: Expression, right: Expression) -> Expression {
    Expression::Binary(BinaryOpDef { kind, left: Box::new(left), right: Box::new(right), pos: pos() })
}

fn dot(left: Expression, right: Expression) -> Expression {
    bin(BinaryExprType::DOT, left, right)
}

fn list_lit(elems: Vec<Expression>) -> Expression {
    Expression::Simple(Value::List(ListDef { elems, pos: pos() }))
}

fn fields(fs: Vec<(&str, Expression)>) -> Vec<(Token, Expression)> {
    fs.into_iter().map(|(n, e)| (tok(n), e)).collect()
}

fn tuple_lit(fs: Vec<(&str, Expression)>) -> Expression {
    Expression::Simple(Value::Tuple(PositionedItem::new(fields(fs), pos())))
}

fn func(args: Vec<&str>, body: Expression) -> Expression {
    Expression::Func(FuncDef {
        scope: None,
        argdefs: args.into_iter().map(|a| PositionedItem::new(a.to_string(), pos())).collect(),
        fields: Rc::new(body),
        pos: pos(),
    })
}

fn call(name: &str, args: Vec<Expression>) -> Expression {
    Expression::Call(CallDef { funcref: sym_value(name), arglist: args, pos: pos() })
}

fn copy(name: &str, fs: Vec<(&str, Expression)>) -> Expression {
    Expression::Copy(CopyDef { selector: sym_value(name), fields: fields(fs), pos: pos() })
}

fn map_op(f: Expression, target: Expression) -> Expression {
    Expression::FuncOp(FuncOpDef::MapEach(MapFilterOpDef {
        func: Box::new(f),
        target: Box::new(target),
        pos: pos(),
    }))
}

fn filter_op(f: Expression, target: Expression) -> Expression {
    Expression::FuncOp(FuncOpDef::Filter(MapFilterOpDef {
        func: Box::new(f),
        target: Box::new(target),
        pos: pos(),
    }))
}

fn reduce_op(f: Expression, acc: Expression, target: Expression) -> Expression {
    Expression::FuncOp(FuncOpDef::Reduce(ReduceOpDef {
        func: Box::new(f),
        acc: Box::new(acc),
        target: Box::new(target),
        pos: pos(),
    }))
}

fn range(start: Expression, step: Option<Expression>, end: Expression) -> Expression {
    Expression::Range(RangeDef {
        pos: pos(),
        start: Box::new(start),
        step: step.map(Box::new),
        end: Box::new(end),
    })
}

fn select(val: Expression, cases: Vec<(&str, Expression)>, default: Option<Expression>) -> Expression {
    Expression::Select(SelectDef {
        val: Box::new(val),
        default: default.map(Box::new),
        tuple: fields(cases),
        pos: pos(),
    })
}

fn fail_with(message: Expression) -> Expression {
    Expression::Fail(FailDef { pos: pos(), message: Box::new(message) })
}

fn not(e: Expression) -> Expression {
    Expression::Not(NotDef { pos: pos(), expr: Box::new(e) })
}

fn import_of(path: &str) -> Expression {
    Expression::Import(ImportDef { pos: pos(), path: tok(path) })
}

fn include_of(typ: &str, path: &str) -> Expression {
    Expression::Include(IncludeDef { pos: pos(), path: tok(path), typ: tok(typ) })
}

fn module(
    file: Option<&str>,
    args: Vec<(&str, Expression)>,
    statements: Vec<Statement>,
    out: Option<Expression>,
) -> Expression {
    let p = match file {
        Some(f) => pos().with_file(f.to_string()),
        None => pos(),
    };
    Expression::Module(ModuleDef {
        pos: p,
        arg_set: Rc::new(fields(args)),
        out_expr: out.map(Rc::new),
        arg_tuple: None,
        statements: Rc::new(statements),
        root: None,
    })
}

fn let_stmt(name: &str, value: Expression) -> Statement {
    Statement::Let(LetDef { name: tok(name), value })
}

fn expr_stmt(e: Expression) -> Statement {
    Statement::Expression(e)
}

fn output_stmt(typ: &str, e: Expression) -> Statement {
    Statement::Output(pos(), tok(typ), e)
}

fn assertion(ok: Expression, desc: Expression) -> Statement {
    Statement::Assert(tuple_lit(vec![("ok", ok), ("desc", desc)]))
}

fn tuple_val(fs: Vec<(&str, Val)>) -> Val {
    Val::Tuple(fs.into_iter().map(|(n, v)| (n.to_string(), Rc::new(v))).collect())
}

fn list_val(items: Vec<Val>) -> Val {
    Val::List(items.into_iter().map(Rc::new).collect())
}

fn text_val(s: &str) -> Val {
    Val::Str(s.to_string())
}

fn float_val(f: f64) -> Val {
    Val::Float(f.to_bits())
}

fn source_file(path: &str, text: &str, program: Vec<Statement>) -> FileEntry {
    FileEntry {
        path: path.to_string(),
        text: text.to_string(),
        source: Source::Parsed(Rc::new(program)),
        decoded: Vec::new(),
    }
}

fn link(path: &str) -> (String, String) {
    (path.to_string(), path.to_string())
}

fn builder_over(
    search: Vec<&str>,
    env: Vec<(&str, &str)>,
    std: StdLib,
    files: FileTree,
) -> FileBuilder {
    FileBuilder::new(
        "/work".to_string(),
        Rc::new(search.into_iter().map(|s| s.to_string()).collect()),
        env.into_iter().map(|(k, v)| (k.to_string(), v.to_string())).collect(),
        Rc::new(std),
        Rc::new(files),
    )
}

fn builder_with(files: FileTree) -> FileBuilder {
    builder_over(Vec::new(), Vec::new(), StdLib::new(), files)
}

fn builder() -> FileBuilder {
    builder_with(FileTree::new())
}

fn run(program: Vec<Statement>) -> Result<Rc<Val>, BuildError> {
    let mut b = builder();
    let mut cache = Session::new();
    b.eval_stmts_last(&program, &mut cache, DEFAULT_DEPTH)
}

fn eval(e: Expression) -> Result<Rc<Val>, BuildError> {
    run(vec![expr_stmt(e)])
}

fn value_of(e: Expression) -> Rc<Val> {
    match eval(e) {
        Ok(v) => v,
        Err(e) => panic!("evaluation failed: {}", e.render()),
    }
}

fn error_of(e: Expression) -> BuildError {
    match eval(e) {
        Ok(v) => panic!("evaluation gave {:?}", v),
        Err(e) => e,
    }
}

fn innermost(e: &BuildError) -> &BuildError {
    match &e.cause {
        Some(c) => innermost(c),
        None => e,
    }
}


fn tree(links: Vec<(&str, &str)>, files: Vec<FileEntry>) -> FileTree {
    FileTree {
        links: links.into_iter().map(|(a, b)| (a.to_string(), b.to_string())).collect(),
        files,
    }
}

fn traced(e: Expression) -> Expression {
    Expression::Debug(DebugDef { pos: pos(), expr: Box::new(e) })
}

#[test]
fn a_module_instance_is_the_tuple_of_its_bindings() {
    let program = vec![
        let_stmt(
            "m",
            module(
                None,
                vec![("x", int_lit(1)), ("y", str_lit("a"))],
                vec![
                    let_stmt("z", bin(BinaryExprType::Add, dot(sym("mod"), sym("x")), int_lit(1))),
                    let_stmt("w", dot(sym("mod"), sym("y"))),
                ],
                None,
            ),
        ),
        let_stmt("inst", copy("m", vec![("x", int_lit(5))])),
        expr_stmt(list_lit(vec![
            dot(sym("inst"), sym("z")),
            dot(sym("inst"), sym("w")),
            dot(dot(sym("inst"), sym("mod")), sym("x")),
        ])),
    ];
    assert_eq!(*run(program).unwrap(), list_val(vec![Val::Int(6), text_val("a"), Val::Int(5)]));
}

#[test]
fn a_module_instance_lists_its_bindings_in_the_order_they_were_made() {
    let program = vec![
        let_stmt(
            "m",
            module(
                None,
                vec![],
                vec![let_stmt("zz", int_lit(1)), let_stmt("aa", int_lit(2)), let_stmt("mm", int_lit(3))],
                None,
            ),
        ),
        expr_stmt(reduce_op(
            func(vec!["acc", "k", "v"], bin(BinaryExprType::Add, sym("acc"), sym("k"))),
            str_lit(""),
            copy("m", vec![]),
        )),
    ];
    assert_eq!(*run(program).unwrap(), text_val("modzzaamm"));
}

#[test]
fn a_module_with_an_output_expression_gives_its_value() {
    let program = vec![
        let_stmt(
            "m",
            module(
                None,
                vec![("n", int_lit(2))],
                vec![let_stmt("sq", bin(BinaryExprType::Mul, dot(sym("mod"), sym("n")), dot(sym("mod"), sym("n"))))],
                Some(sym("sq")),
            ),
        ),
        expr_stmt(list_lit(vec![copy("m", vec![]), copy("m", vec![("n", int_lit(7))])])),
    ];
    assert_eq!(*run(program).unwrap(), list_val(vec![Val::Int(4), Val::Int(49)]));
}

#[test]
fn a_module_does_not_see_the_bindings_around_it() {
    let program = vec![
        let_stmt("outer", int_lit(1)),
        let_stmt("m", module(None, vec![], vec![let_stmt("z", sym("outer"))], None)),
        expr_stmt(copy("m", vec![])),
    ];
    let e = run(program).unwrap_err();
    assert_eq!(e.err_type, ErrorType::NoSuchSymbol);
    assert_eq!(e.msg, "Unable to find binding outer");
}

#[test]
fn module_arguments_keep_their_types() {
    let program = vec![
        let_stmt("m", module(None, vec![("x", int_lit(1))], vec![], None)),
        expr_stmt(copy("m", vec![("x", str_lit("no"))])),
    ];
    let e = run(program).unwrap_err();
    assert_eq!(e.err_type, ErrorType::TypeFail);
    assert_eq!(e.msg, "Expected type Int for field x but got Str");
}

#[test]
fn this_is_the_module_itself() {
    let body = vec![let_stmt(
        "total",
        select(
            bin(BinaryExprType::LTEqual, dot(sym("mod"), sym("n")), int_lit(0)),
            vec![
                ("true", int_lit(0)),
                (
                    "false",
                    bin(
                        BinaryExprType::Add,
                        dot(sym("mod"), sym("n")),
                        dot(
                            dot(sym("mod"), Expression::Copy(CopyDef {
                                selector: sym_value("this"),
                                fields: fields(vec![("n", bin(BinaryExprType::Sub, dot(sym("mod"), sym("n")), int_lit(1)))]),
                                pos: pos(),
                            })),
                            sym("total"),
                        ),
                    ),
                ),
            ],
            None,
        ),
    )];
    let program = vec![
        let_stmt("sum_to", module(None, vec![("n", int_lit(0))], body, None)),
        expr_stmt(dot(copy("sum_to", vec![("n", int_lit(4))]), sym("total"))),
    ];
    assert_eq!(*run(program).unwrap(), Val::Int(10));
}

#[test]
fn a_module_that_never_stops_runs_out_of_depth() {
    let body = vec![let_stmt(
        "again",
        dot(sym("mod"), Expression::Copy(CopyDef { selector: sym_value("this"), fields: vec![], pos: pos() })),
    )];
    let program = vec![
        let_stmt("forever", module(None, vec![], body, None)),
        expr_stmt(copy("forever", vec![])),
    ];
    let e = run(program).unwrap_err();
    assert_eq!(e.err_type, ErrorType::Unsupported);
    assert_eq!(e.msg, "Evaluation nests too deeply");
}

#[test]
fn an_import_gives_the_bindings_of_the_file() {
    let files = tree(
        vec![("/work/lib.ucg", "/work/lib.ucg")],
        vec![source_file(
            "/work/lib.ucg",
            "",
            vec![let_stmt("b", int_lit(2)), let_stmt("a", bin(BinaryExprType::Add, sym("b"), int_lit(1)))],
        )],
    );
    let mut b = builder_with(files);
    let mut session = Session::new();
    let v = b
        .eval_stmts_last(&vec![let_stmt("lib", import_of("lib.ucg")), expr_stmt(sym("lib"))], &mut session, DEFAULT_DEPTH)
        .unwrap();
    assert_eq!(*v, tuple_val(vec![("b", Val::Int(2)), ("a", Val::Int(3))]));
    assert_eq!(session.get("/work/lib.ucg"), Some(v));
}

#[test]
fn a_file_is_evaluated_once_however_often_it_is_imported() {
    let files = tree(
        vec![("/work/lib.ucg", "/work/lib.ucg"), ("/work/other.ucg", "/work/other.ucg")],
        vec![
            source_file("/work/lib.ucg", "", vec![let_stmt("a", traced(int_lit(1)))]),
            source_file("/work/other.ucg", "", vec![let_stmt("lib", import_of("lib.ucg"))]),
        ],
    );
    let mut b = builder_with(files);
    let mut session = Session::new();
    let program = vec![
        let_stmt("one", import_of("lib.ucg")),
        let_stmt("two", import_of("/work/lib.ucg")),
        let_stmt("three", import_of("other.ucg")),
        expr_stmt(list_lit(vec![
            dot(sym("one"), sym("a")),
            dot(sym("two"), sym("a")),
            dot(dot(sym("three"), sym("lib")), sym("a")),
        ])),
    ];
    let v = b.eval_stmts_last(&program, &mut session, DEFAULT_DEPTH).unwrap();
    assert_eq!(*v, list_val(vec![Val::Int(1), Val::Int(1), Val::Int(1)]));
    assert_eq!(session.notices.len(), 1);
    assert_eq!(session.cache.map.len(), 2);
}

#[test]
fn an_import_is_cached_under_the_canonical_path() {
    let files = tree(
        vec![("/work/link.ucg", "/real/file.ucg"), ("/real/file.ucg", "/real/file.ucg")],
        vec![source_file("/real/file.ucg", "", vec![let_stmt("a", traced(int_lit(1)))])],
    );
    let mut b = builder_with(files);
    let mut session = Session::new();
    let program = vec![
        let_stmt("one", import_of("link.ucg")),
        let_stmt("two", import_of("/real/file.ucg")),
    ];
    b.eval_stmts(&program, &mut session, DEFAULT_DEPTH).unwrap();
    assert!(session.get("/real/file.ucg").is_some());
    assert!(session.get("/work/link.ucg").is_none());
    assert_eq!(session.notices.len(), 1);
}

#[test]
fn an_import_looks_in_the_working_directory_then_in_the_search_paths() {
    let files = tree(
        vec![
            ("/work/here.ucg", "/work/here.ucg"),
            ("/lib2/here.ucg", "/lib2/here.ucg"),
            ("/lib2/there.ucg", "/lib2/there.ucg"),
            ("/lib3/there.ucg", "/lib3/there.ucg"),
        ],
        vec![
            source_file("/work/here.ucg", "", vec![let_stmt("from", str_lit("work"))]),
            source_file("/lib2/here.ucg", "", vec![let_stmt("from", str_lit("lib2"))]),
            source_file("/lib2/there.ucg", "", vec![let_stmt("from", str_lit("lib2"))]),
            source_file("/lib3/there.ucg", "", vec![let_stmt("from", str_lit("lib3"))]),
        ],
    );
    let mut b = builder_over(vec!["/lib1", "/lib2", "/lib3"], vec![], StdLib::new(), files);
    let mut session = Session::new();
    let program = vec![expr_stmt(list_lit(vec![
        dot(import_of("here.ucg"), sym("from")),
        dot(import_of("there.ucg"), sym("from")),
    ]))];
    let v = b.eval_stmts_last(&program, &mut session, DEFAULT_DEPTH).unwrap();
    assert_eq!(*v, list_val(vec![text_val("work"), text_val("lib2")]));
}

#[test]
fn an_imported_file_imports_relative_to_its_own_directory() {
    let files = tree(
        vec![
            ("/work/sub/a.ucg", "/work/sub/a.ucg"),
            ("/work/sub/b.ucg", "/work/sub/b.ucg"),
            ("/work/b.ucg", "/work/b.ucg"),
        ],
        vec![
            source_file("/work/sub/a.ucg", "", vec![let_stmt("b", import_of("b.ucg"))]),
            source_file("/work/sub/b.ucg", "", vec![let_stmt("from", str_lit("sub"))]),
            source_file("/work/b.ucg", "", vec![let_stmt("from", str_lit("work"))]),
        ],
    );
    let mut b = builder_with(files);
    let mut session = Session::new();
    let program = vec![expr_stmt(dot(dot(import_of("sub/a.ucg"), sym("b")), sym("from")))];
    assert_eq!(*b.eval_stmts_last(&program, &mut session, DEFAULT_DEPTH).unwrap(), text_val("sub"));
}

#[test]
fn an_import_that_names_no_file_is_an_import_error() {
    let e = error_of(import_of("missing.ucg"));
    assert_eq!(e.err_type, ErrorType::ImportError);
    assert_eq!(e.msg, "No Such Import");
    let cause = innermost(&e);
    assert_eq!(cause.err_type, ErrorType::OSError);
    assert_eq!(cause.msg, "Path not found /work/missing.ucg");
}

#[test]
fn an_import_of_a_file_that_cannot_be_opened_is_an_import_error() {
    let files = tree(vec![("/work/ghost.ucg", "/work/ghost.ucg")], vec![]);
    let mut b = builder_with(files);
    let mut session = Session::new();
    let e = b
        .eval_stmts_last(&vec![expr_stmt(import_of("ghost.ucg"))], &mut session, DEFAULT_DEPTH)
        .unwrap_err();
    assert_eq!(e.err_type, ErrorType::ImportError);
    assert_eq!(e.msg, "Import failed");
    assert_eq!(innermost(&e).msg, "Error opening file /work/ghost.ucg");
    assert!(session.get("/work/ghost.ucg").is_none());
}

#[test]
fn an_import_of_a_file_that_does_not_parse_is_a_parse_error() {
    let files = tree(
        vec![("/work/bad.ucg", "/work/bad.ucg")],
        vec![FileEntry {
            path: "/work/bad.ucg".to_string(),
            text: "let = ;".to_string(),
            source: Source::Invalid("expected a name".to_string()),
            decoded: vec![],
        }],
    );
    let mut b = builder_with(files);
    let mut session = Session::new();
    let e = b
        .eval_stmts_last(&vec![expr_stmt(import_of("bad.ucg"))], &mut session, DEFAULT_DEPTH)
        .unwrap_err();
    assert_eq!(e.err_type, ErrorType::ImportError);
    let parse = e.cause.as_ref().unwrap();
    assert_eq!(parse.err_type, ErrorType::ParseError);
    assert_eq!(parse.msg, "Unable to parse input");
    assert_eq!(innermost(&e).msg, "expected a name");
}

#[test]
fn an_error_in_an_imported_file_is_wrapped_with_the_importing_site() {
    let files = tree(
        vec![("/work/lib.ucg", "/work/lib.ucg")],
        vec![source_file("/work/lib.ucg", "", vec![let_stmt("a", fail_with(str_lit("inside")))])],
    );
    let mut b = builder_with(files);
    let mut session = Session::new();
    let site = Expression::Import(ImportDef { pos: at(7, 3), path: tok("lib.ucg") });
    let e = b.eval_stmts_last(&vec![expr_stmt(site)], &mut session, DEFAULT_DEPTH).unwrap_err();
    assert_eq!(e.err_type, ErrorType::ImportError);
    assert_eq!(e.pos, Some(at(7, 3)));
    let inner = e.cause.as_ref().unwrap();
    assert_eq!(inner.err_type, ErrorType::UserDefined);
    assert_eq!(inner.msg, "inside");
    assert_eq!(
        e.render(),
        "ImportError: Import failed at <eval> line: 7, column: 3\nCaused By:\n\tUserDefined: inside at <eval> line: 1, column: 1"
    );
}

#[test]
fn a_file_that_imports_itself_is_an_import_cycle() {
    let files = tree(
        vec![("/work/a.ucg", "/work/a.ucg")],
        vec![source_file("/work/a.ucg", "", vec![let_stmt("me", import_of("a.ucg"))])],
    );
    let mut b = builder_with(files);
    let mut session = Session::new();
    let e = b.eval_stmts_last(&vec![expr_stmt(import_of("a.ucg"))], &mut session, DEFAULT_DEPTH).unwrap_err();
    let root = innermost(&e);
    assert_eq!(root.err_type, ErrorType::Unsupported);
    assert_eq!(root.msg, "Import Cycle Detected!!!! /work/a.ucg is already in import stack");
}

#[test]
fn a_cycle_through_three_files_is_detected() {
    let files = tree(
        vec![("/work/a.ucg", "/work/a.ucg"), ("/work/b.ucg", "/work/b.ucg"), ("/work/c.ucg", "/work/c.ucg")],
        vec![
            source_file("/work/a.ucg", "", vec![let_stmt("x", import_of("b.ucg"))]),
            source_file("/work/b.ucg", "", vec![let_stmt("x", import_of("c.ucg"))]),
            source_file("/work/c.ucg", "", vec![let_stmt("x", import_of("a.ucg"))]),
        ],
    );
    let mut b = builder_with(files);
    let mut session = Session::new();
    let e = b.eval_stmts_last(&vec![expr_stmt(import_of("a.ucg"))], &mut session, DEFAULT_DEPTH).unwrap_err();
    assert_eq!(innermost(&e).err_type, ErrorType::Unsupported);
    assert!(innermost(&e).msg.contains("Import Cycle Detected"));
    assert!(b.detect_import_cycle("/work/a.ucg") == false);
}

#[test]
fn the_standard_library_is_imported_by_name() {
    let std = StdLib {
        libs: vec![(
            "std/nums.ucg".to_string(),
            Source::Parsed(Rc::new(vec![let_stmt("one", traced(int_lit(1)))])),
        )],
    };
    let mut b = builder_over(vec![], vec![], std, FileTree::new());
    let mut session = Session::new();
    let program = vec![expr_stmt(bin(
        BinaryExprType::Add,
        dot(import_of("std/nums.ucg"), sym("one")),
        dot(import_of("std/nums.ucg"), sym("one")),
    ))];
    assert_eq!(*b.eval_stmts_last(&program, &mut session, DEFAULT_DEPTH).unwrap(), Val::Int(2));
    assert_eq!(session.notices.len(), 1);
    assert!(session.get("std/nums.ucg").is_some());
    let e = b
        .eval_stmts_last(&vec![expr_stmt(import_of("std/none.ucg"))], &mut session, DEFAULT_DEPTH)
        .unwrap_err();
    assert_eq!(e.err_type, ErrorType::Unsupported);
    assert_eq!(e.msg, "No such import std/none.ucg in the std library.");
}

#[test]
fn a_module_imports_relative_to_the_file_that_defines_it() {
    let files = tree(
        vec![
            ("/work/lib/m.ucg", "/work/lib/m.ucg"),
            ("/work/lib/data.ucg", "/work/lib/data.ucg"),
            ("/work/data.ucg", "/work/data.ucg"),
        ],
        vec![
            source_file(
                "/work/lib/m.ucg",
                "",
                vec![let_stmt(
                    "m",
                    module(
                        Some("/work/lib/m.ucg"),
                        vec![],
                        vec![let_stmt("d", dot(import_of("data.ucg"), sym("from")))],
                        Some(sym("d")),
                    ),
                )],
            ),
            source_file("/work/lib/data.ucg", "", vec![let_stmt("from", str_lit("lib"))]),
            source_file("/work/data.ucg", "", vec![let_stmt("from", str_lit("work"))]),
        ],
    );
    let mut b = builder_with(files);
    let mut session = Session::new();
    let program = vec![
        let_stmt("lib", import_of("lib/m.ucg")),
        expr_stmt(dot(sym("lib"), Expression::Copy(CopyDef { selector: sym_value("m"), fields: vec![], pos: pos() }))),
    ];
    assert_eq!(*b.eval_stmts_last(&program, &mut session, DEFAULT_DEPTH).unwrap(), text_val("lib"));
}

#[test]
fn pkg_imports_the_file_that_defines_the_module() {
    let files = tree(
        vec![("/work/lib.ucg", "/work/lib.ucg")],
        vec![source_file(
            "/work/lib.ucg",
            "",
            vec![
                let_stmt("version", int_lit(3)),
                let_stmt(
                    "m",
                    module(
                        Some("/work/lib.ucg"),
                        vec![],
                        vec![let_stmt(
                            "v",
                            dot(
                                dot(sym("mod"), Expression::Call(CallDef { funcref: sym_value("pkg"), arglist: vec![], pos: pos() })),
                                sym("version"),
                            ),
                        )],
                        Some(sym("v")),
                    ),
                ),
            ],
        )],
    );
    let mut b = builder_with(files);
    let mut session = Session::new();
    let program = vec![
        let_stmt("lib", import_of("lib.ucg")),
        expr_stmt(dot(sym("lib"), Expression::Copy(CopyDef { selector: sym_value("m"), fields: vec![], pos: pos() }))),
    ];
    assert_eq!(*b.eval_stmts_last(&program, &mut session, DEFAULT_DEPTH).unwrap(), Val::Int(3));
}

fn data_file(path: &str, text: &str, decoded: Vec<(&str, Result<Val, &str>)>) -> FileEntry {
    FileEntry {
        path: path.to_string(),
        text: text.to_string(),
        source: Source::Invalid("not a program".to_string()),
        decoded: decoded
            .into_iter()
            .map(|(name, v)| Decoded {
                importer: name.to_string(),
                value: match v {
                    Ok(v) => Ok(Rc::new(v)),
                    Err(m) => Err(m.to_string()),
                },
            })
            .collect(),
    }
}

fn include_tree() -> FileTree {
    tree(
        vec![
            ("/work/data.json", "/work/data.json"),
            ("/work/empty.json", "/work/empty.json"),
            ("/work/bad.json", "/work/bad.json"),
            ("/work/raw.json", "/work/raw.json"),
            ("/lib/only.json", "/lib/only.json"),
        ],
        vec![
            data_file(
                "/work/data.json",
                "{\"a\": 1}",
                vec![("yaml", Ok(text_val("from yaml"))), ("json", Ok(tuple_val(vec![("a", Val::Int(1))])))],
            ),
            data_file("/work/empty.json", "", vec![("json", Err("unexpected end"))]),
            data_file("/work/bad.json", "{", vec![("json", Err("unexpected end"))]),
            data_file("/work/raw.json", "[]", vec![]),
            data_file("/lib/only.json", "1", vec![("json", Ok(Val::Int(1)))]),
        ],
    )
}

fn include_run(e: Expression) -> (Result<Rc<Val>, BuildError>, Session) {
    let mut b = builder_over(vec!["/lib"], vec![], StdLib::new(), include_tree());
    let mut session = Session::new();
    let r = b.eval_stmts_last(&vec![expr_stmt(e)], &mut session, DEFAULT_DEPTH);
    (r, session)
}

#[test]
fn an_include_as_str_is_the_text_of_the_file() {
    let (r, session) = include_run(include_of("str", "data.json"));
    assert_eq!(*r.unwrap(), text_val("{\"a\": 1}"));
    assert!(session.notices.is_empty());
    let (r, _) = include_run(include_of("str", "empty.json"));
    assert_eq!(*r.unwrap(), text_val(""));
}

#[test]
fn an_include_is_what_the_named_decoder_made_of_the_file() {
    let (r, _) = include_run(include_of("json", "data.json"));
    assert_eq!(*r.unwrap(), tuple_val(vec![("a", Val::Int(1))]));
    let (r, _) = include_run(include_of("yaml", "/work/data.json"));
    assert_eq!(*r.unwrap(), text_val("from yaml"));
}

#[test]
fn an_include_of_an_empty_file_is_the_empty_value_with_a_notice() {
    let (r, session) = include_run(include_of("json", "empty.json"));
    assert_eq!(*r.unwrap(), Val::Empty);
    assert_eq!(session.notices, vec!["including an empty file. Use NULL as the result".to_string()]);
}

#[test]
fn an_include_with_an_unknown_decoder_is_unsupported() {
    let (r, _) = include_run(include_of("toml2", "data.json"));
    let e = r.unwrap_err();
    assert_eq!(e.err_type, ErrorType::Unsupported);
    assert_eq!(e.msg, "Unknown include conversion type toml2");
    let (r, _) = include_run(include_of("toml2", "missing.json"));
    assert_eq!(r.unwrap_err().err_type, ErrorType::Unsupported);
}

#[test]
fn an_include_that_cannot_be_decoded_is_an_include_error() {
    let (r, _) = include_run(include_of("json", "bad.json"));
    let e = r.unwrap_err();
    assert_eq!(e.err_type, ErrorType::IncludeError);
    assert_eq!(e.msg, "json include failed for bad.json");
    assert_eq!(e.cause.as_ref().unwrap().msg, "unexpected end");
    let (r, _) = include_run(include_of("json", "raw.json"));
    let e = r.unwrap_err();
    assert_eq!(e.err_type, ErrorType::IncludeError);
    assert_eq!(e.cause.as_ref().unwrap().msg, "The file was not decoded");
}

#[test]
fn an_include_does_not_look_in_the_search_paths() {
    let (r, _) = include_run(include_of("json", "only.json"));
    let e = r.unwrap_err();
    assert_eq!(e.err_type, ErrorType::TypeFail);
    assert_eq!(e.msg, "Error finding file only.json OSError: Path not found /work/only.json");
    let (r, _) = include_run(include_of("json", "/lib/only.json"));
    assert_eq!(*r.unwrap(), Val::Int(1));
}
