//! What evaluation means: for each form of the language, the value or error
//! that it yields and the session that it leaves, as a function of the builder,
//! the session, the scope and the depth to which evaluation may still nest.

use vstd::prelude::*;
use crate::assets::SessionV;
use crate::ast::{BinaryExprType, BinaryOpDef, CallDef, CopyDef, Expression, FormatArgs, FormatDef,
    FuncOpDef, ImportDef, IncludeDef, LetDef, MapFilterOpDef, ModuleDef, Position, RangeDef,
    ReduceOpDef, SelectDef, Statement, Token, Value};
use crate::bridge::grapheme_clusters;
use crate::build::{BuilderV, is_reserved_word, record_spec, set_binding};
use crate::build::format::{section_end, section_starts, simple_render};
use crate::build::ops::{NumericOp, OrderOp, add_vals_spec, apply_override, base_fields_spec,
    deep_equal_spec, err_at, numeric_spec, order_spec, re_match_spec, type_test};
use crate::error::{BuildErrorV, ErrorType, position_text, render_spec};
use crate::ir::{FuncV, ModuleV, ScopeV, ValV, equal_spec, module_view, names_view, show_spec,
    val_view};
use crate::loader::{FileEntry, Source, parent_spec};
use crate::scope::{find_field, index_of};
use crate::text::{bool_text, nat_text};

verus! {

/// What an evaluation yields, and the session after it.
pub ghost struct Outcome<T> {
    pub res: Result<T, BuildErrorV>,
    pub session: SessionV,
}

/// What the evaluation of a statement yields, and the builder and the session
/// after it.
pub ghost struct Progress {
    pub res: Result<ValV, BuildErrorV>,
    pub builder: BuilderV,
    pub session: SessionV,
}

/// A successful outcome.
pub open spec fn done<T>(v: T, session: SessionV) -> Outcome<T> {
    Outcome { res: Ok(v), session }
}

/// A failed outcome.
pub open spec fn fail<T>(e: BuildErrorV, session: SessionV) -> Outcome<T> {
    Outcome { res: Err(e), session }
}

/// The error of an evaluation that nests deeper than it may.
pub open spec fn depth_error(pos: Position) -> BuildErrorV {
    err_at(ErrorType::Unsupported, "Evaluation nests too deeply"@, pos)
}

/// The error of a name that stands for nothing.
pub open spec fn no_binding_error(name: Seq<char>, pos: Position) -> BuildErrorV {
    err_at(ErrorType::NoSuchSymbol, "Unable to find binding "@ + name, pos)
}

/// The names of a list of fields of the syntax tree.
pub open spec fn token_names(fs: Seq<(Token, Expression)>) -> Seq<Seq<char>> {
    Seq::new(fs.len(), |i: int| fs[i].0.fragment@)
}

/// The two ways of processing a container element by element.
#[derive(Clone, Copy, Debug, PartialEq, Eq, Structural)]
pub enum ProcessingOpType {
    MapEach,
    Filter,
}

/// Whether a filter keeps an element for which the function returned `v`:
/// it drops it for the empty value and for `false`.
pub open spec fn filter_keeps(v: ValV) -> bool {
    !(v is Empty) && v != ValV::Boolean(false)
}

/// The notice that a traced expression leaves: the value written out in
/// full, and where the expression stands.
pub open spec fn trace_text(v: ValV, pos: Position) -> Seq<char> {
    "TRACE: "@ + show_spec(v) + position_text(pos)
}

/// An expression: its value, or the first error that its evaluation meets. A
/// traced expression that has a value leaves a notice of it.
pub open spec fn eval_expr_spec(b: BuilderV, c: SessionV, e: Expression, s: ScopeV, d: nat) -> Outcome<
    ValV,
>
    decreases d, 0nat, 0nat,
{
    if d == 0 {
        fail(depth_error(e.pos_spec()), c)
    } else {
        let d1 = (d - 1) as nat;
        match e {
            Expression::Simple(v) => eval_value_spec(b, c, v, s, d1),
            Expression::Binary(def) => eval_binary_spec(b, c, def, s, d1),
            Expression::Copy(def) => eval_copy_spec(b, c, def, s, d1),
            Expression::Range(def) => eval_range_spec(b, c, def, s, d1),
            Expression::Grouped(inner, _) => eval_expr_spec(b, c, *inner, s, d1),
            Expression::Format(def) => eval_format_spec(b, c, def, s, d1),
            Expression::Call(def) => eval_call_spec(b, c, def, s, d1),
            Expression::Func(def) => done(
                ValV::Func(
                    FuncV {
                        scope: Some(Box::new(s.spawn_child())),
                        argdefs: names_view(def.argdefs@),
                        fields: *def.fields,
                        pos: def.pos,
                    },
                ),
                c,
            ),
            Expression::Module(def) => eval_module_def_spec(b, c, def, s, d1),
            Expression::Select(def) => eval_select_spec(b, c, def, s, d1),
            Expression::FuncOp(def) => eval_func_op_spec(b, c, def, s, d1),
            Expression::Include(def) => eval_include_spec(b, c, s, def),
            Expression::Import(def) => eval_import_spec(b, c, def, s, d1),
            Expression::Fail(def) => {
                let r = eval_expr_spec(b, c, *def.message, s, d1);
                match r.res {
                    Ok(ValV::Str(m)) => fail(err_at(ErrorType::UserDefined, m, def.pos), r.session),
                    Ok(v) => fail(
                        err_at(
                            ErrorType::TypeFail,
                            "Expected string for message but got ("@ + v.type_label() + ")"@,
                            def.message.pos_spec(),
                        ),
                        r.session,
                    ),
                    Err(_) => r,
                }
            },
            Expression::Debug(def) => {
                let r = eval_expr_spec(b, c, *def.expr, s, d1);
                match r.res {
                    Ok(v) => Outcome { res: Ok(v), session: r.session.note(trace_text(v, def.pos)) },
                    Err(_) => r,
                }
            },
            Expression::Not(def) => {
                let r = eval_expr_spec(b, c, *def.expr, s, d1);
                match r.res {
                    Ok(ValV::Boolean(x)) => done(ValV::Boolean(!x), r.session),
                    Ok(v) => fail(
                        err_at(
                            ErrorType::TypeFail,
                            "Expected boolean for expression but got ("@ + v.type_label() + ")"@,
                            def.expr.pos_spec(),
                        ),
                        r.session,
                    ),
                    Err(_) => r,
                }
            },
        }
    }
}

/// The call of a function on evaluated arguments. More arguments than
/// parameters are an error; with fewer, the last parameters stay unbound. The
/// body is evaluated in a child of the scope that the function captured, with
/// each parameter bound to its argument.
pub open spec fn func_eval_spec(b: BuilderV, c: SessionV, f: FuncV, args: Seq<ValV>, d: nat) -> Outcome<
    ValV,
>
    decreases d, 1nat, 0nat,
{
    if args.len() > f.argdefs.len() {
        fail(err_at(ErrorType::BadArgLen, "Func called with too many args"@, f.pos), c)
    } else {
        let nb = call_builder(b, f, args);
        eval_expr_spec(nb, c, f.fields, nb.scope.spawn_child(), d)
    }
}

/// The builder that evaluates the body of a function.
pub open spec fn call_builder(b: BuilderV, f: FuncV, args: Seq<ValV>) -> BuilderV {
    let nb = b.clone_builder();
    let base = match f.scope {
        Some(sc) => sc.spawn_child(),
        None => nb.scope,
    };
    BuilderV {
        scope: ScopeV { build_output: bind_args(base.build_output, f.argdefs, args, 0), ..base },
        ..nb
    }
}

/// The bindings after each argument, from index `i` on, is bound to its
/// parameter. Of two parameters with one name the first gets its argument.
pub open spec fn bind_args(
    bs: Seq<(Seq<char>, ValV)>,
    names: Seq<Seq<char>>,
    args: Seq<ValV>,
    i: int,
) -> Seq<(Seq<char>, ValV)>
    decreases args.len() - i,
{
    if 0 <= i < args.len() && i < names.len() {
        bind_args(
            if index_of(names, names[i], 0) == Some(i) {
                set_binding(bs, names[i], args[i])
            } else {
                bs
            },
            names,
            args,
            i + 1,
        )
    } else {
        bs
    }
}

/// The values of a list of expressions, from index `i` on, after `acc`.
pub open spec fn eval_exprs_acc(
    b: BuilderV,
    c: SessionV,
    es: Seq<Expression>,
    s: ScopeV,
    d: nat,
    i: int,
    acc: Seq<ValV>,
) -> Outcome<Seq<ValV>>
    decreases d, 2nat, es.len() - i,
{
    if 0 <= i < es.len() {
        let r = eval_expr_spec(b, c, es[i], s, d);
        match r.res {
            Ok(v) => eval_exprs_acc(b, r.session, es, s, d, i + 1, acc.push(v)),
            Err(e) => fail(e, r.session),
        }
    } else {
        done(acc, c)
    }
}

/// The values of a list of named expressions, from index `i` on, after `acc`.
pub open spec fn eval_fields_acc(
    b: BuilderV,
    c: SessionV,
    fs: Seq<(Token, Expression)>,
    s: ScopeV,
    d: nat,
    i: int,
    acc: Seq<(Seq<char>, ValV)>,
) -> Outcome<Seq<(Seq<char>, ValV)>>
    decreases d, 2nat, fs.len() - i,
{
    if 0 <= i < fs.len() {
        let r = eval_expr_spec(b, c, fs[i].1, s, d);
        match r.res {
            Ok(v) => eval_fields_acc(b, r.session, fs, s, d, i + 1, acc.push((fs[i].0.fragment@, v))),
            Err(e) => fail(e, r.session),
        }
    } else {
        done(acc, c)
    }
}

/// A simple value: a literal is itself, a symbol what the scope holds for it,
/// a list or tuple literal the values of its parts in order.
pub open spec fn eval_value_spec(b: BuilderV, c: SessionV, v: Value, s: ScopeV, d: nat) -> Outcome<ValV>
    decreases d, 4nat, 0nat,
{
    match v {
        Value::Empty(_) => done(ValV::Empty, c),
        Value::Boolean(x) => done(ValV::Boolean(x.val), c),
        Value::Int(x) => done(ValV::Int(x.val), c),
        Value::Float(x) => done(ValV::Float(x.val), c),
        Value::Str(x) => done(ValV::Str(x.val@), c),
        Value::Symbol(x) => match s.lookup_sym(x.val@, true) {
            Some(found) => done(found, c),
            None => fail(no_binding_error(x.val@, x.pos), c),
        },
        Value::List(def) => eval_list_spec(b, c, def.elems@, s, d),
        Value::Tuple(t) => eval_tuple_spec(b, c, t.val@, s, d),
    }
}

/// A list literal: the values of its elements, in order.
pub open spec fn eval_list_spec(b: BuilderV, c: SessionV, es: Seq<Expression>, s: ScopeV, d: nat)
    -> Outcome<ValV>
    decreases d, 3nat, 0nat,
{
    let r = eval_exprs_acc(b, c, es, s, d, 0, Seq::empty());
    match r.res {
        Ok(vs) => done(ValV::List(vs), r.session),
        Err(e) => fail(e, r.session),
    }
}

/// A tuple literal: its fields with their values, in order.
pub open spec fn eval_tuple_spec(
    b: BuilderV,
    c: SessionV,
    fs: Seq<(Token, Expression)>,
    s: ScopeV,
    d: nat,
) -> Outcome<ValV>
    decreases d, 3nat, 0nat,
{
    let r = eval_fields_acc(b, c, fs, s, d, 0, Seq::empty());
    match r.res {
        Ok(fields) => done(ValV::Tuple(fields), r.session),
        Err(e) => fail(e, r.session),
    }
}

/// What a name or an index selects from the current value of a scope.
pub open spec fn do_dot_lookup_spec(b: BuilderV, c: SessionV, right: Expression, s: ScopeV, d: nat)
    -> Outcome<ValV>
    decreases d, 5nat, 0nat,
{
    let pos = right.pos_spec();
    let sc = s.use_curr_val();
    match right {
        Expression::Copy(_) => eval_expr_spec(b, c, right, sc, d),
        Expression::Call(_) => eval_expr_spec(b, c, right, sc, d),
        Expression::Simple(Value::Symbol(x)) => match sc.lookup_sym(x.val@, true) {
            Some(v) => done(v, c),
            None => fail(no_binding_error(x.val@, pos), c),
        },
        Expression::Simple(Value::Str(x)) => match sc.lookup_sym(x.val@, false) {
            Some(v) => done(v, c),
            None => fail(no_binding_error(x.val@, pos), c),
        },
        Expression::Simple(Value::Int(x)) => Outcome { res: sc.lookup_idx(pos, x.val), session: c },
        _ => {
            let r = eval_expr_spec(b, c, right, sc.spawn_child(), d);
            match r.res {
                Ok(ValV::Int(i)) => Outcome { res: sc.lookup_idx(pos, i), session: r.session },
                Ok(ValV::Str(name)) => match sc.lookup_sym(name, false) {
                    Some(v) => done(v, r.session),
                    None => fail(no_binding_error(name, pos), r.session),
                },
                Ok(v) => fail(
                    err_at(
                        ErrorType::NoSuchSymbol,
                        "Invalid selector lookup "@ + v.type_label(),
                        pos,
                    ),
                    r.session,
                ),
                Err(_) => r,
            }
        },
    }
}

/// The error of an operand of `&&` or `||` that is no boolean.
pub open spec fn bool_operand_error(v: ValV, pos: Position) -> BuildErrorV {
    err_at(
        ErrorType::TypeFail,
        "Expected boolean value for operator but got ("@ + v.type_label() + ")"@,
        pos,
    )
}

/// `&&` and `||`: the right operand is evaluated only where the left one does
/// not decide.
pub open spec fn do_bool_operator_spec(
    b: BuilderV,
    c: SessionV,
    kind: BinaryExprType,
    left: Expression,
    right: Expression,
    s: ScopeV,
    d: nat,
) -> Outcome<ValV>
    decreases d, 5nat, 0nat,
{
    let l = eval_expr_spec(b, c, left, s, d);
    match l.res {
        Ok(ValV::Boolean(x)) => if (kind == BinaryExprType::AND) != x {
            done(ValV::Boolean(x), l.session)
        } else {
            let r = eval_expr_spec(b, l.session, right, s, d);
            match r.res {
                Ok(ValV::Boolean(y)) => done(ValV::Boolean(y), r.session),
                Ok(v) => fail(bool_operand_error(v, right.pos_spec()), r.session),
                Err(_) => r,
            }
        },
        Ok(v) => fail(bool_operand_error(v, left.pos_spec()), l.session),
        Err(_) => l,
    }
}

/// Whether some element of a list deeply equals a value.
pub open spec fn list_contains(els: Seq<ValV>, v: ValV) -> bool {
    exists|i: int| 0 <= i < els.len() && #[trigger] equal_spec(v, els[i]) == Ok::<bool, BuildErrorV>(true)
}

/// `in`: for a list, whether some element deeply equals the left operand; for
/// a tuple, whether the left operand selects something from it.
pub open spec fn do_element_check_spec(
    b: BuilderV,
    c: SessionV,
    left: Expression,
    right: Expression,
    s: ScopeV,
    d: nat,
) -> Outcome<ValV>
    decreases d, 6nat, 0nat,
{
    let r = eval_expr_spec(b, c, right, s, d);
    match r.res {
        Ok(ValV::List(els)) => {
            let l = eval_expr_spec(b, r.session, left, s, d);
            match l.res {
                Ok(v) => done(ValV::Boolean(list_contains(els, v)), l.session),
                Err(_) => l,
            }
        },
        Ok(ValV::Tuple(fs)) => {
            let found = do_dot_lookup_spec(
                b,
                r.session,
                left,
                s.spawn_child().set_curr_val(ValV::Tuple(fs)),
                d,
            );
            done(ValV::Boolean(found.res.is_ok()), found.session)
        },
        Ok(v) => fail(
            err_at(
                ErrorType::TypeFail,
                "Invalid righthand type for in operator "@ + v.type_label(),
                right.pos_spec(),
            ),
            r.session,
        ),
        Err(_) => r,
    }
}

/// `is`: whether the left operand is of the type that the right operand names.
pub open spec fn eval_is_check_spec(b: BuilderV, c: SessionV, def: BinaryOpDef, s: ScopeV, d: nat)
    -> Outcome<ValV>
    decreases d, 5nat, 0nat,
{
    let t = eval_expr_spec(b, c, *def.right, s, d);
    match t.res {
        Ok(ValV::Str(typ)) => {
            let v = eval_expr_spec(b, t.session, *def.left, s, d);
            match v.res {
                Ok(val) => match type_test(typ, val) {
                    Some(x) => done(ValV::Boolean(x), v.session),
                    None => fail(
                        err_at(
                            ErrorType::TypeFail,
                            "Expected valid type name but got ("@ + typ + ")"@,
                            def.right.pos_spec(),
                        ),
                        v.session,
                    ),
                },
                Err(_) => v,
            }
        },
        Ok(other) => fail(
            err_at(
                ErrorType::TypeFail,
                "Expected string expression but got ("@ + other.type_label() + ")"@,
                def.right.pos_spec(),
            ),
            t.session,
        ),
        Err(_) => t,
    }
}

/// The result of an operator on two evaluated operands.
pub open spec fn apply_binary(def: BinaryOpDef, l: ValV, r: ValV) -> Result<ValV, BuildErrorV> {
    let rpos = def.right.pos_spec();
    match def.kind {
        BinaryExprType::Add => add_vals_spec(def.pos, rpos, l, r),
        BinaryExprType::Sub => numeric_spec(NumericOp::Sub, def.pos, rpos, l, r),
        BinaryExprType::Mul => numeric_spec(NumericOp::Mul, def.pos, rpos, l, r),
        BinaryExprType::Div => numeric_spec(NumericOp::Div, def.pos, rpos, l, r),
        BinaryExprType::Mod => numeric_spec(NumericOp::Mod, def.pos, rpos, l, r),
        BinaryExprType::Equal => deep_equal_spec(rpos, l, r, false),
        BinaryExprType::NotEqual => deep_equal_spec(rpos, l, r, true),
        BinaryExprType::GT => order_spec(OrderOp::Greater, rpos, l, r),
        BinaryExprType::LT => order_spec(OrderOp::Less, rpos, l, r),
        BinaryExprType::GTEqual => order_spec(OrderOp::GreaterOrEqual, rpos, l, r),
        BinaryExprType::LTEqual => order_spec(OrderOp::LessOrEqual, rpos, l, r),
        BinaryExprType::REMatch => re_match_spec(l, def.left.pos_spec(), r, rpos, false),
        BinaryExprType::NotREMatch => re_match_spec(l, def.left.pos_spec(), r, rpos, true),
        _ => Err(err_at(ErrorType::Unsupported, "Not an operator on two values"@, def.pos)),
    }
}

/// A binary operation. `in`, `is`, `&&` and `||` evaluate their operands
/// themselves; `.` evaluates the left operand and selects from it; every other
/// operator evaluates the left operand, then the right, then applies itself.
pub open spec fn eval_binary_spec(b: BuilderV, c: SessionV, def: BinaryOpDef, s: ScopeV, d: nat)
    -> Outcome<ValV>
    decreases d, 7nat, 0nat,
{
    match def.kind {
        BinaryExprType::IN => do_element_check_spec(b, c, *def.left, *def.right, s, d),
        BinaryExprType::IS => eval_is_check_spec(b, c, def, s, d),
        BinaryExprType::AND => do_bool_operator_spec(b, c, def.kind, *def.left, *def.right, s, d),
        BinaryExprType::OR => do_bool_operator_spec(b, c, def.kind, *def.left, *def.right, s, d),
        _ => {
            let l = eval_expr_spec(b, c, *def.left, s, d);
            match l.res {
                Ok(lv) => if def.kind == BinaryExprType::DOT {
                    do_dot_lookup_spec(b, l.session, *def.right, s.spawn_child().set_curr_val(lv), d)
                } else {
                    let r = eval_expr_spec(b, l.session, *def.right, s, d);
                    match r.res {
                        Ok(rv) => Outcome { res: apply_binary(def, lv, rv), session: r.session },
                        Err(_) => r,
                    }
                },
                Err(_) => l,
            }
        },
    }
}

/// The fields after the overrides from index `i` on. Each override is
/// evaluated in `s` and applied before the next is evaluated.
pub open spec fn copy_fields_acc(
    b: BuilderV,
    c: SessionV,
    overrides: Seq<(Token, Expression)>,
    s: ScopeV,
    d: nat,
    i: int,
    acc: Seq<(Seq<char>, ValV)>,
) -> Outcome<Seq<(Seq<char>, ValV)>>
    decreases d, 2nat, overrides.len() - i,
{
    if 0 <= i < overrides.len() {
        let r = eval_expr_spec(b, c, overrides[i].1, s, d);
        match r.res {
            Ok(v) => match apply_override(acc, overrides[i].0.fragment@, v, overrides[i].0.pos) {
                Ok(next) => copy_fields_acc(b, r.session, overrides, s, d, i + 1, next),
                Err(e) => fail(e, r.session),
            },
            Err(e) => fail(e, r.session),
        }
    } else {
        done(acc, c)
    }
}

/// A copy of a tuple with overrides: the tuple's fields in their order, each
/// with its last override, followed by the fields that the overrides introduce,
/// in the order in which they do.
pub open spec fn copy_fields_from_base_spec(
    b: BuilderV,
    c: SessionV,
    src_fields: Seq<(Seq<char>, ValV)>,
    overrides: Seq<(Token, Expression)>,
    s: ScopeV,
    d: nat,
) -> Outcome<ValV>
    decreases d, 3nat, 0nat,
{
    match base_fields_spec(src_fields) {
        Ok(fields) => {
            let r = copy_fields_acc(b, c, overrides, s, d, 0, fields);
            match r.res {
                Ok(fs) => done(ValV::Tuple(fs), r.session),
                Err(e) => fail(e, r.session),
            }
        },
        Err(e) => fail(e, c),
    }
}

/// The function that a module instance holds under `pkg`: called without
/// arguments, it imports the file that defines the module.
pub open spec fn pkg_func(file: String, pos: Position, s: ScopeV) -> ValV {
    ValV::Func(
        FuncV {
            scope: Some(Box::new(s.spawn_child())),
            argdefs: Seq::empty(),
            fields: Expression::Import(
                ImportDef { pos, path: Token { fragment: file, pos } },
            ),
            pos,
        },
    )
}

/// The default arguments of a module, overridden first with `pkg`, where the
/// module's file is known, and with `this`, the module itself.
pub open spec fn module_base_fields(m: ModuleV, pos: Position, s: ScopeV) -> Result<
    Seq<(Seq<char>, ValV)>,
    BuildErrorV,
>
    recommends
        m.arg_tuple matches Some(t) && *t is Tuple,
{
    match base_fields_spec(m.arg_tuple->0->Tuple_0) {
        Ok(fields) => {
            let with_pkg = match m.pos.file {
                Some(file) => apply_override(fields, "pkg"@, pkg_func(file, pos, s), pos),
                None => Ok(fields),
            };
            match with_pkg {
                Ok(fs) => apply_override(fs, "this"@, ValV::Module(m), pos),
                Err(e) => Err(e),
            }
        },
        Err(e) => Err(e),
    }
}

/// The builder that runs the statements of a module instance: a clean builder
/// marked as a module, whose relative imports resolve against the module's
/// directory, with the arguments bound to `mod`.
pub open spec fn module_builder(b: BuilderV, m: ModuleV, args: Seq<(Seq<char>, ValV)>) -> BuilderV {
    let nb = b.clone_builder();
    BuilderV {
        is_module: true,
        scope: ScopeV {
            import_root: m.root,
            build_output: seq![("mod"@, ValV::Tuple(args))],
            ..nb.scope
        },
        ..nb
    }
}

/// The instantiation of a module: its arguments are the defaults with the
/// overrides of the copy; its statements run in a builder of their own; the
/// result is the module's output expression or, without one, the tuple of the
/// bindings that the statements made.
pub open spec fn eval_module_copy_spec(
    b: BuilderV,
    c: SessionV,
    def: CopyDef,
    m: ModuleV,
    s: ScopeV,
    d: nat,
) -> Outcome<ValV>
    decreases d, 9nat, 0nat,
{
    if m.arg_tuple matches Some(t) && *t is Tuple {
        let child = s.spawn_child().set_curr_val(*m.arg_tuple->0);
        match module_base_fields(m, def.pos, child) {
            Ok(fields) => {
                let args = copy_fields_acc(b, c, def.fields@, child, d, 0, fields);
                match args.res {
                    Ok(fs) => {
                        let run = eval_stmts_acc(
                            module_builder(b, m, fs),
                            args.session,
                            m.statements,
                            d,
                            0,
                            ValV::Empty,
                        );
                        match run.res {
                            Ok(_) => match m.out_expr {
                                Some(e) => eval_expr_spec(
                                    run.builder,
                                    run.session,
                                    e,
                                    run.builder.scope,
                                    d,
                                ),
                                None => done(
                                    ValV::Tuple(run.builder.scope.build_output),
                                    run.session,
                                ),
                            },
                            Err(e) => fail(e, run.session),
                        }
                    },
                    Err(e) => fail(e, args.session),
                }
            },
            Err(e) => fail(e, c),
        }
    } else {
        fail(
            err_at(
                ErrorType::TypeFail,
                "Weird value stored in our module parameters slot"@,
                def.selector.pos_spec(),
            ),
            c,
        )
    }
}

/// A copy: of a tuple, the tuple with overrides; of a module, an instance.
pub open spec fn eval_copy_spec(b: BuilderV, c: SessionV, def: CopyDef, s: ScopeV, d: nat) -> Outcome<
    ValV,
>
    decreases d, 11nat, 0nat,
{
    let v = eval_value_spec(b, c, def.selector, s, d);
    match v.res {
        Ok(ValV::Tuple(fs)) => copy_fields_from_base_spec(
            b,
            v.session,
            fs,
            def.fields@,
            s.spawn_child().set_curr_val(ValV::Tuple(fs)),
            d,
        ),
        Ok(ValV::Module(m)) => eval_module_copy_spec(b, v.session, def, m, s, d),
        Ok(other) => fail(
            err_at(
                ErrorType::TypeFail,
                "Expected Tuple or Module but got ("@ + other.type_label() + ")"@,
                def.selector.pos_spec(),
            ),
            v.session,
        ),
        Err(_) => v,
    }
}

/// The step that a range advances by: the step itself, or for a negative one
/// the number that its bits stand for when read as unsigned.
pub open spec fn effective_step(step: i64) -> int {
    if step < 0 {
        step + 0x1_0000_0000_0000_0000
    } else {
        step as int
    }
}

/// The integers from `cur` to `end`, `step` apart.
pub open spec fn range_from(cur: int, step: int, end: int) -> Seq<int>
    decreases
            (if cur <= end {
                end - cur + 1
            } else {
                0
            }),
{
    if cur > end || step <= 0 {
        Seq::empty()
    } else {
        seq![cur] + range_from(cur + step, step, end)
    }
}

/// The list of the integers of a range.
pub open spec fn range_list(from: i64, step: int, to: i64) -> ValV {
    let r = range_from(from as int, step, to as int);
    ValV::List(Seq::new(r.len(), |k: int| ValV::Int(r[k] as i64)))
}

/// The error of a bound of a range that is no integer.
pub open spec fn range_bound_error(what: Seq<char>, v: ValV, pos: Position) -> BuildErrorV {
    err_at(
        ErrorType::TypeFail,
        "Expected an integer for range "@ + what + " but got ("@ + v.type_label() + ")"@,
        pos,
    )
}

/// A range: the integers from the start to the end, both included, one step
/// apart. The step is 1 where none is given, and must not be 0.
pub open spec fn eval_range_spec(b: BuilderV, c: SessionV, def: RangeDef, s: ScopeV, d: nat) -> Outcome<
    ValV,
>
    decreases d, 5nat, 0nat,
{
    let pos = def.start.pos_spec();
    let start = eval_expr_spec(b, c, *def.start, s, d);
    match start.res {
        Ok(ValV::Int(from)) => {
            let step = match def.step {
                Some(e) => eval_expr_spec(b, start.session, *e, s, d),
                None => done(ValV::Int(1), start.session),
            };
            match step.res {
                Ok(ValV::Int(by)) => {
                    let end = eval_expr_spec(b, step.session, *def.end, s, d);
                    match end.res {
                        Ok(ValV::Int(to)) => if by == 0 {
                            fail(
                                err_at(ErrorType::Unsupported, "A range cannot step by 0"@, pos),
                                end.session,
                            )
                        } else {
                            done(range_list(from, effective_step(by), to), end.session)
                        },
                        Ok(v) => fail(range_bound_error("end"@, v, pos), end.session),
                        Err(_) => end,
                    }
                },
                Ok(v) => fail(range_bound_error("step"@, v, pos), step.session),
                Err(_) => step,
            }
        },
        Ok(v) => fail(range_bound_error("start"@, v, pos), start.session),
        Err(_) => start,
    }
}

/// The rendering of a template with `@{..}@` sections, from index `i` on. The
/// `k`th section is replaced by the text of the value of the `k`th embedded
/// expression. A backslash makes the character after it ordinary.
pub open spec fn render_sections_acc(
    b: BuilderV,
    c: SessionV,
    def: FormatDef,
    s: ScopeV,
    d: nat,
    i: int,
    k: int,
    escape: bool,
    buf: Seq<char>,
) -> Outcome<Seq<char>>
    decreases d, 2nat, def.template@.len() - i,
{
    let tmpl = def.template@;
    if 0 <= i < tmpl.len() {
        if section_starts(tmpl, i, escape) {
            let end = section_end(tmpl, i + 2);
            if end <= i || end > tmpl.len() {
                fail(
                    err_at(
                        ErrorType::FormatError,
                        "Expected a closing }@ in format string"@,
                        def.pos,
                    ),
                    c,
                )
            } else if 0 <= k < def.embedded@.len() {
                let r = eval_expr_spec(b, c, def.embedded@[k], s, d);
                match r.res {
                    Ok(v) => render_sections_acc(
                        b,
                        r.session,
                        def,
                        s,
                        d,
                        end,
                        k + 1,
                        false,
                        buf + v.text(),
                    ),
                    Err(e) => fail(e, r.session),
                }
            } else {
                fail(
                    err_at(
                        ErrorType::FormatError,
                        "Too few expressions for format string"@,
                        def.pos,
                    ),
                    c,
                )
            }
        } else if tmpl[i] == '\\' && !escape {
            render_sections_acc(b, c, def, s, d, i + 1, k, true, buf)
        } else {
            render_sections_acc(b, c, def, s, d, i + 1, k, false, buf.push(tmpl[i]))
        }
    } else {
        done(buf, c)
    }
}

/// A format expression. With a list of arguments, the template is rendered
/// positionally. With a single argument, its `@{..}@` sections are evaluated in
/// a child scope that binds `item` to the argument.
pub open spec fn eval_format_spec(b: BuilderV, c: SessionV, def: FormatDef, s: ScopeV, d: nat)
    -> Outcome<ValV>
    decreases d, 5nat, 0nat,
{
    match def.args {
        FormatArgs::List(args) => {
            let vals = eval_exprs_acc(b, c, args@, s, d, 0, Seq::empty());
            match vals.res {
                Ok(vs) => match simple_render(def.template@, vs, def.pos) {
                    Ok(text) => done(ValV::Str(text), vals.session),
                    Err(e) => fail(e, vals.session),
                },
                Err(e) => fail(e, vals.session),
            }
        },
        FormatArgs::Single(expr) => {
            let v = eval_expr_spec(b, c, *expr, s, d);
            match v.res {
                Ok(item) => {
                    let child = s.spawn_child();
                    let scope = ScopeV {
                        build_output: set_binding(child.build_output, "item"@, item),
                        ..child
                    };
                    let r = render_sections_acc(b, v.session, def, scope, d, 0, 0, false, Seq::empty());
                    match r.res {
                        Ok(text) => done(ValV::Str(text), r.session),
                        Err(e) => fail(e, r.session),
                    }
                },
                Err(_) => v,
            }
        },
    }
}

/// A call: the callee must be a function; the arguments are evaluated from
/// left to right; the result of the call, value or error, is the result.
pub open spec fn eval_call_spec(b: BuilderV, c: SessionV, def: CallDef, s: ScopeV, d: nat) -> Outcome<
    ValV,
>
    decreases d, 5nat, 0nat,
{
    let v = eval_value_spec(b, c, def.funcref, s, d);
    match v.res {
        Ok(ValV::Func(f)) => {
            let args = eval_exprs_acc(b, v.session, def.arglist@, s, d, 0, Seq::empty());
            match args.res {
                Ok(vs) => func_eval_spec(b, args.session, f, vs, d),
                Err(e) => fail(e, args.session),
            }
        },
        Ok(other) => fail(
            err_at(ErrorType::TypeFail, other.type_label() + " is not a Function"@, def.pos),
            v.session,
        ),
        Err(_) => v,
    }
}

/// A module literal: the module with its default arguments evaluated and the
/// directory recorded against which its relative imports resolve.
pub open spec fn eval_module_def_spec(b: BuilderV, c: SessionV, def: ModuleDef, s: ScopeV, d: nat)
    -> Outcome<ValV>
    decreases d, 5nat, 0nat,
{
    let root = match def.root {
        Some(r) => r@,
        None => b.base_dir(s),
    };
    match def.arg_tuple {
        Some(_) => done(ValV::Module(ModuleV { root: Some(root), ..module_view(def) }), c),
        None => {
            let r = eval_tuple_spec(b, c, (*def.arg_set)@, s, d);
            match r.res {
                Ok(t) => done(
                    ValV::Module(
                        ModuleV {
                            arg_tuple: Some(Box::new(t)),
                            root: Some(root),
                            ..module_view(def)
                        },
                    ),
                    r.session,
                ),
                Err(e) => fail(e, r.session),
            }
        },
    }
}

/// The case of a select that a name picks, else the default, else an error.
pub open spec fn select_case_spec(
    b: BuilderV,
    c: SessionV,
    def: SelectDef,
    name: Seq<char>,
    shown: Seq<char>,
    s: ScopeV,
    d: nat,
) -> Outcome<ValV>
    decreases d, 3nat, 0nat,
{
    match index_of(token_names(def.tuple@), name, 0) {
        Some(i) => eval_expr_spec(b, c, def.tuple@[i].1, s, d),
        None => match def.default {
            Some(e) => eval_expr_spec(b, c, *e, s, d),
            None => fail(
                err_at(
                    ErrorType::TypeFail,
                    "Unhandled select case "@ + shown + " with no default"@,
                    def.val.pos_spec(),
                ),
                c,
            ),
        },
    }
}

/// A select: the discriminator must be a string or a boolean; the first case
/// of its name (for a boolean, `true` or `false`) is evaluated, else the default.
pub open spec fn eval_select_spec(b: BuilderV, c: SessionV, def: SelectDef, s: ScopeV, d: nat)
    -> Outcome<ValV>
    decreases d, 5nat, 0nat,
{
    let v = eval_expr_spec(b, c, *def.val, s, d);
    match v.res {
        Ok(ValV::Str(name)) => select_case_spec(
            b,
            v.session,
            def,
            name,
            "\""@ + name + "\""@,
            s,
            d,
        ),
        Ok(ValV::Boolean(x)) => select_case_spec(b, v.session, def, bool_text(x), bool_text(x), s, d),
        Ok(other) => fail(
            err_at(
                ErrorType::TypeFail,
                "Expected String but got "@ + other.type_label() + " in Select expression"@,
                def.pos,
            ),
            v.session,
        ),
        Err(_) => v,
    }
}

/// A map or a filter over a list, from index `i` on. The function sees each
/// element. A map collects what it returns; a filter keeps the elements for
/// which it returns neither the empty value nor `false`.
pub open spec fn process_list_acc(
    b: BuilderV,
    c: SessionV,
    f: FuncV,
    typ: ProcessingOpType,
    elems: Seq<ValV>,
    d: nat,
    i: int,
    acc: Seq<ValV>,
) -> Outcome<ValV>
    decreases d, 2nat, elems.len() - i,
{
    if 0 <= i < elems.len() {
        let r = func_eval_spec(b, c, f, seq![elems[i]], d);
        match r.res {
            Ok(v) => process_list_acc(
                b,
                r.session,
                f,
                typ,
                elems,
                d,
                i + 1,
                match typ {
                    ProcessingOpType::MapEach => acc.push(v),
                    ProcessingOpType::Filter => if filter_keeps(v) {
                        acc.push(elems[i])
                    } else {
                        acc
                    },
                },
            ),
            Err(_) => r,
        }
    } else {
        done(ValV::List(acc), c)
    }
}

/// The field that a map over a tuple makes of what the function returned: it
/// must be a list of a string, the field's name, and a value.
pub open spec fn mapped_field(v: ValV, pos: Position) -> Result<(Seq<char>, ValV), BuildErrorV> {
    match v {
        ValV::List(l) => if l.len() == 2 {
            match l[0] {
                ValV::Str(name) => Ok((name, l[1])),
                other => Err(
                    err_at(
                        ErrorType::TypeFail,
                        "map on tuple expects the first item out list to be a string but got "@
                            + other.type_label(),
                        pos,
                    ),
                ),
            }
        } else {
            Err(
                err_at(
                    ErrorType::TypeFail,
                    "map on a tuple field expects a list of size 2 as output but got size "@
                        + nat_text(l.len()),
                    pos,
                ),
            )
        },
        other => Err(
            err_at(
                ErrorType::TypeFail,
                "map on a tuple field expects a list as output but got ("@ + other.type_label()
                    + ")"@,
                pos,
            ),
        ),
    }
}

/// A map or a filter over a tuple, from index `i` on. The function sees the
/// name and the value of each field.
pub open spec fn process_tuple_acc(
    b: BuilderV,
    c: SessionV,
    f: FuncV,
    typ: ProcessingOpType,
    fs: Seq<(Seq<char>, ValV)>,
    d: nat,
    i: int,
    acc: Seq<(Seq<char>, ValV)>,
) -> Outcome<ValV>
    decreases d, 2nat, fs.len() - i,
{
    if 0 <= i < fs.len() {
        let r = func_eval_spec(b, c, f, seq![ValV::Str(fs[i].0), fs[i].1], d);
        match r.res {
            Ok(v) => match typ {
                ProcessingOpType::MapEach => match mapped_field(v, f.pos) {
                    Ok(field) => process_tuple_acc(b, r.session, f, typ, fs, d, i + 1, acc.push(field)),
                    Err(e) => fail(e, r.session),
                },
                ProcessingOpType::Filter => process_tuple_acc(
                    b,
                    r.session,
                    f,
                    typ,
                    fs,
                    d,
                    i + 1,
                    if filter_keeps(v) {
                        acc.push(fs[i])
                    } else {
                        acc
                    },
                ),
            },
            Err(_) => r,
        }
    } else {
        done(ValV::Tuple(acc), c)
    }
}

/// What a map or a filter over a string adds for one grapheme. A map adds the
/// string that the function returned. A filter adds the grapheme for `true`
/// and nothing for `false` or the empty value.
pub open spec fn processed_text(typ: ProcessingOpType, g: Seq<char>, v: ValV, pos: Position) -> Result<
    Seq<char>,
    BuildErrorV,
> {
    match typ {
        ProcessingOpType::Filter => match v {
            ValV::Boolean(keep) => Ok(
                if keep {
                    g
                } else {
                    Seq::empty()
                },
            ),
            ValV::Empty => Ok(Seq::empty()),
            other => Err(
                err_at(
                    ErrorType::TypeFail,
                    "Expected boolean or NULL for filter return but got ("@ + other.type_label()
                        + ")"@,
                    pos,
                ),
            ),
        },
        ProcessingOpType::MapEach => match v {
            ValV::Str(t) => Ok(t),
            other => Err(
                err_at(
                    ErrorType::TypeFail,
                    "Expected string map return but got ("@ + other.type_label() + ")"@,
                    pos,
                ),
            ),
        },
    }
}

/// A map or a filter over the graphemes of a string, from index `i` on.
pub open spec fn process_graphemes_acc(
    b: BuilderV,
    c: SessionV,
    f: FuncV,
    typ: ProcessingOpType,
    gs: Seq<Seq<char>>,
    d: nat,
    i: int,
    acc: Seq<char>,
) -> Outcome<ValV>
    decreases d, 2nat, gs.len() - i,
{
    if 0 <= i < gs.len() {
        let r = func_eval_spec(b, c, f, seq![ValV::Str(gs[i])], d);
        match r.res {
            Ok(v) => match processed_text(typ, gs[i], v, f.pos) {
                Ok(t) => process_graphemes_acc(b, r.session, f, typ, gs, d, i + 1, acc + t),
                Err(e) => fail(e, r.session),
            },
            Err(_) => r,
        }
    } else {
        done(ValV::Str(acc), c)
    }
}

/// The error of a higher-order operation whose function is none.
pub open spec fn not_a_func_error(v: ValV, pos: Position) -> BuildErrorV {
    err_at(ErrorType::TypeFail, "Expected func but got ("@ + v.type_label() + ")"@, pos)
}

/// A map or a filter: the target is evaluated, then the function, then the
/// target is processed by its kind.
pub open spec fn eval_functional_processing_spec(
    b: BuilderV,
    c: SessionV,
    def: MapFilterOpDef,
    typ: ProcessingOpType,
    s: ScopeV,
    d: nat,
) -> Outcome<ValV>
    decreases d, 5nat, 0nat,
{
    let target = eval_expr_spec(b, c, *def.target, s, d);
    match target.res {
        Ok(t) => {
            let func = eval_expr_spec(b, target.session, *def.func, s, d);
            match func.res {
                Ok(ValV::Func(f)) => match t {
                    ValV::List(elems) => process_list_acc(
                        b,
                        func.session,
                        f,
                        typ,
                        elems,
                        d,
                        0,
                        Seq::empty(),
                    ),
                    ValV::Tuple(fs) => process_tuple_acc(
                        b,
                        func.session,
                        f,
                        typ,
                        fs,
                        d,
                        0,
                        Seq::empty(),
                    ),
                    ValV::Str(text) => process_graphemes_acc(
                        b,
                        func.session,
                        f,
                        typ,
                        grapheme_clusters(text),
                        d,
                        0,
                        Seq::empty(),
                    ),
                    other => fail(
                        err_at(
                            ErrorType::TypeFail,
                            "Expected List or Tuple as target but got "@ + other.type_label(),
                            def.target.pos_spec(),
                        ),
                        func.session,
                    ),
                },
                Ok(other) => fail(not_a_func_error(other, def.pos), func.session),
                Err(_) => func,
            }
        },
        Err(_) => target,
    }
}

/// The accumulator of a reduction over a list after the elements from index
/// `i` on: the function is called once for each, on the accumulator and the
/// element, and what it returns is the next accumulator.
pub open spec fn reduce_list_acc(
    b: BuilderV,
    c: SessionV,
    f: FuncV,
    elems: Seq<ValV>,
    d: nat,
    i: int,
    acc: ValV,
) -> Outcome<ValV>
    decreases d, 2nat, elems.len() - i,
{
    if 0 <= i < elems.len() {
        let r = func_eval_spec(b, c, f, seq![acc, elems[i]], d);
        match r.res {
            Ok(v) => reduce_list_acc(b, r.session, f, elems, d, i + 1, v),
            Err(_) => r,
        }
    } else {
        done(acc, c)
    }
}

/// A reduction over a tuple: the function is called on the accumulator, the
/// name and the value of each field.
pub open spec fn reduce_tuple_acc(
    b: BuilderV,
    c: SessionV,
    f: FuncV,
    fs: Seq<(Seq<char>, ValV)>,
    d: nat,
    i: int,
    acc: ValV,
) -> Outcome<ValV>
    decreases d, 2nat, fs.len() - i,
{
    if 0 <= i < fs.len() {
        let r = func_eval_spec(b, c, f, seq![acc, ValV::Str(fs[i].0), fs[i].1], d);
        match r.res {
            Ok(v) => reduce_tuple_acc(b, r.session, f, fs, d, i + 1, v),
            Err(_) => r,
        }
    } else {
        done(acc, c)
    }
}

/// A reduction over the graphemes of a string.
pub open spec fn reduce_graphemes_acc(
    b: BuilderV,
    c: SessionV,
    f: FuncV,
    gs: Seq<Seq<char>>,
    d: nat,
    i: int,
    acc: ValV,
) -> Outcome<ValV>
    decreases d, 2nat, gs.len() - i,
{
    if 0 <= i < gs.len() {
        let r = func_eval_spec(b, c, f, seq![acc, ValV::Str(gs[i])], d);
        match r.res {
            Ok(v) => reduce_graphemes_acc(b, r.session, f, gs, d, i + 1, v),
            Err(_) => r,
        }
    } else {
        done(acc, c)
    }
}

/// A reduction: the target is evaluated, then the initial accumulator, then
/// the function; the target is then folded from the left.
pub open spec fn eval_reduce_op_spec(b: BuilderV, c: SessionV, def: ReduceOpDef, s: ScopeV, d: nat)
    -> Outcome<ValV>
    decreases d, 5nat, 0nat,
{
    let target = eval_expr_spec(b, c, *def.target, s, d);
    match target.res {
        Ok(t) => {
            let acc = eval_expr_spec(b, target.session, *def.acc, s, d);
            match acc.res {
                Ok(a) => {
                    let func = eval_expr_spec(b, acc.session, *def.func, s, d);
                    match func.res {
                        Ok(ValV::Func(f)) => match t {
                            ValV::List(elems) => reduce_list_acc(b, func.session, f, elems, d, 0, a),
                            ValV::Tuple(fs) => reduce_tuple_acc(b, func.session, f, fs, d, 0, a),
                            ValV::Str(text) => reduce_graphemes_acc(
                                b,
                                func.session,
                                f,
                                grapheme_clusters(text),
                                d,
                                0,
                                a,
                            ),
                            other => fail(
                                err_at(
                                    ErrorType::TypeFail,
                                    "Expected List Str, or Tuple as target but got "@
                                        + other.type_label(),
                                    def.target.pos_spec(),
                                ),
                                func.session,
                            ),
                        },
                        Ok(other) => fail(not_a_func_error(other, def.pos), func.session),
                        Err(_) => func,
                    }
                },
                Err(_) => acc,
            }
        },
        Err(_) => target,
    }
}

/// A higher-order operation.
pub open spec fn eval_func_op_spec(b: BuilderV, c: SessionV, def: FuncOpDef, s: ScopeV, d: nat)
    -> Outcome<ValV>
    decreases d, 6nat, 0nat,
{
    match def {
        FuncOpDef::Filter(m) => eval_functional_processing_spec(
            b,
            c,
            m,
            ProcessingOpType::Filter,
            s,
            d,
        ),
        FuncOpDef::MapEach(m) => eval_functional_processing_spec(
            b,
            c,
            m,
            ProcessingOpType::MapEach,
            s,
            d,
        ),
        FuncOpDef::Reduce(r) => eval_reduce_op_spec(b, c, r, s, d),
    }
}

/// The file under a canonical path, or the error of a file that the snapshot
/// does not hold.
pub open spec fn open_file_spec(b: BuilderV, pos: Position, path: Seq<char>) -> Result<
    FileEntry,
    BuildErrorV,
> {
    match b.files.file_spec(path) {
        Some(entry) => Ok(entry),
        None => Err(err_at(ErrorType::TypeFail, "Error opening file "@ + path, pos)),
    }
}

/// The file that a path names for an include, or the error of finding or
/// opening it.
pub open spec fn include_file_spec(b: BuilderV, s: ScopeV, pos: Position, path: Seq<char>) -> Result<
    FileEntry,
    BuildErrorV,
> {
    match b.find_file(s, path, false) {
        Ok(p) => open_file_spec(b, pos, p),
        Err(e) => Err(
            err_at(ErrorType::TypeFail, "Error finding file "@ + path + " "@ + render_spec(e), pos),
        ),
    }
}

/// The text of the file that a path names.
pub open spec fn file_text_spec(b: BuilderV, s: ScopeV, pos: Position, path: Seq<char>) -> Result<
    Seq<char>,
    BuildErrorV,
> {
    match include_file_spec(b, s, pos, path) {
        Ok(entry) => Ok(entry.text@),
        Err(e) => Err(e),
    }
}

/// The error of a decoder that could not read a file.
pub open spec fn include_error(def: IncludeDef, cause: Seq<char>) -> BuildErrorV {
    BuildErrorV {
        err_type: ErrorType::IncludeError,
        pos: Some(def.pos),
        msg: def.typ.fragment@ + " include failed for "@ + def.path.fragment@,
        cause: Some(
            Box::new(
                BuildErrorV { err_type: ErrorType::IncludeError, pos: None, msg: cause, cause: None },
            ),
        ),
    }
}

/// The value of an include. As `str`, the text of the file. Otherwise the
/// decoder must be registered; an empty file is the empty value, any other
/// file what the decoder made of it.
pub open spec fn include_value_spec(b: BuilderV, s: ScopeV, def: IncludeDef) -> Result<
    ValV,
    BuildErrorV,
> {
    let typ = def.typ.fragment@;
    if typ == "str"@ {
        match file_text_spec(b, s, def.path.pos, def.path.fragment@) {
            Ok(text) => Ok(ValV::Str(text)),
            Err(e) => Err(e),
        }
    } else if index_of(b.importers, typ, 0).is_none() {
        Err(
            err_at(ErrorType::Unsupported, "Unknown include conversion type "@ + typ, def.typ.pos),
        )
    } else {
        match include_file_spec(b, s, def.path.pos, def.path.fragment@) {
            Ok(entry) => if entry.text@.len() == 0 {
                Ok(ValV::Empty)
            } else {
                match entry.decoded_spec(typ) {
                    Some(decoded) => match decoded.value {
                        Ok(v) => Ok(val_view(*v)),
                        Err(m) => Err(include_error(def, m@)),
                    },
                    None => Err(include_error(def, "The file was not decoded"@)),
                }
            },
            Err(e) => Err(e),
        }
    }
}

/// Whether an include decodes an empty file.
pub open spec fn include_is_empty(b: BuilderV, s: ScopeV, def: IncludeDef) -> bool {
    let typ = def.typ.fragment@;
    typ != "str"@ && index_of(b.importers, typ, 0).is_some() && (match include_file_spec(
        b,
        s,
        def.path.pos,
        def.path.fragment@,
    ) {
        Ok(entry) => entry.text@.len() == 0,
        Err(_) => false,
    })
}

/// An include: its value, and a notice where it decodes an empty file.
pub open spec fn eval_include_spec(b: BuilderV, c: SessionV, s: ScopeV, def: IncludeDef) -> Outcome<
    ValV,
> {
    Outcome {
        res: include_value_spec(b, s, def),
        session: if include_is_empty(b, s, def) {
            c.note("including an empty file. Use NULL as the result"@)
        } else {
            c
        },
    }
}

/// The error of an import that failed, with its cause.
pub open spec fn import_error(msg: Seq<char>, pos: Position, cause: BuildErrorV) -> BuildErrorV {
    BuildErrorV {
        err_type: ErrorType::ImportError,
        pos: Some(pos),
        msg,
        cause: Some(Box::new(cause)),
    }
}

/// The error of a program that the parser refused.
pub open spec fn parse_error(msg: Seq<char>) -> BuildErrorV {
    BuildErrorV {
        err_type: ErrorType::ParseError,
        pos: Some(Position { file: None, line: 1, column: 1, offset: 0 }),
        msg: "Unable to parse input"@,
        cause: Some(
            Box::new(BuildErrorV { err_type: ErrorType::ParseError, pos: None, msg, cause: None }),
        ),
    }
}

/// The builder that evaluates an imported file: a clean builder with the
/// file on its import stack.
pub open spec fn import_builder(b: BuilderV, path: Seq<char>) -> BuilderV {
    let nb = b.clone_builder();
    BuilderV {
        scope: ScopeV { import_stack: nb.scope.import_stack.push(path), import_root: None, ..nb.scope },
        ..nb
    }
}

/// The building of a file: the builder moves to the file's directory,
/// evaluates the file's program and keeps its value as the last one.
pub open spec fn build_spec(b: BuilderV, c: SessionV, path: Seq<char>, d: nat) -> Progress
    decreases d, 9nat, 0nat,
{
    let moved = BuilderV { working_dir: parent_spec(path), ..b };
    match open_file_spec(b, Position { file: None, line: 0, column: 0, offset: 0 }, path) {
        Ok(entry) => {
            let run = eval_input_spec(moved, c, entry.source, d);
            match run.res {
                Ok(v) => Progress {
                    res: Ok(v),
                    builder: BuilderV { last: Some(v), ..run.builder },
                    session: run.session,
                },
                Err(_) => run,
            }
        },
        Err(e) => Progress { res: Err(e), builder: moved, session: c },
    }
}

/// The builder that evaluates a program of the standard library.
pub open spec fn std_builder(b: BuilderV) -> BuilderV {
    let nb = b.clone_builder();
    BuilderV { scope: ScopeV { import_root: None, ..nb.scope }, ..nb }
}

/// An import of a program of the standard library: what the cache holds for
/// its name, else the tuple of the bindings that its statements make, which is
/// then cached.
pub open spec fn eval_std_import_spec(
    b: BuilderV,
    c: SessionV,
    def: ImportDef,
    src: Source,
    d: nat,
) -> Outcome<ValV>
    decreases d, 9nat, 0nat,
{
    let path = def.path.fragment@;
    match c.get(path) {
        Some(v) => done(v, c),
        None => {
            let run = eval_input_spec(std_builder(b), c, src, d);
            match run.res {
                Ok(_) => {
                    let result = ValV::Tuple(run.builder.scope.build_output);
                    done(result, run.session.stash(path, result))
                },
                Err(e) => fail(e, run.session),
            }
        },
    }
}

/// An import of a file: an error where the file is on the import stack; what
/// the cache holds for its canonical path; else the tuple of the bindings that
/// its statements make, which is then cached.
pub open spec fn eval_file_import_spec(
    b: BuilderV,
    c: SessionV,
    def: ImportDef,
    path: Seq<char>,
    d: nat,
) -> Outcome<ValV>
    decreases d, 10nat, 0nat,
{
    if b.detect_import_cycle(path) {
        fail(
            err_at(
                ErrorType::Unsupported,
                "Import Cycle Detected!!!! "@ + path + " is already in import stack"@,
                def.pos,
            ),
            c,
        )
    } else {
        match c.get(path) {
            Some(v) => done(v, c),
            None => {
                let run = build_spec(import_builder(b, path), c, path, d);
                match run.res {
                    Ok(_) => {
                        let result = ValV::Tuple(run.builder.scope.build_output);
                        done(result, run.session.stash(path, result))
                    },
                    Err(e) => fail(import_error("Import failed"@, def.pos, e), run.session),
                }
            },
        }
    }
}

/// An import. A path that begins with `std/` names a program of the standard
/// library. Any other path names a file, which is looked for under the base
/// directory and then under the search paths.
pub open spec fn eval_import_spec(b: BuilderV, c: SessionV, def: ImportDef, s: ScopeV, d: nat)
    -> Outcome<ValV>
    decreases d, 11nat, 0nat,
{
    let path = def.path.fragment@;
    if "std/"@.is_prefix_of(path) {
        match b.std.get_spec(path) {
            Some(src) => eval_std_import_spec(b, c, def, src, d),
            None => fail(
                err_at(
                    ErrorType::Unsupported,
                    "No such import "@ + path + " in the std library."@,
                    def.pos,
                ),
                c,
            ),
        }
    } else {
        match b.find_file(s, path, true) {
            Ok(normalized) => eval_file_import_spec(b, c, def, normalized, d),
            Err(e) => fail(import_error("No Such Import"@, def.path.pos, e), c),
        }
    }
}

/// A `let`: the value is evaluated first; then the name must be no reserved
/// word and not bound in the builder's scope; then it is bound.
pub open spec fn eval_let_spec(b: BuilderV, c: SessionV, def: LetDef, d: nat) -> Progress
    decreases d, 5nat, 0nat,
{
    let name = def.name.fragment@;
    let r = eval_expr_spec(b, c, def.value, b.scope, d);
    match r.res {
        Ok(v) => if is_reserved_word(name) {
            Progress {
                res: Err(
                    err_at(
                        ErrorType::ReservedWordError,
                        "Let "@ + name + " binding collides with reserved word"@,
                        def.name.pos,
                    ),
                ),
                builder: b,
                session: r.session,
            }
        } else if find_field(b.scope.build_output, name).is_some() {
            Progress {
                res: Err(
                    err_at(
                        ErrorType::DuplicateBinding,
                        "Binding for "@ + name + " already exists"@,
                        def.name.pos,
                    ),
                ),
                builder: b,
                session: r.session,
            }
        } else {
            Progress {
                res: Ok(v),
                builder: BuilderV {
                    scope: ScopeV { build_output: b.scope.build_output.push((name, v)), ..b.scope },
                    ..b
                },
                session: r.session,
            }
        },
        Err(e) => Progress { res: Err(e), builder: b, session: r.session },
    }
}

/// The text ` line: L, column: C` in the record of an assertion of the wrong shape.
pub open spec fn assert_place(pos: Position) -> Seq<char> {
    " line: "@ + nat_text(pos.line as nat) + ", column: "@ + nat_text(pos.column as nat)
}

/// What an evaluated assertion records: its description and whether it holds,
/// or a complaint about its shape, which counts as a failure.
pub open spec fn assert_verdict(v: ValV, pos: Position) -> (Seq<char>, bool) {
    match v {
        ValV::Tuple(fs) => match find_field(fs, "ok"@) {
            Some(ValV::Boolean(ok)) => match find_field(fs, "desc"@) {
                Some(ValV::Str(desc)) => (desc, ok),
                _ => (
                    "TYPE FAIL - Expected String field desc in tuple at"@ + assert_place(pos),
                    false,
                ),
            },
            _ => ("TYPE FAIL - Expected Boolean field ok in tuple at"@ + assert_place(pos), false),
        },
        _ => (
            "TYPE FAIL - Expected tuple with ok and desc fields got "@ + v.type_label() + " at"@
                + assert_place(pos),
            false,
        ),
    }
}

/// Whether an evaluated assertion has the shape of one.
pub open spec fn assert_is_shaped(v: ValV) -> bool {
    v matches ValV::Tuple(fs) && find_field(fs, "ok"@) matches Some(ValV::Boolean(_)) && find_field(
        fs,
        "desc"@,
    ) matches Some(ValV::Str(_))
}

/// An assertion. A builder that does not validate skips it. Otherwise its
/// expression is evaluated and the verdict recorded; an error of the
/// evaluation is recorded as a failure and goes no further.
pub open spec fn eval_assert_spec(b: BuilderV, c: SessionV, expr: Expression, d: nat) -> Progress
    decreases d, 5nat, 0nat,
{
    if !b.validate_mode {
        Progress { res: Ok(ValV::Empty), builder: b, session: c }
    } else {
        let r = eval_expr_spec(b, c, expr, b.scope, d);
        match r.res {
            Ok(v) => {
                let verdict = assert_verdict(v, expr.pos_spec());
                Progress {
                    res: Ok(
                        if assert_is_shaped(v) {
                            v
                        } else {
                            ValV::Empty
                        },
                    ),
                    builder: BuilderV {
                        assert_collector: record_spec(b.assert_collector, verdict.0, verdict.1),
                        ..b
                    },
                    session: r.session,
                }
            },
            Err(e) => Progress {
                res: Ok(ValV::Empty),
                builder: BuilderV {
                    assert_collector: record_spec(
                        b.assert_collector,
                        "CompileError: "@ + render_spec(e) + "\n"@,
                        false,
                    ),
                    ..b
                },
                session: r.session,
            },
        }
    }
}

/// A statement. An output statement fails where the builder already holds an
/// output, and else stores the value with its type.
pub open spec fn eval_stmt_spec(b: BuilderV, c: SessionV, stmt: Statement, d: nat) -> Progress
    decreases d, 6nat, 0nat,
{
    match stmt {
        Statement::Assert(expr) => eval_assert_spec(b, c, expr, d),
        Statement::Let(def) => eval_let_spec(b, c, def, d),
        Statement::Expression(expr) => {
            let r = eval_expr_spec(b, c, expr, b.scope, d);
            Progress { res: r.res, builder: b, session: r.session }
        },
        Statement::Output(pos, typ, expr) => if b.out_lock.is_none() {
            let r = eval_expr_spec(b, c, expr, b.scope, d);
            match r.res {
                Ok(v) => Progress {
                    res: Ok(v),
                    builder: BuilderV { out_lock: Some((typ.fragment@, v)), ..b },
                    session: r.session,
                },
                Err(e) => Progress { res: Err(e), builder: b, session: r.session },
            }
        } else {
            Progress {
                res: Err(
                    err_at(
                        ErrorType::Unsupported,
                        "You can only have one output per file."@,
                        pos,
                    ),
                ),
                builder: b,
                session: c,
            }
        },
    }
}

/// The statements from index `i` on, in order, up to the first that fails.
/// The value is that of the last statement, or `last` where none is left.
pub open spec fn eval_stmts_acc(
    b: BuilderV,
    c: SessionV,
    stmts: Seq<Statement>,
    d: nat,
    i: int,
    last: ValV,
) -> Progress
    decreases d, 7nat, stmts.len() - i,
{
    if 0 <= i < stmts.len() {
        let r = eval_stmt_spec(b, c, stmts[i], d);
        match r.res {
            Ok(v) => eval_stmts_acc(r.builder, r.session, stmts, d, i + 1, v),
            Err(_) => r,
        }
    } else {
        Progress { res: Ok(last), builder: b, session: c }
    }
}

/// A program: the value of its last statement, or the empty value where it
/// has none; a parse error where the parser refused it.
pub open spec fn eval_input_spec(b: BuilderV, c: SessionV, src: Source, d: nat) -> Progress
    decreases d, 8nat, 0nat,
{
    match src {
        Source::Parsed(stmts) => eval_stmts_acc(b, c, (*stmts)@, d, 0, ValV::Empty),
        Source::Invalid(msg) => Progress { res: Err(parse_error(msg@)), builder: b, session: c },
    }
}

} // verus!
