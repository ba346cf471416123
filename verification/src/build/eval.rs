//! The evaluation of expressions.

use vstd::prelude::*;
use vstd::string::*;
use std::rc::Rc;
use crate::assets::Session;
use crate::ast::{BinaryExprType, BinaryOpDef, CallDef, CopyDef, Expression, FormatArgs, FormatDef,
    FuncDef, ImportDef, ListDef, ModuleDef, Position, PositionedItem, RangeDef, SelectDef, Token,
    Value};
use crate::build::{BuilderV, FileBuilder, bind, text_result_view};
use crate::build::format::{SimpleFormatter, find_section_end, lemma_section_end, section_starts};
use crate::build::ops::{base_fields, error_at, fields_result_view, override_field, test_type};
use crate::build::semantics::{Outcome, apply_binary, bind_args, bool_operand_error, copy_fields_acc,
    copy_fields_from_base_spec, do_bool_operator_spec, do_dot_lookup_spec, do_element_check_spec,
    effective_step, eval_binary_spec, eval_call_spec, eval_copy_spec, eval_expr_spec,
    eval_exprs_acc, eval_fields_acc, eval_format_spec, eval_is_check_spec, eval_list_spec,
    eval_module_copy_spec, eval_module_def_spec, eval_range_spec, eval_select_spec, eval_tuple_spec,
    eval_value_spec, func_eval_spec, list_contains, module_base_fields, no_binding_error, pkg_func,
    range_bound_error, range_from, range_list, render_sections_acc, select_case_spec, token_names};
use crate::error::{BuildError, BuildErrorV, ErrorType, position_to_string};
use crate::ir::{FuncV, ScopeV, Val, ValV, equal_spec, fields_view, func_view, list_view,
    module_view, names_view, result_view, share};
use crate::scope::{Scope, clone_text, index_of, share_option};
use crate::text::{bool_to_string, cat2, cat3, str_eq};

verus! {

/// The outcome that an evaluation has reached.
pub open spec fn outcome(r: Result<Rc<Val>, BuildError>, session: Session) -> Outcome<ValV> {
    Outcome { res: result_view(r), session: session@ }
}

/// The outcome that the evaluation of a list has reached.
pub open spec fn list_outcome(r: Result<Vec<Rc<Val>>, BuildError>, session: Session) -> Outcome<
    Seq<ValV>,
> {
    Outcome {
        res: match r {
            Ok(vs) => Ok(list_view(vs@)),
            Err(e) => Err(e@),
        },
        session: session@,
    }
}

/// The outcome that the evaluation of fields has reached.
pub open spec fn fields_outcome(
    r: Result<Vec<(String, Rc<Val>)>, BuildError>,
    session: Session,
) -> Outcome<Seq<(Seq<char>, ValV)>> {
    Outcome {
        res: match r {
            Ok(fs) => Ok(fields_view(fs@)),
            Err(e) => Err(e@),
        },
        session: session@,
    }
}

/// A copy of a parameter list.
pub fn clone_argdefs(v: &Vec<PositionedItem<String>>) -> (r: Vec<PositionedItem<String>>)
    ensures
        r@ == v@,
{
    let mut out: Vec<PositionedItem<String>> = Vec::new();
    let mut i: usize = 0;
    while i < v.len()
        invariant
            i <= v.len(),
            out@ == v@.take(i as int),
        decreases v.len() - i,
    {
        out.push(PositionedItem { pos: v[i].pos.clone(), val: v[i].val.clone() });
        assert(out@ =~= v@.take(i + 1));
        i = i + 1;
    }
    assert(v@.take(v.len() as int) =~= v@);
    out
}

/// A copy of a module that shares its parts.
pub fn clone_module(m: &ModuleDef) -> (r: ModuleDef)
    ensures
        r == *m,
{
    ModuleDef {
        pos: m.pos.clone(),
        arg_set: share(&m.arg_set),
        out_expr: match &m.out_expr {
            Some(e) => Some(share(e)),
            None => None,
        },
        arg_tuple: share_option(&m.arg_tuple),
        statements: share(&m.statements),
        root: clone_text(&m.root),
    }
}

/// The position of the first parameter of the given name.
pub fn param_position(argdefs: &Vec<PositionedItem<String>>, name: &str) -> (r: Option<usize>)
    ensures
        match r {
            Some(i) => index_of(names_view(argdefs@), name@, 0) == Some(i as int) && i
                < argdefs.len(),
            None => index_of(names_view(argdefs@), name@, 0).is_none(),
        },
{
    let ghost keys = names_view(argdefs@);
    let mut i: usize = 0;
    while i < argdefs.len()
        invariant
            i <= argdefs.len(),
            keys == names_view(argdefs@),
            index_of(keys, name@, 0) == index_of(keys, name@, i as int),
        decreases argdefs.len() - i,
    {
        if str_eq(argdefs[i].val.as_str(), name) {
            return Some(i);
        }
        i = i + 1;
    }
    None
}

/// The position of the first field of the syntax tree of the given name.
pub fn token_position(fs: &Vec<(Token, Expression)>, name: &str) -> (r: Option<usize>)
    ensures
        match r {
            Some(i) => index_of(token_names(fs@), name@, 0) == Some(i as int) && i < fs.len(),
            None => index_of(token_names(fs@), name@, 0).is_none(),
        },
{
    let ghost keys = token_names(fs@);
    let mut i: usize = 0;
    while i < fs.len()
        invariant
            i <= fs.len(),
            keys == token_names(fs@),
            index_of(keys, name@, 0) == index_of(keys, name@, i as int),
        decreases fs.len() - i,
    {
        if str_eq(fs[i].0.fragment.as_str(), name) {
            return Some(i);
        }
        i = i + 1;
    }
    None
}

fn no_binding(name: &str, pos: &Position) -> (r: BuildError)
    ensures
        r@ == no_binding_error(name@, *pos),
{
    error_at(ErrorType::NoSuchSymbol, cat2("Unable to find binding ", name), pos)
}

impl FuncDef {
    /// Calls the function on evaluated arguments.
    pub fn eval(
        &self,
        parent_builder: &FileBuilder,
        args: Vec<Rc<Val>>,
        session: &mut Session,
        depth: usize,
    ) -> (r: Result<Rc<Val>, BuildError>)
        ensures
            outcome(r, *final(session)) == func_eval_spec(
                parent_builder@,
                old(session)@,
                func_view(*self),
                list_view(args@),
                depth as nat,
            ),
        decreases depth, 1nat, 0nat,
    {
        if args.len() > self.argdefs.len() {
            return Err(
                error_at(
                    ErrorType::BadArgLen,
                    String::from_str("Func called with too many args"),
                    &self.pos,
                ),
            );
        }
        let mut b = parent_builder.clone_builder();
        match &self.scope {
            Some(scope) => {
                b.scope = scope.spawn_child();
            },
            None => {},
        }
        let ghost nb = parent_builder@.clone_builder();
        let ghost base = b@.scope;
        let ghost names = names_view(self.argdefs@);
        let mut i: usize = 0;
        while i < args.len()
            invariant
                i <= args.len(),
                args.len() <= self.argdefs.len(),
                names == names_view(self.argdefs@),
                bind_args(b@.scope.build_output, names, list_view(args@), i as int) == bind_args(
                    base.build_output,
                    names,
                    list_view(args@),
                    0,
                ),
                b@ == (BuilderV {
                    scope: ScopeV { build_output: b@.scope.build_output, ..base },
                    ..nb
                }),
            decreases args.len() - i,
        {
            let first = param_position(&self.argdefs, self.argdefs[i].val.as_str());
            if first == Some(i) {
                bind(&mut b.scope.build_output, self.argdefs[i].val.clone(), share(&args[i]));
            }
            i = i + 1;
        }
        let child = b.scope.spawn_child();
        b.eval_expr(&self.fields, &child, session, depth)
    }
}

impl FileBuilder {
    /// Evaluates an expression in a scope. `depth` bounds how deep the
    /// evaluation may nest.
    pub fn eval_expr(
        &self,
        expr: &Expression,
        scope: &Scope,
        session: &mut Session,
        depth: usize,
    ) -> (r: Result<Rc<Val>, BuildError>)
        ensures
            outcome(r, *final(session)) == eval_expr_spec(
                self@,
                old(session)@,
                *expr,
                scope@,
                depth as nat,
            ),
        decreases depth, 0nat, 0nat,
    {
        if depth == 0 {
            return Err(
                error_at(
                    ErrorType::Unsupported,
                    String::from_str("Evaluation nests too deeply"),
                    expr.pos(),
                ),
            );
        }
        let d = depth - 1;
        match expr {
            Expression::Simple(v) => self.eval_value(v, scope, session, d),
            Expression::Binary(def) => self.eval_binary(def, scope, session, d),
            Expression::Copy(def) => self.eval_copy(def, scope, session, d),
            Expression::Range(def) => self.eval_range(def, scope, session, d),
            Expression::Grouped(inner, _) => self.eval_expr(inner, scope, session, d),
            Expression::Format(def) => self.eval_format(def, scope, session, d),
            Expression::Call(def) => self.eval_call(def, scope, session, d),
            Expression::Func(def) => self.eval_func_def(def, scope),
            Expression::Module(def) => self.eval_module_def(def, scope, session, d),
            Expression::Select(def) => self.eval_select(def, scope, session, d),
            Expression::FuncOp(def) => self.eval_func_op(def, scope, session, d),
            Expression::Include(def) => self.eval_include(def, scope, session),
            Expression::Import(def) => self.eval_import(def, scope, session, d),
            Expression::Fail(def) => {
                match self.eval_expr(&def.message, scope, session, d) {
                    Ok(val) => match &*val {
                        Val::Str(m) => Err(error_at(ErrorType::UserDefined, m.clone(), &def.pos)),
                        _ => Err(
                            error_at(
                                ErrorType::TypeFail,
                                cat3(
                                    "Expected string for message but got (",
                                    val.type_label().as_str(),
                                    ")",
                                ),
                                def.message.pos(),
                            ),
                        ),
                    },
                    Err(e) => Err(e),
                }
            },
            Expression::Debug(def) => {
                match self.eval_expr(&def.expr, scope, session, d) {
                    Ok(val) => {
                        session.notice(
                            String::from_str("TRACE: ").concat(val.show().as_str()).concat(
                                position_to_string(&def.pos).as_str(),
                            ),
                        );
                        Ok(val)
                    },
                    Err(e) => Err(e),
                }
            },
            Expression::Not(def) => {
                match self.eval_expr(&def.expr, scope, session, d) {
                    Ok(val) => match &*val {
                        Val::Boolean(x) => Ok(Rc::new(Val::Boolean(!*x))),
                        _ => Err(
                            error_at(
                                ErrorType::TypeFail,
                                cat3(
                                    "Expected boolean for expression but got (",
                                    val.type_label().as_str(),
                                    ")",
                                ),
                                def.expr.pos(),
                            ),
                        ),
                    },
                    Err(e) => Err(e),
                }
            },
        }
    }

    /// A function literal: the function with a child of the scope captured.
    pub fn eval_func_def(&self, def: &FuncDef, scope: &Scope) -> (r: Result<Rc<Val>, BuildError>)
        ensures
            result_view(r) == Ok::<ValV, BuildErrorV>(
                ValV::Func(
                    FuncV {
                        scope: Some(Box::new(scope@.spawn_child())),
                        argdefs: names_view(def.argdefs@),
                        fields: *def.fields,
                        pos: def.pos,
                    },
                ),
            ),
    {
        Ok(
            Rc::new(
                Val::Func(
                    FuncDef {
                        scope: Some(scope.spawn_child()),
                        argdefs: clone_argdefs(&def.argdefs),
                        fields: share(&def.fields),
                        pos: def.pos.clone(),
                    },
                ),
            ),
        )
    }

    /// Evaluates expressions in order.
    pub fn eval_exprs(
        &self,
        es: &Vec<Expression>,
        scope: &Scope,
        session: &mut Session,
        depth: usize,
    ) -> (r: Result<Vec<Rc<Val>>, BuildError>)
        ensures
            list_outcome(r, *final(session)) == eval_exprs_acc(
                self@,
                old(session)@,
                es@,
                scope@,
                depth as nat,
                0,
                Seq::empty(),
            ),
        decreases depth, 2nat, 0nat,
    {
        let ghost goal = eval_exprs_acc(
            self@,
            session@,
            es@,
            scope@,
            depth as nat,
            0,
            Seq::empty(),
        );
        let mut vals: Vec<Rc<Val>> = Vec::new();
        assert(list_view(vals@) =~= Seq::empty());
        let mut i: usize = 0;
        while i < es.len()
            invariant
                goal == eval_exprs_acc(
            self@,
            old(session)@,
            es@,
            scope@,
            depth as nat,
            0,
            Seq::empty(),
        ),
                i <= es.len(),
                goal == eval_exprs_acc(
                    self@,
                    session@,
                    es@,
                    scope@,
                    depth as nat,
                    i as int,
                    list_view(vals@),
                ),
            decreases es.len() - i,
        {
            match self.eval_expr(&es[i], scope, session, depth) {
                Ok(v) => {
                    let ghost before = list_view(vals@);
                    vals.push(v);
                    assert(list_view(vals@) =~= before.push(v@));
                },
                Err(e) => {
                    return Err(e);
                },
            }
            i = i + 1;
        }
        Ok(vals)
    }

    /// Evaluates named expressions in order.
    pub fn eval_fields(
        &self,
        fields: &Vec<(Token, Expression)>,
        scope: &Scope,
        session: &mut Session,
        depth: usize,
    ) -> (r: Result<Vec<(String, Rc<Val>)>, BuildError>)
        ensures
            fields_outcome(r, *final(session)) == eval_fields_acc(
                self@,
                old(session)@,
                fields@,
                scope@,
                depth as nat,
                0,
                Seq::empty(),
            ),
        decreases depth, 2nat, 0nat,
    {
        let ghost goal = eval_fields_acc(
            self@,
            session@,
            fields@,
            scope@,
            depth as nat,
            0,
            Seq::empty(),
        );
        let mut out: Vec<(String, Rc<Val>)> = Vec::new();
        assert(fields_view(out@) =~= Seq::empty());
        let mut i: usize = 0;
        while i < fields.len()
            invariant
                goal == eval_fields_acc(
            self@,
            old(session)@,
            fields@,
            scope@,
            depth as nat,
            0,
            Seq::empty(),
        ),
                i <= fields.len(),
                goal == eval_fields_acc(
                    self@,
                    session@,
                    fields@,
                    scope@,
                    depth as nat,
                    i as int,
                    fields_view(out@),
                ),
            decreases fields.len() - i,
        {
            match self.eval_expr(&fields[i].1, scope, session, depth) {
                Ok(v) => {
                    let ghost before = fields_view(out@);
                    out.push((fields[i].0.fragment.clone(), v));
                    assert(fields_view(out@) =~= before.push((fields@[i as int].0.fragment@, v@)));
                },
                Err(e) => {
                    return Err(e);
                },
            }
            i = i + 1;
        }
        Ok(out)
    }

    /// A tuple literal.
    pub fn eval_tuple(
        &self,
        fields: &Vec<(Token, Expression)>,
        scope: &Scope,
        session: &mut Session,
        depth: usize,
    ) -> (r: Result<Rc<Val>, BuildError>)
        ensures
            outcome(r, *final(session)) == eval_tuple_spec(
                self@,
                old(session)@,
                fields@,
                scope@,
                depth as nat,
            ),
        decreases depth, 3nat, 0nat,
    {
        match self.eval_fields(fields, scope, session, depth) {
            Ok(fs) => Ok(Rc::new(Val::Tuple(fs))),
            Err(e) => Err(e),
        }
    }

    /// A list literal.
    pub fn eval_list(&self, def: &ListDef, scope: &Scope, session: &mut Session, depth: usize)
        -> (r: Result<Rc<Val>, BuildError>)
        ensures
            outcome(r, *final(session)) == eval_list_spec(
                self@,
                old(session)@,
                def.elems@,
                scope@,
                depth as nat,
            ),
        decreases depth, 3nat, 0nat,
    {
        match self.eval_exprs(&def.elems, scope, session, depth) {
            Ok(vs) => Ok(Rc::new(Val::List(vs))),
            Err(e) => Err(e),
        }
    }

    /// A simple value.
    pub fn eval_value(&self, v: &Value, scope: &Scope, session: &mut Session, depth: usize) -> (r:
        Result<Rc<Val>, BuildError>)
        ensures
            outcome(r, *final(session)) == eval_value_spec(
                self@,
                old(session)@,
                *v,
                scope@,
                depth as nat,
            ),
        decreases depth, 4nat, 0nat,
    {
        match v {
            Value::Empty(_) => Ok(Rc::new(Val::Empty)),
            Value::Boolean(x) => Ok(Rc::new(Val::Boolean(x.val))),
            Value::Int(x) => Ok(Rc::new(Val::Int(x.val))),
            Value::Float(x) => Ok(Rc::new(Val::Float(x.val))),
            Value::Str(x) => Ok(Rc::new(Val::Str(x.val.clone()))),
            Value::Symbol(x) => match scope.lookup_sym(x.val.as_str(), true) {
                Some(found) => Ok(found),
                None => Err(no_binding(x.val.as_str(), &x.pos)),
            },
            Value::List(def) => self.eval_list(def, scope, session, depth),
            Value::Tuple(t) => self.eval_tuple(&t.val, scope, session, depth),
        }
    }

    /// What a name or an index selects from the current value of a scope.
    pub fn do_dot_lookup(
        &self,
        right: &Expression,
        scope: &Scope,
        session: &mut Session,
        depth: usize,
    ) -> (r: Result<Rc<Val>, BuildError>)
        ensures
            outcome(r, *final(session)) == do_dot_lookup_spec(
                self@,
                old(session)@,
                *right,
                scope@,
                depth as nat,
            ),
        decreases depth, 5nat, 0nat,
    {
        let pos = right.pos();
        let sc = scope.clone().use_curr_val();
        match right {
            Expression::Copy(_) => self.eval_expr(right, &sc, session, depth),
            Expression::Call(_) => self.eval_expr(right, &sc, session, depth),
            Expression::Simple(Value::Symbol(x)) => match sc.lookup_sym(x.val.as_str(), true) {
                Some(v) => Ok(v),
                None => Err(no_binding(x.val.as_str(), pos)),
            },
            Expression::Simple(Value::Str(x)) => match sc.lookup_sym(x.val.as_str(), false) {
                Some(v) => Ok(v),
                None => Err(no_binding(x.val.as_str(), pos)),
            },
            Expression::Simple(Value::Int(x)) => sc.lookup_idx(pos, x.val),
            _ => {
                let eval_scope = sc.spawn_child();
                match self.eval_expr(right, &eval_scope, session, depth) {
                    Ok(val) => match &*val {
                        Val::Int(i) => sc.lookup_idx(pos, *i),
                        Val::Str(name) => match sc.lookup_sym(name.as_str(), false) {
                            Some(v) => Ok(v),
                            None => Err(no_binding(name.as_str(), pos)),
                        },
                        _ => Err(
                            error_at(
                                ErrorType::NoSuchSymbol,
                                cat2("Invalid selector lookup ", val.type_label().as_str()),
                                pos,
                            ),
                        ),
                    },
                    Err(e) => Err(e),
                }
            },
        }
    }

    fn bool_operand(v: &Val, pos: &Position) -> (r: BuildError)
        ensures
            r@ == bool_operand_error(v@, *pos),
    {
        error_at(
            ErrorType::TypeFail,
            cat3("Expected boolean value for operator but got (", v.type_label().as_str(), ")"),
            pos,
        )
    }

    /// `&&` and `||`.
    pub fn do_bool_operator(
        &self,
        kind: &BinaryExprType,
        left: &Expression,
        right: &Expression,
        scope: &Scope,
        session: &mut Session,
        depth: usize,
    ) -> (r: Result<Rc<Val>, BuildError>)
        ensures
            outcome(r, *final(session)) == do_bool_operator_spec(
                self@,
                old(session)@,
                *kind,
                *left,
                *right,
                scope@,
                depth as nat,
            ),
        decreases depth, 5nat, 0nat,
    {
        match self.eval_expr(left, scope, session, depth) {
            Ok(l) => match &*l {
                Val::Boolean(x) => {
                    let is_and = match kind {
                        BinaryExprType::AND => true,
                        _ => false,
                    };
                    if is_and != *x {
                        Ok(Rc::new(Val::Boolean(*x)))
                    } else {
                        match self.eval_expr(right, scope, session, depth) {
                            Ok(r) => match &*r {
                                Val::Boolean(y) => Ok(Rc::new(Val::Boolean(*y))),
                                _ => Err(Self::bool_operand(&r, right.pos())),
                            },
                            Err(e) => Err(e),
                        }
                    }
                },
                _ => Err(Self::bool_operand(&l, left.pos())),
            },
            Err(e) => Err(e),
        }
    }

    /// Whether some element of a list deeply equals a value.
    pub fn list_has(els: &Vec<Rc<Val>>, v: &Val) -> (r: bool)
        ensures
            r == list_contains(list_view(els@), v@),
    {
        let mut i: usize = 0;
        while i < els.len()
            invariant
                i <= els.len(),
                forall|k: int|
                    0 <= k < i ==> #[trigger] equal_spec(v@, list_view(els@)[k]) != Ok::<
                        bool,
                        BuildErrorV,
                    >(true),
            decreases els.len() - i,
        {
            match v.equal(&els[i]) {
                Ok(true) => {
                    assert(equal_spec(v@, list_view(els@)[i as int]) == Ok::<
                        bool,
                        BuildErrorV,
                    >(true));
                    return true;
                },
                _ => {},
            }
            i = i + 1;
        }
        false
    }

    /// `in`.
    pub fn do_element_check(
        &self,
        left: &Expression,
        right: &Expression,
        scope: &Scope,
        session: &mut Session,
        depth: usize,
    ) -> (r: Result<Rc<Val>, BuildError>)
        ensures
            outcome(r, *final(session)) == do_element_check_spec(
                self@,
                old(session)@,
                *left,
                *right,
                scope@,
                depth as nat,
            ),
        decreases depth, 6nat, 0nat,
    {
        match self.eval_expr(right, scope, session, depth) {
            Ok(r) => match &*r {
                Val::List(els) => match self.eval_expr(left, scope, session, depth) {
                    Ok(l) => Ok(Rc::new(Val::Boolean(Self::list_has(els, &l)))),
                    Err(e) => Err(e),
                },
                Val::Tuple(_) => {
                    let child_scope = scope.spawn_child().set_curr_val(share(&r));
                    let found = self.do_dot_lookup(left, &child_scope, session, depth);
                    Ok(Rc::new(Val::Boolean(found.is_ok())))
                },
                _ => Err(
                    error_at(
                        ErrorType::TypeFail,
                        cat2("Invalid righthand type for in operator ", r.type_label().as_str()),
                        right.pos(),
                    ),
                ),
            },
            Err(e) => Err(e),
        }
    }

    /// `is`.
    pub fn eval_is_check(
        &self,
        def: &BinaryOpDef,
        scope: &Scope,
        session: &mut Session,
        depth: usize,
    ) -> (r: Result<Rc<Val>, BuildError>)
        ensures
            outcome(r, *final(session)) == eval_is_check_spec(
                self@,
                old(session)@,
                *def,
                scope@,
                depth as nat,
            ),
        decreases depth, 5nat, 0nat,
    {
        match self.eval_expr(&def.right, scope, session, depth) {
            Ok(tval) => match &*tval {
                Val::Str(typ) => match self.eval_expr(&def.left, scope, session, depth) {
                    Ok(val) => match test_type(typ.as_str(), &val) {
                        Some(x) => Ok(Rc::new(Val::Boolean(x))),
                        None => Err(
                            error_at(
                                ErrorType::TypeFail,
                                cat3("Expected valid type name but got (", typ.as_str(), ")"),
                                def.right.pos(),
                            ),
                        ),
                    },
                    Err(e) => Err(e),
                },
                _ => Err(
                    error_at(
                        ErrorType::TypeFail,
                        cat3(
                            "Expected string expression but got (",
                            tval.type_label().as_str(),
                            ")",
                        ),
                        def.right.pos(),
                    ),
                ),
            },
            Err(e) => Err(e),
        }
    }

    /// An operator on two evaluated operands.
    pub fn apply_operator(&self, def: &BinaryOpDef, left: Rc<Val>, right: Rc<Val>) -> (r: Result<
        Rc<Val>,
        BuildError,
    >)
        ensures
            result_view(r) == apply_binary(*def, left@, right@),
    {
        let rpos = def.right.pos();
        match def.kind {
            BinaryExprType::Add => self.add_vals(&def.pos, rpos, left, right),
            BinaryExprType::Sub => self.subtract_vals(&def.pos, rpos, left, right),
            BinaryExprType::Mul => self.multiply_vals(&def.pos, rpos, left, right),
            BinaryExprType::Div => self.divide_vals(&def.pos, rpos, left, right),
            BinaryExprType::Mod => self.mod_vals(&def.pos, rpos, left, right),
            BinaryExprType::Equal => self.do_deep_equal(rpos, left, right),
            BinaryExprType::NotEqual => self.do_not_deep_equal(rpos, left, right),
            BinaryExprType::GT => self.do_gt(rpos, left, right),
            BinaryExprType::LT => self.do_lt(rpos, left, right),
            BinaryExprType::GTEqual => self.do_gtequal(rpos, left, right),
            BinaryExprType::LTEqual => self.do_ltequal(rpos, left, right),
            BinaryExprType::REMatch => self.eval_re_match(left, def.left.pos(), right, rpos, false),
            BinaryExprType::NotREMatch => self.eval_re_match(
                left,
                def.left.pos(),
                right,
                rpos,
                true,
            ),
            _ => Err(
                error_at(
                    ErrorType::Unsupported,
                    String::from_str("Not an operator on two values"),
                    &def.pos,
                ),
            ),
        }
    }

    /// A binary operation.
    pub fn eval_binary(&self, def: &BinaryOpDef, scope: &Scope, session: &mut Session, depth: usize)
        -> (r: Result<Rc<Val>, BuildError>)
        ensures
            outcome(r, *final(session)) == eval_binary_spec(
                self@,
                old(session)@,
                *def,
                scope@,
                depth as nat,
            ),
        decreases depth, 7nat, 0nat,
    {
        match def.kind {
            BinaryExprType::IN => self.do_element_check(&def.left, &def.right, scope, session, depth),
            BinaryExprType::IS => self.eval_is_check(def, scope, session, depth),
            BinaryExprType::AND => self.do_bool_operator(
                &def.kind,
                &def.left,
                &def.right,
                scope,
                session,
                depth,
            ),
            BinaryExprType::OR => self.do_bool_operator(
                &def.kind,
                &def.left,
                &def.right,
                scope,
                session,
                depth,
            ),
            _ => match self.eval_expr(&def.left, scope, session, depth) {
                Ok(left) => {
                    let is_dot = match def.kind {
                        BinaryExprType::DOT => true,
                        _ => false,
                    };
                    if is_dot {
                        let child_scope = scope.spawn_child().set_curr_val(share(&left));
                        self.do_dot_lookup(&def.right, &child_scope, session, depth)
                    } else {
                        match self.eval_expr(&def.right, scope, session, depth) {
                            Ok(right) => self.apply_operator(def, left, right),
                            Err(e) => Err(e),
                        }
                    }
                },
                Err(e) => Err(e),
            },
        }
    }

    /// Applies overrides to fields, each evaluated in `scope`.
    pub fn copy_fields(
        &self,
        fields: Vec<(String, Rc<Val>)>,
        overrides: &Vec<(Token, Expression)>,
        scope: &Scope,
        session: &mut Session,
        depth: usize,
    ) -> (r: Result<Vec<(String, Rc<Val>)>, BuildError>)
        ensures
            fields_outcome(r, *final(session)) == copy_fields_acc(
                self@,
                old(session)@,
                overrides@,
                scope@,
                depth as nat,
                0,
                fields_view(fields@),
            ),
        decreases depth, 2nat, 0nat,
    {
        let ghost goal = copy_fields_acc(
            self@,
            session@,
            overrides@,
            scope@,
            depth as nat,
            0,
            fields_view(fields@),
        );
        let mut acc = fields;
        let mut i: usize = 0;
        while i < overrides.len()
            invariant
                goal == copy_fields_acc(
            self@,
            old(session)@,
            overrides@,
            scope@,
            depth as nat,
            0,
            fields_view(fields@),
        ),
                i <= overrides.len(),
                goal == copy_fields_acc(
                    self@,
                    session@,
                    overrides@,
                    scope@,
                    depth as nat,
                    i as int,
                    fields_view(acc@),
                ),
            decreases overrides.len() - i,
        {
            match self.eval_expr(&overrides[i].1, scope, session, depth) {
                Ok(v) => {
                    match override_field(
                        acc,
                        overrides[i].0.fragment.as_str(),
                        v,
                        &overrides[i].0.pos,
                    ) {
                        Ok(next) => {
                            acc = next;
                        },
                        Err(e) => {
                            return Err(e);
                        },
                    }
                },
                Err(e) => {
                    return Err(e);
                },
            }
            i = i + 1;
        }
        Ok(acc)
    }

    /// A copy of a tuple with overrides.
    pub fn copy_fields_from_base(
        &self,
        src_fields: &Vec<(String, Rc<Val>)>,
        overrides: &Vec<(Token, Expression)>,
        scope: &Scope,
        session: &mut Session,
        depth: usize,
    ) -> (r: Result<Rc<Val>, BuildError>)
        ensures
            outcome(r, *final(session)) == copy_fields_from_base_spec(
                self@,
                old(session)@,
                fields_view(src_fields@),
                overrides@,
                scope@,
                depth as nat,
            ),
        decreases depth, 3nat, 0nat,
    {
        match base_fields(src_fields) {
            Ok(fields) => match self.copy_fields(fields, overrides, scope, session, depth) {
                Ok(fs) => Ok(Rc::new(Val::Tuple(fs))),
                Err(e) => Err(e),
            },
            Err(e) => Err(e),
        }
    }

    /// The default arguments of a module with `pkg` and `this`.
    fn module_base(
        mod_def: &ModuleDef,
        src_fields: &Vec<(String, Rc<Val>)>,
        pos: &Position,
        scope: &Scope,
    ) -> (r:
        Result<Vec<(String, Rc<Val>)>, BuildError>)
        requires
            mod_def.arg_tuple matches Some(t) && *t matches Val::Tuple(fs) && fs == *src_fields,
        ensures
            fields_result_view(r) == module_base_fields(
                module_view(*mod_def),
                *pos,
                scope@,
            ),
    {
        match base_fields(src_fields) {
            Ok(fields) => {
                let with_pkg = match &mod_def.pos.file {
                    Some(file) => {
                        let pkg = Rc::new(
                            Val::Func(
                                FuncDef {
                                    scope: Some(scope.spawn_child()),
                                    argdefs: Vec::new(),
                                    fields: Rc::new(
                                        Expression::Import(
                                            ImportDef {
                                                pos: pos.clone(),
                                                path: Token {
                                                    fragment: file.clone(),
                                                    pos: pos.clone(),
                                                },
                                            },
                                        ),
                                    ),
                                    pos: pos.clone(),
                                },
                            ),
                        );
                        assert(pkg@ == pkg_func(*file, *pos, scope@)) by {
                            assert(names_view(Seq::<PositionedItem<String>>::empty()) =~= Seq::<Seq<char>>::empty());
                        }
                        override_field(fields, "pkg", pkg, pos)
                    },
                    None => Ok(fields),
                };
                match with_pkg {
                    Ok(fs) => override_field(
                        fs,
                        "this",
                        Rc::new(Val::Module(clone_module(mod_def))),
                        pos,
                    ),
                    Err(e) => Err(e),
                }
            },
            Err(e) => Err(e),
        }
    }

    /// The instantiation of a module.
    pub fn eval_module_copy(
        &self,
        def: &CopyDef,
        mod_def: &ModuleDef,
        scope: &Scope,
        session: &mut Session,
        depth: usize,
    ) -> (r: Result<Rc<Val>, BuildError>)
        ensures
            outcome(r, *final(session)) == eval_module_copy_spec(
                self@,
                old(session)@,
                *def,
                module_view(*mod_def),
                scope@,
                depth as nat,
            ),
        decreases depth, 9nat, 0nat,
    {
        let tpl = match &mod_def.arg_tuple {
            Some(t) => share(t),
            None => {
                return Err(
                    error_at(
                        ErrorType::TypeFail,
                        String::from_str("Weird value stored in our module parameters slot"),
                        def.selector.pos(),
                    ),
                );
            },
        };
        match &*tpl {
            Val::Tuple(src_fields) => {
                let child_scope = scope.spawn_child().set_curr_val(share(&tpl));
                match Self::module_base(mod_def, src_fields, &def.pos, &child_scope) {
                    Ok(fields) => match self.copy_fields(
                        fields,
                        &def.fields,
                        &child_scope,
                        session,
                        depth,
                    ) {
                        Ok(args) => {
                            let mut b = self.clone_builder();
                            b.is_module = true;
                            b.scope.import_root = clone_text(&mod_def.root);
                            let ghost argsv = fields_view(args@);
                            b.scope.build_output.push(
                                (String::from_str("mod"), Rc::new(Val::Tuple(args))),
                            );
                            assert(b@.scope.build_output =~= seq![("mod"@, ValV::Tuple(argsv))]);
                            match b.eval_stmts(&mod_def.statements, session, depth) {
                                Ok(_) => match &mod_def.out_expr {
                                    Some(e) => {
                                        let s = b.scope.clone();
                                        b.eval_expr(e, &s, session, depth)
                                    },
                                    None => Ok(b.get_outputs_as_val()),
                                },
                                Err(e) => Err(e),
                            }
                        },
                        Err(e) => Err(e),
                    },
                    Err(e) => Err(e),
                }
            },
            _ => Err(
                error_at(
                    ErrorType::TypeFail,
                    String::from_str("Weird value stored in our module parameters slot"),
                    def.selector.pos(),
                ),
            ),
        }
    }

    /// A copy.
    pub fn eval_copy(&self, def: &CopyDef, scope: &Scope, session: &mut Session, depth: usize) -> (r:
        Result<Rc<Val>, BuildError>)
        ensures
            outcome(r, *final(session)) == eval_copy_spec(
                self@,
                old(session)@,
                *def,
                scope@,
                depth as nat,
            ),
        decreases depth, 11nat, 0nat,
    {
        match self.eval_value(&def.selector, scope, session, depth) {
            Ok(v) => match &*v {
                Val::Tuple(src_fields) => {
                    let child_scope = scope.spawn_child().set_curr_val(share(&v));
                    self.copy_fields_from_base(src_fields, &def.fields, &child_scope, session, depth)
                },
                Val::Module(mod_def) => self.eval_module_copy(def, mod_def, scope, session, depth),
                _ => Err(
                    error_at(
                        ErrorType::TypeFail,
                        cat3("Expected Tuple or Module but got (", v.type_label().as_str(), ")"),
                        def.selector.pos(),
                    ),
                ),
            },
            Err(e) => Err(e),
        }
    }

    fn range_bound(what: &str, v: &Val, pos: &Position) -> (r: BuildError)
        ensures
            r@ == range_bound_error(what@, v@, *pos),
    {
        error_at(
            ErrorType::TypeFail,
            String::from_str("Expected an integer for range ").concat(what).concat(
                " but got (",
            ).concat(v.type_label().as_str()).concat(")"),
            pos,
        )
    }

    /// The list of the integers of a range.
    fn range_values(from: i64, by: i64, to: i64) -> (r: Rc<Val>)
        requires
            by != 0,
        ensures
            r@ == range_list(from, effective_step(by), to),
    {
        let step: i128 = if by < 0 {
            (by as i128) + 0x1_0000_0000_0000_0000
        } else {
            by as i128
        };
        let end: i128 = to as i128;
        let mut cur: i128 = from as i128;
        let mut out: Vec<Rc<Val>> = Vec::new();
        let ghost mut ints: Seq<int> = Seq::empty();
        let ghost all = range_from(from as int, step as int, to as int);
        assert(list_view(out@) =~= Seq::new(ints.len(), |k: int| ValV::Int(ints[k] as i64)));
        while cur <= end
            invariant
                0 < step <= 0x1_0000_0000_0000_0000,
                end == to,
                from <= cur,
                all == ints + range_from(cur as int, step as int, end as int),
                list_view(out@) == Seq::new(ints.len(), |k: int| ValV::Int(ints[k] as i64)),
            decreases
                    (if cur <= end {
                        end - cur + 1
                    } else {
                        0
                    }),
        {
            let ghost prev = ints;
            let ghost before = list_view(out@);
            let item: i64 = cur as i64;
            out.push(Rc::new(Val::Int(item)));
            proof {
                ints = prev.push(cur as int);
                assert(all =~= ints + range_from(cur + step, step as int, end as int));
                assert(list_view(out@) =~= before.push(ValV::Int(item)));
                assert(before.push(ValV::Int(item)) =~= Seq::new(
                    ints.len(),
                    |k: int| ValV::Int(ints[k] as i64),
                ));
            }
            cur = cur + step;
        }
        proof {
            assert(ints =~= all);
        }
        Rc::new(Val::List(out))
    }

    /// A range.
    pub fn eval_range(&self, def: &RangeDef, scope: &Scope, session: &mut Session, depth: usize)
        -> (r: Result<Rc<Val>, BuildError>)
        ensures
            outcome(r, *final(session)) == eval_range_spec(
                self@,
                old(session)@,
                *def,
                scope@,
                depth as nat,
            ),
        decreases depth, 5nat, 0nat,
    {
        let pos = def.start.pos();
        let from = match self.eval_expr(&def.start, scope, session, depth) {
            Ok(v) => match &*v {
                Val::Int(i) => *i,
                _ => {
                    return Err(Self::range_bound("start", &v, pos));
                },
            },
            Err(e) => {
                return Err(e);
            },
        };
        let by = match &def.step {
            Some(e) => match self.eval_expr(e, scope, session, depth) {
                Ok(v) => match &*v {
                    Val::Int(i) => *i,
                    _ => {
                        return Err(Self::range_bound("step", &v, pos));
                    },
                },
                Err(e) => {
                    return Err(e);
                },
            },
            None => 1,
        };
        let to = match self.eval_expr(&def.end, scope, session, depth) {
            Ok(v) => match &*v {
                Val::Int(i) => *i,
                _ => {
                    return Err(Self::range_bound("end", &v, pos));
                },
            },
            Err(e) => {
                return Err(e);
            },
        };
        if by == 0 {
            Err(
                error_at(
                    ErrorType::Unsupported,
                    String::from_str("A range cannot step by 0"),
                    pos,
                ),
            )
        } else {
            Ok(Self::range_values(from, by, to))
        }
    }

    /// Renders a template with `@{..}@` sections.
    pub fn render_sections(
        &self,
        def: &FormatDef,
        scope: &Scope,
        session: &mut Session,
        depth: usize,
    ) -> (r: Result<String, BuildError>)
        ensures
            (Outcome { res: text_result_view(r), session: final(session)@ })
                == render_sections_acc(
                self@,
                old(session)@,
                *def,
                scope@,
                depth as nat,
                0,
                0,
                false,
                Seq::empty(),
            ),
        decreases depth, 2nat, 0nat,
    {
        let ghost goal = render_sections_acc(
            self@,
            session@,
            *def,
            scope@,
            depth as nat,
            0,
            0,
            false,
            Seq::empty(),
        );
        let tmpl = def.template.as_str();
        let n = tmpl.unicode_len();
        let mut buf = String::new();
        let mut escape = false;
        let mut k: usize = 0;
        let mut i: usize = 0;
        while i < n
            invariant
                goal == render_sections_acc(
            self@,
            old(session)@,
            *def,
            scope@,
            depth as nat,
            0,
            0,
            false,
            Seq::empty(),
        ),
                n == tmpl@.len(),
                tmpl@ == def.template@,
                i <= n,
                k <= def.embedded.len(),
                goal == render_sections_acc(
                    self@,
                    session@,
                    *def,
                    scope@,
                    depth as nat,
                    i as int,
                    k as int,
                    escape,
                    buf@,
                ),
            decreases n - i,
        {
            let c = tmpl.get_char(i);
            let starts = c == '@' && !escape && i + 1 < n && tmpl.get_char(i + 1) == '{';
            assert(starts == section_starts(tmpl@, i as int, escape));
            if starts {
                proof {
                    lemma_section_end(tmpl@, i + 2);
                }
                match find_section_end(tmpl, i + 2) {
                    None => {
                        return Err(
                            error_at(
                                ErrorType::FormatError,
                                String::from_str("Expected a closing }@ in format string"),
                                &def.pos,
                            ),
                        );
                    },
                    Some(end) => {
                        if k < def.embedded.len() {
                            match self.eval_expr(&def.embedded[k], scope, session, depth) {
                                Ok(v) => {
                                    buf.append(v.to_text().as_str());
                                    k = k + 1;
                                    escape = false;
                                    i = end;
                                },
                                Err(e) => {
                                    return Err(e);
                                },
                            }
                        } else {
                            return Err(
                                error_at(
                                    ErrorType::FormatError,
                                    String::from_str("Too few expressions for format string"),
                                    &def.pos,
                                ),
                            );
                        }
                    },
                }
            } else if c == '\\' && !escape {
                escape = true;
                i = i + 1;
            } else {
                let ghost before = buf@;
                buf.append(tmpl.substring_char(i, i + 1));
                assert(buf@ =~= before.push(c));
                escape = false;
                i = i + 1;
            }
        }
        Ok(buf)
    }

    /// A format expression.
    pub fn eval_format(&self, def: &FormatDef, scope: &Scope, session: &mut Session, depth: usize)
        -> (r: Result<Rc<Val>, BuildError>)
        ensures
            outcome(r, *final(session)) == eval_format_spec(
                self@,
                old(session)@,
                *def,
                scope@,
                depth as nat,
            ),
        decreases depth, 5nat, 0nat,
    {
        match &def.args {
            FormatArgs::List(args) => match self.eval_exprs(args, scope, session, depth) {
                Ok(vals) => {
                    let formatter = SimpleFormatter::new(def.template.clone(), vals);
                    match formatter.render(&def.pos) {
                        Ok(text) => Ok(Rc::new(Val::Str(text))),
                        Err(e) => Err(e),
                    }
                },
                Err(e) => Err(e),
            },
            FormatArgs::Single(expr) => match self.eval_expr(expr, scope, session, depth) {
                Ok(item) => {
                    let mut child = scope.spawn_child();
                    bind(&mut child.build_output, String::from_str("item"), item);
                    match self.render_sections(def, &child, session, depth) {
                        Ok(text) => Ok(Rc::new(Val::Str(text))),
                        Err(e) => Err(e),
                    }
                },
                Err(e) => Err(e),
            },
        }
    }

    /// A call.
    pub fn eval_call(&self, def: &CallDef, scope: &Scope, session: &mut Session, depth: usize) -> (r:
        Result<Rc<Val>, BuildError>)
        ensures
            outcome(r, *final(session)) == eval_call_spec(
                self@,
                old(session)@,
                *def,
                scope@,
                depth as nat,
            ),
        decreases depth, 5nat, 0nat,
    {
        match self.eval_value(&def.funcref, scope, session, depth) {
            Ok(v) => match &*v {
                Val::Func(f) => match self.eval_exprs(&def.arglist, scope, session, depth) {
                    Ok(argvals) => f.eval(self, argvals, session, depth),
                    Err(e) => Err(e),
                },
                _ => Err(
                    error_at(
                        ErrorType::TypeFail,
                        cat2(v.type_label().as_str(), " is not a Function"),
                        &def.pos,
                    ),
                ),
            },
            Err(e) => Err(e),
        }
    }

    /// A module literal.
    pub fn eval_module_def(
        &self,
        def: &ModuleDef,
        scope: &Scope,
        session: &mut Session,
        depth: usize,
    ) -> (r: Result<Rc<Val>, BuildError>)
        ensures
            outcome(r, *final(session)) == eval_module_def_spec(
                self@,
                old(session)@,
                *def,
                scope@,
                depth as nat,
            ),
        decreases depth, 5nat, 0nat,
    {
        let root = match &def.root {
            Some(r) => r.clone(),
            None => self.file_dir(scope),
        };
        let arg_tuple = match &def.arg_tuple {
            Some(t) => share(t),
            None => match self.eval_tuple(&def.arg_set, scope, session, depth) {
                Ok(t) => t,
                Err(e) => {
                    return Err(e);
                },
            },
        };
        let m = clone_module(def);
        let made = ModuleDef {
            pos: m.pos,
            arg_set: m.arg_set,
            out_expr: m.out_expr,
            arg_tuple: Some(arg_tuple),
            statements: m.statements,
            root: Some(root),
        };
        proof {
            let mv = module_view(made);
            let dv = module_view(*def);
            assert(mv.pos == dv.pos);
            assert(mv.arg_set == dv.arg_set);
            assert(mv.out_expr == dv.out_expr);
            assert(mv.statements == dv.statements);
            assert(mv.root == Some(root@));
            assert(mv.arg_tuple == Some(Box::new(arg_tuple@)));
        }
        Ok(Rc::new(Val::Module(made)))
    }

    fn select_case(
        &self,
        def: &SelectDef,
        name: &str,
        shown: &str,
        scope: &Scope,
        session: &mut Session,
        depth: usize,
    ) -> (r: Result<Rc<Val>, BuildError>)
        ensures
            outcome(r, *final(session)) == select_case_spec(
                self@,
                old(session)@,
                *def,
                name@,
                shown@,
                scope@,
                depth as nat,
            ),
        decreases depth, 3nat, 0nat,
    {
        match token_position(&def.tuple, name) {
            Some(i) => self.eval_expr(&def.tuple[i].1, scope, session, depth),
            None => match &def.default {
                Some(e) => self.eval_expr(e, scope, session, depth),
                None => Err(
                    error_at(
                        ErrorType::TypeFail,
                        cat3("Unhandled select case ", shown, " with no default"),
                        def.val.pos(),
                    ),
                ),
            },
        }
    }

    /// A select.
    pub fn eval_select(&self, def: &SelectDef, scope: &Scope, session: &mut Session, depth: usize)
        -> (r: Result<Rc<Val>, BuildError>)
        ensures
            outcome(r, *final(session)) == eval_select_spec(
                self@,
                old(session)@,
                *def,
                scope@,
                depth as nat,
            ),
        decreases depth, 5nat, 0nat,
    {
        match self.eval_expr(&def.val, scope, session, depth) {
            Ok(v) => match &*v {
                Val::Str(name) => {
                    let shown = cat3("\"", name.as_str(), "\"");
                    self.select_case(def, name.as_str(), shown.as_str(), scope, session, depth)
                },
                Val::Boolean(x) => {
                    let name = bool_to_string(*x);
                    self.select_case(def, name.as_str(), name.as_str(), scope, session, depth)
                },
                _ => Err(
                    error_at(
                        ErrorType::TypeFail,
                        cat3("Expected String but got ", v.type_label().as_str(), " in Select expression"),
                        &def.pos,
                    ),
                ),
            },
            Err(e) => Err(e),
        }
    }
}

} // verus!
