//! The evaluation of statements and programs.

use vstd::prelude::*;
use vstd::string::*;
use std::rc::Rc;
use crate::assets::Session;
use crate::ast::{Expression, LetDef, Position, Statement};
use crate::build::FileBuilder;
use crate::build::ops::error_at;
use crate::build::semantics::{Progress, assert_is_shaped, assert_place, assert_verdict,
    eval_assert_spec, eval_input_spec, eval_let_spec, eval_stmt_spec, eval_stmts_acc};
use crate::error::{BuildError, BuildErrorV, ErrorType};
use crate::ir::{Val, ValV, result_view, share};
use crate::loader::Source;
use crate::scope::{field_position, find_in_fieldlist};
use crate::text::{cat2, cat3, nat_to_string};

verus! {

/// The state that the evaluation of a statement has reached.
pub open spec fn progress(r: Result<Rc<Val>, BuildError>, b: FileBuilder, session: Session)
    -> Progress {
    Progress { res: result_view(r), builder: b@, session: session@ }
}

fn place(pos: &Position) -> (r: String)
    ensures
        r@ == assert_place(*pos),
{
    String::from_str(" line: ").concat(nat_to_string(pos.line as u64).as_str()).concat(
        ", column: ",
    ).concat(nat_to_string(pos.column as u64).as_str())
}

/// What an evaluated assertion records.
pub fn verdict(v: &Val, pos: &Position) -> (r: (String, bool))
    ensures
        (r.0@, r.1) == assert_verdict(v@, *pos),
{
    match v {
        Val::Tuple(fs) => {
            let ok = match find_in_fieldlist("ok", fs) {
                Some(o) => match &*o {
                    Val::Boolean(x) => Some(*x),
                    _ => None,
                },
                None => None,
            };
            match ok {
                Some(ok) => {
                    let desc = match find_in_fieldlist("desc", fs) {
                        Some(d) => match &*d {
                            Val::Str(s) => Some(s.clone()),
                            _ => None,
                        },
                        None => None,
                    };
                    match desc {
                        Some(desc) => (desc, ok),
                        None => (
                            cat2(
                                "TYPE FAIL - Expected String field desc in tuple at",
                                place(pos).as_str(),
                            ),
                            false,
                        ),
                    }
                },
                None => (
                    cat2("TYPE FAIL - Expected Boolean field ok in tuple at", place(pos).as_str()),
                    false,
                ),
            }
        },
        _ => (
            String::from_str("TYPE FAIL - Expected tuple with ok and desc fields got ").concat(
                v.type_label().as_str(),
            ).concat(" at").concat(place(pos).as_str()),
            false,
        ),
    }
}

/// Whether an evaluated assertion has the shape of one.
pub fn is_shaped(v: &Val) -> (r: bool)
    ensures
        r == assert_is_shaped(v@),
{
    match v {
        Val::Tuple(fs) => {
            let ok = match find_in_fieldlist("ok", fs) {
                Some(o) => o.is_bool(),
                None => false,
            };
            let desc = match find_in_fieldlist("desc", fs) {
                Some(d) => d.is_str(),
                None => false,
            };
            ok && desc
        },
        _ => false,
    }
}

impl FileBuilder {
    /// A `let`.
    pub fn eval_let(&mut self, def: &LetDef, session: &mut Session, depth: usize) -> (r: Result<
        Rc<Val>,
        BuildError,
    >)
        ensures
            progress(r, *final(self), *final(session)) == eval_let_spec(
                old(self)@,
                old(session)@,
                *def,
                depth as nat,
            ),
        decreases depth, 5nat, 0nat,
    {
        let child_scope = self.scope.clone();
        match self.eval_expr(&def.value, &child_scope, session, depth) {
            Ok(val) => {
                let name = def.name.fragment.as_str();
                if Self::check_reserved_word(name) {
                    Err(
                        error_at(
                            ErrorType::ReservedWordError,
                            cat3("Let ", name, " binding collides with reserved word"),
                            &def.name.pos,
                        ),
                    )
                } else if field_position(name, &self.scope.build_output).is_some() {
                    Err(
                        error_at(
                            ErrorType::DuplicateBinding,
                            cat3("Binding for ", name, " already exists"),
                            &def.name.pos,
                        ),
                    )
                } else {
                    let ghost before = self@.scope.build_output;
                    self.scope.build_output.push((def.name.fragment.clone(), share(&val)));
                    assert(self@.scope.build_output =~= before.push((name@, val@)));
                    Ok(val)
                }
            },
            Err(e) => Err(e),
        }
    }

    /// An assertion.
    pub fn eval_assert(&mut self, expr: &Expression, session: &mut Session, depth: usize) -> (r:
        Result<Rc<Val>, BuildError>)
        ensures
            progress(r, *final(self), *final(session)) == eval_assert_spec(
                old(self)@,
                old(session)@,
                *expr,
                depth as nat,
            ),
        decreases depth, 5nat, 0nat,
    {
        if !self.validate_mode {
            return Ok(Rc::new(Val::Empty));
        }
        let child_scope = self.scope.clone();
        match self.eval_expr(expr, &child_scope, session, depth) {
            Ok(v) => {
                let found = verdict(&v, expr.pos());
                self.record_assert_result(found.0.as_str(), found.1);
                if is_shaped(&v) {
                    Ok(v)
                } else {
                    Ok(Rc::new(Val::Empty))
                }
            },
            Err(e) => {
                let msg = cat3("CompileError: ", e.render().as_str(), "\n");
                self.record_assert_result(msg.as_str(), false);
                Ok(Rc::new(Val::Empty))
            },
        }
    }

    /// A statement.
    pub fn eval_stmt(&mut self, stmt: &Statement, session: &mut Session, depth: usize) -> (r:
        Result<Rc<Val>, BuildError>)
        ensures
            progress(r, *final(self), *final(session)) == eval_stmt_spec(
                old(self)@,
                old(session)@,
                *stmt,
                depth as nat,
            ),
        decreases depth, 6nat, 0nat,
    {
        match stmt {
            Statement::Assert(expr) => self.eval_assert(expr, session, depth),
            Statement::Let(def) => self.eval_let(def, session, depth),
            Statement::Expression(expr) => {
                let child_scope = self.scope.clone();
                self.eval_expr(expr, &child_scope, session, depth)
            },
            Statement::Output(pos, typ, expr) => {
                if self.out_lock.is_none() {
                    let child_scope = self.scope.clone();
                    match self.eval_expr(expr, &child_scope, session, depth) {
                        Ok(val) => {
                            self.out_lock = Some((typ.fragment.clone(), share(&val)));
                            Ok(val)
                        },
                        Err(e) => Err(e),
                    }
                } else {
                    Err(
                        error_at(
                            ErrorType::Unsupported,
                            String::from_str("You can only have one output per file."),
                            pos,
                        ),
                    )
                }
            },
        }
    }

    /// Evaluates statements in order and returns the value of the last.
    pub fn eval_stmts_last(&mut self, ast: &Vec<Statement>, session: &mut Session, depth: usize)
        -> (r: Result<Rc<Val>, BuildError>)
        ensures
            progress(r, *final(self), *final(session)) == eval_stmts_acc(
                old(self)@,
                old(session)@,
                ast@,
                depth as nat,
                0,
                ValV::Empty,
            ),
        decreases depth, 7nat, 0nat,
    {
        let ghost goal = eval_stmts_acc(self@, session@, ast@, depth as nat, 0, ValV::Empty);
        let mut last: Rc<Val> = Rc::new(Val::Empty);
        let mut i: usize = 0;
        while i < ast.len()
            invariant
                goal == eval_stmts_acc(old(self)@, old(session)@, ast@, depth as nat, 0, ValV::Empty),
                i <= ast.len(),
                goal == eval_stmts_acc(self@, session@, ast@, depth as nat, i as int, last@),
            decreases ast.len() - i,
        {
            match self.eval_stmt(&ast[i], session, depth) {
                Ok(v) => {
                    last = v;
                },
                Err(e) => {
                    return Err(e);
                },
            }
            i = i + 1;
        }
        Ok(last)
    }

    /// Evaluates statements in order, up to the first that fails.
    pub fn eval_stmts(&mut self, ast: &Vec<Statement>, session: &mut Session, depth: usize) -> (r:
        Result<(), BuildError>)
        ensures
            ({
                let p = eval_stmts_acc(old(self)@, old(session)@, ast@, depth as nat, 0, ValV::Empty);
                &&& final(self)@ == p.builder
                &&& final(session)@ == p.session
                &&& match r {
                    Ok(_) => p.res.is_ok(),
                    Err(e) => p.res == Err::<ValV, BuildErrorV>(e@),
                }
            }),
        decreases depth, 8nat, 0nat,
    {
        match self.eval_stmts_last(ast, session, depth) {
            Ok(_) => Ok(()),
            Err(e) => Err(e),
        }
    }

    /// Evaluates a program.
    pub fn eval_input(&mut self, input: &Source, session: &mut Session, depth: usize) -> (r:
        Result<Rc<Val>, BuildError>)
        ensures
            progress(r, *final(self), *final(session)) == eval_input_spec(
                old(self)@,
                old(session)@,
                *input,
                depth as nat,
            ),
        decreases depth, 8nat, 0nat,
    {
        match input {
            Source::Parsed(stmts) => self.eval_stmts_last(stmts, session, depth),
            Source::Invalid(msg) => Err(
                BuildError::with_pos(
                    String::from_str("Unable to parse input"),
                    ErrorType::ParseError,
                    Position::new(1, 1, 0),
                ).wrap_cause(Box::new(BuildError::new(msg.clone(), ErrorType::ParseError))),
            ),
        }
    }

    /// Evaluates a program that was given as text, once the parser has read it.
    pub fn eval_string(&mut self, input: &Source, session: &mut Session, depth: usize) -> (r:
        Result<Rc<Val>, BuildError>)
        ensures
            progress(r, *final(self), *final(session)) == eval_input_spec(
                old(self)@,
                old(session)@,
                *input,
                depth as nat,
            ),
    {
        self.eval_input(input, session, depth)
    }
}

} // verus!
