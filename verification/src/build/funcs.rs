//! The higher-order operations: map, filter and reduce over lists, tuples and
//! the graphemes of strings.

use vstd::prelude::*;
use vstd::string::*;
use std::rc::Rc;
use crate::assets::Session;
use crate::ast::{FuncDef, FuncOpDef, MapFilterOpDef, Position, ReduceOpDef};
use crate::bridge::{grapheme_clusters, graphemes};
use crate::build::{FileBuilder, text_result_view};
use crate::build::eval::outcome;
use crate::build::ops::error_at;
use crate::build::semantics::{ProcessingOpType, eval_func_op_spec, eval_functional_processing_spec,
    eval_reduce_op_spec, filter_keeps, mapped_field, not_a_func_error, process_graphemes_acc,
    process_list_acc, process_tuple_acc, processed_text, reduce_graphemes_acc, reduce_list_acc,
    reduce_tuple_acc};
use crate::error::{BuildError, BuildErrorV, ErrorType};
use crate::ir::{Val, ValV, fields_view, func_view, list_view, share, strings_view};
use crate::scope::Scope;
use crate::text::{cat2, cat3, nat_to_string};

verus! {

/// Whether a filter keeps an element.
pub fn keeps(v: &Val) -> (r: bool)
    ensures
        r == filter_keeps(v@),
{
    match v {
        Val::Empty => false,
        Val::Boolean(x) => *x,
        _ => true,
    }
}

/// The content of the result of mapping a field.
pub open spec fn field_result_view(r: Result<(String, Rc<Val>), BuildError>) -> Result<
    (Seq<char>, ValV),
    BuildErrorV,
> {
    match r {
        Ok(f) => Ok((f.0@, f.1@)),
        Err(e) => Err(e@),
    }
}

/// The field that a map over a tuple makes of what the function returned.
pub fn map_field(v: &Val, pos: &Position) -> (r: Result<(String, Rc<Val>), BuildError>)
    ensures
        field_result_view(r) == mapped_field(v@, *pos),
{
    match v {
        Val::List(l) => {
            assert(v@ == ValV::List(list_view(l@)));
            if l.len() == 2 {
                assert(list_view(l@)[0] == (*l@[0])@);
                assert(list_view(l@)[1] == (*l@[1])@);
                match &*l[0] {
                    Val::Str(name) => Ok((name.clone(), share(&l[1]))),
                    _ => Err(
                        error_at(
                            ErrorType::TypeFail,
                            cat2(
                                "map on tuple expects the first item out list to be a string but got ",
                                l[0].type_label().as_str(),
                            ),
                            pos,
                        ),
                    ),
                }
            } else {
                Err(
                    error_at(
                        ErrorType::TypeFail,
                        cat2(
                            "map on a tuple field expects a list of size 2 as output but got size ",
                            nat_to_string(l.len() as u64).as_str(),
                        ),
                        pos,
                    ),
                )
            }
        },
        _ => Err(
            error_at(
                ErrorType::TypeFail,
                cat3(
                    "map on a tuple field expects a list as output but got (",
                    v.type_label().as_str(),
                    ")",
                ),
                pos,
            ),
        ),
    }
}

/// What a map or a filter over a string adds for one grapheme.
pub fn process_text(typ: ProcessingOpType, g: &str, v: &Val, pos: &Position) -> (r: Result<
    String,
    BuildError,
>)
    ensures
        text_result_view(r) == processed_text(typ, g@, v@, *pos),
{
    match typ {
        ProcessingOpType::Filter => match v {
            Val::Boolean(keep) => Ok(
                if *keep {
                    String::from_str(g)
                } else {
                    String::new()
                },
            ),
            Val::Empty => Ok(String::new()),
            _ => Err(
                error_at(
                    ErrorType::TypeFail,
                    cat3(
                        "Expected boolean or NULL for filter return but got (",
                        v.type_label().as_str(),
                        ")",
                    ),
                    pos,
                ),
            ),
        },
        ProcessingOpType::MapEach => match v {
            Val::Str(t) => Ok(t.clone()),
            _ => Err(
                error_at(
                    ErrorType::TypeFail,
                    cat3("Expected string map return but got (", v.type_label().as_str(), ")"),
                    pos,
                ),
            ),
        },
    }
}

fn not_a_func(v: &Val, pos: &Position) -> (r: BuildError)
    ensures
        r@ == not_a_func_error(v@, *pos),
{
    error_at(ErrorType::TypeFail, cat3("Expected func but got (", v.type_label().as_str(), ")"), pos)
}

impl FileBuilder {
    /// A map or a filter over a list.
    pub fn eval_functional_list_processing(
        &self,
        elems: &Vec<Rc<Val>>,
        def: &FuncDef,
        typ: ProcessingOpType,
        session: &mut Session,
        depth: usize,
    ) -> (r: Result<Rc<Val>, BuildError>)
        ensures
            outcome(r, *final(session)) == process_list_acc(
                self@,
                old(session)@,
                func_view(*def),
                typ,
                list_view(elems@),
                depth as nat,
                0,
                Seq::empty(),
            ),
        decreases depth, 2nat, 0nat,
    {
        let ghost goal = process_list_acc(
            self@,
            session@,
            func_view(*def),
            typ,
            list_view(elems@),
            depth as nat,
            0,
            Seq::empty(),
        );
        let mut out: Vec<Rc<Val>> = Vec::new();
        assert(list_view(out@) =~= Seq::empty());
        let mut i: usize = 0;
        while i < elems.len()
            invariant
                goal == process_list_acc(
            self@,
            old(session)@,
            func_view(*def),
            typ,
            list_view(elems@),
            depth as nat,
            0,
            Seq::empty(),
        ),
                i <= elems.len(),
                goal == process_list_acc(
                    self@,
                    session@,
                    func_view(*def),
                    typ,
                    list_view(elems@),
                    depth as nat,
                    i as int,
                    list_view(out@),
                ),
            decreases elems.len() - i,
        {
            let mut argvals: Vec<Rc<Val>> = Vec::new();
            argvals.push(share(&elems[i]));
            assert(list_view(argvals@) =~= seq![list_view(elems@)[i as int]]);
            match def.eval(self, argvals, session, depth) {
                Ok(val) => {
                    let ghost before = list_view(out@);
                    match typ {
                        ProcessingOpType::MapEach => {
                            out.push(val);
                            assert(list_view(out@) =~= before.push(val@));
                        },
                        ProcessingOpType::Filter => {
                            if keeps(&val) {
                                out.push(share(&elems[i]));
                                assert(list_view(out@) =~= before.push(list_view(elems@)[i as int]));
                            }
                        },
                    }
                },
                Err(e) => {
                    return Err(e);
                },
            }
            i = i + 1;
        }
        Ok(Rc::new(Val::List(out)))
    }

    /// A map or a filter over a tuple.
    pub fn eval_functional_tuple_processing(
        &self,
        fs: &Vec<(String, Rc<Val>)>,
        def: &FuncDef,
        typ: ProcessingOpType,
        session: &mut Session,
        depth: usize,
    ) -> (r: Result<Rc<Val>, BuildError>)
        ensures
            outcome(r, *final(session)) == process_tuple_acc(
                self@,
                old(session)@,
                func_view(*def),
                typ,
                fields_view(fs@),
                depth as nat,
                0,
                Seq::empty(),
            ),
        decreases depth, 2nat, 0nat,
    {
        let ghost goal = process_tuple_acc(
            self@,
            session@,
            func_view(*def),
            typ,
            fields_view(fs@),
            depth as nat,
            0,
            Seq::empty(),
        );
        let mut out: Vec<(String, Rc<Val>)> = Vec::new();
        assert(fields_view(out@) =~= Seq::empty());
        let mut i: usize = 0;
        while i < fs.len()
            invariant
                goal == process_tuple_acc(
            self@,
            old(session)@,
            func_view(*def),
            typ,
            fields_view(fs@),
            depth as nat,
            0,
            Seq::empty(),
        ),
                i <= fs.len(),
                goal == process_tuple_acc(
                    self@,
                    session@,
                    func_view(*def),
                    typ,
                    fields_view(fs@),
                    depth as nat,
                    i as int,
                    fields_view(out@),
                ),
            decreases fs.len() - i,
        {
            let mut argvals: Vec<Rc<Val>> = Vec::new();
            argvals.push(Rc::new(Val::Str(fs[i].0.clone())));
            argvals.push(share(&fs[i].1));
            assert(list_view(argvals@) =~= seq![
                ValV::Str(fields_view(fs@)[i as int].0),
                fields_view(fs@)[i as int].1,
            ]);
            match def.eval(self, argvals, session, depth) {
                Ok(val) => {
                    let ghost before = fields_view(out@);
                    match typ {
                        ProcessingOpType::MapEach => match map_field(&val, &def.pos) {
                            Ok(field) => {
                                out.push(field);
                                assert(fields_view(out@) =~= before.push((field.0@, field.1@)));
                            },
                            Err(e) => {
                                return Err(e);
                            },
                        },
                        ProcessingOpType::Filter => {
                            if keeps(&val) {
                                out.push((fs[i].0.clone(), share(&fs[i].1)));
                                assert(fields_view(out@) =~= before.push(fields_view(fs@)[i as int]));
                            }
                        },
                    }
                },
                Err(e) => {
                    return Err(e);
                },
            }
            i = i + 1;
        }
        Ok(Rc::new(Val::Tuple(out)))
    }

    /// A map or a filter over graphemes.
    pub fn process_graphemes(
        &self,
        gs: &Vec<String>,
        def: &FuncDef,
        typ: ProcessingOpType,
        session: &mut Session,
        depth: usize,
    ) -> (r: Result<Rc<Val>, BuildError>)
        ensures
            outcome(r, *final(session)) == process_graphemes_acc(
                self@,
                old(session)@,
                func_view(*def),
                typ,
                strings_view(gs@),
                depth as nat,
                0,
                Seq::empty(),
            ),
        decreases depth, 2nat, 0nat,
    {
        let ghost goal = process_graphemes_acc(
            self@,
            session@,
            func_view(*def),
            typ,
            strings_view(gs@),
            depth as nat,
            0,
            Seq::empty(),
        );
        let mut result = String::new();
        let mut i: usize = 0;
        while i < gs.len()
            invariant
                goal == process_graphemes_acc(
            self@,
            old(session)@,
            func_view(*def),
            typ,
            strings_view(gs@),
            depth as nat,
            0,
            Seq::empty(),
        ),
                i <= gs.len(),
                goal == process_graphemes_acc(
                    self@,
                    session@,
                    func_view(*def),
                    typ,
                    strings_view(gs@),
                    depth as nat,
                    i as int,
                    result@,
                ),
            decreases gs.len() - i,
        {
            let mut argvals: Vec<Rc<Val>> = Vec::new();
            argvals.push(Rc::new(Val::Str(gs[i].clone())));
            assert(list_view(argvals@) =~= seq![ValV::Str(strings_view(gs@)[i as int])]);
            match def.eval(self, argvals, session, depth) {
                Ok(val) => match process_text(typ, gs[i].as_str(), &val, &def.pos) {
                    Ok(t) => {
                        result.append(t.as_str());
                    },
                    Err(e) => {
                        return Err(e);
                    },
                },
                Err(e) => {
                    return Err(e);
                },
            }
            i = i + 1;
        }
        Ok(Rc::new(Val::Str(result)))
    }

    /// A map or a filter over the graphemes of a string.
    pub fn eval_functional_string_processing(
        &self,
        s: &str,
        def: &FuncDef,
        typ: ProcessingOpType,
        session: &mut Session,
        depth: usize,
    ) -> (r: Result<Rc<Val>, BuildError>)
        ensures
            outcome(r, *final(session)) == process_graphemes_acc(
                self@,
                old(session)@,
                func_view(*def),
                typ,
                grapheme_clusters(s@),
                depth as nat,
                0,
                Seq::empty(),
            ),
        decreases depth, 3nat, 0nat,
    {
        let gs = graphemes(s);
        self.process_graphemes(&gs, def, typ, session, depth)
    }

    /// A map or a filter.
    pub fn eval_functional_processing(
        &self,
        def: &MapFilterOpDef,
        typ: ProcessingOpType,
        scope: &Scope,
        session: &mut Session,
        depth: usize,
    ) -> (r: Result<Rc<Val>, BuildError>)
        ensures
            outcome(r, *final(session)) == eval_functional_processing_spec(
                self@,
                old(session)@,
                *def,
                typ,
                scope@,
                depth as nat,
            ),
        decreases depth, 5nat, 0nat,
    {
        match self.eval_expr(&def.target, scope, session, depth) {
            Ok(target) => match self.eval_expr(&def.func, scope, session, depth) {
                Ok(mac) => match &*mac {
                    Val::Func(f) => match &*target {
                        Val::List(elems) => self.eval_functional_list_processing(
                            elems,
                            f,
                            typ,
                            session,
                            depth,
                        ),
                        Val::Tuple(fs) => self.eval_functional_tuple_processing(
                            fs,
                            f,
                            typ,
                            session,
                            depth,
                        ),
                        Val::Str(s) => self.eval_functional_string_processing(
                            s.as_str(),
                            f,
                            typ,
                            session,
                            depth,
                        ),
                        _ => Err(
                            error_at(
                                ErrorType::TypeFail,
                                cat2(
                                    "Expected List or Tuple as target but got ",
                                    target.type_label().as_str(),
                                ),
                                def.target.pos(),
                            ),
                        ),
                    },
                    _ => Err(not_a_func(&mac, &def.pos)),
                },
                Err(e) => Err(e),
            },
            Err(e) => Err(e),
        }
    }

    /// A reduction over a list.
    pub fn reduce_list(
        &self,
        elems: &Vec<Rc<Val>>,
        def: &FuncDef,
        init: Rc<Val>,
        session: &mut Session,
        depth: usize,
    ) -> (r: Result<Rc<Val>, BuildError>)
        ensures
            outcome(r, *final(session)) == reduce_list_acc(
                self@,
                old(session)@,
                func_view(*def),
                list_view(elems@),
                depth as nat,
                0,
                init@,
            ),
        decreases depth, 2nat, 0nat,
    {
        let ghost goal = reduce_list_acc(
            self@,
            session@,
            func_view(*def),
            list_view(elems@),
            depth as nat,
            0,
            init@,
        );
        let mut acc = init;
        let mut i: usize = 0;
        while i < elems.len()
            invariant
                goal == reduce_list_acc(
            self@,
            old(session)@,
            func_view(*def),
            list_view(elems@),
            depth as nat,
            0,
            init@,
        ),
                i <= elems.len(),
                goal == reduce_list_acc(
                    self@,
                    session@,
                    func_view(*def),
                    list_view(elems@),
                    depth as nat,
                    i as int,
                    acc@,
                ),
            decreases elems.len() - i,
        {
            let mut argvals: Vec<Rc<Val>> = Vec::new();
            argvals.push(share(&acc));
            argvals.push(share(&elems[i]));
            assert(list_view(argvals@) =~= seq![acc@, list_view(elems@)[i as int]]);
            match def.eval(self, argvals, session, depth) {
                Ok(val) => {
                    acc = val;
                },
                Err(e) => {
                    return Err(e);
                },
            }
            i = i + 1;
        }
        Ok(acc)
    }

    /// A reduction over a tuple.
    pub fn reduce_tuple(
        &self,
        fs: &Vec<(String, Rc<Val>)>,
        def: &FuncDef,
        init: Rc<Val>,
        session: &mut Session,
        depth: usize,
    ) -> (r: Result<Rc<Val>, BuildError>)
        ensures
            outcome(r, *final(session)) == reduce_tuple_acc(
                self@,
                old(session)@,
                func_view(*def),
                fields_view(fs@),
                depth as nat,
                0,
                init@,
            ),
        decreases depth, 2nat, 0nat,
    {
        let ghost goal = reduce_tuple_acc(
            self@,
            session@,
            func_view(*def),
            fields_view(fs@),
            depth as nat,
            0,
            init@,
        );
        let mut acc = init;
        let mut i: usize = 0;
        while i < fs.len()
            invariant
                goal == reduce_tuple_acc(
            self@,
            old(session)@,
            func_view(*def),
            fields_view(fs@),
            depth as nat,
            0,
            init@,
        ),
                i <= fs.len(),
                goal == reduce_tuple_acc(
                    self@,
                    session@,
                    func_view(*def),
                    fields_view(fs@),
                    depth as nat,
                    i as int,
                    acc@,
                ),
            decreases fs.len() - i,
        {
            let mut argvals: Vec<Rc<Val>> = Vec::new();
            argvals.push(share(&acc));
            argvals.push(Rc::new(Val::Str(fs[i].0.clone())));
            argvals.push(share(&fs[i].1));
            assert(list_view(argvals@) =~= seq![
                acc@,
                ValV::Str(fields_view(fs@)[i as int].0),
                fields_view(fs@)[i as int].1,
            ]);
            match def.eval(self, argvals, session, depth) {
                Ok(val) => {
                    acc = val;
                },
                Err(e) => {
                    return Err(e);
                },
            }
            i = i + 1;
        }
        Ok(acc)
    }

    /// A reduction over graphemes.
    pub fn reduce_graphemes(
        &self,
        gs: &Vec<String>,
        def: &FuncDef,
        init: Rc<Val>,
        session: &mut Session,
        depth: usize,
    ) -> (r: Result<Rc<Val>, BuildError>)
        ensures
            outcome(r, *final(session)) == reduce_graphemes_acc(
                self@,
                old(session)@,
                func_view(*def),
                strings_view(gs@),
                depth as nat,
                0,
                init@,
            ),
        decreases depth, 2nat, 0nat,
    {
        let ghost goal = reduce_graphemes_acc(
            self@,
            session@,
            func_view(*def),
            strings_view(gs@),
            depth as nat,
            0,
            init@,
        );
        let mut acc = init;
        let mut i: usize = 0;
        while i < gs.len()
            invariant
                goal == reduce_graphemes_acc(
            self@,
            old(session)@,
            func_view(*def),
            strings_view(gs@),
            depth as nat,
            0,
            init@,
        ),
                i <= gs.len(),
                goal == reduce_graphemes_acc(
                    self@,
                    session@,
                    func_view(*def),
                    strings_view(gs@),
                    depth as nat,
                    i as int,
                    acc@,
                ),
            decreases gs.len() - i,
        {
            let mut argvals: Vec<Rc<Val>> = Vec::new();
            argvals.push(share(&acc));
            argvals.push(Rc::new(Val::Str(gs[i].clone())));
            assert(list_view(argvals@) =~= seq![acc@, ValV::Str(strings_view(gs@)[i as int])]);
            match def.eval(self, argvals, session, depth) {
                Ok(val) => {
                    acc = val;
                },
                Err(e) => {
                    return Err(e);
                },
            }
            i = i + 1;
        }
        Ok(acc)
    }

    /// A reduction.
    pub fn eval_reduce_op(
        &self,
        def: &ReduceOpDef,
        scope: &Scope,
        session: &mut Session,
        depth: usize,
    ) -> (r: Result<Rc<Val>, BuildError>)
        ensures
            outcome(r, *final(session)) == eval_reduce_op_spec(
                self@,
                old(session)@,
                *def,
                scope@,
                depth as nat,
            ),
        decreases depth, 5nat, 0nat,
    {
        match self.eval_expr(&def.target, scope, session, depth) {
            Ok(target) => match self.eval_expr(&def.acc, scope, session, depth) {
                Ok(acc) => match self.eval_expr(&def.func, scope, session, depth) {
                    Ok(mac) => match &*mac {
                        Val::Func(f) => match &*target {
                            Val::List(elems) => self.reduce_list(elems, f, acc, session, depth),
                            Val::Tuple(fs) => self.reduce_tuple(fs, f, acc, session, depth),
                            Val::Str(s) => {
                                let gs = graphemes(s.as_str());
                                self.reduce_graphemes(&gs, f, acc, session, depth)
                            },
                            _ => Err(
                                error_at(
                                    ErrorType::TypeFail,
                                    cat2(
                                        "Expected List Str, or Tuple as target but got ",
                                        target.type_label().as_str(),
                                    ),
                                    def.target.pos(),
                                ),
                            ),
                        },
                        _ => Err(not_a_func(&mac, &def.pos)),
                    },
                    Err(e) => Err(e),
                },
                Err(e) => Err(e),
            },
            Err(e) => Err(e),
        }
    }

    /// A higher-order operation.
    pub fn eval_func_op(&self, def: &FuncOpDef, scope: &Scope, session: &mut Session, depth: usize)
        -> (r: Result<Rc<Val>, BuildError>)
        ensures
            outcome(r, *final(session)) == eval_func_op_spec(
                self@,
                old(session)@,
                *def,
                scope@,
                depth as nat,
            ),
        decreases depth, 6nat, 0nat,
    {
        match def {
            FuncOpDef::Filter(m) => self.eval_functional_processing(
                m,
                ProcessingOpType::Filter,
                scope,
                session,
                depth,
            ),
            FuncOpDef::MapEach(m) => self.eval_functional_processing(
                m,
                ProcessingOpType::MapEach,
                scope,
                session,
                depth,
            ),
            FuncOpDef::Reduce(r) => self.eval_reduce_op(r, scope, session, depth),
        }
    }
}

} // verus!
