//! Laws of the value domain and of evaluation, each proved from the
//! definitions.

use vstd::prelude::*;
use crate::assets::{CacheV, Session, SessionV, stash_spec};
use crate::ast::{Expression, ImportDef, LetDef, Position, Statement, Token};
use crate::build::{BuilderV, FileBuilder, is_reserved_word};
use crate::build::ops::{apply_override, err_at, may_override};
use crate::build::semantics::{Outcome, Progress, build_spec, copy_fields_acc,
    copy_fields_from_base_spec, do_element_check_spec, done, eval_assert_spec, eval_expr_spec,
    eval_file_import_spec, eval_input_spec, eval_let_spec, eval_std_import_spec, eval_stmt_spec,
    eval_stmts_acc, func_eval_spec, import_builder, range_from, reduce_list_acc, std_builder,
    token_names};
use crate::error::{BuildErrorV, ErrorType};
use crate::ir::{FuncV, ScopeV, ValV, equal_spec, fields_equal_from, list_equal_from};
use crate::loader::{Source, is_relative_spec, join_spec};
use crate::scope::{find_field, index_of, lemma_index_of, names_of};

verus! {

/// Whether a value can be compared with itself: neither it nor any part of it
/// is a function, a module or an environment.
pub open spec fn comparable(v: ValV) -> bool
    decreases v,
{
    match v {
        ValV::List(l) => forall|i: int| 0 <= i < l.len() ==> comparable(#[trigger] l[i]),
        ValV::Tuple(fs) => forall|i: int| 0 <= i < fs.len() ==> comparable((#[trigger] fs[i]).1),
        ValV::Func(_) => false,
        ValV::Module(_) => false,
        ValV::Env(_) => false,
        _ => true,
    }
}

/// Two results of a comparison agree: both are the same answer, or both are
/// errors.
pub open spec fn same_verdict(x: Result<bool, BuildErrorV>, y: Result<bool, BuildErrorV>) -> bool {
    match (x, y) {
        (Ok(p), Ok(q)) => p == q,
        (Err(_), Err(_)) => true,
        _ => false,
    }
}

/// Values that deep equality finds equal are the same value.
pub proof fn lemma_equal_means_same(a: ValV, b: ValV)
    requires
        equal_spec(a, b) == Ok::<bool, BuildErrorV>(true),
    ensures
        a == b,
    decreases a, 0nat,
{
    match (a, b) {
        (ValV::List(l), ValV::List(r)) => {
            lemma_list_equal_means_same(l, r, 0);
            assert(l =~= r);
        },
        (ValV::Tuple(l), ValV::Tuple(r)) => {
            lemma_fields_equal_means_same(l, r, 0);
            assert(l =~= r);
        },
        _ => {},
    }
}

proof fn lemma_list_equal_means_same(l: Seq<ValV>, r: Seq<ValV>, i: int)
    requires
        l.len() == r.len(),
        0 <= i,
        list_equal_from(l, r, i) == Ok::<bool, BuildErrorV>(true),
    ensures
        forall|k: int| i <= k < l.len() ==> l[k] == r[k],
    decreases l, l.len() - i,
{
    if i < l.len() {
        lemma_equal_means_same(l[i], r[i]);
        lemma_list_equal_means_same(l, r, i + 1);
    }
}

proof fn lemma_fields_equal_means_same(
    l: Seq<(Seq<char>, ValV)>,
    r: Seq<(Seq<char>, ValV)>,
    i: int,
)
    requires
        l.len() == r.len(),
        0 <= i,
        fields_equal_from(l, r, i) == Ok::<bool, BuildErrorV>(true),
    ensures
        forall|k: int| i <= k < l.len() ==> l[k] == r[k],
    decreases l, l.len() - i,
{
    if i < l.len() {
        lemma_equal_means_same(l[i].1, r[i].1);
        lemma_fields_equal_means_same(l, r, i + 1);
    }
}

/// Deep equality is reflexive on the values that can be compared.
pub proof fn lemma_equal_reflexive(a: ValV)
    requires
        comparable(a),
    ensures
        equal_spec(a, a) == Ok::<bool, BuildErrorV>(true),
    decreases a, 0nat,
{
    match a {
        ValV::List(l) => {
            lemma_list_equal_reflexive(l, 0);
        },
        ValV::Tuple(fs) => {
            lemma_fields_equal_reflexive(fs, 0);
        },
        _ => {},
    }
}

proof fn lemma_list_equal_reflexive(l: Seq<ValV>, i: int)
    requires
        0 <= i,
        forall|k: int| 0 <= k < l.len() ==> comparable(#[trigger] l[k]),
    ensures
        list_equal_from(l, l, i) == Ok::<bool, BuildErrorV>(true),
    decreases l, l.len() - i,
{
    if i < l.len() {
        lemma_equal_reflexive(l[i]);
        lemma_list_equal_reflexive(l, i + 1);
    }
}

proof fn lemma_fields_equal_reflexive(fs: Seq<(Seq<char>, ValV)>, i: int)
    requires
        0 <= i,
        forall|k: int| 0 <= k < fs.len() ==> comparable((#[trigger] fs[k]).1),
    ensures
        fields_equal_from(fs, fs, i) == Ok::<bool, BuildErrorV>(true),
    decreases fs, fs.len() - i,
{
    if i < fs.len() {
        lemma_equal_reflexive(fs[i].1);
        lemma_fields_equal_reflexive(fs, i + 1);
    }
}

/// Deep equality is symmetric: the two orders give the same answer, or both
/// give an error.
pub proof fn lemma_equal_symmetric(a: ValV, b: ValV)
    ensures
        same_verdict(equal_spec(a, b), equal_spec(b, a)),
    decreases a, 0nat,
{
    match (a, b) {
        (ValV::List(l), ValV::List(r)) => {
            if l.len() == r.len() {
                lemma_list_equal_symmetric(l, r, 0);
            }
        },
        (ValV::Tuple(l), ValV::Tuple(r)) => {
            if l.len() == r.len() {
                lemma_fields_equal_symmetric(l, r, 0);
            }
        },
        _ => {},
    }
}

proof fn lemma_list_equal_symmetric(l: Seq<ValV>, r: Seq<ValV>, i: int)
    requires
        l.len() == r.len(),
        0 <= i,
    ensures
        same_verdict(list_equal_from(l, r, i), list_equal_from(r, l, i)),
    decreases l, l.len() - i,
{
    if i < l.len() {
        lemma_equal_symmetric(l[i], r[i]);
        lemma_list_equal_symmetric(l, r, i + 1);
    }
}

proof fn lemma_fields_equal_symmetric(
    l: Seq<(Seq<char>, ValV)>,
    r: Seq<(Seq<char>, ValV)>,
    i: int,
)
    requires
        l.len() == r.len(),
        0 <= i,
    ensures
        same_verdict(fields_equal_from(l, r, i), fields_equal_from(r, l, i)),
    decreases l, l.len() - i,
{
    if i < l.len() {
        lemma_equal_symmetric(l[i].1, r[i].1);
        lemma_fields_equal_symmetric(l, r, i + 1);
    }
}

/// Deep equality is transitive.
pub proof fn lemma_equal_transitive(a: ValV, b: ValV, c: ValV)
    requires
        equal_spec(a, b) == Ok::<bool, BuildErrorV>(true),
        equal_spec(b, c) == Ok::<bool, BuildErrorV>(true),
    ensures
        equal_spec(a, c) == Ok::<bool, BuildErrorV>(true),
{
    lemma_equal_means_same(a, b);
}

/// Deep equality cannot tell equal values apart: comparing `a` with `b` gives
/// what comparing `a2` with `b2` gives, where `a` equals `a2` and `b` equals `b2`.
pub proof fn lemma_equal_respects_equal(a: ValV, a2: ValV, b: ValV, b2: ValV)
    requires
        equal_spec(a, a2) == Ok::<bool, BuildErrorV>(true),
        equal_spec(b, b2) == Ok::<bool, BuildErrorV>(true),
    ensures
        equal_spec(a, b) == equal_spec(a2, b2),
{
    lemma_equal_means_same(a, a2);
    lemma_equal_means_same(b, b2);
}

/// Evaluation is a function of what the builder, the session and the program
/// hold: two builders and two sessions of equal content give a program the
/// same result, the same bindings, the same cache and the same notices,
/// whatever their representation in memory. Where the result is a value that
/// can be compared, deep equality finds the two results equal.
pub proof fn lemma_evaluation_is_deterministic(
    b1: FileBuilder,
    c1: Session,
    b2: FileBuilder,
    c2: Session,
    src: Source,
    depth: nat,
)
    requires
        b1@ == b2@,
        c1@ == c2@,
    ensures
        eval_input_spec(b1@, c1@, src, depth) == eval_input_spec(b2@, c2@, src, depth),
        ({
            let first = eval_input_spec(b1@, c1@, src, depth).res;
            let second = eval_input_spec(b2@, c2@, src, depth).res;
            first.is_ok() && comparable(first->Ok_0) ==> equal_spec(first->Ok_0, second->Ok_0)
                == Ok::<bool, BuildErrorV>(true)
        }),
{
    match eval_input_spec(b1@, c1@, src, depth).res {
        Ok(v) => {
            if comparable(v) {
                lemma_equal_reflexive(v);
            }
        },
        Err(_) => {},
    }
}

/// The names of the fields after overrides of the given names, from index `i`
/// on: each name that is new is added at the end.
pub open spec fn names_after(names: Seq<Seq<char>>, overrides: Seq<Seq<char>>, i: int) -> Seq<
    Seq<char>,
>
    decreases overrides.len() - i,
{
    if 0 <= i < overrides.len() {
        names_after(
            if index_of(names, overrides[i], 0).is_some() {
                names
            } else {
                names.push(overrides[i])
            },
            overrides,
            i + 1,
        )
    } else {
        names
    }
}

/// The names after overrides begin with the names before them.
pub proof fn lemma_names_after_extends(names: Seq<Seq<char>>, overrides: Seq<Seq<char>>, i: int)
    requires
        0 <= i,
    ensures
        names.is_prefix_of(names_after(names, overrides, i)),
    decreases overrides.len() - i,
{
    if i < overrides.len() {
        let next = if index_of(names, overrides[i], 0).is_some() {
            names
        } else {
            names.push(overrides[i])
        };
        lemma_names_after_extends(next, overrides, i + 1);
        assert(names.is_prefix_of(next));
        let last = names_after(next, overrides, i + 1);
        assert(names =~= last.subrange(0, names.len() as int));
    }
}

/// One override keeps the names of the fields in their order and adds the
/// name at the end where it is new.
pub proof fn lemma_override_keeps_order(
    fields: Seq<(Seq<char>, ValV)>,
    name: Seq<char>,
    v: ValV,
    pos: Position,
)
    requires
        apply_override(fields, name, v, pos).is_ok(),
    ensures
        names_of(apply_override(fields, name, v, pos)->Ok_0) == (if index_of(
            names_of(fields),
            name,
            0,
        ).is_some() {
            names_of(fields)
        } else {
            names_of(fields).push(name)
        }),
{
    let after = apply_override(fields, name, v, pos)->Ok_0;
    lemma_index_of(names_of(fields), name, 0);
    match index_of(names_of(fields), name, 0) {
        Some(i) => {
            assert(names_of(after) =~= names_of(fields));
        },
        None => {
            assert(names_of(after) =~= names_of(fields).push(name));
        },
    }
}

/// An override of a field that exists leaves the new value at that field,
/// and the new value is of the same type as what the field then holds.
pub proof fn lemma_override_of_existing_field(
    fields: Seq<(Seq<char>, ValV)>,
    name: Seq<char>,
    v: ValV,
    pos: Position,
)
    requires
        find_field(fields, name).is_some(),
        apply_override(fields, name, v, pos).is_ok(),
    ensures
        find_field(apply_override(fields, name, v, pos)->Ok_0, name) == Some(v),
        v.type_equal(find_field(apply_override(fields, name, v, pos)->Ok_0, name).unwrap()),
        may_override(find_field(fields, name).unwrap(), v),
{
    let after = apply_override(fields, name, v, pos)->Ok_0;
    lemma_index_of(names_of(fields), name, 0);
    let i = index_of(names_of(fields), name, 0).unwrap();
    assert(names_of(after) =~= names_of(fields));
    lemma_index_of(names_of(after), name, 0);
}

/// The fields of a copy come in the order of the source, followed by the
/// fields that the overrides introduce, in the order in which they do.
pub proof fn lemma_copy_keeps_field_order(
    b: BuilderV,
    c: SessionV,
    overrides: Seq<(Token, Expression)>,
    s: ScopeV,
    d: nat,
    i: int,
    acc: Seq<(Seq<char>, ValV)>,
)
    requires
        0 <= i,
        copy_fields_acc(b, c, overrides, s, d, i, acc).res.is_ok(),
    ensures
        names_of(copy_fields_acc(b, c, overrides, s, d, i, acc).res->Ok_0) == names_after(
            names_of(acc),
            token_names(overrides),
            i,
        ),
        names_of(acc).is_prefix_of(
            names_of(copy_fields_acc(b, c, overrides, s, d, i, acc).res->Ok_0),
        ),
    decreases overrides.len() - i,
{
    lemma_names_after_extends(names_of(acc), token_names(overrides), i);
    if i < overrides.len() {
        let r = eval_expr_spec(b, c, overrides[i].1, s, d);
        let v = r.res->Ok_0;
        let next = apply_override(acc, overrides[i].0.fragment@, v, overrides[i].0.pos)->Ok_0;
        lemma_override_keeps_order(acc, overrides[i].0.fragment@, v, overrides[i].0.pos);
        lemma_copy_keeps_field_order(b, r.session, overrides, s, d, i + 1, next);
    }
}

/// A copy of a tuple with overrides, where it succeeds, is a tuple whose
/// fields are those of the source in their order followed by the fields that
/// the overrides introduce in theirs.
pub proof fn lemma_copy_of_tuple_keeps_field_order(
    b: BuilderV,
    c: SessionV,
    src_fields: Seq<(Seq<char>, ValV)>,
    overrides: Seq<(Token, Expression)>,
    s: ScopeV,
    d: nat,
)
    requires
        copy_fields_from_base_spec(b, c, src_fields, overrides, s, d).res.is_ok(),
    ensures
        copy_fields_from_base_spec(b, c, src_fields, overrides, s, d).res->Ok_0 is Tuple,
        names_of(
            copy_fields_from_base_spec(b, c, src_fields, overrides, s, d).res->Ok_0->Tuple_0,
        ) == names_after(names_of(src_fields), token_names(overrides), 0),
        names_of(src_fields).is_prefix_of(
            names_of(
                copy_fields_from_base_spec(b, c, src_fields, overrides, s, d).res->Ok_0->Tuple_0,
            ),
        ),
{
    lemma_copy_keeps_field_order(b, c, overrides, s, d, 0, src_fields);
}

/// A copy with one override of a field that the source has: where it
/// succeeds, the field holds the value of the override, which is of the same
/// type as what the field holds.
pub proof fn lemma_copy_overrides_existing_field(
    b: BuilderV,
    c: SessionV,
    src_fields: Seq<(Seq<char>, ValV)>,
    name: Token,
    value: Expression,
    s: ScopeV,
    d: nat,
)
    requires
        find_field(src_fields, name.fragment@).is_some(),
        copy_fields_from_base_spec(b, c, src_fields, seq![(name, value)], s, d).res.is_ok(),
    ensures
        ({
            let copy = copy_fields_from_base_spec(
                b,
                c,
                src_fields,
                seq![(name, value)],
                s,
                d,
            ).res->Ok_0;
            let x = eval_expr_spec(b, c, value, s, d).res;
            &&& x.is_ok()
            &&& copy is Tuple
            &&& find_field(copy->Tuple_0, name.fragment@) == Some(x->Ok_0)
            &&& x->Ok_0.type_equal(find_field(copy->Tuple_0, name.fragment@).unwrap())
        }),
{
    let overrides = seq![(name, value)];
    let r = eval_expr_spec(b, c, value, s, d);
    assert(overrides[0] == (name, value));
    let v = r.res->Ok_0;
    let next = apply_override(src_fields, name.fragment@, v, name.pos)->Ok_0;
    lemma_override_of_existing_field(src_fields, name.fragment@, v, name.pos);
    assert(copy_fields_acc(b, r.session, overrides, s, d, 1, next) == done(next, r.session));
}

/// `in` on a list says whether some element deeply equals the left operand.
pub proof fn lemma_in_list_is_membership(
    b: BuilderV,
    c: SessionV,
    left: Expression,
    right: Expression,
    s: ScopeV,
    d: nat,
)
    requires
        eval_expr_spec(b, c, right, s, d).res matches Ok(ValV::List(_)),
        eval_expr_spec(b, eval_expr_spec(b, c, right, s, d).session, left, s, d).res.is_ok(),
    ensures
        ({
            let r = eval_expr_spec(b, c, right, s, d);
            let els = r.res->Ok_0->List_0;
            let v = eval_expr_spec(b, r.session, left, s, d).res->Ok_0;
            do_element_check_spec(b, c, left, right, s, d).res == Ok::<ValV, BuildErrorV>(
                ValV::Boolean(
                    exists|i: int|
                        0 <= i < els.len() && #[trigger] equal_spec(v, els[i]) == Ok::<
                            bool,
                            BuildErrorV,
                        >(true),
                ),
            )
        }),
{
}

/// The state of a reduction over a list after `k` calls of the function: the
/// accumulator is what the `k`th call returned for the accumulator after
/// `k - 1` calls and the `k`th element. An error ends the reduction.
pub open spec fn reduce_after(
    b: BuilderV,
    c: SessionV,
    f: FuncV,
    elems: Seq<ValV>,
    d: nat,
    k: nat,
    init: ValV,
) -> Outcome<ValV>
    decreases k,
{
    if k == 0 || k > elems.len() {
        done(init, c)
    } else {
        let prev = reduce_after(b, c, f, elems, d, (k - 1) as nat, init);
        match prev.res {
            Ok(acc) => func_eval_spec(b, prev.session, f, seq![acc, elems[k - 1]], d),
            Err(_) => prev,
        }
    }
}

proof fn lemma_reduce_error_stays(
    b: BuilderV,
    c: SessionV,
    f: FuncV,
    elems: Seq<ValV>,
    d: nat,
    k: nat,
    n: nat,
    init: ValV,
)
    requires
        k <= n <= elems.len(),
        reduce_after(b, c, f, elems, d, k, init).res.is_err(),
    ensures
        reduce_after(b, c, f, elems, d, n, init) == reduce_after(b, c, f, elems, d, k, init),
    decreases n - k,
{
    if k < n {
        lemma_reduce_error_stays(b, c, f, elems, d, k, (n - 1) as nat, init);
    }
}

proof fn lemma_reduce_from(
    b: BuilderV,
    c: SessionV,
    f: FuncV,
    elems: Seq<ValV>,
    d: nat,
    i: nat,
    init: ValV,
)
    requires
        i <= elems.len(),
        reduce_after(b, c, f, elems, d, i, init).res.is_ok(),
    ensures
        reduce_list_acc(
            b,
            reduce_after(b, c, f, elems, d, i, init).session,
            f,
            elems,
            d,
            i as int,
            reduce_after(b, c, f, elems, d, i, init).res->Ok_0,
        ) == reduce_after(b, c, f, elems, d, elems.len(), init),
    decreases elems.len() - i,
{
    if i < elems.len() {
        let next = reduce_after(b, c, f, elems, d, i + 1, init);
        if next.res.is_ok() {
            lemma_reduce_from(b, c, f, elems, d, i + 1, init);
        } else {
            lemma_reduce_error_stays(b, c, f, elems, d, i + 1, elems.len(), init);
        }
    }
}

/// A reduction over a list of `n` elements is the state after `n` calls of
/// the function, each on the accumulator that the call before it returned and
/// on the next element.
pub proof fn lemma_reduce_is_a_left_fold(
    b: BuilderV,
    c: SessionV,
    f: FuncV,
    elems: Seq<ValV>,
    d: nat,
    init: ValV,
)
    ensures
        reduce_list_acc(b, c, f, elems, d, 0, init) == reduce_after(
            b,
            c,
            f,
            elems,
            d,
            elems.len(),
            init,
        ),
{
    lemma_reduce_from(b, c, f, elems, d, 0, init);
}

/// What is stashed for a path is found under it, and a path that is present
/// keeps what it has.
pub proof fn lemma_stash_then_find(c: CacheV, path: Seq<char>, v: ValV)
    ensures
        find_field(stash_spec(c, path, v), path).is_some(),
        find_field(c, path).is_some() ==> stash_spec(c, path, v) == c,
        find_field(c, path).is_none() ==> find_field(stash_spec(c, path, v), path) == Some(v),
{
    lemma_index_of(names_of(c), path, 0);
    if find_field(c, path).is_none() {
        let after = c.push((path, v));
        assert(names_of(after) =~= names_of(c).push(path));
        lemma_index_of(names_of(after), path, 0);
        assert(names_of(after)[c.len() as int] == path);
        assert(forall|k: int| 0 <= k < c.len() ==> names_of(after)[k] == names_of(c)[k]);
        assert(index_of(names_of(after), path, 0) == Some(c.len() as int));
        assert(after[c.len() as int].1 == v);
    }
}

/// An import of a file that the cache holds evaluates nothing: it returns
/// what the cache holds and leaves the session as it is.
pub proof fn lemma_cached_import_evaluates_nothing(
    b: BuilderV,
    c: SessionV,
    def: ImportDef,
    path: Seq<char>,
    d: nat,
)
    requires
        !b.detect_import_cycle(path),
        c.get(path).is_some(),
    ensures
        eval_file_import_spec(b, c, def, path, d) == done(c.get(path).unwrap(), c),
{
}

/// After an import of a file has succeeded, the cache holds the file, so
/// that a second import of it, by any builder that is not evaluating the file,
/// is answered from the cache: a file is evaluated at most once.
pub proof fn lemma_file_is_evaluated_at_most_once(
    b: BuilderV,
    c: SessionV,
    def: ImportDef,
    path: Seq<char>,
    d: nat,
    b2: BuilderV,
    def2: ImportDef,
    d2: nat,
)
    requires
        eval_file_import_spec(b, c, def, path, d).res.is_ok(),
        !b2.detect_import_cycle(path),
    ensures
        eval_file_import_spec(b, c, def, path, d).session.get(path).is_some(),
        eval_file_import_spec(
            b2,
            eval_file_import_spec(b, c, def, path, d).session,
            def2,
            path,
            d2,
        ) == done(
            eval_file_import_spec(b, c, def, path, d).session.get(path).unwrap(),
            eval_file_import_spec(b, c, def, path, d).session,
        ),
{
    if c.get(path).is_none() {
        let run = build_spec(import_builder(b, path), c, path, d);
        let result = ValV::Tuple(run.builder.scope.build_output);
        lemma_stash_then_find(run.session.cache, path, result);
    }
}

/// A program of the standard library is evaluated at most once: after an
/// import of it has succeeded, a second import is answered from the cache.
pub proof fn lemma_std_program_is_evaluated_at_most_once(
    b: BuilderV,
    c: SessionV,
    def: ImportDef,
    src: Source,
    d: nat,
    b2: BuilderV,
    src2: Source,
    d2: nat,
)
    requires
        eval_std_import_spec(b, c, def, src, d).res.is_ok(),
    ensures
        eval_std_import_spec(b, c, def, src, d).session.get(def.path.fragment@).is_some(),
        eval_std_import_spec(
            b2,
            eval_std_import_spec(b, c, def, src, d).session,
            def,
            src2,
            d2,
        ) == done(
            eval_std_import_spec(b, c, def, src, d).session.get(def.path.fragment@).unwrap(),
            eval_std_import_spec(b, c, def, src, d).session,
        ),
{
    let path = def.path.fragment@;
    if c.get(path).is_none() {
        let run = eval_input_spec(std_builder(b), c, src, d);
        let result = ValV::Tuple(run.builder.scope.build_output);
        lemma_stash_then_find(run.session.cache, path, result);
    }
}

/// The error of an import cycle.
pub open spec fn cycle_error(path: Seq<char>, pos: Position) -> BuildErrorV {
    err_at(
        ErrorType::Unsupported,
        "Import Cycle Detected!!!! "@ + path + " is already in import stack"@,
        pos,
    )
}

/// An import of a file that is on the import stack fails with the error of
/// an import cycle, whatever the session holds, and evaluates nothing.
pub proof fn lemma_import_cycle_is_detected(
    b: BuilderV,
    c: SessionV,
    def: ImportDef,
    path: Seq<char>,
    d: nat,
)
    requires
        b.detect_import_cycle(path),
    ensures
        eval_file_import_spec(b, c, def, path, d) == (Outcome::<ValV> {
            res: Err(cycle_error(path, def.pos)),
            session: c,
        }),
{
}

/// The builder that evaluates an imported file has the file on its import
/// stack, and every file that was on the stack of the importing builder.
pub proof fn lemma_import_stack_grows(b: BuilderV, path: Seq<char>, other: Seq<char>)
    ensures
        import_builder(b, path).detect_import_cycle(path),
        b.detect_import_cycle(other) ==> import_builder(b, path).detect_import_cycle(other),
        b.clone_builder().detect_import_cycle(other) == b.detect_import_cycle(other),
{
    let before = b.scope.import_stack;
    let after = before.push(path);
    assert(import_builder(b, path).scope.import_stack == after);
    lemma_index_of(after, path, 0);
    assert(after[before.len() as int] == path);
    lemma_index_of(before, other, 0);
    lemma_index_of(after, other, 0);
    if index_of(before, other, 0).is_some() {
        let k = index_of(before, other, 0).unwrap();
        assert(after[k] == other);
    }
}

/// The error of a second output.
pub open spec fn output_error(pos: Position) -> BuildErrorV {
    err_at(ErrorType::Unsupported, "You can only have one output per file."@, pos)
}

/// Once a builder holds an output, no statement changes it, and an output
/// statement fails.
#[verifier::rlimit(40)]
pub proof fn lemma_output_lock_holds(b: BuilderV, c: SessionV, stmt: Statement, d: nat)
    requires
        b.out_lock.is_some(),
    ensures
        eval_stmt_spec(b, c, stmt, d).builder.out_lock == b.out_lock,
        stmt matches Statement::Output(pos, _, _) ==> eval_stmt_spec(b, c, stmt, d) == (Progress {
            res: Err(output_error(pos)),
            builder: b,
            session: c,
        }),
{
    match stmt {
        Statement::Let(def) => {
            lemma_let_keeps_output(b, c, def, d);
        },
        Statement::Assert(expr) => {
            lemma_assert_keeps_output(b, c, expr, d);
        },
        Statement::Expression(_) => {},
        Statement::Output(_, _, _) => {},
    }
}

proof fn lemma_let_keeps_output(b: BuilderV, c: SessionV, def: LetDef, d: nat)
    ensures
        eval_let_spec(b, c, def, d).builder.out_lock == b.out_lock,
{
    let r = eval_expr_spec(b, c, def.value, b.scope, d);
    match r.res {
        Ok(_) => {},
        Err(_) => {},
    }
}

proof fn lemma_assert_keeps_output(b: BuilderV, c: SessionV, expr: Expression, d: nat)
    ensures
        eval_assert_spec(b, c, expr, d).builder.out_lock == b.out_lock,
{
    if b.validate_mode {
        let r = eval_expr_spec(b, c, expr, b.scope, d);
        match r.res {
            Ok(_) => {},
            Err(_) => {},
        }
    }
}

/// An output statement that succeeds leaves the builder with an output.
pub proof fn lemma_output_locks(b: BuilderV, c: SessionV, stmt: Statement, d: nat)
    requires
        stmt is Output,
        eval_stmt_spec(b, c, stmt, d).res.is_ok(),
    ensures
        eval_stmt_spec(b, c, stmt, d).builder.out_lock.is_some(),
{
}

#[verifier::rlimit(40)]
proof fn lemma_locked_output_fails(
    b: BuilderV,
    c: SessionV,
    stmts: Seq<Statement>,
    d: nat,
    k: int,
    j: int,
    last: ValV,
)
    requires
        b.out_lock.is_some(),
        0 <= k <= j < stmts.len(),
        stmts[j] is Output,
    ensures
        eval_stmts_acc(b, c, stmts, d, k, last).res.is_err(),
    decreases j - k,
{
    lemma_output_lock_holds(b, c, stmts[k], d);
    let r = eval_stmt_spec(b, c, stmts[k], d);
    if k < j && r.res.is_ok() {
        lemma_locked_output_fails(r.builder, r.session, stmts, d, k + 1, j, r.res->Ok_0);
    }
}

#[verifier::rlimit(40)]
proof fn lemma_two_outputs_fail_from(
    b: BuilderV,
    c: SessionV,
    stmts: Seq<Statement>,
    d: nat,
    k: int,
    i: int,
    j: int,
    last: ValV,
)
    requires
        0 <= k <= i < j < stmts.len(),
        stmts[i] is Output,
        stmts[j] is Output,
    ensures
        eval_stmts_acc(b, c, stmts, d, k, last).res.is_err(),
    decreases i - k,
{
    let r = eval_stmt_spec(b, c, stmts[k], d);
    if r.res.is_ok() {
        if k < i {
            lemma_two_outputs_fail_from(r.builder, r.session, stmts, d, k + 1, i, j, r.res->Ok_0);
        } else {
            lemma_output_locks(b, c, stmts[k], d);
            lemma_locked_output_fails(r.builder, r.session, stmts, d, k + 1, j, r.res->Ok_0);
        }
    }
}

/// A program with two output statements fails, whatever else it holds.
pub proof fn lemma_two_outputs_fail(
    b: BuilderV,
    c: SessionV,
    stmts: Seq<Statement>,
    d: nat,
    i: int,
    j: int,
)
    requires
        0 <= i < j < stmts.len(),
        stmts[i] is Output,
        stmts[j] is Output,
    ensures
        eval_stmts_acc(b, c, stmts, d, 0, ValV::Empty).res.is_err(),
{
    lemma_two_outputs_fail_from(b, c, stmts, d, 0, i, j, ValV::Empty);
}

/// The path that is looked up for a file is one of the candidate paths. A
/// snapshot that says of each candidate whether it exists finds what the file
/// system would find.
pub proof fn lemma_candidate_is_listed(
    b: BuilderV,
    scope: ScopeV,
    path: Seq<char>,
    use_import_path: bool,
)
    ensures
        b.candidates(scope, path, use_import_path).contains(
            b.candidate(scope, path, use_import_path),
        ),
{
    let all = b.candidates(scope, path, use_import_path);
    let c = b.candidate(scope, path, use_import_path);
    assert(all[0] == all[0]);
    if is_relative_spec(path) {
        let local = join_spec(b.base_dir(scope), path);
        assert(all[0] == local);
        if b.files.resolve_spec(local).is_none() && use_import_path && scope.import_root.is_none() {
            lemma_search_is_listed(b, path, 0);
            match b.search_from(path, 0) {
                Some(q) => {
                    let k = choose|k: int|
                        0 <= k < b.import_path.len() && join_spec(
                            b.import_path[k],
                            path,
                        ) == q;
                    assert(all[k + 1] == q);
                },
                None => {},
            }
        }
    } else {
        assert(all[0] == path);
    }
}

proof fn lemma_search_is_listed(b: BuilderV, path: Seq<char>, i: int)
    requires
        0 <= i,
    ensures
        b.search_from(path, i) matches Some(q) ==> exists|k: int|
            0 <= k < b.import_path.len() && join_spec(b.import_path[k], path) == q,
    decreases b.import_path.len() - i,
{
    if i < b.import_path.len() {
        let q = join_spec(b.import_path[i], path);
        if b.files.resolve_spec(q).is_none() {
            lemma_search_is_listed(b, path, i + 1);
        }
    }
}

/// A range that does not start beyond its end has one element for each
/// whole step that fits between its bounds, and one more.
pub proof fn lemma_range_length(cur: int, step: int, end: int)
    requires
        step > 0,
    ensures
        range_from(cur, step, end).len() == (if cur > end {
            0
        } else {
            (end - cur) / step + 1
        }),
    decreases
            (if cur <= end {
                end - cur + 1
            } else {
                0
            }),
{
    if cur <= end {
        lemma_range_length(cur + step, step, end);
        let x = end - cur;
        if cur + step > end {
            assert(x / step == 0) by (nonlinear_arith)
                requires
                    0 <= x < step,
            ;
        } else {
            assert((x - step) / step + 1 == x / step) by (nonlinear_arith)
                requires
                    step > 0,
                    x >= step,
            ;
        }
    }
}

/// The element at index `k` of a range is its start and `k` steps.
pub proof fn lemma_range_element(cur: int, step: int, end: int, k: int)
    requires
        step > 0,
        0 <= k < range_from(cur, step, end).len(),
    ensures
        range_from(cur, step, end)[k] == cur + k * step,
        cur + k * step <= end,
    decreases k,
{
    if k > 0 {
        lemma_range_element(cur + step, step, end, k - 1);
        assert(cur + step + (k - 1) * step == cur + k * step) by (nonlinear_arith);
    }
}

/// What a statement may change of a builder: the bindings of its scope, its
/// output and its record of assertions.
pub open spec fn same_but_for_results(before: BuilderV, after: BuilderV) -> bool {
    after == (BuilderV {
        scope: ScopeV { build_output: after.scope.build_output, ..before.scope },
        out_lock: after.out_lock,
        assert_collector: after.assert_collector,
        ..before
    })
}

#[verifier::rlimit(40)]
proof fn lemma_let_only_adds_a_binding(b: BuilderV, c: SessionV, def: LetDef, d: nat)
    ensures
        b.scope.build_output.is_prefix_of(eval_let_spec(b, c, def, d).builder.scope.build_output),
        names_of(b.scope.build_output).no_duplicates() ==> names_of(
            eval_let_spec(b, c, def, d).builder.scope.build_output,
        ).no_duplicates(),
        same_but_for_results(b, eval_let_spec(b, c, def, d).builder),
{
    let before = b.scope.build_output;
    let after = eval_let_spec(b, c, def, d).builder.scope.build_output;
    let r = eval_expr_spec(b, c, def.value, b.scope, d);
    let name = def.name.fragment@;
    match r.res {
        Ok(v) => {
            if !is_reserved_word(name) && find_field(before, name).is_none() {
                lemma_index_of(names_of(before), name, 0);
                assert(after == before.push((name, v)));
                assert(before =~= after.subrange(0, before.len() as int));
                assert(names_of(after) =~= names_of(before).push(name));
            } else {
                assert(after == before);
                assert(before =~= after.subrange(0, before.len() as int));
            }
        },
        Err(_) => {
            assert(after == before);
            assert(before =~= after.subrange(0, before.len() as int));
        },
    }
}

proof fn lemma_assert_keeps_bindings(b: BuilderV, c: SessionV, expr: Expression, d: nat)
    ensures
        eval_assert_spec(b, c, expr, d).builder.scope == b.scope,
        same_but_for_results(b, eval_assert_spec(b, c, expr, d).builder),
{
    if b.validate_mode {
        let r = eval_expr_spec(b, c, expr, b.scope, d);
        match r.res {
            Ok(_) => {},
            Err(_) => {},
        }
    }
}

proof fn lemma_output_keeps_bindings(
    b: BuilderV,
    c: SessionV,
    pos: Position,
    typ: Token,
    expr: Expression,
    d: nat,
)
    ensures
        eval_stmt_spec(b, c, Statement::Output(pos, typ, expr), d).builder.scope == b.scope,
        same_but_for_results(b, eval_stmt_spec(b, c, Statement::Output(pos, typ, expr), d).builder),
{
    if b.out_lock.is_none() {
        let r = eval_expr_spec(b, c, expr, b.scope, d);
        match r.res {
            Ok(_) => {},
            Err(_) => {},
        }
    }
}

/// A statement leaves the bindings that were made as they are, and adds at
/// most one. It never binds a name twice: where the names were distinct, they
/// still are. Nothing else of the builder changes but its output and its
/// record of assertions; the environment, the import stack and the files stay.
#[verifier::rlimit(40)]
pub proof fn lemma_statement_only_adds_bindings(b: BuilderV, c: SessionV, stmt: Statement, d: nat)
    ensures
        b.scope.build_output.is_prefix_of(eval_stmt_spec(b, c, stmt, d).builder.scope.build_output),
        names_of(b.scope.build_output).no_duplicates() ==> names_of(
            eval_stmt_spec(b, c, stmt, d).builder.scope.build_output,
        ).no_duplicates(),
        same_but_for_results(b, eval_stmt_spec(b, c, stmt, d).builder),
{
    let before = b.scope.build_output;
    assert(before =~= before.subrange(0, before.len() as int));
    match stmt {
        Statement::Let(def) => {
            lemma_let_only_adds_a_binding(b, c, def, d);
        },
        Statement::Assert(expr) => {
            lemma_assert_keeps_bindings(b, c, expr, d);
        },
        Statement::Expression(_) => {},
        Statement::Output(pos, typ, expr) => {
            lemma_output_keeps_bindings(b, c, pos, typ, expr, d);
        },
    }
}

/// A program leaves the bindings that were made before it as they are, and
/// never binds a name twice.
#[verifier::rlimit(40)]
pub proof fn lemma_program_only_adds_bindings(
    b: BuilderV,
    c: SessionV,
    stmts: Seq<Statement>,
    d: nat,
    i: int,
    last: ValV,
)
    requires
        0 <= i,
    ensures
        b.scope.build_output.is_prefix_of(
            eval_stmts_acc(b, c, stmts, d, i, last).builder.scope.build_output,
        ),
        names_of(b.scope.build_output).no_duplicates() ==> names_of(
            eval_stmts_acc(b, c, stmts, d, i, last).builder.scope.build_output,
        ).no_duplicates(),
        same_but_for_results(b, eval_stmts_acc(b, c, stmts, d, i, last).builder),
    decreases stmts.len() - i,
{
    let before = b.scope.build_output;
    if i < stmts.len() {
        lemma_statement_only_adds_bindings(b, c, stmts[i], d);
        let r = eval_stmt_spec(b, c, stmts[i], d);
        if r.res.is_ok() {
            lemma_program_only_adds_bindings(r.builder, r.session, stmts, d, i + 1, r.res->Ok_0);
            let mid = r.builder.scope.build_output;
            let after = eval_stmts_acc(b, c, stmts, d, i, last).builder.scope.build_output;
            assert(before =~= after.subrange(0, before.len() as int)) by {
                assert(before =~= mid.subrange(0, before.len() as int));
                assert(mid =~= after.subrange(0, mid.len() as int));
            }
        }
    } else {
        assert(before =~= before.subrange(0, before.len() as int));
    }
}

/// The import stack holds no file twice: where it held none twice, the stack
/// of the builder that evaluates an imported file holds none twice either,
/// since a file that is on the stack is not imported.
pub proof fn lemma_import_stack_holds_no_file_twice(b: BuilderV, path: Seq<char>)
    requires
        b.scope.import_stack.no_duplicates(),
        !b.detect_import_cycle(path),
    ensures
        import_builder(b, path).scope.import_stack.no_duplicates(),
{
    lemma_index_of(b.scope.import_stack, path, 0);
}

} // verus!
