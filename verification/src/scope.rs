//! Scopes: the bindings, the current value and the import stack that an
//! expression is evaluated against.

use vstd::prelude::*;
use vstd::string::*;
use std::rc::Rc;
use crate::ast::Position;
use crate::error::{BuildError, BuildErrorV, ErrorType};
use crate::ir::{ScopeV, Val, ValV, fields_view, pairs_view, result_view, share};
use crate::text::{int_text, int_to_string, str_eq};

verus! {

/// The environment of an expression.
#[derive(Debug, PartialEq)]
pub struct Scope {
    pub import_stack: Vec<String>,
    pub env: Rc<Val>,
    pub curr_val: Option<Rc<Val>>,
    pub build_output: Vec<(String, Rc<Val>)>,
    pub search_curr_val: bool,
    pub strict: bool,
    pub import_root: Option<String>,
}

/// The index of the first key at or after `from` that equals `name`.
pub open spec fn index_of(keys: Seq<Seq<char>>, name: Seq<char>, from: int) -> Option<int>
    decreases keys.len() - from,
{
    if 0 <= from < keys.len() {
        if keys[from] == name {
            Some(from)
        } else {
            index_of(keys, name, from + 1)
        }
    } else {
        None
    }
}

/// The names of a list of named items.
pub open spec fn names_of<T>(fs: Seq<(Seq<char>, T)>) -> Seq<Seq<char>> {
    Seq::new(fs.len(), |i: int| fs[i].0)
}

/// The first item of the given name.
pub open spec fn find_field<T>(fs: Seq<(Seq<char>, T)>, name: Seq<char>) -> Option<T> {
    match index_of(names_of(fs), name, 0) {
        Some(i) => Some(fs[i].1),
        None => None,
    }
}

/// What `index_of` finds is in range, bears the name, and is the first to do so.
pub proof fn lemma_index_of(keys: Seq<Seq<char>>, name: Seq<char>, from: int)
    requires
        0 <= from,
    ensures
        match index_of(keys, name, from) {
            Some(i) => from <= i < keys.len() && keys[i] == name && forall|k: int|
                from <= k < i ==> keys[k] != name,
            None => forall|k: int| from <= k < keys.len() ==> keys[k] != name,
        },
    decreases keys.len() - from,
{
    if from < keys.len() && keys[from] != name {
        lemma_index_of(keys, name, from + 1);
    }
}

/// The content of an optional value.
pub open spec fn option_view(o: Option<Rc<Val>>) -> Option<ValV> {
    match o {
        Some(v) => Some(v@),
        None => None,
    }
}

/// The content of an optional string.
pub open spec fn option_text(o: Option<String>) -> Option<Seq<char>> {
    match o {
        Some(v) => Some(v@),
        None => None,
    }
}

/// The position of the first field of the given name.
pub fn field_position(target: &str, fs: &Vec<(String, Rc<Val>)>) -> (r: Option<usize>)
    ensures
        match r {
            Some(i) => index_of(names_of(fields_view(fs@)), target@, 0) == Some(i as int) && i
                < fs.len(),
            None => index_of(names_of(fields_view(fs@)), target@, 0).is_none(),
        },
{
    let ghost keys = names_of(fields_view(fs@));
    let mut i: usize = 0;
    while i < fs.len()
        invariant
            i <= fs.len(),
            keys == names_of(fields_view(fs@)),
            index_of(keys, target@, 0) == index_of(keys, target@, i as int),
        decreases fs.len() - i,
    {
        if str_eq(fs[i].0.as_str(), target) {
            return Some(i);
        }
        i = i + 1;
    }
    None
}

/// The first field of the given name.
pub fn find_in_fieldlist(target: &str, fs: &Vec<(String, Rc<Val>)>) -> (r: Option<Rc<Val>>)
    ensures
        option_view(r) == find_field(fields_view(fs@), target@),
{
    match field_position(target, fs) {
        Some(i) => Some(share(&fs[i].1)),
        None => None,
    }
}

/// The first variable of the given name.
pub fn find_in_env(target: &str, fs: &Vec<(String, String)>) -> (r: Option<String>)
    ensures
        option_text(r) == find_field(pairs_view(fs@), target@),
{
    let ghost keys = names_of(pairs_view(fs@));
    let mut i: usize = 0;
    while i < fs.len()
        invariant
            i <= fs.len(),
            keys == names_of(pairs_view(fs@)),
            index_of(keys, target@, 0) == index_of(keys, target@, i as int),
        decreases fs.len() - i,
    {
        if str_eq(fs[i].0.as_str(), target) {
            return Some(fs[i].1.clone());
        }
        i = i + 1;
    }
    None
}

/// A copy of a list of strings.
pub fn clone_strings(v: &Vec<String>) -> (r: Vec<String>)
    ensures
        r@ == v@,
{
    let mut out: Vec<String> = Vec::new();
    let mut i: usize = 0;
    while i < v.len()
        invariant
            i <= v.len(),
            out@ == v@.take(i as int),
        decreases v.len() - i,
    {
        out.push(v[i].clone());
        assert(out@ =~= v@.take(i + 1));
        i = i + 1;
    }
    assert(v@.take(v.len() as int) =~= v@);
    out
}

/// A copy of a list of named values, sharing the values.
pub fn clone_fields(v: &Vec<(String, Rc<Val>)>) -> (r: Vec<(String, Rc<Val>)>)
    ensures
        r@ == v@,
{
    let mut out: Vec<(String, Rc<Val>)> = Vec::new();
    let mut i: usize = 0;
    while i < v.len()
        invariant
            i <= v.len(),
            out@ == v@.take(i as int),
        decreases v.len() - i,
    {
        out.push((v[i].0.clone(), share(&v[i].1)));
        assert(out@ =~= v@.take(i + 1));
        i = i + 1;
    }
    assert(v@.take(v.len() as int) =~= v@);
    out
}

/// A copy of an optional string.
pub fn clone_text(o: &Option<String>) -> (r: Option<String>)
    ensures
        r == *o,
{
    match o {
        Some(s) => Some(s.clone()),
        None => None,
    }
}

/// Another handle on an optional value.
pub fn share_option(o: &Option<Rc<Val>>) -> (r: Option<Rc<Val>>)
    ensures
        r == *o,
{
    match o {
        Some(v) => Some(share(v)),
        None => None,
    }
}

impl ScopeV {
    /// A child scope: the same bindings, import stack and policy, no current value.
    pub open spec fn spawn_child(self) -> ScopeV {
        ScopeV { curr_val: None, search_curr_val: false, ..self }
    }

    /// A clean scope: the same import stack and policy, no bindings and no
    /// current value.
    pub open spec fn spawn_clean(self) -> ScopeV {
        ScopeV { curr_val: None, search_curr_val: false, build_output: Seq::empty(), ..self }
    }

    /// The same scope, set to search its current value on lookups.
    pub open spec fn use_curr_val(self) -> ScopeV {
        ScopeV { search_curr_val: true, ..self }
    }

    /// The same scope with `v` as its current value.
    pub open spec fn set_curr_val(self, v: ValV) -> ScopeV {
        ScopeV { curr_val: Some(Box::new(v)), search_curr_val: false, ..self }
    }

    /// What the current value yields for a name, where it is searched: a variable
    /// of an environment (the empty value for a missing one unless the scope is
    /// strict) or a field of a tuple.
    pub open spec fn lookup_in_curr_val(self, name: Seq<char>) -> Option<ValV> {
        if self.search_curr_val {
            match self.curr_val {
                Some(v) => match *v {
                    ValV::Env(fs) => match find_field(fs, name) {
                        Some(s) => Some(ValV::Str(s)),
                        None => if self.strict {
                            None
                        } else {
                            Some(ValV::Empty)
                        },
                    },
                    ValV::Tuple(fs) => find_field(fs, name),
                    _ => None,
                },
                None => None,
            }
        } else {
            None
        }
    }

    /// The value that a name stands for. As a symbol, `env` is the environment
    /// and `self` the current value. Otherwise the current value is searched
    /// first, where the scope is set to search it, then the bindings.
    pub open spec fn lookup_sym(self, name: Seq<char>, is_symbol: bool) -> Option<ValV> {
        if name == "env"@ && is_symbol {
            Some(*self.env)
        } else if name == "self"@ && is_symbol {
            match self.curr_val {
                Some(v) => Some(*v),
                None => None,
            }
        } else {
            match self.lookup_in_curr_val(name) {
                Some(v) => Some(v),
                None => find_field(self.build_output, name),
            }
        }
    }

    /// The element at an index of the current value, which must be a list that
    /// the scope is set to search.
    pub open spec fn lookup_idx(self, pos: Position, idx: i64) -> Result<ValV, BuildErrorV> {
        match self.searched_list() {
            Some(elems) => if 0 <= idx < elems.len() {
                Ok(elems[idx as int])
            } else {
                Err(
                    BuildErrorV {
                        err_type: ErrorType::NoSuchSymbol,
                        pos: Some(pos),
                        msg: "Unable to "@ + int_text(idx as int) + " match element in list."@,
                        cause: None,
                    },
                )
            },
            None => Err(
                BuildErrorV {
                    err_type: ErrorType::TypeFail,
                    pos: Some(pos),
                    msg: "Not a list in index lookup."@,
                    cause: None,
                },
            ),
        }
    }

    /// The elements of the current value, where it is a list that the scope is
    /// set to search.
    pub open spec fn searched_list(self) -> Option<Seq<ValV>> {
        if self.search_curr_val {
            match self.curr_val {
                Some(v) => match *v {
                    ValV::List(elems) => Some(elems),
                    _ => None,
                },
                None => None,
            }
        } else {
            None
        }
    }
}

impl Clone for Scope {
    fn clone(&self) -> (r: Scope)
        ensures
            r@ == self@,
    {
        Scope {
            import_stack: clone_strings(&self.import_stack),
            env: share(&self.env),
            curr_val: share_option(&self.curr_val),
            build_output: clone_fields(&self.build_output),
            search_curr_val: self.search_curr_val,
            strict: self.strict,
            import_root: clone_text(&self.import_root),
        }
    }
}

impl Scope {
    /// A scope with no bindings, over the given environment.
    pub fn new(env: Rc<Val>) -> (r: Scope)
        ensures
            r@ == (ScopeV {
                import_stack: Seq::empty(),
                env: Box::new(env@),
                curr_val: None,
                build_output: Seq::empty(),
                search_curr_val: false,
                strict: true,
                import_root: None,
            }),
    {
        let r = Scope {
            import_stack: Vec::new(),
            env,
            curr_val: None,
            build_output: Vec::new(),
            search_curr_val: false,
            strict: true,
            import_root: None,
        };
        assert(r@.import_stack =~= Seq::empty());
        assert(r@.build_output =~= Seq::empty());
        r
    }

    /// A child scope.
    pub fn spawn_child(&self) -> (r: Scope)
        ensures
            r@ == self@.spawn_child(),
    {
        Scope {
            import_stack: clone_strings(&self.import_stack),
            env: share(&self.env),
            curr_val: None,
            build_output: clone_fields(&self.build_output),
            search_curr_val: false,
            strict: self.strict,
            import_root: clone_text(&self.import_root),
        }
    }

    /// A clean scope.
    pub fn spawn_clean(&self) -> (r: Scope)
        ensures
            r@ == self@.spawn_clean(),
    {
        let r = Scope {
            import_stack: clone_strings(&self.import_stack),
            env: share(&self.env),
            curr_val: None,
            build_output: Vec::new(),
            search_curr_val: false,
            strict: self.strict,
            import_root: clone_text(&self.import_root),
        };
        assert(r@.build_output =~= Seq::empty());
        r
    }

    /// The same scope, set to search its current value on lookups.
    pub fn use_curr_val(self) -> (r: Scope)
        ensures
            r@ == self@.use_curr_val(),
    {
        Scope {
            import_stack: self.import_stack,
            env: self.env,
            curr_val: self.curr_val,
            build_output: self.build_output,
            search_curr_val: true,
            strict: self.strict,
            import_root: self.import_root,
        }
    }

    /// The same scope with `val` as its current value.
    pub fn set_curr_val(self, val: Rc<Val>) -> (r: Scope)
        ensures
            r@ == self@.set_curr_val(val@),
    {
        Scope {
            import_stack: self.import_stack,
            env: self.env,
            curr_val: Some(val),
            build_output: self.build_output,
            search_curr_val: false,
            strict: self.strict,
            import_root: self.import_root,
        }
    }

    fn lookup_in_curr_val(&self, name: &str) -> (r: Option<Rc<Val>>)
        ensures
            option_view(r) == self@.lookup_in_curr_val(name@),
    {
        if self.search_curr_val {
            match &self.curr_val {
                Some(v) => match &**v {
                    Val::Env(fs) => match find_in_env(name, fs) {
                        Some(s) => Some(Rc::new(Val::Str(s))),
                        None => if self.strict {
                            None
                        } else {
                            Some(Rc::new(Val::Empty))
                        },
                    },
                    Val::Tuple(fs) => find_in_fieldlist(name, fs),
                    _ => None,
                },
                None => None,
            }
        } else {
            None
        }
    }

    /// The value that a name stands for.
    pub fn lookup_sym(&self, name: &str, is_symbol: bool) -> (r: Option<Rc<Val>>)
        ensures
            option_view(r) == self@.lookup_sym(name@, is_symbol),
    {
        if str_eq(name, "env") && is_symbol {
            Some(share(&self.env))
        } else if str_eq(name, "self") && is_symbol {
            share_option(&self.curr_val)
        } else {
            match self.lookup_in_curr_val(name) {
                Some(v) => Some(v),
                None => find_in_fieldlist(name, &self.build_output),
            }
        }
    }

    /// The element at an index of the current value.
    pub fn lookup_idx(&self, pos: &Position, idx: i64) -> (r: Result<Rc<Val>, BuildError>)
        ensures
            result_view(r) == self@.lookup_idx(*pos, idx),
    {
        if self.search_curr_val {
            if let Some(v) = &self.curr_val {
                if let Val::List(elems) = &**v {
                    if 0 <= idx && (idx as u64) < (elems.len() as u64) {
                        return Ok(share(&elems[idx as usize]));
                    } else {
                        return Err(
                            BuildError::with_pos(
                                String::from_str("Unable to ").concat(
                                    int_to_string(idx).as_str(),
                                ).concat(" match element in list."),
                                ErrorType::NoSuchSymbol,
                                pos.clone(),
                            ),
                        );
                    }
                }
            }
        }
        Err(
            BuildError::with_pos(
                String::from_str("Not a list in index lookup."),
                ErrorType::TypeFail,
                pos.clone(),
            ),
        )
    }
}

} // verus!
