//! The evaluator: a builder that reduces the statements and expressions of one
//! file to values.

use vstd::prelude::*;
use vstd::string::*;
use std::rc::Rc;

use crate::convert::ImporterRegistry;
use crate::error::{BuildError, BuildErrorV, ErrorType};
use crate::ir::{ScopeV, Val, ValV, fields_view, pairs_view, share, strings_view};
use crate::loader::{FileTree, StdLib, is_relative, is_relative_spec, join, join_spec};
use crate::scope::{Scope, field_position, index_of, names_of, option_text, option_view};
use crate::text::{int_text, int_to_string, str_eq};

pub mod ops;
pub mod format;
pub mod semantics;
pub mod eval;
pub mod funcs;
pub mod imports;
pub mod stmts;

verus! {

/// The record of the assertions that a validating builder has run.
#[derive(Debug)]
pub struct AssertCollector {
    pub counter: i32,
    pub success: bool,
    pub summary: String,
    pub failures: String,
}

/// The content of an [`AssertCollector`].
pub ghost struct AssertCollectorV {
    pub counter: i32,
    pub success: bool,
    pub summary: Seq<char>,
    pub failures: Seq<char>,
}

impl View for AssertCollector {
    type V = AssertCollectorV;

    open spec fn view(&self) -> AssertCollectorV {
        AssertCollectorV {
            counter: self.counter,
            success: self.success,
            summary: self.summary@,
            failures: self.failures@,
        }
    }
}

/// The line that an assertion is recorded with: its number, `OK` or `NOT OK`,
/// and its description.
pub open spec fn assert_line(n: i32, msg: Seq<char>, ok: bool) -> Seq<char> {
    int_text(n as int) + (if ok {
        " - OK: "@
    } else {
        " - NOT OK: "@
    }) + msg + "\n"@
}

/// The record after one more assertion: the counter is one higher (it stops at
/// the largest number it can hold), the line is added to the summary and, for
/// a failure, to the failures, and a failure clears the success flag for good.
pub open spec fn record_spec(a: AssertCollectorV, msg: Seq<char>, ok: bool) -> AssertCollectorV {
    let n = if a.counter < i32::MAX {
        (a.counter + 1) as i32
    } else {
        a.counter
    };
    let line = assert_line(n, msg, ok);
    AssertCollectorV {
        counter: n,
        success: a.success && ok,
        summary: a.summary + line,
        failures: if ok {
            a.failures
        } else {
            a.failures + line
        },
    }
}

impl AssertCollector {
    /// A record without assertions.
    pub fn new() -> (r: AssertCollector)
        ensures
            r@ == AssertCollectorV::empty(),
    {
        AssertCollector { counter: 0, success: true, summary: String::new(), failures: String::new() }
    }

    /// The record as a result: an `AssertError` that holds the failures where
    /// an assertion has failed.
    pub fn summary_result(&self) -> (r: Result<(), BuildError>)
        ensures
            match r {
                Ok(_) => self@.success,
                Err(e) => !self@.success && e@ == (BuildErrorV {
                    err_type: ErrorType::AssertError,
                    pos: None,
                    msg: self@.failures,
                    cause: None,
                }),
            },
    {
        if self.success {
            Ok(())
        } else {
            Err(BuildError::new(self.failures.clone(), ErrorType::AssertError))
        }
    }

    /// Records one assertion.
    pub fn record(&mut self, msg: &str, ok: bool)
        ensures
            final(self)@ == record_spec(old(self)@, msg@, ok),
    {
        if self.counter < i32::MAX {
            self.counter = self.counter + 1;
        }
        let line = int_to_string(self.counter as i64).concat(
            if ok {
                " - OK: "
            } else {
                " - NOT OK: "
            },
        ).concat(msg).concat("\n");
        self.summary.append(line.as_str());
        if !ok {
            self.failures.append(line.as_str());
            self.success = false;
        }
    }
}

/// A builder for one file.
#[derive(Debug)]
pub struct FileBuilder {
    pub working_dir: String,
    pub std: Rc<StdLib>,
    pub import_path: Rc<Vec<String>>,
    pub files: Rc<FileTree>,
    pub validate_mode: bool,
    pub assert_collector: AssertCollector,
    pub scope: Scope,
    pub import_registry: ImporterRegistry,
    pub is_module: bool,
    pub last: Option<Rc<Val>>,
    pub out_lock: Option<(String, Rc<Val>)>,
}

/// The content of a [`FileBuilder`].
pub ghost struct BuilderV {
    pub working_dir: Seq<char>,
    pub std: StdLib,
    pub import_path: Seq<Seq<char>>,
    pub files: FileTree,
    pub validate_mode: bool,
    pub assert_collector: AssertCollectorV,
    pub scope: ScopeV,
    pub importers: Seq<Seq<char>>,
    pub is_module: bool,
    pub last: Option<ValV>,
    pub out_lock: Option<(Seq<char>, ValV)>,
}

/// The content of an output slot.
pub open spec fn out_lock_view(o: Option<(String, Rc<Val>)>) -> Option<(Seq<char>, ValV)> {
    match o {
        Some(p) => Some((p.0@, p.1@)),
        None => None,
    }
}

impl View for FileBuilder {
    type V = BuilderV;

    open spec fn view(&self) -> BuilderV {
        BuilderV {
            working_dir: self.working_dir@,
            std: *self.std,
            import_path: strings_view((*self.import_path)@),
            files: *self.files,
            validate_mode: self.validate_mode,
            assert_collector: self.assert_collector@,
            scope: self.scope@,
            importers: self.import_registry@,
            is_module: self.is_module,
            last: option_view(self.last),
            out_lock: out_lock_view(self.out_lock),
        }
    }
}

/// A depth of nesting that suits ordinary programs and fits the stack of a
/// thread.
pub const DEFAULT_DEPTH: usize = 256;

/// The bindings after `name` is set to `v`: the first binding of that name gets
/// the value, and a name that is not bound is added at the end.
pub open spec fn set_binding(bs: Seq<(Seq<char>, ValV)>, name: Seq<char>, v: ValV) -> Seq<
    (Seq<char>, ValV),
> {
    match index_of(names_of(bs), name, 0) {
        Some(i) => bs.update(i, (name, v)),
        None => bs.push((name, v)),
    }
}

/// The bindings after each of `items`, from index `i` on, is set in turn.
pub open spec fn set_all(bs: Seq<(Seq<char>, ValV)>, items: Seq<(Seq<char>, ValV)>, i: int) -> Seq<
    (Seq<char>, ValV),
>
    decreases items.len() - i,
{
    if 0 <= i < items.len() {
        set_all(set_binding(bs, items[i].0, items[i].1), items, i + 1)
    } else {
        bs
    }
}

/// Sets one binding.
pub fn bind(bs: &mut Vec<(String, Rc<Val>)>, name: String, v: Rc<Val>)
    ensures
        fields_view(final(bs)@) == set_binding(fields_view(old(bs)@), name@, v@),
{
    match field_position(name.as_str(), bs) {
        Some(i) => {
            bs.set(i, (name, v));
            assert(fields_view(bs@) =~= fields_view(old(bs)@).update(i as int, (name@, v@)));
        },
        None => {
            bs.push((name, v));
            assert(fields_view(bs@) =~= fields_view(old(bs)@).push((name@, v@)));
        },
    }
}

/// Whether a name is a reserved word.
pub open spec fn is_reserved_word(name: Seq<char>) -> bool {
    name == "self"@ || name == "assert"@ || name == "true"@ || name == "false"@ || name == "let"@
        || name == "import"@ || name == "as"@ || name == "select"@ || name == "func"@ || name
        == "module"@ || name == "env"@ || name == "map"@ || name == "filter"@ || name == "NULL"@
        || name == "out"@ || name == "in"@ || name == "is"@ || name == "not"@
}

impl AssertCollectorV {
    /// The record without assertions.
    pub open spec fn empty() -> AssertCollectorV {
        AssertCollectorV { counter: 0, success: true, summary: Seq::empty(), failures: Seq::empty() }
    }
}

impl BuilderV {
    /// A new builder: a scope without bindings over the given environment,
    /// strict, with the decoders `json` and `yaml`, not validating, without output.
    pub open spec fn fresh(
        working_dir: Seq<char>,
        import_path: Seq<Seq<char>>,
        env_vars: Seq<(Seq<char>, Seq<char>)>,
        std: StdLib,
        files: FileTree,
    ) -> BuilderV {
        BuilderV {
            working_dir,
            std,
            import_path,
            files,
            validate_mode: false,
            assert_collector: AssertCollectorV::empty(),
            scope: ScopeV {
                import_stack: Seq::empty(),
                env: Box::new(ValV::Env(env_vars)),
                curr_val: None,
                build_output: Seq::empty(),
                search_curr_val: false,
                strict: true,
                import_root: None,
            },
            importers: seq!["json"@, "yaml"@],
            is_module: false,
            last: None,
            out_lock: None,
        }
    }

    /// The builder that evaluates something on behalf of this one: the same
    /// files, library and search paths, a clean scope, no output, no assertions.
    pub open spec fn clone_builder(self) -> BuilderV {
        BuilderV {
            validate_mode: false,
            assert_collector: AssertCollectorV::empty(),
            scope: self.scope.spawn_clean(),
            out_lock: None,
            is_module: false,
            last: None,
            ..self
        }
    }

    /// The directory against which a scope resolves relative paths: its own
    /// import root where it has one, else the builder's working directory.
    pub open spec fn base_dir(self, scope: ScopeV) -> Seq<char> {
        match scope.import_root {
            Some(r) => r,
            None => self.working_dir,
        }
    }

    /// The first of the search paths, from index `i` on, under which `path` exists.
    pub open spec fn search_from(self, path: Seq<char>, i: int) -> Option<Seq<char>>
        decreases self.import_path.len() - i,
    {
        if 0 <= i < self.import_path.len() {
            let q = join_spec(self.import_path[i], path);
            if self.files.resolve_spec(q).is_some() {
                Some(q)
            } else {
                self.search_from(path, i + 1)
            }
        } else {
            None
        }
    }

    /// The path that is looked up for `path`: an absolute path itself; a
    /// relative one under the base directory or, where it does not exist there,
    /// the scope has no import root and the search paths are to be used, under
    /// the first search path where it exists.
    pub open spec fn candidate(self, scope: ScopeV, path: Seq<char>, use_import_path: bool) -> Seq<
        char,
    > {
        if is_relative_spec(path) {
            let local = join_spec(self.base_dir(scope), path);
            if self.files.resolve_spec(local).is_none() && use_import_path
                && scope.import_root.is_none() {
                match self.search_from(path, 0) {
                    Some(q) => q,
                    None => local,
                }
            } else {
                local
            }
        } else {
            path
        }
    }

    /// The paths that may be looked up for `path`, in the order in which they
    /// are tried: an absolute path itself; a relative one under the base
    /// directory and then, where the search paths are to be used and the scope
    /// has no import root, under each search path.
    pub open spec fn candidates(self, scope: ScopeV, path: Seq<char>, use_import_path: bool) -> Seq<
        Seq<char>,
    > {
        if is_relative_spec(path) {
            seq![join_spec(self.base_dir(scope), path)] + (if use_import_path
                && scope.import_root.is_none() {
                Seq::new(self.import_path.len(), |i: int| join_spec(self.import_path[i], path))
            } else {
                Seq::empty()
            })
        } else {
            seq![path]
        }
    }

    /// The canonical path of the file that `path` names, or an `OSError` where
    /// no such file exists.
    pub open spec fn find_file(self, scope: ScopeV, path: Seq<char>, use_import_path: bool) -> Result<
        Seq<char>,
        BuildErrorV,
    > {
        let c = self.candidate(scope, path, use_import_path);
        match self.files.resolve_spec(c) {
            Some(p) => Ok(p),
            None => Err(
                BuildErrorV {
                    err_type: ErrorType::OSError,
                    pos: None,
                    msg: "Path not found "@ + c,
                    cause: None,
                },
            ),
        }
    }

    /// Whether a path is on the builder's import stack.
    pub open spec fn detect_import_cycle(self, path: Seq<char>) -> bool {
        index_of(self.scope.import_stack, path, 0).is_some()
    }
}

/// The content of the result of a path lookup.
pub open spec fn text_result_view(r: Result<String, BuildError>) -> Result<Seq<char>, BuildErrorV> {
    match r {
        Ok(s) => Ok(s@),
        Err(e) => Err(e@),
    }
}

impl FileBuilder {
    /// A builder for a file in `working_dir`, over a snapshot of the
    /// environment, the standard library and the file system.
    pub fn new(
        working_dir: String,
        import_paths: Rc<Vec<String>>,
        env_vars: Vec<(String, String)>,
        std: Rc<StdLib>,
        files: Rc<FileTree>,
    ) -> (r: FileBuilder)
        ensures
            r@ == BuilderV::fresh(
                working_dir@,
                strings_view(import_paths@),
                pairs_view(env_vars@),
                *std,
                *files,
            ),
    {
        FileBuilder {
            working_dir,
            std,
            import_path: import_paths,
            files,
            validate_mode: false,
            assert_collector: AssertCollector::new(),
            scope: Scope::new(Rc::new(Val::Env(env_vars))),
            import_registry: ImporterRegistry::make_registry(),
            is_module: false,
            last: None,
            out_lock: None,
        }
    }

    /// A builder that evaluates something on behalf of this one.
    pub fn clone_builder(&self) -> (r: FileBuilder)
        ensures
            r@ == self@.clone_builder(),
    {
        FileBuilder {
            working_dir: self.working_dir.clone(),
            std: share(&self.std),
            import_path: share(&self.import_path),
            files: share(&self.files),
            validate_mode: false,
            assert_collector: AssertCollector::new(),
            scope: self.scope.spawn_clean(),
            import_registry: self.import_registry.clone(),
            is_module: false,
            last: None,
            out_lock: None,
        }
    }

    /// Sets each of the given bindings in the builder's scope, in order. A name
    /// that is bound gets the new value, whatever `clobber` says.
    pub fn merge_build_output(&mut self, scope: Vec<(String, Rc<Val>)>, clobber: bool)
        ensures
            final(self)@ == (BuilderV {
                scope: ScopeV {
                    build_output: set_all(old(self)@.scope.build_output, fields_view(scope@), 0),
                    ..old(self)@.scope
                },
                ..old(self)@
            }),
    {
        let mut i: usize = 0;
        while i < scope.len()
            invariant
                i <= scope.len(),
                set_all(self@.scope.build_output, fields_view(scope@), i as int) == set_all(
                    old(self)@.scope.build_output,
                    fields_view(scope@),
                    0,
                ),
                self@ == (BuilderV {
                    scope: ScopeV { build_output: self@.scope.build_output, ..old(self)@.scope },
                    ..old(self)@
                }),
            decreases scope.len() - i,
        {
            bind(&mut self.scope.build_output, scope[i].0.clone(), share(&scope[i].1));
            i = i + 1;
        }
    }

    /// Sets whether lookups in the environment are strict.
    pub fn set_strict(&mut self, to: bool)
        ensures
            final(self)@ == (BuilderV {
                scope: ScopeV { strict: to, ..old(self)@.scope },
                ..old(self)@
            }),
    {
        self.scope.strict = to;
    }

    /// The value that a name stands for in the builder's scope.
    pub fn get_out_by_name(&self, name: &str) -> (r: Option<Rc<Val>>)
        ensures
            option_view(r) == self@.scope.lookup_sym(name@, true),
    {
        self.scope.lookup_sym(name, true)
    }

    /// Makes the builder run assertions and record their results.
    pub fn enable_validate_mode(&mut self)
        ensures
            final(self)@ == (BuilderV { validate_mode: true, ..old(self)@ }),
    {
        self.validate_mode = true;
    }

    /// Whether a name is a reserved word.
    pub fn check_reserved_word(name: &str) -> (r: bool)
        ensures
            r == is_reserved_word(name@),
    {
        str_eq(name, "self") || str_eq(name, "assert") || str_eq(name, "true") || str_eq(
            name,
            "false",
        ) || str_eq(name, "let") || str_eq(name, "import") || str_eq(name, "as") || str_eq(
            name,
            "select",
        ) || str_eq(name, "func") || str_eq(name, "module") || str_eq(name, "env") || str_eq(
            name,
            "map",
        ) || str_eq(name, "filter") || str_eq(name, "NULL") || str_eq(name, "out") || str_eq(
            name,
            "in",
        ) || str_eq(name, "is") || str_eq(name, "not")
    }

    /// Whether a path is on the builder's import stack.
    pub fn detect_import_cycle(&self, path: &str) -> (r: bool)
        ensures
            r == self@.detect_import_cycle(path@),
    {
        let mut i: usize = 0;
        while i < self.scope.import_stack.len()
            invariant
                i <= self.scope.import_stack.len(),
                index_of(self@.scope.import_stack, path@, 0) == index_of(
                    self@.scope.import_stack,
                    path@,
                    i as int,
                ),
            decreases self.scope.import_stack.len() - i,
        {
            if str_eq(self.scope.import_stack[i].as_str(), path) {
                return true;
            }
            i = i + 1;
        }
        false
    }

    /// The directory against which the builder resolves relative paths.
    pub fn file_dir(&self, scope: &Scope) -> (r: String)
        ensures
            r@ == self@.base_dir(scope@),
    {
        match &scope.import_root {
            Some(r) => r.clone(),
            None => self.working_dir.clone(),
        }
    }

    fn search(&self, path: &str) -> (r: Option<String>)
        ensures
            option_text(r) == self@.search_from(path@, 0),
    {
        let mut i: usize = 0;
        while i < self.import_path.len()
            invariant
                i <= self.import_path.len(),
                self@.search_from(path@, 0) == self@.search_from(path@, i as int),
            decreases self.import_path.len() - i,
        {
            let q = join(self.import_path[i].as_str(), path);
            if self.files.resolve(q.as_str()).is_some() {
                return Some(q);
            }
            i = i + 1;
        }
        None
    }

    /// The paths that may be looked up for `path`, in the order in which they
    /// are tried.
    pub fn candidate_paths(&self, scope: &Scope, path: &str, use_import_path: bool) -> (r: Vec<
        String,
    >)
        ensures
            strings_view(r@) == self@.candidates(scope@, path@, use_import_path),
    {
        let mut out: Vec<String> = Vec::new();
        if is_relative(path) {
            out.push(join(self.file_dir(scope).as_str(), path));
            let ghost first = strings_view(out@);
            assert(first =~= seq![join_spec(self@.base_dir(scope@), path@)]);
            if use_import_path && scope.import_root.is_none() {
                let mut i: usize = 0;
                while i < self.import_path.len()
                    invariant
                        i <= self.import_path.len(),
                        first == seq![join_spec(self@.base_dir(scope@), path@)],
                        strings_view(out@) == first + Seq::new(
                            i as nat,
                            |k: int| join_spec(self@.import_path[k], path@),
                        ),
                    decreases self.import_path.len() - i,
                {
                    let ghost before = strings_view(out@);
                    out.push(join(self.import_path[i].as_str(), path));
                    assert(strings_view(out@) =~= before.push(
                        join_spec(self@.import_path[i as int], path@),
                    ));
                    assert(strings_view(out@) =~= first + Seq::new(
                        (i + 1) as nat,
                        |k: int| join_spec(self@.import_path[k], path@),
                    ));
                    i = i + 1;
                }
            } else {
                assert(strings_view(out@) =~= first + Seq::<Seq<char>>::empty());
            }
        } else {
            out.push(String::from_str(path));
            assert(strings_view(out@) =~= seq![path@]);
        }
        out
    }

    /// The canonical path of the file that `path` names.
    pub fn find_file(&self, scope: &Scope, path: &str, use_import_path: bool) -> (r: Result<
        String,
        BuildError,
    >)
        ensures
            text_result_view(r) == self@.find_file(scope@, path@, use_import_path),
    {
        let candidate = if is_relative(path) {
            let local = join(self.file_dir(scope).as_str(), path);
            if self.files.resolve(local.as_str()).is_none() && use_import_path
                && scope.import_root.is_none() {
                match self.search(path) {
                    Some(q) => q,
                    None => local,
                }
            } else {
                local
            }
        } else {
            String::from_str(path)
        };
        match self.files.resolve(candidate.as_str()) {
            Some(p) => Ok(p),
            None => Err(
                BuildError::new(
                    String::from_str("Path not found ").concat(candidate.as_str()),
                    ErrorType::OSError,
                ),
            ),
        }
    }

    /// The bindings of the builder's scope as a tuple, in the order in which
    /// they were made. The scope is left without bindings.
    pub fn get_outputs_as_val(&mut self) -> (r: Rc<Val>)
        ensures
            r@ == ValV::Tuple(old(self)@.scope.build_output),
            final(self)@ == (BuilderV {
                scope: ScopeV { build_output: Seq::empty(), ..old(self)@.scope },
                ..old(self)@
            }),
    {
        let mut fields: Vec<(String, Rc<Val>)> = Vec::new();
        std::mem::swap(&mut fields, &mut self.scope.build_output);
        assert(self@.scope.build_output =~= Seq::empty());
        Rc::new(Val::Tuple(fields))
    }

    /// Records one assertion.
    pub fn record_assert_result(&mut self, msg: &str, is_success: bool)
        ensures
            final(self)@ == (BuilderV {
                assert_collector: record_spec(old(self)@.assert_collector, msg@, is_success),
                ..old(self)@
            }),
    {
        self.assert_collector.record(msg, is_success);
    }
}

} // verus!
