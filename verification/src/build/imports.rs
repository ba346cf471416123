//! Includes and imports.

use vstd::prelude::*;
use vstd::string::*;
use std::rc::Rc;
use crate::assets::Session;
use crate::ast::{ImportDef, IncludeDef, Position};
use crate::build::{FileBuilder, text_result_view};
use crate::build::eval::outcome;
use crate::build::ops::error_at;
use crate::build::semantics::{build_spec, eval_file_import_spec, eval_import_spec,
    eval_include_spec, eval_std_import_spec, file_text_spec, import_error, include_error,
    include_file_spec, open_file_spec};
use crate::build::stmts::progress;
use crate::error::{BuildError, BuildErrorV, ErrorType};
use crate::ir::{Val, share};
use crate::loader::{FileEntry, Source, parent};
use crate::scope::Scope;
use crate::text::{cat2, cat3, has_prefix, str_eq};

verus! {

fn import_failure(msg: &str, pos: &Position, cause: BuildError) -> (r: BuildError)
    ensures
        r@ == import_error(msg@, *pos, cause@),
{
    BuildError::with_pos(String::from_str(msg), ErrorType::ImportError, pos.clone()).wrap_cause(
        Box::new(cause),
    )
}

fn include_failure(def: &IncludeDef, cause: &str) -> (r: BuildError)
    ensures
        r@ == include_error(*def, cause@),
{
    BuildError::with_pos(
        cat3(def.typ.fragment.as_str(), " include failed for ", def.path.fragment.as_str()),
        ErrorType::IncludeError,
        def.pos.clone(),
    ).wrap_cause(Box::new(BuildError::new(String::from_str(cause), ErrorType::IncludeError)))
}

impl FileBuilder {
    /// The file under a canonical path.
    pub fn open_file(&self, pos: &Position, path: &str) -> (r: Result<&FileEntry, BuildError>)
        ensures
            match r {
                Ok(entry) => open_file_spec(self@, *pos, path@) == Ok::<FileEntry, BuildErrorV>(
                    *entry,
                ),
                Err(e) => open_file_spec(self@, *pos, path@) == Err::<FileEntry, BuildErrorV>(e@),
            },
    {
        match self.files.file(path) {
            Some(entry) => Ok(entry),
            None => Err(error_at(ErrorType::TypeFail, cat2("Error opening file ", path), pos)),
        }
    }

    /// The file that a path names for an include.
    pub fn include_file(&self, scope: &Scope, pos: &Position, path: &str) -> (r: Result<
        &FileEntry,
        BuildError,
    >)
        ensures
            match r {
                Ok(entry) => include_file_spec(self@, scope@, *pos, path@) == Ok::<
                    FileEntry,
                    BuildErrorV,
                >(*entry),
                Err(e) => include_file_spec(self@, scope@, *pos, path@) == Err::<
                    FileEntry,
                    BuildErrorV,
                >(e@),
            },
    {
        match self.find_file(scope, path, false) {
            Ok(p) => self.open_file(pos, p.as_str()),
            Err(e) => Err(
                error_at(
                    ErrorType::TypeFail,
                    String::from_str("Error finding file ").concat(path).concat(" ").concat(
                        e.render().as_str(),
                    ),
                    pos,
                ),
            ),
        }
    }

    /// The text of the file that a path names.
    pub fn get_file_as_string(&self, scope: &Scope, pos: &Position, path: &str) -> (r: Result<
        String,
        BuildError,
    >)
        ensures
            text_result_view(r) == file_text_spec(self@, scope@, *pos, path@),
    {
        match self.include_file(scope, pos, path) {
            Ok(entry) => Ok(entry.text.clone()),
            Err(e) => Err(e),
        }
    }

    /// An include.
    pub fn eval_include(&self, def: &IncludeDef, scope: &Scope, session: &mut Session) -> (r: Result<
        Rc<Val>,
        BuildError,
    >)
        ensures
            outcome(r, *final(session)) == eval_include_spec(self@, old(session)@, scope@, *def),
    {
        let typ = def.typ.fragment.as_str();
        if str_eq(typ, "str") {
            match self.get_file_as_string(scope, &def.path.pos, def.path.fragment.as_str()) {
                Ok(text) => Ok(Rc::new(Val::Str(text))),
                Err(e) => Err(e),
            }
        } else if !self.import_registry.get_importer(typ) {
            Err(
                error_at(
                    ErrorType::Unsupported,
                    cat2("Unknown include conversion type ", typ),
                    &def.typ.pos,
                ),
            )
        } else {
            match self.include_file(scope, &def.path.pos, def.path.fragment.as_str()) {
                Ok(entry) => {
                    if entry.text.as_str().unicode_len() == 0 {
                        session.notice(
                            String::from_str("including an empty file. Use NULL as the result"),
                        );
                        Ok(Rc::new(Val::Empty))
                    } else {
                        match entry.decoded_by(typ) {
                            Some(decoded) => match &decoded.value {
                                Ok(v) => Ok(share(v)),
                                Err(m) => Err(include_failure(def, m.as_str())),
                            },
                            None => Err(include_failure(def, "The file was not decoded")),
                        }
                    }
                },
                Err(e) => Err(e),
            }
        }
    }

    /// An import of a program of the standard library.
    pub fn eval_std_import(
        &self,
        def: &ImportDef,
        src: &Source,
        session: &mut Session,
        depth: usize,
    ) -> (r: Result<Rc<Val>, BuildError>)
        ensures
            outcome(r, *final(session)) == eval_std_import_spec(
                self@,
                old(session)@,
                *def,
                *src,
                depth as nat,
            ),
        decreases depth, 9nat, 0nat,
    {
        match session.get(def.path.fragment.as_str()) {
            Some(v) => Ok(v),
            None => {
                let mut b = self.clone_builder();
                b.scope.import_root = None;
                match b.eval_input(src, session, depth) {
                    Ok(_) => {
                        let result = b.get_outputs_as_val();
                        session.stash(def.path.fragment.clone(), share(&result));
                        Ok(result)
                    },
                    Err(e) => Err(e),
                }
            },
        }
    }

    fn open_failure(&self, file: &str) -> (r: Result<Rc<Val>, BuildError>)
        requires
            self@.files.file_spec(file@).is_none(),
        ensures
            r matches Err(e) && open_file_spec(
                self@,
                Position { file: None, line: 0, column: 0, offset: 0 },
                file@,
            ) == Err::<FileEntry, BuildErrorV>(e@),
    {
        Err(
            error_at(
                ErrorType::TypeFail,
                cat2("Error opening file ", file),
                &Position::new(0, 0, 0),
            ),
        )
    }

    /// Builds the file under a canonical path.
    pub fn build(&mut self, file: &str, session: &mut Session, depth: usize) -> (r: Result<
        Rc<Val>,
        BuildError,
    >)
        ensures
            progress(r, *final(self), *final(session)) == build_spec(
                old(self)@,
                old(session)@,
                file@,
                depth as nat,
            ),
        decreases depth, 9nat, 0nat,
    {
        self.working_dir = parent(file);
        let files = share(&self.files);
        match files.file(file) {
            Some(entry) => match self.eval_input(&entry.source, session, depth) {
                Ok(v) => {
                    self.last = Some(share(&v));
                    Ok(v)
                },
                Err(e) => Err(e),
            },
            None => self.open_failure(file),
        }
    }

    /// An import of a file under its canonical path.
    pub fn eval_file_import(
        &self,
        def: &ImportDef,
        path: &str,
        session: &mut Session,
        depth: usize,
    ) -> (r: Result<Rc<Val>, BuildError>)
        ensures
            outcome(r, *final(session)) == eval_file_import_spec(
                self@,
                old(session)@,
                *def,
                path@,
                depth as nat,
            ),
        decreases depth, 10nat, 0nat,
    {
        if self.detect_import_cycle(path) {
            return Err(
                error_at(
                    ErrorType::Unsupported,
                    cat3("Import Cycle Detected!!!! ", path, " is already in import stack"),
                    &def.pos,
                ),
            );
        }
        match session.get(path) {
            Some(v) => Ok(v),
            None => {
                let mut b = self.clone_builder();
                let ghost stack = b@.scope.import_stack;
                b.scope.import_stack.push(String::from_str(path));
                assert(b@.scope.import_stack =~= stack.push(path@));
                b.scope.import_root = None;
                match b.build(path, session, depth) {
                    Ok(_) => {
                        let result = b.get_outputs_as_val();
                        session.stash(String::from_str(path), share(&result));
                        Ok(result)
                    },
                    Err(e) => Err(import_failure("Import failed", &def.pos, e)),
                }
            },
        }
    }

    /// An import.
    pub fn eval_import(&self, def: &ImportDef, scope: &Scope, session: &mut Session, depth: usize)
        -> (r: Result<Rc<Val>, BuildError>)
        ensures
            outcome(r, *final(session)) == eval_import_spec(
                self@,
                old(session)@,
                *def,
                scope@,
                depth as nat,
            ),
        decreases depth, 11nat, 0nat,
    {
        let path = def.path.fragment.as_str();
        if has_prefix(path, "std/") {
            match self.std.get(path) {
                Some(src) => self.eval_std_import(def, src, session, depth),
                None => Err(
                    error_at(
                        ErrorType::Unsupported,
                        cat3("No such import ", path, " in the std library."),
                        &def.pos,
                    ),
                ),
            }
        } else {
            match self.find_file(scope, path, true) {
                Ok(normalized) => self.eval_file_import(def, normalized.as_str(), session, depth),
                Err(e) => Err(import_failure("No Such Import", &def.path.pos, e)),
            }
        }
    }
}

} // verus!
