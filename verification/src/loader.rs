//! The files that a program can reach: a snapshot of the file system, the
//! standard library, and the arithmetic of paths.
//!
//! Paths are texts whose components are separated by `/`.

use vstd::prelude::*;
use vstd::string::*;
use std::rc::Rc;
use crate::ast::Statement;
use crate::ir::{Val, pairs_view};
use crate::scope::{find_field, find_in_env, index_of, option_text};
use crate::text::{has_prefix, str_eq};

verus! {

/// A program as the parser left it: its statements, or the parser's complaint.
#[derive(Debug)]
pub enum Source {
    Parsed(Rc<Vec<Statement>>),
    Invalid(String),
}

/// What one decoder made of a file: a value, or the decoder's complaint.
#[derive(Debug)]
pub struct Decoded {
    pub importer: String,
    pub value: Result<Rc<Val>, String>,
}

/// One file of the snapshot, under its canonical path.
#[derive(Debug)]
pub struct FileEntry {
    pub path: String,
    pub text: String,
    pub source: Source,
    pub decoded: Vec<Decoded>,
}

/// A snapshot of the file system: which paths exist, the canonical path of
/// each, and the files under their canonical paths.
#[derive(Debug)]
pub struct FileTree {
    pub links: Vec<(String, String)>,
    pub files: Vec<FileEntry>,
}

/// The standard library: programs under their `std/` names.
#[derive(Debug)]
pub struct StdLib {
    pub libs: Vec<(String, Source)>,
}

/// The canonical paths of a list of files.
pub open spec fn entry_paths(files: Seq<FileEntry>) -> Seq<Seq<char>> {
    Seq::new(files.len(), |i: int| files[i].path@)
}

/// The decoder names of a list of decodings.
pub open spec fn decoder_names(ds: Seq<Decoded>) -> Seq<Seq<char>> {
    Seq::new(ds.len(), |i: int| ds[i].importer@)
}

/// The names of a list of library programs.
pub open spec fn lib_names(libs: Seq<(String, Source)>) -> Seq<Seq<char>> {
    Seq::new(libs.len(), |i: int| libs[i].0@)
}

impl FileEntry {
    /// What the named decoder made of the file, if it was run.
    pub open spec fn decoded_spec(self, importer: Seq<char>) -> Option<Decoded> {
        match index_of(decoder_names(self.decoded@), importer, 0) {
            Some(i) => Some(self.decoded@[i]),
            None => None,
        }
    }

    /// What the named decoder made of the file, if it was run.
    pub fn decoded_by(&self, importer: &str) -> (r: Option<&Decoded>)
        ensures
            match r {
                Some(d) => self.decoded_spec(importer@) == Some(*d),
                None => self.decoded_spec(importer@).is_none(),
            },
    {
        let ghost keys = decoder_names(self.decoded@);
        let mut i: usize = 0;
        while i < self.decoded.len()
            invariant
                i <= self.decoded.len(),
                keys == decoder_names(self.decoded@),
                index_of(keys, importer@, 0) == index_of(keys, importer@, i as int),
            decreases self.decoded.len() - i,
        {
            if str_eq(self.decoded[i].importer.as_str(), importer) {
                return Some(&self.decoded[i]);
            }
            i = i + 1;
        }
        None
    }
}

impl FileTree {
    /// A snapshot without files.
    pub fn new() -> (r: FileTree)
        ensures
            r.links@.len() == 0,
            r.files@.len() == 0,
    {
        FileTree { links: Vec::new(), files: Vec::new() }
    }

    /// The canonical path of a path that exists.
    pub open spec fn resolve_spec(self, path: Seq<char>) -> Option<Seq<char>> {
        find_field(pairs_view(self.links@), path)
    }

    /// The file under a canonical path.
    pub open spec fn file_spec(self, path: Seq<char>) -> Option<FileEntry> {
        match index_of(entry_paths(self.files@), path, 0) {
            Some(i) => Some(self.files@[i]),
            None => None,
        }
    }

    /// The canonical path of a path that exists.
    pub fn resolve(&self, path: &str) -> (r: Option<String>)
        ensures
            option_text(r) == self.resolve_spec(path@),
    {
        find_in_env(path, &self.links)
    }

    /// The file under a canonical path.
    pub fn file(&self, path: &str) -> (r: Option<&FileEntry>)
        ensures
            match r {
                Some(e) => self.file_spec(path@) == Some(*e),
                None => self.file_spec(path@).is_none(),
            },
    {
        let ghost keys = entry_paths(self.files@);
        let mut i: usize = 0;
        while i < self.files.len()
            invariant
                i <= self.files.len(),
                keys == entry_paths(self.files@),
                index_of(keys, path@, 0) == index_of(keys, path@, i as int),
            decreases self.files.len() - i,
        {
            if str_eq(self.files[i].path.as_str(), path) {
                return Some(&self.files[i]);
            }
            i = i + 1;
        }
        None
    }
}

impl StdLib {
    /// A library without programs.
    pub fn new() -> (r: StdLib)
        ensures
            r.libs@.len() == 0,
    {
        StdLib { libs: Vec::new() }
    }

    /// The program under a name.
    pub open spec fn get_spec(self, name: Seq<char>) -> Option<Source> {
        match index_of(lib_names(self.libs@), name, 0) {
            Some(i) => Some(self.libs@[i].1),
            None => None,
        }
    }

    /// The program under a name.
    pub fn get(&self, name: &str) -> (r: Option<&Source>)
        ensures
            match r {
                Some(s) => self.get_spec(name@) == Some(*s),
                None => self.get_spec(name@).is_none(),
            },
    {
        let ghost keys = lib_names(self.libs@);
        let mut i: usize = 0;
        while i < self.libs.len()
            invariant
                i <= self.libs.len(),
                keys == lib_names(self.libs@),
                index_of(keys, name@, 0) == index_of(keys, name@, i as int),
            decreases self.libs.len() - i,
        {
            if str_eq(self.libs[i].0.as_str(), name) {
                return Some(&self.libs[i].1);
            }
            i = i + 1;
        }
        None
    }
}

/// Whether a path is relative: it does not begin with `/`.
pub open spec fn is_relative_spec(path: Seq<char>) -> bool {
    !"/"@.is_prefix_of(path)
}

/// Whether a path is relative.
pub fn is_relative(path: &str) -> (r: bool)
    ensures
        r == is_relative_spec(path@),
{
    !has_prefix(path, "/")
}

/// A path under a directory.
pub open spec fn join_spec(dir: Seq<char>, path: Seq<char>) -> Seq<char> {
    dir + "/"@ + path
}

/// A path under a directory.
pub fn join(dir: &str, path: &str) -> (r: String)
    ensures
        r@ == join_spec(dir@, path@),
{
    String::from_str(dir).concat("/").concat(path)
}

/// The index of the last `/` before `end`, or `-1`.
pub open spec fn last_slash(path: Seq<char>, end: int) -> int
    decreases end,
{
    if end <= 0 || end > path.len() {
        -1
    } else if path[end - 1] == '/' {
        end - 1
    } else {
        last_slash(path, end - 1)
    }
}

/// The directory of a path: what stands before its last `/`, or nothing where
/// it has none.
pub open spec fn parent_spec(path: Seq<char>) -> Seq<char> {
    let i = last_slash(path, path.len() as int);
    if i < 0 {
        Seq::empty()
    } else {
        path.subrange(0, i)
    }
}

/// The directory of a path.
pub fn parent(path: &str) -> (r: String)
    ensures
        r@ == parent_spec(path@),
{
    let n = path.unicode_len();
    let mut end: usize = n;
    while end > 0
        invariant
            end <= n,
            n == path@.len(),
            last_slash(path@, n as int) == last_slash(path@, end as int),
        decreases end,
    {
        if path.get_char(end - 1) == '/' {
            return String::from_str(path.substring_char(0, end - 1));
        }
        end = end - 1;
    }
    String::new()
}

} // verus!
