//! The cache of imported programs, keyed by canonical path.

use vstd::prelude::*;
use std::rc::Rc;
use crate::ir::{Val, ValV, fields_view, strings_view};
use crate::scope::{field_position, find_field, find_in_fieldlist, option_view};

verus! {

/// The content of a cache: paths with the values stored for them, in the order
/// in which they were stored.
pub type CacheV = Seq<(Seq<char>, ValV)>;

/// What a cache holds after `v` is stashed for `path`: a path that is present
/// keeps its value, a new one is added at the end.
pub open spec fn stash_spec(c: CacheV, path: Seq<char>, v: ValV) -> CacheV {
    if find_field(c, path).is_some() {
        c
    } else {
        c.push((path, v))
    }
}

/// An in-memory cache of evaluated programs.
#[derive(Debug)]
pub struct MemoryCache {
    pub map: Vec<(String, Rc<Val>)>,
}

impl View for MemoryCache {
    type V = CacheV;

    open spec fn view(&self) -> CacheV {
        fields_view(self.map@)
    }
}

impl MemoryCache {
    /// An empty cache.
    pub fn new() -> (r: MemoryCache)
        ensures
            r@ == Seq::<(Seq<char>, ValV)>::empty(),
    {
        let r = MemoryCache { map: Vec::new() };
        assert(r@ =~= Seq::empty());
        r
    }

    /// The value stored for a path.
    pub fn get(&self, path: &str) -> (r: Option<Rc<Val>>)
        ensures
            option_view(r) == find_field(self@, path@),
    {
        find_in_fieldlist(path, &self.map)
    }

    /// Stores a value for a path, unless the path already has one.
    pub fn stash(&mut self, path: String, asset: Rc<Val>)
        ensures
            final(self)@ == stash_spec(old(self)@, path@, asset@),
    {
        match field_position(path.as_str(), &self.map) {
            Some(_) => {},
            None => {
                self.map.push((path, asset));
                assert(self@ =~= old(self)@.push((path@, asset@)));
            },
        }
    }
}

/// What the builders of one run share: the cache of imports and the notices
/// that evaluation leaves for whoever started it.
#[derive(Debug)]
pub struct Session {
    pub cache: MemoryCache,
    pub notices: Vec<String>,
}

/// The content of a [`Session`].
pub ghost struct SessionV {
    pub cache: CacheV,
    pub notices: Seq<Seq<char>>,
}

impl SessionV {
    /// The session without imports and notices.
    pub open spec fn empty() -> SessionV {
        SessionV { cache: Seq::empty(), notices: Seq::empty() }
    }

    /// The session with one more notice.
    pub open spec fn note(self, text: Seq<char>) -> SessionV {
        SessionV { notices: self.notices.push(text), ..self }
    }

    /// The session with a value stashed for a path.
    pub open spec fn stash(self, path: Seq<char>, v: ValV) -> SessionV {
        SessionV { cache: stash_spec(self.cache, path, v), ..self }
    }

    /// The value that the cache holds for a path.
    pub open spec fn get(self, path: Seq<char>) -> Option<ValV> {
        find_field(self.cache, path)
    }
}

impl View for Session {
    type V = SessionV;

    open spec fn view(&self) -> SessionV {
        SessionV { cache: self.cache@, notices: strings_view(self.notices@) }
    }
}

impl Session {
    /// A session without imports and notices.
    pub fn new() -> (r: Session)
        ensures
            r@ == SessionV::empty(),
    {
        let r = Session { cache: MemoryCache::new(), notices: Vec::new() };
        assert(r@.notices =~= Seq::empty());
        r
    }

    /// Leaves a notice.
    pub fn notice(&mut self, text: String)
        ensures
            final(self)@ == old(self)@.note(text@),
    {
        self.notices.push(text);
        assert(self@.notices =~= old(self)@.notices.push(text@));
    }

    /// The value that the cache holds for a path.
    pub fn get(&self, path: &str) -> (r: Option<Rc<Val>>)
        ensures
            option_view(r) == self@.get(path@),
    {
        self.cache.get(path)
    }

    /// Stores a value for a path, unless the path already has one.
    pub fn stash(&mut self, path: String, asset: Rc<Val>)
        ensures
            final(self)@ == old(self)@.stash(path@, asset@),
    {
        self.cache.stash(path, asset);
    }
}

} // verus!
