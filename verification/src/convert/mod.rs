//! Conversions between values and other formats.

use vstd::prelude::*;
use vstd::string::*;
use crate::ir::strings_view;
use crate::scope::{clone_strings, index_of};
use crate::text::str_eq;

pub mod flags;

verus! {

/// The decoders that an `include` can name.
#[derive(Debug)]
pub struct ImporterRegistry {
    pub names: Vec<String>,
}

impl View for ImporterRegistry {
    type V = Seq<Seq<char>>;

    open spec fn view(&self) -> Seq<Seq<char>> {
        strings_view(self.names@)
    }
}

impl ImporterRegistry {
    /// The registry of the decoders that come with the language: `json` and `yaml`.
    pub fn make_registry() -> (r: ImporterRegistry)
        ensures
            r@ == seq!["json"@, "yaml"@],
    {
        let mut names: Vec<String> = Vec::new();
        names.push(String::from_str("json"));
        names.push(String::from_str("yaml"));
        let r = ImporterRegistry { names };
        assert(r@ =~= seq!["json"@, "yaml"@]);
        r
    }

    /// Adds a decoder's name.
    pub fn register(&mut self, name: String)
        ensures
            final(self)@ == old(self)@.push(name@),
    {
        self.names.push(name);
        assert(self@ =~= old(self)@.push(name@));
    }

    /// Whether a decoder of that name is registered.
    pub fn get_importer(&self, name: &str) -> (r: bool)
        ensures
            r == index_of(self@, name@, 0).is_some(),
    {
        let mut i: usize = 0;
        while i < self.names.len()
            invariant
                i <= self.names.len(),
                index_of(self@, name@, 0) == index_of(self@, name@, i as int),
            decreases self.names.len() - i,
        {
            if str_eq(self.names[i].as_str(), name) {
                return true;
            }
            i = i + 1;
        }
        false
    }
}

impl Clone for ImporterRegistry {
    fn clone(&self) -> (r: ImporterRegistry)
        ensures
            r@ == self@,
    {
        ImporterRegistry { names: clone_strings(&self.names) }
    }
}

} // verus!
