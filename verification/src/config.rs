//! The options of the user of this machine.

use vstd::prelude::*;

use crate::table::KeyedTable;
use crate::text::same_text;

verus! {

/// Options by name.
pub struct Config {
    pub options: KeyedTable<String>,
}

/// What an option is set to; empty where it is not set.
pub open spec fn option_of(options: Map<Seq<char>, Seq<char>>, name: Seq<char>) -> Seq<char> {
    if options.dom().contains(name) {
        options[name]
    } else {
        Seq::empty()
    }
}

impl Config {
    /// What an option is set to; empty where it is not set.
    pub open spec fn option(self, name: Seq<char>) -> Seq<char> {
        option_of(self.options@, name)
    }

    /// What an option is set to; empty where it is not set.
    pub fn get_option(&self, name: &str) -> (value: String)
        ensures
            value@ == self.option(name@),
    {
        match self.options.get(name) {
            Some(value) => value.clone(),
            None => String::new(),
        }
    }

    /// Whether an option is not set, or set to nothing.
    pub fn is_unset(&self, name: &str) -> (unset: bool)
        ensures
            unset == (self.option(name@).len() == 0),
    {
        self.get_option(name).as_str().is_empty()
    }

    /// Whether an option is set to `value`.
    pub fn is_set_to(&self, name: &str, value: &str) -> (same: bool)
        ensures
            same == (self.option(name@) == value@),
    {
        same_text(self.get_option(name).as_str(), value)
    }
}

} // verus!
