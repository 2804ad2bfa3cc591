//! The external key-value configuration that value functions may consult.

use vstd::hash_map::StringHashMap;
use vstd::prelude::*;

verus! {

/// String values addressed by dotted keys such as `color.diff.old`.
///
/// A key is either set to one value or absent; looking up an absent key is not
/// an error.
pub struct GitConfig {
    entries: StringHashMap<String>,
}

/// The keys that are set, each with its value.
pub type GitConfigView = Map<Seq<char>, Seq<char>>;

impl View for GitConfig {
    type V = GitConfigView;

    /// The keys that are set, each with its value.
    closed spec fn view(&self) -> GitConfigView {
        self.entries@.map_values(|value: String| value@)
    }
}

impl GitConfig {
    /// A configuration in which no key is set.
    pub fn new() -> (config: GitConfig)
        ensures
            config@ == GitConfigView::empty(),
    {
        let config = GitConfig { entries: StringHashMap::new() };
        assert(config@ =~= GitConfigView::empty());
        config
    }

    /// Sets `key` to `value`, replacing any value it had.
    pub fn set(&mut self, key: &str, value: &str)
        ensures
            final(self)@ == old(self)@.insert(key@, value@),
    {
        self.entries.insert(key.to_owned(), value.to_owned());
        assert(self@ =~= old(self)@.insert(key@, value@));
    }

    /// The value of `key`, if it is set.
    pub fn get_string(&self, key: &str) -> (value: Option<String>)
        ensures
            match value {
                Some(value) => self@.contains_key(key@) && value@ == self@[key@],
                None => !self@.contains_key(key@),
            },
    {
        match self.entries.get(key) {
            Some(value) => Some(value.clone()),
            None => None,
        }
    }
}

/// The keys and values of an optional configuration: `None` where there is none.
pub open spec fn config_view(git_config: &Option<GitConfig>) -> Option<GitConfigView> {
    match git_config {
        Some(config) => Some(config@),
        None => None,
    }
}

} // verus!
