use std::collections::HashMap;
use vstd::prelude::*;

use crate::channel_id::{source_key_id, source_key_spec};

verus! {

broadcast use vstd::std_specs::hash::group_hash_axioms;

/// The configured routes from a source channel to the destination value
/// (still unparsed) that its messages are posted to.
pub struct ChannelMapping {
    routes: HashMap<u64, String>,
}

impl View for ChannelMapping {
    type V = Map<u64, Seq<char>>;

    closed spec fn view(&self) -> Map<u64, Seq<char>> {
        self.routes@.map_values(|s: String| s@)
    }
}

impl ChannelMapping {
    /// A mapping with no routes.
    pub fn new() -> (r: ChannelMapping)
        ensures
            r@ == Map::<u64, Seq<char>>::empty(),
    {
        let r = ChannelMapping { routes: HashMap::new() };
        assert(r@ =~= Map::<u64, Seq<char>>::empty());
        r
    }

    /// Routes messages of channel `source` to `destination`, replacing an
    /// earlier route of that channel.
    pub fn insert(&mut self, source: u64, destination: String)
        ensures
            final(self)@ == old(self)@.insert(source, destination@),
    {
        self.routes.insert(source, destination);
        assert(self@ =~= old(self)@.insert(source, destination@));
    }

    /// Adds a route whose source is given as text, as in a configuration
    /// file. A key is looked up as the decimal form of a channel id, so a key
    /// that is not such a form (`"abc"`, `"0111"`) can never match a message:
    /// it is left out, and `false` is returned.
    pub fn insert_keyed(&mut self, source: &str, destination: String) -> (r: bool)
        ensures
            r == source_key_spec(source@) is Some,
            r ==> final(self)@ == old(self)@.insert(
                source_key_spec(source@)->Some_0,
                destination@,
            ),
            !r ==> final(self)@ == old(self)@,
    {
        match source_key_id(source) {
            Some(id) => {
                self.insert(id, destination);
                true
            },
            None => false,
        }
    }

    /// The destination value configured for `source`, if any.
    pub fn lookup(&self, source: u64) -> (r: Option<&String>)
        ensures
            r is Some <==> self@.contains_key(source),
            r is Some ==> r->Some_0@ == self@[source],
    {
        self.routes.get(&source)
    }

    /// The number of routes.
    pub fn len(&self) -> (r: usize)
        ensures
            r == self@.len(),
    {
        proof {
            assert(self@.dom() =~= self.routes@.dom());
        }
        self.routes.len()
    }
}

} // verus!
