//! The per-application input-source store.
//!
//! One entry per application ever seen since process start: the last input
//! source known to be the user's preference for that application. Entries are
//! upserted on focus-out or on a detected manual change and looked up on
//! focus-in; nothing is ever evicted.

use vstd::prelude::*;
use vstd::hash_map::StringHashMap;

verus! {

/// Maps an application identifier (a bundle identifier string) to the
/// identifier of the input source last associated with that application.
pub struct InputSourceState {
    map: StringHashMap<String>,
}

impl View for InputSourceState {
    type V = Map<Seq<char>, Seq<char>>;

    closed spec fn view(&self) -> Map<Seq<char>, Seq<char>> {
        self.map@.map_values(|src: String| src@)
    }
}

impl InputSourceState {
    /// Creates an empty store.
    pub fn new() -> (s: Self)
        ensures
            s@ == Map::<Seq<char>, Seq<char>>::empty(),
    {
        let s = InputSourceState { map: StringHashMap::new() };
        proof {
            assert(s@ =~= Map::<Seq<char>, Seq<char>>::empty());
        }
        s
    }

    /// Upserts the input source remembered for `bundle_id`.
    pub fn save(&mut self, bundle_id: String, input_source: String)
        ensures
            final(self)@ == old(self)@.insert(bundle_id@, input_source@),
    {
        let ghost key: Seq<char> = bundle_id@;
        let ghost value: Seq<char> = input_source@;
        self.map.insert(bundle_id, input_source);
        proof {
            assert(self@ =~= old(self)@.insert(key, value));
        }
    }

    /// Looks up the input source remembered for `bundle_id`, if any.
    pub fn load(&self, bundle_id: &str) -> (r: Option<String>)
        ensures
            match r {
                Some(src) => self@.contains_key(bundle_id@) && src@ == self@[bundle_id@],
                None => !self@.contains_key(bundle_id@),
            },
    {
        match self.map.get(bundle_id) {
            Some(src) => Some(src.clone()),
            None => None,
        }
    }
}

/// Law: a `save` followed by a `load` of the same application returns exactly
/// the saved input source, whatever the store held before.
pub proof fn lemma_save_load_round_trip(m: Map<Seq<char>, Seq<char>>, app: Seq<char>, src: Seq<char>)
    ensures
        m.insert(app, src).contains_key(app),
        m.insert(app, src)[app] == src,
{
}

} // verus!
