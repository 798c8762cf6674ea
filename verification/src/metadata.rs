//! The key/value pairs that travel with a command and its events.

use vstd::prelude::*;
use vstd::string::StringExecFns;

verus! {

/// The key under which the id of the command that caused an event is kept.
pub const COMMAND_ID: &'static str = "command_id";

/// A finite map from text to text. No key occurs twice.
#[derive(Debug)]
pub struct Metadata {
    entries: Vec<(String, String)>,
}

/// The map that a list of pairs spells out. A later pair overrides an
/// earlier one with the same key.
pub open spec fn pairs_model(pairs: Seq<(String, String)>) -> Map<Seq<char>, Seq<char>>
    decreases pairs.len(),
{
    if pairs.len() == 0 {
        Map::empty()
    } else {
        pairs_model(pairs.drop_last()).insert(pairs.last().0@, pairs.last().1@)
    }
}

/// No two pairs have the same key.
pub open spec fn distinct_keys(pairs: Seq<(String, String)>) -> bool {
    forall|i: int, j: int|
        0 <= i < j < pairs.len() ==> (#[trigger] pairs[i]).0@ != (#[trigger] pairs[j]).0@
}

/// A key that no pair holds is not in the map.
proof fn lemma_absent_key(pairs: Seq<(String, String)>, key: Seq<char>)
    requires
        forall|i: int| 0 <= i < pairs.len() ==> (#[trigger] pairs[i]).0@ != key,
    ensures
        !pairs_model(pairs).dom().contains(key),
    decreases pairs.len(),
{
    if pairs.len() > 0 {
        lemma_absent_key(pairs.drop_last(), key);
    }
}

/// Where keys are distinct, the map gives each key the value paired with it.
proof fn lemma_present_key(pairs: Seq<(String, String)>, at: int)
    requires
        distinct_keys(pairs),
        0 <= at < pairs.len(),
    ensures
        pairs_model(pairs).dom().contains(pairs[at].0@),
        pairs_model(pairs)[pairs[at].0@] == pairs[at].1@,
    decreases pairs.len(),
{
    if at < pairs.len() - 1 {
        lemma_present_key(pairs.drop_last(), at);
        assert(pairs.last().0@ != pairs[at].0@);
    }
}

/// Replacing the value of one pair updates the map at that pair's key.
proof fn lemma_replace_value(pairs: Seq<(String, String)>, at: int, pair: (String, String))
    requires
        distinct_keys(pairs),
        0 <= at < pairs.len(),
        pair.0@ == pairs[at].0@,
    ensures
        distinct_keys(pairs.update(at, pair)),
        pairs_model(pairs.update(at, pair)) == pairs_model(pairs).insert(pair.0@, pair.1@),
    decreases pairs.len(),
{
    let changed = pairs.update(at, pair);
    if at == pairs.len() - 1 {
        assert(changed.drop_last() =~= pairs.drop_last());
        assert(pairs_model(changed) =~= pairs_model(pairs).insert(pair.0@, pair.1@));
    } else {
        lemma_replace_value(pairs.drop_last(), at, pair);
        assert(changed.drop_last() =~= pairs.drop_last().update(at, pair));
        assert(pairs.last().0@ != pairs[at].0@);
        assert(pairs_model(changed) =~= pairs_model(pairs).insert(pair.0@, pair.1@));
    }
}

/// The place of a key among the pairs, if it is there.
fn position(pairs: &Vec<(String, String)>, key: &str) -> (found: Option<usize>)
    ensures
        match found {
            Some(at) => at < pairs@.len() && pairs@[at as int].0@ == key@,
            None => forall|i: int| 0 <= i < pairs@.len() ==> (#[trigger] pairs@[i]).0@ != key@,
        },
{
    let wanted = String::from_str(key);
    let mut i: usize = 0;
    while i < pairs.len()
        invariant
            i <= pairs@.len(),
            wanted@ == key@,
            forall|k: int| 0 <= k < i ==> (#[trigger] pairs@[k]).0@ != key@,
        decreases pairs.len() - i,
    {
        if pairs[i].0 == wanted {
            return Some(i);
        }
        i += 1;
    }
    None
}

impl View for Metadata {
    type V = Map<Seq<char>, Seq<char>>;

    closed spec fn view(&self) -> Map<Seq<char>, Seq<char>> {
        pairs_model(self.entries@)
    }
}

impl Metadata {
    #[verifier::type_invariant]
    spec fn well_formed(self) -> bool {
        distinct_keys(self.entries@)
    }

    /// The empty map.
    pub fn new() -> (metadata: Metadata)
        ensures
            metadata@ == Map::<Seq<char>, Seq<char>>::empty(),
    {
        Metadata { entries: Vec::new() }
    }

    /// The metadata of a command: its id and nothing else.
    pub fn for_command(command_id: String) -> (metadata: Metadata)
        ensures
            metadata@ == Map::<Seq<char>, Seq<char>>::empty().insert(COMMAND_ID@, command_id@),
    {
        let mut metadata = Metadata::new();
        metadata.insert(String::from_str(COMMAND_ID), command_id);
        metadata
    }

    /// The value under a key, if the key is there.
    pub fn get(&self, key: &str) -> (value: Option<&String>)
        ensures
            match value {
                Some(found) => self@.dom().contains(key@) && self@[key@] == found@,
                None => !self@.dom().contains(key@),
            },
    {
        proof {
            use_type_invariant(self);
        }
        match position(&self.entries, key) {
            Some(at) => {
                proof {
                    lemma_present_key(self.entries@, at as int);
                }
                Some(&self.entries[at].1)
            },
            None => {
                proof {
                    lemma_absent_key(self.entries@, key@);
                }
                None
            },
        }
    }

    /// Puts a value under a key, in place of the one that was there.
    pub fn insert(&mut self, key: String, value: String)
        ensures
            final(self)@ == old(self)@.insert(key@, value@),
    {
        proof {
            use_type_invariant(&*self);
        }
        let mut entries: Vec<(String, String)> = Vec::new();
        std::mem::swap(&mut self.entries, &mut entries);
        let ghost before = entries@;
        match position(&entries, key.as_str()) {
            Some(at) => {
                proof {
                    lemma_replace_value(before, at as int, (key, value));
                }
                entries.set(at, (key, value));
            },
            None => {
                entries.push((key, value));
                assert(entries@.drop_last() =~= before);
            },
        }
        std::mem::swap(&mut self.entries, &mut entries);
    }

    /// Builds the map that a list of pairs spells out, a later pair
    /// overriding an earlier one with the same key.
    pub fn from_pairs(pairs: Vec<(String, String)>) -> (metadata: Metadata)
        ensures
            metadata@ == pairs_model(pairs@),
    {
        let ghost all = pairs@;
        let mut metadata = Metadata::new();
        for pair in it: pairs.into_iter()
            invariant
                it.seq() == all,
                metadata@ == pairs_model(all.take(it.index() as int)),
        {
            proof {
                assert(all.take(it.index() + 1).drop_last() =~= all.take(it.index() as int));
            }
            metadata.insert(pair.0, pair.1);
        }
        assert(all.take(all.len() as int) =~= all);
        metadata
    }

    /// The pairs of the map, each key once.
    pub fn to_pairs(&self) -> (pairs: Vec<(String, String)>)
        ensures
            pairs_model(pairs@) == self@,
            distinct_keys(pairs@),
    {
        proof {
            use_type_invariant(self);
        }
        let mut pairs: Vec<(String, String)> = Vec::new();
        let mut i: usize = 0;
        while i < self.entries.len()
            invariant
                i <= self.entries@.len(),
                pairs@.len() == i,
                forall|k: int|
                    0 <= k < i ==> (#[trigger] pairs@[k]).0@ == self.entries@[k].0@ && pairs@[k].1@
                        == self.entries@[k].1@,
            decreases self.entries.len() - i,
        {
            pairs.push((self.entries[i].0.clone(), self.entries[i].1.clone()));
            i += 1;
        }
        proof {
            lemma_same_text_same_map(pairs@, self.entries@);
        }
        pairs
    }
}

impl Clone for Metadata {
    fn clone(&self) -> (copy: Metadata)
        ensures
            copy@ == self@,
    {
        Metadata::from_pairs(self.to_pairs())
    }
}

/// Lists of pairs that read the same spell out the same map.
proof fn lemma_same_text_same_map(left: Seq<(String, String)>, right: Seq<(String, String)>)
    requires
        left.len() == right.len(),
        forall|k: int|
            0 <= k < left.len() ==> (#[trigger] left[k]).0@ == right[k].0@ && left[k].1@
                == right[k].1@,
    ensures
        pairs_model(left) == pairs_model(right),
        distinct_keys(right) ==> distinct_keys(left),
    decreases left.len(),
{
    if left.len() > 0 {
        lemma_same_text_same_map(left.drop_last(), right.drop_last());
    }
    if distinct_keys(right) {
        assert forall|i: int, j: int| 0 <= i < j < left.len() implies (#[trigger] left[i]).0@ != (
        #[trigger] left[j]).0@ by {
            assert(right[i].0@ != right[j].0@);
        }
    }
}

} // verus!
