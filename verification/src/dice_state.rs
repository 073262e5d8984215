//! Progress of the incremental engine, by kind of key.

use vstd::prelude::*;
use crate::event::{DiceKeyEntry, DiceKeyState, DiceStateSnapshot};

verus! {

/// No two of `entries` have the same key.
pub open spec fn distinct_keys(entries: Seq<DiceKeyEntry>) -> bool {
    forall|i: int, j: int|
        0 <= i < j < entries.len() ==> (#[trigger] entries[i]).key@ != (#[trigger] entries[j]).key@
}

/// Some entry of `entries` has the key `key`.
pub open spec fn has_key(entries: Seq<DiceKeyEntry>, key: Seq<char>) -> bool {
    exists|i: int| 0 <= i < entries.len() && (#[trigger] entries[i]).key@ == key
}

/// The place of an entry of `entries` with the key `key`.
pub open spec fn place_of(entries: Seq<DiceKeyEntry>, key: Seq<char>) -> int {
    choose|i: int| 0 <= i < entries.len() && (#[trigger] entries[i]).key@ == key
}

/// The map from each key of `entries` to the state that stands with it.
pub open spec fn as_map(entries: Seq<DiceKeyEntry>) -> Map<Seq<char>, DiceKeyState> {
    Map::new(
        |key: Seq<char>| has_key(entries, key),
        |key: Seq<char>| entries[place_of(entries, key)].state,
    )
}

/// The known states after a snapshot reported `reported`: each reported key takes the state
/// reported for it, a key reported twice the later one, and every other key keeps its state.
pub open spec fn merged(known: Map<Seq<char>, DiceKeyState>, reported: Seq<DiceKeyEntry>) -> Map<
    Seq<char>,
    DiceKeyState,
>
    decreases reported.len(),
{
    if reported.len() == 0 {
        known
    } else {
        merged(known, reported.drop_last()).insert(reported.last().key@, reported.last().state)
    }
}

/// Where keys are distinct, the map holds each entry's state under its key.
proof fn lemma_as_map_at(entries: Seq<DiceKeyEntry>, i: int)
    requires
        distinct_keys(entries),
        0 <= i < entries.len(),
    ensures
        as_map(entries).dom().contains(entries[i].key@),
        as_map(entries)[entries[i].key@] == entries[i].state,
{
    let key = entries[i].key@;
    assert(has_key(entries, key));
    let c = place_of(entries, key);
    assert(0 <= c < entries.len() && entries[c].key@ == key);
    if c < i {
        assert(entries[c].key@ != entries[i].key@);
    }
    if i < c {
        assert(entries[i].key@ != entries[c].key@);
    }
}

/// Replacing the state of the entry at `i` is an insertion under that entry's key.
proof fn lemma_as_map_update(entries: Seq<DiceKeyEntry>, i: int, entry: DiceKeyEntry)
    requires
        distinct_keys(entries),
        0 <= i < entries.len(),
        entry.key@ == entries[i].key@,
    ensures
        distinct_keys(entries.update(i, entry)),
        as_map(entries.update(i, entry)) == as_map(entries).insert(entry.key@, entry.state),
{
    let after = entries.update(i, entry);
    assert(distinct_keys(after)) by {
        assert forall|a: int, b: int| 0 <= a < b < after.len() implies (#[trigger] after[a]).key@
            != (#[trigger] after[b]).key@ by {
            assert(after[a].key@ == entries[a].key@);
            assert(after[b].key@ == entries[b].key@);
            assert(entries[a].key@ != entries[b].key@);
        }
    }
    let want = as_map(entries).insert(entry.key@, entry.state);
    assert forall|key: Seq<char>| as_map(after).dom().contains(key) <==> want.dom().contains(
        key,
    ) by {
        if has_key(after, key) {
            let c = place_of(after, key);
            assert(entries[c].key@ == key);
        }
        if has_key(entries, key) {
            let c = place_of(entries, key);
            assert(after[c].key@ == key);
        }
        if key == entry.key@ {
            assert(after[i].key@ == key);
        }
    }
    assert forall|key: Seq<char>| as_map(after).dom().contains(key) implies as_map(after)[key]
        == want[key] by {
        let c = place_of(after, key);
        assert(0 <= c < after.len() && after[c].key@ == key);
        lemma_as_map_at(after, c);
        if c == i {
        } else {
            assert(entries[c].key@ == key);
            lemma_as_map_at(entries, c);
            assert(entries[c].key@ != entries[i].key@);
        }
    }
    assert(as_map(after) =~= want);
}

/// Appending an entry with a new key is an insertion under that key.
proof fn lemma_as_map_push(entries: Seq<DiceKeyEntry>, entry: DiceKeyEntry)
    requires
        distinct_keys(entries),
        !has_key(entries, entry.key@),
    ensures
        distinct_keys(entries.push(entry)),
        as_map(entries.push(entry)) == as_map(entries).insert(entry.key@, entry.state),
{
    let after = entries.push(entry);
    assert(distinct_keys(after)) by {
        assert forall|a: int, b: int| 0 <= a < b < after.len() implies (#[trigger] after[a]).key@
            != (#[trigger] after[b]).key@ by {
            if b < entries.len() {
                assert(entries[a].key@ != entries[b].key@);
            } else {
                assert(entries[a].key@ != entry.key@);
            }
        }
    }
    let want = as_map(entries).insert(entry.key@, entry.state);
    assert forall|key: Seq<char>| as_map(after).dom().contains(key) <==> want.dom().contains(
        key,
    ) by {
        if has_key(after, key) {
            let c = place_of(after, key);
            if c < entries.len() {
                assert(entries[c].key@ == key);
            }
        }
        if has_key(entries, key) {
            let c = place_of(entries, key);
            assert(after[c].key@ == key);
        }
        if key == entry.key@ {
            assert(after[entries.len() as int].key@ == key);
        }
    }
    assert forall|key: Seq<char>| as_map(after).dom().contains(key) implies as_map(after)[key]
        == want[key] by {
        let c = place_of(after, key);
        assert(0 <= c < after.len() && after[c].key@ == key);
        lemma_as_map_at(after, c);
        if c < entries.len() {
            assert(entries[c].key@ == key);
            lemma_as_map_at(entries, c);
        }
    }
    assert(as_map(after) =~= want);
}

/// The latest state that was reported for each kind of key.
#[derive(Debug)]
pub struct DiceState {
    entries: Vec<DiceKeyEntry>,
}

impl View for DiceState {
    type V = Map<Seq<char>, DiceKeyState>;

    closed spec fn view(&self) -> Map<Seq<char>, DiceKeyState> {
        as_map(self.entries@)
    }
}

impl DiceState {
    #[verifier::type_invariant]
    spec fn keys_are_distinct(&self) -> bool {
        distinct_keys(self.entries@)
    }

    /// The state before the engine reported anything.
    pub fn new() -> (state: DiceState)
        ensures
            state@ == Map::<Seq<char>, DiceKeyState>::empty(),
    {
        let state = DiceState { entries: Vec::new() };
        assert(state@ =~= Map::<Seq<char>, DiceKeyState>::empty());
        state
    }

    /// Number of kinds of key that were reported so far.
    pub fn len(&self) -> (n: usize)
        ensures
            n == self@.dom().len(),
            self@.dom().finite(),
    {
        proof {
            use_type_invariant(self);
            lemma_as_map_len(self.entries@);
        }
        self.entries.len()
    }

    /// The place of the entry for `key`.
    fn find(&self, key: &String) -> (found: Option<usize>)
        ensures
            match found {
                Some(i) => i < self.entries@.len() && self.entries@[i as int].key@ == key@,
                None => !has_key(self.entries@, key@),
            },
    {
        let mut i: usize = 0;
        while i < self.entries.len()
            invariant
                i <= self.entries.len(),
                forall|j: int| 0 <= j < i ==> (#[trigger] self.entries@[j]).key@ != key@,
            decreases self.entries.len() - i,
        {
            if self.entries[i].key == *key {
                return Some(i);
            }
            i = i + 1;
        }
        None
    }

    /// The latest state reported for `key`, if any was.
    pub fn get(&self, key: &String) -> (state: Option<DiceKeyState>)
        ensures
            state == (if self@.dom().contains(key@) {
                Some(self@[key@])
            } else {
                None
            }),
    {
        proof {
            use_type_invariant(self);
        }
        match self.find(key) {
            Some(i) => {
                proof {
                    lemma_as_map_at(self.entries@, i as int);
                }
                Some(self.entries[i].state)
            },
            None => None,
        }
    }

    /// Sets the state of `key`.
    fn set(&mut self, key: &String, state: DiceKeyState)
        ensures
            final(self)@ == old(self)@.insert(key@, state),
    {
        proof {
            use_type_invariant(&*self);
        }
        let entry = DiceKeyEntry { key: key.clone(), state };
        let found = self.find(key);
        let mut entries: Vec<DiceKeyEntry> = Vec::new();
        core::mem::swap(&mut self.entries, &mut entries);
        match found {
            Some(i) => {
                proof {
                    lemma_as_map_update(entries@, i as int, entry);
                }
                entries.set(i, entry);
            },
            None => {
                proof {
                    lemma_as_map_push(entries@, entry);
                }
                entries.push(entry);
            },
        }
        self.entries = entries;
    }

    /// Takes in a snapshot of the engine.
    pub fn update(&mut self, snapshot: &DiceStateSnapshot)
        ensures
            final(self)@ == merged(old(self)@, snapshot.key_states@),
    {
        let n = snapshot.key_states.len();
        let mut i: usize = 0;
        while i < n
            invariant
                n == snapshot.key_states.len(),
                i <= n,
                self@ == merged(old(self)@, snapshot.key_states@.take(i as int)),
            decreases n - i,
        {
            let reported = &snapshot.key_states[i];
            self.set(&reported.key, reported.state);
            assert(snapshot.key_states@.take(i + 1).drop_last() =~= snapshot.key_states@.take(
                i as int,
            ));
            i = i + 1;
        }
        assert(snapshot.key_states@.take(n as int) =~= snapshot.key_states@);
    }
}

/// Where keys are distinct, there are as many keys as entries.
proof fn lemma_as_map_len(entries: Seq<DiceKeyEntry>)
    requires
        distinct_keys(entries),
    ensures
        as_map(entries).dom().finite(),
        as_map(entries).dom().len() == entries.len(),
    decreases entries.len(),
{
    if entries.len() == 0 {
        assert(as_map(entries).dom() =~= Set::<Seq<char>>::empty());
    } else {
        let front = entries.drop_last();
        let entry = entries.last();
        assert(distinct_keys(front)) by {
            assert forall|a: int, b: int| 0 <= a < b < front.len() implies (
            #[trigger] front[a]).key@ != (#[trigger] front[b]).key@ by {
                assert(entries[a].key@ != entries[b].key@);
            }
        }
        lemma_as_map_len(front);
        assert(!has_key(front, entry.key@)) by {
            if has_key(front, entry.key@) {
                let c = place_of(front, entry.key@);
                assert(entries[c].key@ != entries[entries.len() - 1].key@);
            }
        }
        assert(front.push(entry) =~= entries);
        lemma_as_map_push(front, entry);
    }
}

} // verus!
