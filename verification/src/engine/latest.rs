//! The most recent reading of each source.
//!
//! The mixer keeps one reading per source name and overwrites it whenever
//! the source reports again. Seen from outside the store is a map from
//! names to readings.

use crate::text::str_eq;
use vstd::prelude::*;

verus! {

/// The latest reading per source. There is no history: a source that
/// reports again replaces what it reported before.
pub struct LatestReadings<V> {
    sources: Vec<String>,
    readings: Vec<V>,
}

/// Whether `name` is the `i`-th of the names.
pub open spec fn names_at(names: Seq<String>, i: int, name: Seq<char>) -> bool {
    0 <= i < names.len() && names[i]@ == name
}

impl<V> LatestReadings<V> {
    /// Every source has one reading, and no source is listed twice.
    pub closed spec fn wf(&self) -> bool {
        &&& self.sources@.len() == self.readings@.len()
        &&& forall|i: int, j: int|
            0 <= i < j < self.sources@.len() ==> self.sources@[i]@ != self.sources@[j]@
    }

    /// The readings by source name.
    pub closed spec fn view(&self) -> Map<Seq<char>, V> {
        Map::new(
            |name: Seq<char>| exists|i: int| names_at(self.sources@, i, name),
            |name: Seq<char>| self.readings@[choose|i: int| names_at(self.sources@, i, name)],
        )
    }

    /// A store without readings.
    pub fn new() -> (store: Self)
        ensures
            store.wf(),
            store@ == Map::<Seq<char>, V>::empty(),
    {
        let store = LatestReadings { sources: Vec::new(), readings: Vec::new() };
        assert(store@ =~= Map::<Seq<char>, V>::empty());
        store
    }

    /// Position of a source among those that have reported.
    fn position(&self, source: &str) -> (found: Option<usize>)
        requires
            self.wf(),
        ensures
            match found {
                Some(i) => names_at(self.sources@, i as int, source@),
                None => forall|i: int| !names_at(self.sources@, i, source@),
            },
    {
        let mut i: usize = 0;
        while i < self.sources.len()
            invariant
                i <= self.sources.len(),
                forall|k: int| 0 <= k < i ==> self.sources@[k]@ != source@,
            decreases self.sources.len() - i,
        {
            if str_eq(self.sources[i].as_str(), source) {
                return Some(i);
            }
            i += 1;
        }
        None
    }

    /// Stores a reading as the latest of its source. Readings of other
    /// sources stay as they are.
    pub fn record(&mut self, source: String, reading: V)
        requires
            old(self).wf(),
        ensures
            final(self).wf(),
            final(self)@ == old(self)@.insert(source@, reading),
    {
        let found = self.position(source.as_str());
        let ghost before = *self;
        match found {
            Some(i) => {
                self.readings.set(i, reading);
                proof {
                    assert forall|name: Seq<char>|
                        #![trigger self@.dom().contains(name)]
                        #![trigger self@[name]]
                        (self@.dom().contains(name) <==> before@.insert(
                            source@,
                            reading,
                        ).dom().contains(name)) && (self@.dom().contains(name) ==> self@[name]
                            == before@.insert(source@, reading)[name]) by {
                        if self@.dom().contains(name) {
                            let k = choose|k: int| names_at(self.sources@, k, name);
                            assert(names_at(before.sources@, k, name));
                            if name == source@ {
                                assert(k == i);
                            } else {
                                assert(k != i);
                            }
                        }
                        if name == source@ {
                            assert(names_at(self.sources@, i as int, name));
                        }
                    }
                    assert(self@ =~= before@.insert(source@, reading));
                }
            },
            None => {
                self.sources.push(source);
                self.readings.push(reading);
                proof {
                    let last = before.sources@.len() as int;
                    assert(names_at(self.sources@, last, source@));
                    assert forall|a: int, b: int| 0 <= a < b < self.sources@.len() implies self.sources@[a]@
                        != self.sources@[b]@ by {
                        if b == last {
                            assert(!names_at(before.sources@, a, source@));
                        }
                    }
                    assert forall|name: Seq<char>|
                        #![trigger self@.dom().contains(name)]
                        #![trigger self@[name]]
                        (self@.dom().contains(name) <==> before@.insert(
                            source@,
                            reading,
                        ).dom().contains(name)) && (self@.dom().contains(name) ==> self@[name]
                            == before@.insert(source@, reading)[name]) by {
                        if self@.dom().contains(name) {
                            let k = choose|k: int| names_at(self.sources@, k, name);
                            if name == source@ {
                                assert(!names_at(before.sources@, k, name));
                                assert(k == last);
                            } else {
                                assert(names_at(before.sources@, k, name));
                                let w = choose|w: int| names_at(before.sources@, w, name);
                                assert(names_at(self.sources@, w, name));
                                assert(w == k);
                            }
                        }
                        if before@.dom().contains(name) {
                            let w = choose|w: int| names_at(before.sources@, w, name);
                            assert(names_at(self.sources@, w, name));
                        }
                    }
                    assert(self@ =~= before@.insert(source@, reading));
                }
            },
        }
    }

    /// The latest reading of a source, if it has reported.
    pub fn get(&self, source: &str) -> (reading: Option<&V>)
        requires
            self.wf(),
        ensures
            match reading {
                Some(value) => self@.contains_key(source@) && self@[source@] == *value,
                None => !self@.contains_key(source@),
            },
    {
        match self.position(source) {
            Some(i) => {
                proof {
                    let k = choose|k: int| names_at(self.sources@, k, source@);
                    assert(k == i);
                }
                Some(&self.readings[i])
            },
            None => None,
        }
    }

    /// Number of sources that have reported.
    pub fn len(&self) -> (count: usize)
        ensures
            count == self.sources_seen(),
    {
        self.sources.len()
    }

    /// Number of sources that have reported.
    pub closed spec fn sources_seen(&self) -> nat {
        self.sources@.len()
    }
}

/// Recording a reading makes it the latest of its source and leaves the
/// latest reading of every other source as it was.
pub proof fn lemma_record_touches_one_source<V>(
    before: Map<Seq<char>, V>,
    source: Seq<char>,
    reading: V,
    other: Seq<char>,
)
    requires
        other != source,
    ensures
        before.insert(source, reading).contains_key(source),
        before.insert(source, reading)[source] == reading,
        before.insert(source, reading).contains_key(other) == before.contains_key(other),
        before.contains_key(other) ==> before.insert(source, reading)[other] == before[other],
{
}

} // verus!
