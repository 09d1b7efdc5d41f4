use vstd::prelude::*;

use crate::addr::{job_seeds, pda_create};
use crate::bytes::bytes_eq;
use crate::record::{job_wf, Job, JobView};

verus! {

/// One stored record together with the derived address it is keyed by.
pub struct StoreEntry {
    pub address: Vec<u8>,
    pub job: Job,
}

/// The mathematical value of one entry: its key and its record.
pub open spec fn entry_view(e: StoreEntry) -> (Seq<u8>, JobView) {
    (e.address@, e.job@)
}

/// The mathematical values of a whole entry list.
pub open spec fn entry_views(s: Seq<StoreEntry>) -> Seq<(Seq<u8>, JobView)> {
    s.map_values(|e: StoreEntry| entry_view(e))
}

/// The finite map a key-value list stands for; a later entry for the same
/// key would win, but the store keeps keys distinct.
pub open spec fn map_of(s: Seq<(Seq<u8>, JobView)>) -> Map<Seq<u8>, JobView>
    decreases s.len(),
{
    if s.len() == 0 {
        Map::empty()
    } else {
        map_of(s.drop_last()).insert(s.last().0, s.last().1)
    }
}

/// No two entries share a key.
pub open spec fn distinct_keys(s: Seq<(Seq<u8>, JobView)>) -> bool {
    forall|i: int, j: int|
        #![trigger s[i], s[j]]
        0 <= i < j < s.len() ==> s[i].0 != s[j].0
}

/// The keys of [`map_of`] are exactly the keys that occur in the list.
pub proof fn lemma_map_of_contains(s: Seq<(Seq<u8>, JobView)>)
    ensures
        forall|i: int| 0 <= i < s.len() ==> map_of(s).contains_key((#[trigger] s[i]).0),
        forall|k: Seq<u8>|
            #[trigger] map_of(s).contains_key(k) ==> exists|i: int|
                0 <= i < s.len() && (#[trigger] s[i]).0 == k,
    decreases s.len(),
{
    if s.len() > 0 {
        let s0 = s.drop_last();
        lemma_map_of_contains(s0);
        assert forall|i: int| 0 <= i < s.len() implies map_of(s).contains_key(
            (#[trigger] s[i]).0,
        ) by {
            if i < s.len() - 1 {
                assert(s0[i] == s[i]);
                assert(map_of(s0).contains_key(s0[i].0));
            }
        }
        assert forall|k: Seq<u8>| #[trigger] map_of(s).contains_key(k) implies exists|i: int|
            0 <= i < s.len() && (#[trigger] s[i]).0 == k by {
            if k == s.last().0 {
                assert((s[s.len() - 1]).0 == k);
            } else {
                assert(map_of(s0).contains_key(k));
                let i = choose|i: int| 0 <= i < s0.len() && (#[trigger] s0[i]).0 == k;
                assert(s[i] == s0[i]);
            }
        }
    }
}

/// With distinct keys, [`map_of`] maps each listed key to its listed record.
pub proof fn lemma_map_of_index(s: Seq<(Seq<u8>, JobView)>, i: int)
    requires
        distinct_keys(s),
        0 <= i < s.len(),
    ensures
        map_of(s).contains_key(s[i].0),
        map_of(s)[s[i].0] == s[i].1,
    decreases s.len(),
{
    let s0 = s.drop_last();
    if i == s.len() - 1 {
    } else {
        assert(distinct_keys(s0)) by {
            assert forall|a: int, b: int|
                #![trigger s0[a], s0[b]]
                0 <= a < b < s0.len() implies s0[a].0 != s0[b].0 by {
                assert(s0[a] == s[a]);
                assert(s0[b] == s[b]);
            }
        }
        assert(s0[i] == s[i]);
        lemma_map_of_index(s0, i);
        assert(s[i].0 != s.last().0) by {
            assert(s.last() == s[s.len() - 1]);
        }
    }
}

/// Appending a fresh entry inserts its key.
pub proof fn lemma_map_of_push(s: Seq<(Seq<u8>, JobView)>, k: Seq<u8>, v: JobView)
    ensures
        map_of(s.push((k, v))) == map_of(s).insert(k, v),
{
    assert(s.push((k, v)).drop_last() =~= s);
    assert(s.push((k, v)).last() == (k, v));
}

/// Removing one entry removes exactly its key, and keeps keys distinct.
pub proof fn lemma_map_of_remove(s: Seq<(Seq<u8>, JobView)>, i: int)
    requires
        distinct_keys(s),
        0 <= i < s.len(),
    ensures
        map_of(s.remove(i)) == map_of(s).remove(s[i].0),
        distinct_keys(s.remove(i)),
    decreases s.len(),
{
    s.remove_ensures(i);
    assert(distinct_keys(s.remove(i))) by {
        assert forall|a: int, b: int|
            #![trigger s.remove(i)[a], s.remove(i)[b]]
            0 <= a < b < s.remove(i).len() implies s.remove(i)[a].0 != s.remove(i)[b].0 by {
            if a < i {
                assert(s.remove(i)[a] == s[a]);
            } else {
                assert(s.remove(i)[a] == s[a + 1]);
            }
            if b < i {
                assert(s.remove(i)[b] == s[b]);
            } else {
                assert(s.remove(i)[b] == s[b + 1]);
            }
        }
    }
    let s0 = s.drop_last();
    if i == s.len() - 1 {
        assert(s.remove(i) =~= s0);
        lemma_map_of_contains(s0);
        assert(!map_of(s0).contains_key(s[i].0)) by {
            if map_of(s0).contains_key(s[i].0) {
                let j = choose|j: int| 0 <= j < s0.len() && (#[trigger] s0[j]).0 == s[i].0;
                assert(s[j] == s0[j]);
            }
        }
        assert(map_of(s).remove(s[i].0) =~= map_of(s0));
    } else {
        assert(distinct_keys(s0)) by {
            assert forall|a: int, b: int|
                #![trigger s0[a], s0[b]]
                0 <= a < b < s0.len() implies s0[a].0 != s0[b].0 by {
                assert(s0[a] == s[a]);
                assert(s0[b] == s[b]);
            }
        }
        lemma_map_of_remove(s0, i);
        assert(s0[i] == s[i]);
        assert(s.remove(i).drop_last() =~= s0.remove(i)) by {
            s0.remove_ensures(i);
        }
        assert(s.remove(i).last() == s.last()) by {
            assert(s.remove(i)[s.len() - 2] == s[s.len() - 1]);
        }
        assert(s[i].0 != s.last().0) by {
            assert(s.last() == s[s.len() - 1]);
        }
        assert(map_of(s.remove(i)) == map_of(s0.remove(i)).insert(s.last().0, s.last().1));
        assert(map_of(s0).remove(s[i].0).insert(s.last().0, s.last().1) =~= map_of(s0).insert(
            s.last().0,
            s.last().1,
        ).remove(s[i].0));
    }
}

/// Views commute with removing one entry.
pub proof fn lemma_entry_views_remove(s: Seq<StoreEntry>, i: int)
    requires
        0 <= i < s.len(),
    ensures
        entry_views(s.remove(i)) == entry_views(s).remove(i),
{
    s.remove_ensures(i);
    entry_views(s).remove_ensures(i);
    assert(entry_views(s.remove(i)) =~= entry_views(s).remove(i)) by {
        assert forall|j: int| 0 <= j < s.len() - 1 implies entry_views(s.remove(i))[j]
            == entry_views(s).remove(i)[j] by {
            if j < i {
                assert(s.remove(i)[j] == s[j]);
                assert(entry_views(s).remove(i)[j] == entry_views(s)[j]);
            } else {
                assert(s.remove(i)[j] == s[j + 1]);
                assert(entry_views(s).remove(i)[j] == entry_views(s)[j + 1]);
            }
        }
    }
}

/// Views commute with appending one entry.
pub proof fn lemma_entry_views_push(s: Seq<StoreEntry>, e: StoreEntry)
    ensures
        entry_views(s.push(e)) == entry_views(s).push(entry_view(e)),
{
    assert(entry_views(s.push(e)) =~= entry_views(s).push(entry_view(e))) by {
        assert forall|j: int| 0 <= j < s.len() + 1 implies entry_views(s.push(e))[j]
            == entry_views(s).push(entry_view(e))[j] by {
            if j < s.len() {
                assert(s.push(e)[j] == s[j]);
            } else {
                assert(s.push(e)[j] == e);
            }
        }
    }
}

/// Durable storage for job records, keyed by derived address.
///
/// Its value is the finite map from addresses to record values. The
/// well-formedness invariant keeps keys distinct and ties every entry to
/// its derivation: the stored record's owner, title and validity counter
/// re-derive exactly the address the record sits under.
pub struct JobStore {
    pub program_id: Vec<u8>,
    pub entries: Vec<StoreEntry>,
}

impl View for JobStore {
    type V = Map<Seq<u8>, JobView>;

    open spec fn view(&self) -> Map<Seq<u8>, JobView> {
        map_of(entry_views(self.entries@))
    }
}

/// One entry is acceptable under a program id: a 32-byte key, a
/// well-formed record, and a key that the record's own fields re-derive.
pub open spec fn entry_ok(pid: Seq<u8>, e: (Seq<u8>, JobView)) -> bool {
    &&& e.0.len() == 32
    &&& job_wf(e.1)
    &&& pda_create(pid, job_seeds(e.1.owner, e.1.title), e.1.bump) == Some(e.0)
}

impl JobStore {
    /// The namespace (program id) this store derives addresses under.
    pub open spec fn pid(&self) -> Seq<u8> {
        self.program_id@
    }

    /// Well-formedness: see [`JobStore`].
    pub open spec fn wf(&self) -> bool {
        &&& self.program_id@.len() == 32
        &&& distinct_keys(entry_views(self.entries@))
        &&& forall|i: int|
            0 <= i < self.entries@.len() ==> entry_ok(
                self.pid(),
                #[trigger] entry_views(self.entries@)[i],
            )
    }

    /// An empty store for one program id.
    pub fn new(program_id: Vec<u8>) -> (r: JobStore)
        requires
            program_id@.len() == 32,
        ensures
            r.wf(),
            r.pid() == program_id@,
            r@ == Map::<Seq<u8>, JobView>::empty(),
    {
        let r = JobStore { program_id, entries: Vec::new() };
        proof {
            assert(entry_views(r.entries@) =~= Seq::<(Seq<u8>, JobView)>::empty());
        }
        r
    }

    /// Where an address sits in the entry list, if anywhere.
    fn find_index(&self, address: &Vec<u8>) -> (r: Option<usize>)
        ensures
            match r {
                Some(i) => i < self.entries@.len() && entry_views(self.entries@)[i as int].0
                    == address@,
                None => !self@.contains_key(address@),
            },
    {
        let mut i: usize = 0;
        while i < self.entries.len()
            invariant
                i <= self.entries@.len(),
                forall|k: int|
                    0 <= k < i ==> (#[trigger] entry_views(self.entries@)[k]).0 != address@,
            decreases self.entries@.len() - i,
        {
            if bytes_eq(&self.entries[i].address, address) {
                proof {
                    assert(entry_views(self.entries@)[i as int] == entry_view(
                        self.entries@[i as int],
                    ));
                }
                return Some(i);
            }
            proof {
                assert(entry_views(self.entries@)[i as int] == entry_view(
                    self.entries@[i as int],
                ));
            }
            i += 1;
        }
        proof {
            lemma_map_of_contains(entry_views(self.entries@));
        }
        None
    }

    /// Does a record exist at this address?
    pub fn contains(&self, address: &Vec<u8>) -> (r: bool)
        ensures
            r == self@.contains_key(address@),
    {
        match self.find_index(address) {
            Some(i) => {
                proof {
                    lemma_map_of_contains(entry_views(self.entries@));
                }
                true
            },
            None => false,
        }
    }

    /// Load the record at an address, or nothing when the address is free.
    pub fn get(&self, address: &Vec<u8>) -> (r: Option<&Job>)
        requires
            self.wf(),
        ensures
            match r {
                Some(job) => self@.contains_key(address@) && job@ == self@[address@],
                None => !self@.contains_key(address@),
            },
    {
        match self.find_index(address) {
            Some(i) => {
                proof {
                    lemma_map_of_index(entry_views(self.entries@), i as int);
                    assert(entry_views(self.entries@)[i as int] == entry_view(
                        self.entries@[i as int],
                    ));
                }
                Some(&self.entries[i].job)
            },
            None => None,
        }
    }

    /// Take the entry at an address out of the store, or nothing (and
    /// change nothing) when the address is free.
    pub fn take(&mut self, address: &Vec<u8>) -> (r: Option<StoreEntry>)
        requires
            old(self).wf(),
        ensures
            final(self).wf(),
            final(self).pid() == old(self).pid(),
            match r {
                Some(e) => {
                    &&& old(self)@.contains_key(address@)
                    &&& e.address@ == address@
                    &&& e.job@ == old(self)@[address@]
                    &&& final(self)@ == old(self)@.remove(address@)
                    &&& entry_ok(old(self).pid(), entry_view(e))
                },
                None => !old(self)@.contains_key(address@) && *final(self) == *old(self),
            },
    {
        match self.find_index(address) {
            None => None,
            Some(i) => {
                proof {
                    lemma_map_of_index(entry_views(self.entries@), i as int);
                    lemma_map_of_remove(entry_views(self.entries@), i as int);
                    lemma_entry_views_remove(self.entries@, i as int);
                    assert(entry_views(self.entries@)[i as int] == entry_view(
                        self.entries@[i as int],
                    ));
                }
                let ghost old_entries = self.entries@;
                let e = self.entries.remove(i);
                proof {
                    assert forall|j: int| 0 <= j < self.entries@.len() implies entry_ok(
                        self.pid(),
                        #[trigger] entry_views(self.entries@)[j],
                    ) by {
                        entry_views(old_entries).remove_ensures(i as int);
                        if j < i as int {
                            assert(entry_views(old_entries).remove(i as int)[j] == entry_views(
                                old_entries,
                            )[j]);
                        } else {
                            assert(entry_views(old_entries).remove(i as int)[j] == entry_views(
                                old_entries,
                            )[j + 1]);
                        }
                    }
                }
                Some(e)
            },
        }
    }

    /// Save a record under a fresh address. The caller shows that the
    /// address is free and that the record's fields re-derive it.
    pub fn save(&mut self, entry: StoreEntry)
        requires
            old(self).wf(),
            !old(self)@.contains_key(entry.address@),
            entry_ok(old(self).pid(), entry_view(entry)),
        ensures
            final(self).wf(),
            final(self).pid() == old(self).pid(),
            final(self)@ == old(self)@.insert(entry.address@, entry.job@),
    {
        let ghost old_entries = self.entries@;
        let ghost ev = entry_view(entry);
        proof {
            lemma_map_of_contains(entry_views(old_entries));
            lemma_map_of_push(entry_views(old_entries), ev.0, ev.1);
            lemma_entry_views_push(old_entries, entry);
        }
        self.entries.push(entry);
        proof {
            assert(entry_views(self.entries@) == entry_views(old_entries).push(ev));
            assert(distinct_keys(entry_views(self.entries@))) by {
                let s = entry_views(self.entries@);
                assert forall|a: int, b: int|
                    #![trigger s[a], s[b]]
                    0 <= a < b < s.len() implies s[a].0 != s[b].0 by {
                    if b < s.len() - 1 {
                        assert(s[a] == entry_views(old_entries)[a]);
                        assert(s[b] == entry_views(old_entries)[b]);
                    } else {
                        assert(s[b] == ev);
                        assert(s[a] == entry_views(old_entries)[a]);
                        assert(map_of(entry_views(old_entries)).contains_key(
                            entry_views(old_entries)[a].0,
                        ));
                    }
                }
            }
            assert forall|j: int| 0 <= j < self.entries@.len() implies entry_ok(
                self.pid(),
                #[trigger] entry_views(self.entries@)[j],
            ) by {
                let s = entry_views(self.entries@);
                if j < s.len() - 1 {
                    assert(s[j] == entry_views(old_entries)[j]);
                } else {
                    assert(s[j] == ev);
                }
            }
        }
    }
}

} // verus!
