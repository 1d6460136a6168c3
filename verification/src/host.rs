//! Model of the ambient host environment seen by a component call.
//!
//! The host hands every call a key-value storage, the caller identity
//! (`predecessor_account_id`), the component's own identity
//! (`current_account_id`), the recorded owner, and an event channel.
//! Storage maps byte keys to persisted label lists; an absent key is the
//! never-written state.

use vstd::prelude::*;

verus! {

/// One persisted storage entry: a byte key and the label list stored under it.
pub struct Entry {
    pub key: Vec<u8>,
    pub value: Vec<String>,
}

/// True when no two entries share a key.
pub open spec fn entry_keys_distinct(es: Seq<Entry>) -> bool {
    forall|i: int, j: int| 0 <= i < j < es.len() ==> es[i].key@ != es[j].key@
}

/// The mathematical content of an entry list: a map from byte keys to the
/// stored label lists (labels as character sequences).
pub open spec fn map_of(es: Seq<Entry>) -> Map<Seq<u8>, Seq<Seq<char>>>
    decreases es.len(),
{
    if es.len() == 0 {
        Map::empty()
    } else {
        map_of(es.drop_last()).insert(es.last().key@, es.last().value.deep_view())
    }
}

proof fn lemma_map_of_absent(es: Seq<Entry>, k: Seq<u8>)
    requires
        forall|i: int| 0 <= i < es.len() ==> #[trigger] es[i].key@ != k,
    ensures
        !map_of(es).dom().contains(k),
    decreases es.len(),
{
    if es.len() > 0 {
        assert forall|i: int| 0 <= i < es.drop_last().len() implies #[trigger] es.drop_last()[i].key@
            != k by {
            assert(es.drop_last()[i] == es[i]);
        }
        lemma_map_of_absent(es.drop_last(), k);
        assert(es[es.len() - 1].key@ != k);
    }
}

proof fn lemma_map_of_index(es: Seq<Entry>, i: int)
    requires
        entry_keys_distinct(es),
        0 <= i < es.len(),
    ensures
        map_of(es).dom().contains(es[i].key@),
        map_of(es)[es[i].key@] == es[i].value.deep_view(),
    decreases es.len(),
{
    if i < es.len() - 1 {
        assert(entry_keys_distinct(es.drop_last()));
        lemma_map_of_index(es.drop_last(), i);
        assert(es.drop_last()[i] == es[i]);
        assert(es[i].key@ != es.last().key@);
    }
}

proof fn lemma_map_of_update(es: Seq<Entry>, i: int, e: Entry)
    requires
        entry_keys_distinct(es),
        0 <= i < es.len(),
        e.key@ == es[i].key@,
    ensures
        entry_keys_distinct(es.update(i, e)),
        map_of(es.update(i, e)) == map_of(es).insert(e.key@, e.value.deep_view()),
    decreases es.len(),
{
    let es2 = es.update(i, e);
    if i == es.len() - 1 {
        assert(es2.drop_last() =~= es.drop_last());
        assert(map_of(es2) =~= map_of(es).insert(e.key@, e.value.deep_view()));
    } else {
        assert(entry_keys_distinct(es.drop_last()));
        lemma_map_of_update(es.drop_last(), i, e);
        assert(es2.drop_last() =~= es.drop_last().update(i, e));
        assert(es2.last() == es.last());
        assert(es.last().key@ != e.key@);
        assert(map_of(es2) =~= map_of(es).insert(e.key@, e.value.deep_view()));
    }
}

proof fn lemma_map_of_push(es: Seq<Entry>, e: Entry)
    requires
        entry_keys_distinct(es),
        forall|i: int| 0 <= i < es.len() ==> #[trigger] es[i].key@ != e.key@,
    ensures
        entry_keys_distinct(es.push(e)),
        map_of(es.push(e)) == map_of(es).insert(e.key@, e.value.deep_view()),
{
    assert(es.push(e).drop_last() =~= es);
    assert(es.push(e).last() == e);
}

proof fn lemma_map_of_remove(es: Seq<Entry>, i: int)
    requires
        entry_keys_distinct(es),
        0 <= i < es.len(),
    ensures
        entry_keys_distinct(es.remove(i)),
        map_of(es.remove(i)) == map_of(es).remove(es[i].key@),
    decreases es.len(),
{
    let es2 = es.remove(i);
    if i == es.len() - 1 {
        assert(es2 =~= es.drop_last());
        lemma_map_of_absent(es.drop_last(), es[i].key@);
        assert(map_of(es2) =~= map_of(es).remove(es[i].key@));
    } else {
        assert(entry_keys_distinct(es.drop_last()));
        lemma_map_of_remove(es.drop_last(), i);
        assert(es2.drop_last() =~= es.drop_last().remove(i));
        assert(es2.last() == es.last());
        assert(es.last().key@ != es[i].key@);
        assert(map_of(es2) =~= map_of(es).remove(es[i].key@));
    }
}

/// The host's key-value storage: a list of entries with pairwise distinct
/// keys, viewed as a map from byte keys to stored label lists.
pub struct Storage {
    entries: Vec<Entry>,
}

impl Storage {
    /// Which keys hold which label lists.
    pub closed spec fn view(&self) -> Map<Seq<u8>, Seq<Seq<char>>> {
        map_of(self.entries@)
    }

    /// Entry keys are pairwise distinct.
    pub closed spec fn wf(&self) -> bool {
        entry_keys_distinct(self.entries@)
    }

    /// Storage with no entry written yet.
    pub fn new() -> (s: Storage)
        ensures
            s.wf(),
            s@ == Map::<Seq<u8>, Seq<Seq<char>>>::empty(),
    {
        let s = Storage { entries: Vec::new() };
        proof {
            assert(s@ =~= Map::<Seq<u8>, Seq<Seq<char>>>::empty());
        }
        s
    }

    fn find(&self, key: &Vec<u8>) -> (r: Option<usize>)
        ensures
            match r {
                Some(i) => i < self.entries@.len() && self.entries@[i as int].key@ == key@,
                None => forall|i: int|
                    0 <= i < self.entries@.len() ==> #[trigger] self.entries@[i].key@ != key@,
            },
    {
        let n = self.entries.len();
        let mut i: usize = 0;
        while i < n
            invariant
                n == self.entries@.len(),
                i <= n,
                forall|j: int| 0 <= j < i ==> #[trigger] self.entries@[j].key@ != key@,
            decreases n - i,
        {
            if bytes_eq(&self.entries[i].key, key) {
                return Some(i);
            }
            i = i + 1;
        }
        None
    }

    /// Reads the label list stored under `key`; `None` when the key was
    /// never written (or was deleted).
    pub fn read(&self, key: &Vec<u8>) -> (r: Option<Vec<String>>)
        requires
            self.wf(),
        ensures
            match r {
                Some(v) => self@.dom().contains(key@) && v.deep_view() == self@[key@],
                None => !self@.dom().contains(key@),
            },
    {
        match self.find(key) {
            Some(i) => {
                proof {
                    lemma_map_of_index(self.entries@, i as int);
                }
                let v = self.entries[i].value.clone();
                proof {
                    assert(v.deep_view() =~= self.entries@[i as int].value.deep_view());
                }
                Some(v)
            },
            None => {
                proof {
                    lemma_map_of_absent(self.entries@, key@);
                }
                None
            },
        }
    }

    /// Writes `value` under `key`, replacing any earlier entry.
    pub fn write(&mut self, key: &Vec<u8>, value: Vec<String>)
        requires
            old(self).wf(),
        ensures
            final(self).wf(),
            final(self)@ == old(self)@.insert(key@, value.deep_view()),
    {
        let found = self.find(key);
        let e = Entry { key: key.clone(), value };
        proof {
            assert(e.key@ =~= key@);
        }
        match found {
            Some(i) => {
                proof {
                    lemma_map_of_update(self.entries@, i as int, e);
                }
                self.entries[i] = e;
            },
            None => {
                proof {
                    lemma_map_of_push(self.entries@, e);
                }
                self.entries.push(e);
            },
        }
    }

    /// Deletes the entry under `key`; reports whether one was present.
    pub fn remove(&mut self, key: &Vec<u8>) -> (r: bool)
        requires
            old(self).wf(),
        ensures
            final(self).wf(),
            final(self)@ == old(self)@.remove(key@),
            r == old(self)@.dom().contains(key@),
    {
        match self.find(key) {
            Some(i) => {
                proof {
                    lemma_map_of_index(self.entries@, i as int);
                    lemma_map_of_remove(self.entries@, i as int);
                }
                self.entries.remove(i);
                true
            },
            None => {
                proof {
                    lemma_map_of_absent(self.entries@, key@);
                    assert(self@.remove(key@) =~= self@);
                }
                false
            },
        }
    }
}

/// Compares two byte strings by content.
fn bytes_eq(a: &Vec<u8>, b: &Vec<u8>) -> (r: bool)
    ensures
        r == (a@ == b@),
{
    let n = a.len();
    if n != b.len() {
        proof {
            assert(a@ != b@) by {
                if a@ == b@ {
                    assert(a@.len() == b@.len());
                }
            }
        }
        return false;
    }
    let mut i: usize = 0;
    while i < n
        invariant
            n == a@.len(),
            n == b@.len(),
            i <= n,
            forall|j: int| 0 <= j < i ==> a@[j] == b@[j],
        decreases n - i,
    {
        if a[i] != b[i] {
            proof {
                assert(a@ != b@) by {
                    if a@ == b@ {
                        assert(a@[i as int] == b@[i as int]);
                    }
                }
            }
            return false;
        }
        i = i + 1;
    }
    proof {
        assert(a@ =~= b@);
    }
    true
}

/// An emitted event: a pause or unpause of one label, with the caller that
/// requested it.
#[derive(Debug, PartialEq)]
pub enum Event {
    Pause { by: String, key: String },
    Unpause { by: String, key: String },
}

/// The ambient context of one component call: caller identity, component
/// identity, the recorded owner, the persisted storage, and the events
/// emitted so far.
pub struct Host {
    /// Identity of the account that made the call.
    pub predecessor_account_id: String,
    /// Identity of the component itself.
    pub current_account_id: String,
    /// The recorded owner, as the external ownership capability reports it.
    pub owner: Option<String>,
    /// Persisted key-value storage.
    pub storage: Storage,
    /// Events emitted so far, oldest first.
    pub events: Vec<Event>,
}

impl Host {
    /// The storage holds well-formed entries.
    pub open spec fn wf(&self) -> bool {
        self.storage.wf()
    }

    /// A fresh context: nothing stored, nothing emitted.
    pub fn new(predecessor_account_id: String, current_account_id: String, owner: Option<
        String,
    >) -> (h: Host)
        ensures
            h.wf(),
            h.predecessor_account_id == predecessor_account_id,
            h.current_account_id == current_account_id,
            h.owner == owner,
            h.storage@ == Map::<Seq<u8>, Seq<Seq<char>>>::empty(),
            h.events@ == Seq::<Event>::empty(),
    {
        Host {
            predecessor_account_id,
            current_account_id,
            owner,
            storage: Storage::new(),
            events: Vec::new(),
        }
    }
}

} // verus!
