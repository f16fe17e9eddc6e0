//! The instance registry: the single source of truth for which window
//! keys currently track a supervised process. It is a mapping from window
//! key to process instance with at most one entry per key; callers guard
//! it with one lock and hold that lock only around these operations.

use vstd::prelude::*;
use vstd::string::StringExecFns;
use crate::strutil::str_eq;

verus! {

/// One supervised subprocess: its OS process id and the readiness timeout
/// it was configured with.
#[derive(PartialEq, Eq, Structural, Clone, Copy, Debug)]
pub struct ProcessInstance {
    pub pid: u32,
    pub ipc_timeout_ms: u64,
}

/// A mapping from window key to tracked process instance, holding at most
/// one instance per key.
pub struct Registry {
    entries: Vec<(String, ProcessInstance)>,
}

/// No two entries share a window key.
pub open spec fn distinct_keys(s: Seq<(String, ProcessInstance)>) -> bool {
    forall|i: int, j: int| 0 <= i < j < s.len() ==> s[i].0@ != s[j].0@
}

/// The mapping an entry sequence denotes; a later entry for the same key
/// would win, and under `distinct_keys` there is only ever one.
pub open spec fn map_of(s: Seq<(String, ProcessInstance)>) -> Map<Seq<char>, ProcessInstance>
    decreases s.len(),
{
    if s.len() == 0 {
        Map::empty()
    } else {
        map_of(s.drop_last()).insert(s.last().0@, s.last().1)
    }
}

pub proof fn lemma_map_of_contains(s: Seq<(String, ProcessInstance)>, k: Seq<char>)
    ensures
        map_of(s).contains_key(k) <==> (exists|i: int| 0 <= i < s.len() && s[i].0@ == k),
    decreases s.len(),
{
    if s.len() > 0 {
        lemma_map_of_contains(s.drop_last(), k);
        if map_of(s).contains_key(k) {
            if k == s.last().0@ {
                assert(s[s.len() - 1].0@ == k);
            } else {
                let i = choose|i: int| 0 <= i < s.drop_last().len() && s.drop_last()[i].0@ == k;
                assert(s[i].0@ == k);
            }
        }
        if exists|i: int| 0 <= i < s.len() && s[i].0@ == k {
            let i = choose|i: int| 0 <= i < s.len() && s[i].0@ == k;
            if i < s.len() - 1 {
                assert(s.drop_last()[i].0@ == k);
            }
        }
    }
}

pub proof fn lemma_map_of_index(s: Seq<(String, ProcessInstance)>, i: int)
    requires
        distinct_keys(s),
        0 <= i < s.len(),
    ensures
        map_of(s).contains_key(s[i].0@),
        map_of(s)[s[i].0@] == s[i].1,
    decreases s.len(),
{
    if i < s.len() - 1 {
        assert(distinct_keys(s.drop_last()));
        assert(s.drop_last()[i] == s[i]);
        lemma_map_of_index(s.drop_last(), i);
        assert(s.last().0@ != s[i].0@);
    }
}

pub proof fn lemma_map_of_absent(s: Seq<(String, ProcessInstance)>, k: Seq<char>)
    requires
        forall|i: int| 0 <= i < s.len() ==> s[i].0@ != k,
    ensures
        !map_of(s).contains_key(k),
{
    lemma_map_of_contains(s, k);
}

impl View for Registry {
    type V = Map<Seq<char>, ProcessInstance>;

    closed spec fn view(&self) -> Map<Seq<char>, ProcessInstance> {
        map_of(self.entries@)
    }
}

impl Registry {
    pub closed spec fn wf(&self) -> bool {
        distinct_keys(self.entries@)
    }

    pub fn new() -> (r: Registry)
        ensures
            r.wf(),
            r@ == Map::<Seq<char>, ProcessInstance>::empty(),
    {
        Registry { entries: Vec::new() }
    }

    /// The instance tracked for `label`, if any.
    pub fn get(&self, label: &str) -> (r: Option<ProcessInstance>)
        requires
            self.wf(),
        ensures
            (r is Some) <==> self@.contains_key(label@),
            r matches Some(inst) ==> self@[label@] == inst,
    {
        let n = self.entries.len();
        let mut i: usize = 0;
        while i < n
            invariant
                n == self.entries@.len(),
                0 <= i <= n,
                self.wf(),
                forall|j: int| 0 <= j < i ==> self.entries@[j].0@ != label@,
            decreases n - i,
        {
            if str_eq(self.entries[i].0.as_str(), label) {
                proof {
                    lemma_map_of_index(self.entries@, i as int);
                }
                return Some(self.entries[i].1);
            }
            i = i + 1;
        }
        proof {
            lemma_map_of_absent(self.entries@, label@);
        }
        None
    }

    /// Removes and returns the instance tracked for `label`, if any.
    pub fn remove(&mut self, label: &str) -> (r: Option<ProcessInstance>)
        requires
            old(self).wf(),
        ensures
            final(self).wf(),
            (r is Some) <==> old(self)@.contains_key(label@),
            r matches Some(inst) ==> inst == old(self)@[label@],
            final(self)@ == old(self)@.remove(label@),
    {
        let n = self.entries.len();
        let mut i: usize = 0;
        while i < n
            invariant
                n == self.entries@.len(),
                0 <= i <= n,
                self.wf(),
                self.entries@ == old(self).entries@,
                forall|j: int| 0 <= j < i ==> self.entries@[j].0@ != label@,
            decreases n - i,
        {
            if str_eq(self.entries[i].0.as_str(), label) {
                proof {
                    lemma_map_of_index(self.entries@, i as int);
                    lemma_map_of_remove(self.entries@, i as int);
                }
                let inst = self.entries[i].1;
                let _ = self.entries.remove(i);
                return Some(inst);
            }
            i = i + 1;
        }
        proof {
            lemma_map_of_absent(self.entries@, label@);
            assert(old(self)@.remove(label@) =~= old(self)@);
        }
        None
    }

    /// Tracks `inst` for `label`, replacing any prior entry for that key.
    pub fn insert(&mut self, label: &str, inst: ProcessInstance)
        requires
            old(self).wf(),
        ensures
            final(self).wf(),
            final(self)@ == old(self)@.insert(label@, inst),
    {
        let _ = self.remove(label);
        let ghost mid = self.entries@;
        proof {
            lemma_map_of_contains(mid, label@);
            assert(forall|i: int| 0 <= i < mid.len() ==> mid[i].0@ != label@);
        }
        let key = String::from_str(label);
        self.entries.push((key, inst));
        proof {
            assert(self.entries@.drop_last() =~= mid);
            assert(self.entries@.last().0@ == label@);
            assert(map_of(self.entries@) == map_of(mid).insert(label@, inst));
            assert(old(self)@.remove(label@).insert(label@, inst) =~= old(self)@.insert(
                label@,
                inst,
            ));
            assert(distinct_keys(self.entries@));
        }
    }

    /// How many windows currently track an instance.
    pub fn len(&self) -> (r: usize)
        requires
            self.wf(),
        ensures
            r == self@.dom().len(),
    {
        proof {
            lemma_map_of_dom_len(self.entries@);
        }
        self.entries.len()
    }
}

pub proof fn lemma_map_of_remove(s: Seq<(String, ProcessInstance)>, idx: int)
    requires
        distinct_keys(s),
        0 <= idx < s.len(),
    ensures
        distinct_keys(s.remove(idx)),
        map_of(s.remove(idx)) == map_of(s).remove(s[idx].0@),
{
    let t = s.remove(idx);
    let key = s[idx].0@;
    assert forall|i: int, j: int| 0 <= i < j < t.len() implies t[i].0@ != t[j].0@ by {
        if i < idx {
            assert(t[i] == s[i]);
        } else {
            assert(t[i] == s[i + 1]);
        }
        if j < idx {
            assert(t[j] == s[j]);
        } else {
            assert(t[j] == s[j + 1]);
        }
    }
    assert forall|k: Seq<char>|
        map_of(t).contains_key(k) == map_of(s).remove(key).contains_key(k) by {
        lemma_map_of_contains(t, k);
        lemma_map_of_contains(s, k);
        if map_of(t).contains_key(k) {
            let i = choose|i: int| 0 <= i < t.len() && t[i].0@ == k;
            if i < idx {
                assert(s[i].0@ == k);
                assert(s[i].0@ != key);
            } else {
                assert(s[i + 1].0@ == k);
                assert(s[i + 1].0@ != key);
            }
        }
        if map_of(s).remove(key).contains_key(k) {
            let i = choose|i: int| 0 <= i < s.len() && s[i].0@ == k;
            assert(k != key);
            assert(i != idx);
            if i < idx {
                assert(t[i].0@ == k);
            } else {
                assert(t[i - 1].0@ == k);
            }
        }
    }
    assert forall|k: Seq<char>| #[trigger]
        map_of(t).contains_key(k) implies map_of(t)[k] == map_of(s).remove(key)[k] by {
        lemma_map_of_contains(t, k);
        let i = choose|i: int| 0 <= i < t.len() && t[i].0@ == k;
        lemma_map_of_index(t, i);
        if i < idx {
            lemma_map_of_index(s, i);
        } else {
            lemma_map_of_index(s, i + 1);
        }
        assert(k != key);
    }
    assert(map_of(t) =~= map_of(s).remove(key));
}

proof fn lemma_map_of_dom_len(s: Seq<(String, ProcessInstance)>)
    requires
        distinct_keys(s),
    ensures
        map_of(s).dom().finite(),
        map_of(s).dom().len() == s.len(),
    decreases s.len(),
{
    if s.len() > 0 {
        assert(distinct_keys(s.drop_last()));
        lemma_map_of_dom_len(s.drop_last());
        lemma_map_of_absent(s.drop_last(), s.last().0@);
    }
}

} // verus!
