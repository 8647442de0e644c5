//! String-keyed association lists with a mathematical `Map` view.
//!
//! Every map the service handles (tenant labels, tenant params, the request
//! parameter bag, the per-tenant output map) is string-keyed and built by
//! inserting entries in order, where a later insert for the same key wins.
//! `KvList` stores the entries in insertion order and its view is the
//! last-write-wins map they denote.

use vstd::prelude::*;

verus! {

/// The map denoted by a sequence of key/value entries where a later entry
/// for the same key overrides an earlier one.
pub open spec fn entries_map<V: View>(s: Seq<(String, V)>) -> Map<Seq<char>, <V as View>::V>
    decreases s.len(),
{
    if s.len() == 0 {
        Map::empty()
    } else {
        entries_map(s.drop_last()).insert(s.last().0@, s.last().1@)
    }
}

pub proof fn lemma_entries_map_push<V: View>(s: Seq<(String, V)>, p: (String, V))
    ensures
        entries_map(s.push(p)) == entries_map(s).insert(p.0@, p.1@),
{
    assert(s.push(p).drop_last() =~= s);
    assert(s.push(p).last() == p);
}

pub proof fn lemma_entries_map_no_key<V: View>(s: Seq<(String, V)>, k: Seq<char>)
    requires
        forall|j: int| 0 <= j < s.len() ==> (#[trigger] s[j]).0@ != k,
    ensures
        !entries_map(s).dom().contains(k),
    decreases s.len(),
{
    if s.len() > 0 {
        assert(forall|j: int|
            0 <= j < s.drop_last().len() ==> #[trigger] s.drop_last()[j] == s[j]);
        lemma_entries_map_no_key(s.drop_last(), k);
        assert(s.last() == s[s.len() - 1]);
    }
}

pub proof fn lemma_entries_map_last_match<V: View>(s: Seq<(String, V)>, i: int)
    requires
        0 <= i < s.len(),
        forall|j: int| i < j < s.len() ==> (#[trigger] s[j]).0@ != s[i].0@,
    ensures
        entries_map(s).dom().contains(s[i].0@),
        entries_map(s)[s[i].0@] == s[i].1@,
    decreases s.len(),
{
    assert(s.last() == s[s.len() - 1]);
    if i < s.len() - 1 {
        assert(forall|j: int|
            0 <= j < s.drop_last().len() ==> #[trigger] s.drop_last()[j] == s[j]);
        lemma_entries_map_last_match(s.drop_last(), i);
    }
}

/// A string-keyed association list; later entries override earlier ones.
#[derive(Debug, Clone, PartialEq, Eq)]
pub struct KvList<V: View> {
    pub entries: Vec<(String, V)>,
}

impl<V: View> View for KvList<V> {
    type V = Map<Seq<char>, <V as View>::V>;

    open spec fn view(&self) -> Map<Seq<char>, <V as View>::V> {
        entries_map(self.entries@)
    }
}

impl<V: View> DeepView for KvList<V> {
    type V = Map<Seq<char>, <V as View>::V>;

    open spec fn deep_view(&self) -> Map<Seq<char>, <V as View>::V> {
        self.view()
    }
}

impl<V: View> KvList<V> {
    pub fn new() -> (r: Self)
        ensures
            r@ == Map::<Seq<char>, <V as View>::V>::empty(),
            r.entries@.len() == 0,
    {
        KvList { entries: Vec::new() }
    }

    pub fn insert(&mut self, k: String, v: V)
        ensures
            final(self)@ == old(self)@.insert(k@, v@),
            final(self).entries@ == old(self).entries@.push((k, v)),
    {
        proof {
            lemma_entries_map_push(self.entries@, (k, v));
        }
        self.entries.push((k, v));
    }

    /// Looks the key up; when several entries carry the key, the latest wins.
    pub fn get<'a>(&'a self, k: &String) -> (r: Option<&'a V>)
        ensures
            match r {
                Some(v) => self@.dom().contains(k@) && v@ == self@[k@],
                None => !self@.dom().contains(k@),
            },
    {
        let n = self.entries.len();
        let mut i = n;
        while i > 0
            invariant
                i <= n,
                n == self.entries.len(),
                forall|j: int| i <= j < n ==> (#[trigger] self.entries@[j]).0@ != k@,
            decreases i,
        {
            i = i - 1;
            if self.entries[i].0 == *k {
                proof {
                    lemma_entries_map_last_match(self.entries@, i as int);
                }
                return Some(&self.entries[i].1);
            }
        }
        proof {
            lemma_entries_map_no_key(self.entries@, k@);
        }
        None
    }

    pub fn len(&self) -> (r: usize)
        ensures
            r == self.entries@.len(),
    {
        self.entries.len()
    }
}

impl KvList<String> {
    /// A deep copy with the same entries in the same order.
    pub fn duplicate(&self) -> (r: Self)
        ensures
            r.entries@ == self.entries@,
            r@ == self@,
    {
        let mut entries: Vec<(String, String)> = Vec::new();
        let n = self.entries.len();
        let mut i: usize = 0;
        while i < n
            invariant
                i <= n,
                n == self.entries@.len(),
                entries@ == self.entries@.take(i as int),
            decreases n - i,
        {
            let k = self.entries[i].0.clone();
            let v = self.entries[i].1.clone();
            proof {
                assert((k, v) == self.entries@[i as int]);
                assert(self.entries@.take(i as int + 1) =~= self.entries@.take(i as int).push(
                    self.entries@[i as int],
                ));
            }
            entries.push((k, v));
            i = i + 1;
        }
        proof {
            assert(self.entries@.take(n as int) =~= self.entries@);
        }
        KvList { entries }
    }
}

/// A plain string-to-string map (tenant labels, tenant params).
pub type StrMap = KvList<String>;

} // verus!
