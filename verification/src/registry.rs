//! The model registry: model name to operator account, last writer wins.
use vstd::prelude::*;
use vstd::pervasive::VecAdditionalExecFns;
use crate::account::AccountId;

verus! {

struct ModelEntry {
    name: String,
    account: AccountId,
}

/// Maps each registered model name to the account of its operator.
///
/// Registration upserts: a name registered twice keeps only the account
/// supplied last. Names are exact keys; no normalization of any kind is
/// applied, so lookups are case-sensitive.
pub struct ModelRegistry {
    entries: Vec<ModelEntry>,
}

spec fn unique_names(s: Seq<ModelEntry>) -> bool {
    forall|i: int, j: int| 0 <= i < j < s.len() ==> s[i].name@ != s[j].name@
}

spec fn entries_map(s: Seq<ModelEntry>) -> Map<Seq<char>, Seq<char>>
    decreases s.len(),
{
    if s.len() == 0 {
        Map::empty()
    } else {
        entries_map(s.drop_last()).insert(s.last().name@, s.last().account@)
    }
}

proof fn lemma_entries_map_index(s: Seq<ModelEntry>, i: int)
    requires
        unique_names(s),
        0 <= i < s.len(),
    ensures
        entries_map(s).contains_key(s[i].name@),
        entries_map(s)[s[i].name@] == s[i].account@,
    decreases s.len(),
{
    if i == s.len() - 1 {
    } else {
        lemma_entries_map_index(s.drop_last(), i);
        assert(s.drop_last()[i] == s[i]);
        assert(s.last().name@ != s[i].name@);
    }
}

proof fn lemma_entries_map_absent(s: Seq<ModelEntry>, k: Seq<char>)
    requires
        forall|i: int| 0 <= i < s.len() ==> s[i].name@ != k,
    ensures
        !entries_map(s).contains_key(k),
    decreases s.len(),
{
    if s.len() > 0 {
        lemma_entries_map_absent(s.drop_last(), k);
        assert(s.last().name@ != k);
    }
}

proof fn lemma_entries_map_covered(s: Seq<ModelEntry>, k: Seq<char>)
    requires
        entries_map(s).contains_key(k),
    ensures
        exists|i: int| 0 <= i < s.len() && s[i].name@ == k,
    decreases s.len(),
{
    if s.len() > 0 {
        if s.last().name@ == k {
            assert(s[s.len() - 1].name@ == k);
        } else {
            lemma_entries_map_covered(s.drop_last(), k);
            let i = choose|i: int| 0 <= i < s.drop_last().len() && s.drop_last()[i].name@ == k;
            assert(s[i].name@ == k);
        }
    }
}

proof fn lemma_entries_map_push(s: Seq<ModelEntry>, e: ModelEntry)
    ensures
        entries_map(s.push(e)) == entries_map(s).insert(e.name@, e.account@),
{
    assert(s.push(e).drop_last() =~= s);
    assert(s.push(e).last() == e);
}

proof fn lemma_entries_map_update(s: Seq<ModelEntry>, i: int, e: ModelEntry)
    requires
        unique_names(s),
        0 <= i < s.len(),
        e.name@ == s[i].name@,
    ensures
        entries_map(s.update(i, e)) == entries_map(s).insert(e.name@, e.account@),
    decreases s.len(),
{
    let t = s.update(i, e);
    if i == s.len() - 1 {
        assert(t.drop_last() =~= s.drop_last());
        assert(t.last() == e);
        assert(entries_map(t) =~= entries_map(s).insert(e.name@, e.account@));
    } else {
        lemma_entries_map_update(s.drop_last(), i, e);
        assert(t.drop_last() =~= s.drop_last().update(i, e));
        assert(t.last() == s.last());
        assert(s.last().name@ != e.name@);
        assert(entries_map(t) =~= entries_map(s).insert(e.name@, e.account@));
    }
}

impl View for ModelRegistry {
    type V = Map<Seq<char>, Seq<char>>;

    closed spec fn view(&self) -> Map<Seq<char>, Seq<char>> {
        entries_map(self.entries@)
    }
}

impl ModelRegistry {
    #[verifier::type_invariant]
    spec fn wf(self) -> bool {
        unique_names(self.entries@)
    }

    /// An empty registry.
    pub fn new() -> (r: ModelRegistry)
        ensures
            r@ == Map::<Seq<char>, Seq<char>>::empty(),
    {
        ModelRegistry { entries: Vec::new() }
    }

    /// Registers `account` under `name`, replacing any earlier registration
    /// of the same name.
    pub fn upsert(&mut self, name: String, account: AccountId)
        ensures
            final(self)@ == old(self)@.insert(name@, account@),
    {
        proof {
            use_type_invariant(&*self);
        }
        let ghost s0 = self.entries@;
        let n = self.entries.len();
        let mut i: usize = 0;
        while i < n
            invariant
                n == self.entries@.len(),
                i <= n,
                unique_names(self.entries@),
                self.entries@ == s0,
                s0 == old(self).entries@,
                forall|k: int| 0 <= k < i ==> self.entries@[k].name@ != name@,
            decreases n - i,
        {
            if self.entries[i].name == name {
                let entry = ModelEntry { name, account };
                let ghost ge = entry;
                let mut tmp: Vec<ModelEntry> = Vec::new();
                std::mem::swap(&mut tmp, &mut self.entries);
                tmp.set(i, entry);
                proof {
                    lemma_entries_map_update(s0, i as int, ge);
                    assert forall|p: int, q: int|
                        0 <= p < q < tmp@.len() implies tmp@[p].name@ != tmp@[q].name@ by {
                        assert(tmp@[p].name@ == s0[p].name@);
                        assert(tmp@[q].name@ == s0[q].name@);
                    }
                }
                self.entries = tmp;
                return ;
            }
            i += 1;
        }
        let entry = ModelEntry { name, account };
        let ghost ge = entry;
        let mut tmp: Vec<ModelEntry> = Vec::new();
        std::mem::swap(&mut tmp, &mut self.entries);
        proof {
            lemma_entries_map_push(s0, ge);
            lemma_entries_map_absent(s0, ge.name@);
        }
        tmp.push(entry);
        proof {
            assert forall|p: int, q: int|
                0 <= p < q < tmp@.len() implies tmp@[p].name@ != tmp@[q].name@ by {
                if q < s0.len() {
                    assert(tmp@[p].name@ == s0[p].name@);
                    assert(tmp@[q].name@ == s0[q].name@);
                } else {
                    assert(tmp@[p].name@ == s0[p].name@);
                    assert(tmp@[q].name@ == ge.name@);
                }
            }
        }
        self.entries = tmp;
    }

    /// Every registration as a name/account pair: the pairs are exactly the
    /// registry's contents, each name once.
    pub fn pairs(&self) -> (r: Vec<(String, AccountId)>)
        ensures
            forall|i: int|
                0 <= i < r@.len() ==> self@.contains_key(#[trigger] r@[i].0@) && self@[r@[i].0@]
                    == r@[i].1@,
            forall|k: Seq<char>|
                self@.contains_key(k) ==> exists|i: int| 0 <= i < r@.len() && #[trigger] r@[i].0@
                    == k,
            forall|i: int, j: int| 0 <= i < j < r@.len() ==> r@[i].0@ != r@[j].0@,
    {
        proof {
            use_type_invariant(&*self);
        }
        let mut r: Vec<(String, AccountId)> = Vec::new();
        let n = self.entries.len();
        let mut i: usize = 0;
        while i < n
            invariant
                n == self.entries@.len(),
                i <= n,
                r@.len() == i,
                forall|k: int|
                    0 <= k < i ==> #[trigger] r@[k].0@ == self.entries@[k].name@ && r@[k].1@
                        == self.entries@[k].account@,
            decreases n - i,
        {
            r.push((self.entries[i].name.clone(), self.entries[i].account.clone()));
            i += 1;
        }
        proof {
            assert forall|k: int| 0 <= k < r@.len() implies self@.contains_key(
                #[trigger] r@[k].0@,
            ) && self@[r@[k].0@] == r@[k].1@ by {
                lemma_entries_map_index(self.entries@, k);
            }
            assert forall|k: Seq<char>| self@.contains_key(k) implies exists|j: int|
                0 <= j < r@.len() && #[trigger] r@[j].0@ == k by {
                lemma_entries_map_covered(self.entries@, k);
                let j = choose|j: int|
                    0 <= j < self.entries@.len() && self.entries@[j].name@ == k;
                assert(r@[j].0@ == k);
            }
        }
        r
    }

    /// Looks up `name` by exact, case-sensitive comparison.
    pub fn lookup<'a>(&'a self, name: &String) -> (r: Option<&'a AccountId>)
        ensures
            match r {
                Some(a) => self@.contains_key(name@) && a@ == self@[name@],
                None => !self@.contains_key(name@),
            },
    {
        proof {
            use_type_invariant(&*self);
        }
        let n = self.entries.len();
        let mut i: usize = 0;
        while i < n
            invariant
                n == self.entries@.len(),
                i <= n,
                unique_names(self.entries@),
                forall|k: int| 0 <= k < i ==> self.entries@[k].name@ != name@,
            decreases n - i,
        {
            if self.entries[i].name == *name {
                proof {
                    lemma_entries_map_index(self.entries@, i as int);
                }
                return Some(&self.entries[i].account);
            }
            i += 1;
        }
        proof {
            lemma_entries_map_absent(self.entries@, name@);
        }
        None
    }
}

} // verus!
