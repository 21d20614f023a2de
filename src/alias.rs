//! Aliases: short names for an (account, role) pair, and the interface of the
//! stores that keep them.
use vstd::prelude::*;

verus! {

/// An account and a role to take on in it.
#[derive(Debug)]
pub struct AssumeIdentifier {
    pub account: String,
    pub role: String,
}

/// An alias and what it stands for.
#[derive(Debug)]
pub struct AliasEntry {
    pub alias: String,
    pub account: String,
    pub role: String,
}

/// The aliases of `s` are distinct.
pub open spec fn aliases_distinct(s: Seq<AliasEntry>) -> bool {
    forall|i: int, j: int|
        0 <= i < s.len() && 0 <= j < s.len() && i != j ==> #[trigger] s[i].alias@ != #[trigger] s[j].alias@
}

/// Where `alias` stands in `s`, if it does (the first place).
pub open spec fn alias_index(s: Seq<AliasEntry>, alias: Seq<char>) -> Option<int>
    decreases s.len(),
{
    if s.len() == 0 {
        None
    } else if s[0].alias@ == alias {
        Some(0)
    } else {
        match alias_index(s.drop_first(), alias) {
            Some(i) => Some(i + 1),
            None => None,
        }
    }
}

proof fn lemma_alias_index(s: Seq<AliasEntry>, alias: Seq<char>)
    ensures
        alias_index(s, alias) is Some ==> {
            let i = alias_index(s, alias)->Some_0;
            0 <= i < s.len() && s[i].alias@ == alias && forall|j: int| 0 <= j < i ==> #[trigger] s[j].alias@ != alias
        },
        alias_index(s, alias) is None ==> forall|j: int| 0 <= j < s.len() ==> #[trigger] s[j].alias@ != alias,
    decreases s.len(),
{
    if s.len() > 0 {
        lemma_alias_index(s.drop_first(), alias);
        assert forall|j: int| 1 <= j < s.len() implies #[trigger] s[j].alias@ == s.drop_first()[j - 1].alias@ by {}
    }
}

/// An in-memory table of aliases, at most one entry per alias.
#[derive(Debug)]
pub struct AliasTable {
    pub entries: Vec<AliasEntry>,
}

impl AliasTable {
    pub open spec fn wf(&self) -> bool {
        aliases_distinct(self.entries@)
    }

    /// An empty table.
    pub fn new() -> (r: AliasTable)
        ensures
            r.wf(),
            r.entries@.len() == 0,
    {
        AliasTable { entries: Vec::new() }
    }

    fn find(&self, alias: &str) -> (r: Option<usize>)
        ensures
            r is Some <==> alias_index(self.entries@, alias@) is Some,
            r is Some ==> r->Some_0 < self.entries@.len() && r->Some_0 as int == alias_index(self.entries@, alias@)->Some_0,
    {
        proof {
            lemma_alias_index(self.entries@, alias@);
        }
        let target = String::from_str(alias);
        let mut i: usize = 0;
        while i < self.entries.len()
            invariant
                i <= self.entries@.len(),
                target@ == alias@,
                forall|j: int| 0 <= j < i ==> #[trigger] self.entries@[j].alias@ != alias@,
            decreases self.entries@.len() - i,
        {
            if self.entries[i].alias == target {
                proof {
                    lemma_alias_index(self.entries@, alias@);
                    if alias_index(self.entries@, alias@) is Some {
                        let k = alias_index(self.entries@, alias@)->Some_0;
                        if k < i {
                            assert(self.entries@[k].alias@ != alias@);
                        }
                        if k > i {
                            assert(self.entries@[i as int].alias@ != alias@);
                        }
                    } else {
                        assert(self.entries@[i as int].alias@ != alias@);
                    }
                }
                return Some(i);
            }
            i = i + 1;
        }
        None
    }

    /// What `alias` stands for, if it is set.
    pub fn get_alias(&self, alias: &str) -> (r: Option<AssumeIdentifier>)
        ensures
            r is Some <==> alias_index(self.entries@, alias@) is Some,
            r is Some ==> {
                let e = self.entries@[alias_index(self.entries@, alias@)->Some_0];
                r->Some_0.account == e.account && r->Some_0.role == e.role
            },
    {
        match self.find(alias) {
            Some(i) => Some(AssumeIdentifier {
                account: self.entries[i].account.clone(),
                role: self.entries[i].role.clone(),
            }),
            None => None,
        }
    }

    /// Sets `alias` to `account` and `role`, replacing what it stood for.
    pub fn set_alias(&mut self, alias: &str, account: &str, role: &str)
        requires
            old(self).wf(),
        ensures
            final(self).wf(),
            alias_index(final(self).entries@, alias@) is Some,
            ({
                let e = final(self).entries@[alias_index(final(self).entries@, alias@)->Some_0];
                e.account@ == account@ && e.role@ == role@
            }),
            forall|a: Seq<char>| a != alias@ ==> match #[trigger] alias_index(old(self).entries@, a) {
                Some(i) => alias_index(final(self).entries@, a) is Some
                    && final(self).entries@[alias_index(final(self).entries@, a)->Some_0] == old(self).entries@[i],
                None => alias_index(final(self).entries@, a) is None,
            },
    {
        let entry = AliasEntry {
            alias: String::from_str(alias),
            account: String::from_str(account),
            role: String::from_str(role),
        };
        let ghost before = self.entries@;
        let ghost pos: int;
        match self.find(alias) {
            Some(i) => {
                self.entries.set(i, entry);
                proof { pos = i as int; }
            }
            None => {
                self.entries.push(entry);
                proof { pos = before.len() as int; }
            }
        }
        let ghost after = self.entries@;
        proof {
            assert(after[pos].alias@ == alias@);
            lemma_alias_index(before, alias@);
            lemma_alias_index(after, alias@);
            assert forall|a: int, b: int|
                0 <= a < after.len() && 0 <= b < after.len() && a != b implies
                #[trigger] after[a].alias@ != #[trigger] after[b].alias@ by {
                if a < before.len() && b < before.len() {
                    if after[a].alias@ == alias@ || after[b].alias@ == alias@ {
                    } else {
                        assert(before[a].alias@ != before[b].alias@);
                    }
                }
            }
            let k = alias_index(after, alias@)->Some_0;
            if k != pos {
                assert(after[k].alias@ != after[pos].alias@);
            }
            assert forall|x: Seq<char>| x != alias@ implies match #[trigger] alias_index(before, x) {
                Some(i) => alias_index(after, x) is Some && after[alias_index(after, x)->Some_0] == before[i],
                None => alias_index(after, x) is None,
            } by {
                lemma_alias_index(before, x);
                lemma_alias_index(after, x);
                match alias_index(before, x) {
                    Some(i) => {
                        assert(after[i].alias@ == x);
                        let k = alias_index(after, x)->Some_0;
                        if k != i {
                            assert(after[k].alias@ == after[i].alias@);
                        }
                    }
                    None => {
                        if alias_index(after, x) is Some {
                            let k = alias_index(after, x)->Some_0;
                            assert(after[k].alias@ == x);
                            if k < before.len() {
                                assert(before[k].alias@ == x);
                            }
                        }
                    }
                }
            }
        }
    }

    /// Removes `alias`, if it is set.
    pub fn unset_alias(&mut self, alias: &str)
        requires
            old(self).wf(),
        ensures
            final(self).wf(),
            alias_index(final(self).entries@, alias@) is None,
            forall|i: int| 0 <= i < final(self).entries@.len() ==> old(self).entries@.contains(
                #[trigger] final(self).entries@[i],
            ),
            forall|i: int| 0 <= i < old(self).entries@.len() && old(self).entries@[i].alias@ != alias@
                ==> final(self).entries@.contains(#[trigger] old(self).entries@[i]),
    {
        let ghost before = self.entries@;
        match self.find(alias) {
            Some(i) => {
                self.entries.remove(i);
                proof {
                    lemma_alias_index(before, alias@);
                    let after = self.entries@;
                    assert(after =~= before.remove(i as int));
                    assert forall|a: int, b: int|
                        0 <= a < after.len() && 0 <= b < after.len() && a != b implies
                        #[trigger] after[a].alias@ != #[trigger] after[b].alias@ by {
                        let a0 = if a < i { a } else { a + 1 };
                        let b0 = if b < i { b } else { b + 1 };
                        assert(before[a0].alias@ != before[b0].alias@);
                    }
                    assert forall|j: int| 0 <= j < after.len() implies before.contains(#[trigger] after[j]) by {
                        if j < i {
                            assert(after[j] == before[j]);
                        } else {
                            assert(after[j] == before[j + 1]);
                        }
                    }
                    assert forall|j: int| 0 <= j < before.len() && before[j].alias@ != alias@ implies
                        after.contains(#[trigger] before[j]) by {
                        if j < i {
                            assert(after[j] == before[j]);
                        } else {
                            assert(before[j].alias@ != before[i as int].alias@);
                            assert(j != i);
                            assert(after[j - 1] == before[j]);
                        }
                    }
                    lemma_alias_index(after, alias@);
                    if alias_index(after, alias@) is Some {
                        let k = alias_index(after, alias@)->Some_0;
                        let k0 = if k < i { k } else { k + 1 };
                        assert(before[k0].alias@ == alias@);
                        assert(before[k0].alias@ != before[i as int].alias@);
                    }
                }
            }
            None => {
                proof {
                    lemma_alias_index(before, alias@);
                    assert forall|j: int| 0 <= j < before.len() implies before.contains(#[trigger] before[j]) by {}
                }
            }
        }
    }

    /// Every alias with its account and role, in table order.
    pub fn list_aliases(&self) -> (r: Vec<(String, String, String)>)
        ensures
            r@.len() == self.entries@.len(),
            forall|i: int| 0 <= i < r@.len() ==> (#[trigger] r@[i]) == (self.entries@[i].alias,
                self.entries@[i].account, self.entries@[i].role),
    {
        let mut r: Vec<(String, String, String)> = Vec::new();
        let mut i: usize = 0;
        while i < self.entries.len()
            invariant
                i <= self.entries@.len(),
                r@.len() == i,
                forall|j: int| 0 <= j < i ==> (#[trigger] r@[j]) == (self.entries@[j].alias,
                    self.entries@[j].account, self.entries@[j].role),
            decreases self.entries@.len() - i,
        {
            let e = &self.entries[i];
            r.push((e.alias.clone(), e.account.clone(), e.role.clone()));
            i = i + 1;
        }
        r
    }
}

/// A store of aliases. Loading and changes may fail in the store's own way.
pub trait ProvideAliases {
    type Error;

    /// What `alias` stands for, if it is set.
    fn get_alias(&self, alias: &str) -> Result<Option<AssumeIdentifier>, Self::Error>;

    /// Every alias with its account and role.
    fn list_aliases(&self) -> Result<Vec<(String, String, String)>, Self::Error>;

    /// Reads the aliases from where the store keeps them.
    fn load_aliases(&mut self) -> Result<(), Self::Error>;

    /// Sets `alias` and keeps the change.
    fn set_alias(&mut self, alias: &str, account: &str, role: &str) -> Result<(), Self::Error>;

    /// Removes `alias` and keeps the change.
    fn unset_alias(&mut self, alias: &str) -> Result<(), Self::Error>;
}

} // verus!
