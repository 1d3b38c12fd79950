//! A map from stat names to JSON values that keeps the order in which the
//! names first came.

use vstd::prelude::*;

use crate::json::{
    distinct_keys, has_key, lemma_lookup_at, lemma_lookup_first, lemma_lookup_none,
    lemma_lookup_push, lookup, members_view, Json, JsonView, Members,
};
use crate::views::option_view;

verus! {

/// Named statistics. No name occurs twice; the names keep the order in which
/// they were first inserted.
#[derive(Debug, PartialEq, Eq)]
pub struct StatMap {
    entries: Vec<(String, Json)>,
}

/// The entries after `key` was set to `value`: an entry of that name keeps
/// its place and takes the value, a new name goes to the end.
pub open spec fn put(entries: Members, key: Seq<char>, value: JsonView) -> Members {
    if has_key(entries, key) {
        entries.update(choose|i: int| 0 <= i < entries.len() && entries[i].0 == key, (key, value))
    } else {
        entries.push((key, value))
    }
}

/// The entries that come of setting each member in turn, first to last.
pub open spec fn collect(members: Members) -> Members
    decreases members.len(),
{
    if members.len() == 0 {
        Seq::empty()
    } else {
        put(collect(members.drop_last()), members.last().0, members.last().1)
    }
}

/// Setting a name keeps the names distinct.
pub proof fn lemma_put_distinct(entries: Members, key: Seq<char>, value: JsonView)
    requires
        distinct_keys(entries),
    ensures
        distinct_keys(put(entries, key, value)),
{
    let after = put(entries, key, value);
    if has_key(entries, key) {
        let at = choose|i: int| 0 <= i < entries.len() && entries[i].0 == key;
        assert forall|i: int, j: int|
            0 <= i < after.len() && 0 <= j < after.len() && i != j implies #[trigger] after[i].0
            != #[trigger] after[j].0 by {
            assert(after[i].0 == entries[i].0);
            assert(after[j].0 == entries[j].0);
        }
    } else {
        assert forall|i: int, j: int|
            0 <= i < after.len() && 0 <= j < after.len() && i != j implies #[trigger] after[i].0
            != #[trigger] after[j].0 by {
            if i < entries.len() {
                assert(after[i].0 == entries[i].0);
            }
            if j < entries.len() {
                assert(after[j].0 == entries[j].0);
            }
        }
    }
}

/// Setting a name makes a lookup of that name find the new value, and
/// leaves the lookup of every other name as it was.
pub proof fn lemma_put_lookup(entries: Members, key: Seq<char>, value: JsonView, other: Seq<char>)
    requires
        distinct_keys(entries),
    ensures
        lookup(put(entries, key, value), key) == Some(value),
        other != key ==> lookup(put(entries, key, value), other) == lookup(entries, other),
{
    let after = put(entries, key, value);
    if has_key(entries, key) {
        let at = choose|i: int| 0 <= i < entries.len() && entries[i].0 == key;
        assert forall|j: int| 0 <= j < at implies (#[trigger] after[j]).0 != key by {
            assert(after[j].0 == entries[j].0);
            assert(entries[j].0 != entries[at].0);
        }
        lemma_lookup_at(after, key, at);
        if other != key {
            lemma_lookup_first(entries, other);
            match lookup(entries, other) {
                Some(found) => {
                    let i = choose|i: int|
                        0 <= i < entries.len() && #[trigger] entries[i] == (other, found)
                            && forall|j: int| 0 <= j < i ==> (#[trigger] entries[j]).0 != other;
                    assert(after[i] == entries[i]);
                    assert forall|j: int| 0 <= j < i implies (#[trigger] after[j]).0 != other by {
                        assert(after[j].0 == entries[j].0);
                    }
                    lemma_lookup_at(after, other, i);
                },
                None => {
                    assert(!has_key(after, other)) by {
                        if has_key(after, other) {
                            let i = choose|i: int|
                                0 <= i < after.len() && #[trigger] after[i].0 == other;
                            assert(entries[i].0 == other);
                        }
                    }
                    lemma_lookup_none(after, other);
                },
            }
        }
    } else {
        lemma_lookup_push(entries, (key, value), key);
        lemma_lookup_push(entries, (key, value), other);
        lemma_lookup_none(entries, key);
    }
}

/// What is collected has distinct names.
pub proof fn lemma_collect_distinct(members: Members)
    ensures
        distinct_keys(collect(members)),
    decreases members.len(),
{
    if members.len() > 0 {
        lemma_collect_distinct(members.drop_last());
        lemma_put_distinct(collect(members.drop_last()), members.last().0, members.last().1);
    }
}

/// Members with distinct names are collected as they stand.
pub proof fn lemma_collect_of_distinct(members: Members)
    requires
        distinct_keys(members),
    ensures
        collect(members) == members,
    decreases members.len(),
{
    if members.len() > 0 {
        let front = members.drop_last();
        assert forall|i: int, j: int|
            0 <= i < front.len() && 0 <= j < front.len() && i != j implies #[trigger] front[i].0
            != #[trigger] front[j].0 by {
            assert(front[i].0 == members[i].0);
            assert(front[j].0 == members[j].0);
        }
        lemma_collect_of_distinct(front);
        assert(!has_key(front, members.last().0)) by {
            if has_key(front, members.last().0) {
                let i = choose|i: int| 0 <= i < front.len() && #[trigger] front[i].0 == members.last().0;
                assert(front[i].0 == members[i].0);
                assert(members[members.len() - 1].0 == members.last().0);
            }
        }
        assert(front.push(members.last()) =~= members);
    } else {
        assert(members =~= Seq::empty());
    }
}

impl View for StatMap {
    type V = Members;

    closed spec fn view(&self) -> Members {
        members_view(self.entries@)
    }
}

impl StatMap {
    #[verifier::type_invariant]
    spec fn names_distinct(&self) -> bool {
        distinct_keys(members_view(self.entries@))
    }

    /// A map without entries.
    pub fn new() -> (r: StatMap)
        ensures
            r@ == Seq::<(Seq<char>, JsonView)>::empty(),
    {
        let r = StatMap { entries: Vec::new() };
        assert(r@ =~= Seq::empty());
        r
    }

    /// The number of entries.
    pub fn len(&self) -> (n: usize)
        ensures
            n == self@.len(),
    {
        self.entries.len()
    }

    /// Whether there is no entry.
    pub fn is_empty(&self) -> (r: bool)
        ensures
            r == (self@.len() == 0),
    {
        self.entries.len() == 0
    }

    /// The entries in order, each a name and its value.
    pub fn entries(&self) -> (r: &Vec<(String, Json)>)
        ensures
            members_view(r@) == self@,
            distinct_keys(self@),
    {
        proof {
            use_type_invariant(self);
        }
        &self.entries
    }

    /// The object that stands for the map: a member for each entry, in
    /// order.
    pub fn to_json(&self) -> (j: Json)
        ensures
            j@ == JsonView::Object(self@),
    {
        let members = crate::json::clone_members(&self.entries);
        proof {
            crate::json::lemma_object_view(members);
        }
        Json::Object(members)
    }

    /// Where the entry named `key` stands, if there is one.
    fn position(&self, key: &String) -> (r: Option<usize>)
        ensures
            r matches Some(i) ==> i < self@.len() && self@[i as int].0 == key@,
            r is None ==> !has_key(self@, key@),
    {
        let mut i: usize = 0;
        while i < self.entries.len()
            invariant
                i <= self.entries.len(),
                forall|k: int| 0 <= k < i ==> (#[trigger] self@[k]).0 != key@,
            decreases self.entries.len() - i,
        {
            if self.entries[i].0 == *key {
                return Some(i);
            }
            i += 1;
        }
        None
    }

    /// The value of the entry named `key`, if there is one.
    pub fn get(&self, key: &String) -> (r: Option<&Json>)
        ensures
            option_view(r) == lookup(self@, key@),
    {
        crate::json::find(&self.entries, key.as_str())
    }

    /// Sets `key` to `value`.
    pub fn insert(&mut self, key: String, value: Json)
        ensures
            final(self)@ == put(old(self)@, key@, value@),
    {
        proof {
            use_type_invariant(&*self);
            lemma_put_distinct(self@, key@, value@);
        }
        let ghost before = self@;
        let found = self.position(&key);
        let mut entries: Vec<(String, Json)> = Vec::new();
        assert(members_view(entries@) =~= Seq::empty());
        core::mem::swap(&mut self.entries, &mut entries);
        match found {
            Some(i) => {
                proof {
                    let chosen = choose|k: int| 0 <= k < before.len() && before[k].0 == key@;
                    assert(before[i as int].0 == key@);
                    assert(chosen == i) by {
                        if chosen != i {
                            assert(before[chosen].0 != before[i as int].0);
                        }
                    }
                    assert(members_view(entries@.update(i as int, (key, value))) =~= put(
                        before,
                        key@,
                        value@,
                    ));
                }
                entries.set(i, (key, value));
            },
            None => {
                proof {
                    assert(members_view(entries@.push((key, value))) =~= put(before, key@, value@));
                }
                entries.push((key, value));
            },
        }
        core::mem::swap(&mut self.entries, &mut entries);
    }

    /// The map that comes of setting each member in turn, first to last.
    pub fn from_members(members: &Vec<(String, Json)>) -> (r: StatMap)
        ensures
            r@ == collect(members_view(members@)),
    {
        let mut map = StatMap::new();
        let mut i: usize = 0;
        assert(members_view(members@).take(0) =~= Seq::empty());
        while i < members.len()
            invariant
                i <= members.len(),
                map@ == collect(members_view(members@).take(i as int)),
            decreases members.len() - i,
        {
            proof {
                let all = members_view(members@);
                assert(all.take(i + 1).drop_last() =~= all.take(i as int));
                assert(all.take(i + 1).last() == all[i as int]);
            }
            map.insert(members[i].0.clone(), members[i].1.clone());
            i += 1;
        }
        assert(members_view(members@).take(i as int) =~= members_view(members@));
        map
    }
}

impl Clone for StatMap {
    fn clone(&self) -> (r: Self)
        ensures
            r@ == self@,
    {
        proof {
            use_type_invariant(self);
        }
        let copy = crate::json::clone_members(&self.entries);
        StatMap { entries: copy }
    }
}

impl Default for StatMap {
    fn default() -> (r: Self)
        ensures
            r@ == Seq::<(Seq<char>, JsonView)>::empty(),
    {
        StatMap::new()
    }
}

} // verus!
