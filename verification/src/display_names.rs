//! The display names of apps, by app identifier, as answers gave them.

use vstd::prelude::*;

verus! {

/// The mapping that a list of pairs stands for: each identifier maps to the
/// name it is paired with, a later pair counting over an earlier one.
pub open spec fn names_of(entries: Seq<(String, String)>) -> Map<Seq<char>, Seq<char>>
    decreases entries.len(),
{
    if entries.len() == 0 {
        Map::empty()
    } else {
        names_of(entries.drop_last()).insert(entries.last().0@, entries.last().1@)
    }
}

/// No identifier occurs in two pairs.
pub open spec fn distinct_identifiers(entries: Seq<(String, String)>) -> bool {
    forall|i: int, j: int|
        0 <= i < j < entries.len() ==> (#[trigger] entries[i]).0@ != (#[trigger] entries[j]).0@
}

/// An identifier that no pair holds has no name.
proof fn lemma_names_absent(entries: Seq<(String, String)>, identifier: Seq<char>)
    requires
        forall|i: int| 0 <= i < entries.len() ==> (#[trigger] entries[i]).0@ != identifier,
    ensures
        !names_of(entries).contains_key(identifier),
    decreases entries.len(),
{
    if entries.len() > 0 {
        let front = entries.drop_last();
        assert forall|i: int| 0 <= i < front.len() implies (#[trigger] front[i]).0@
            != identifier by {
            assert(front[i] == entries[i]);
        }
        lemma_names_absent(front, identifier);
        assert(entries.last() == entries[entries.len() - 1]);
    }
}

/// Where no identifier occurs twice, each pair gives its identifier its name.
proof fn lemma_names_at(entries: Seq<(String, String)>, at: int)
    requires
        distinct_identifiers(entries),
        0 <= at < entries.len(),
    ensures
        names_of(entries).contains_key(entries[at].0@),
        names_of(entries)[entries[at].0@] == entries[at].1@,
    decreases entries.len(),
{
    let front = entries.drop_last();
    if at < entries.len() - 1 {
        assert forall|i: int, j: int| 0 <= i < j < front.len() implies (#[trigger] front[i]).0@ != (
        #[trigger] front[j]).0@ by {
            assert(front[i] == entries[i] && front[j] == entries[j]);
        }
        lemma_names_at(front, at);
        assert(front[at] == entries[at]);
        assert(entries.last() == entries[entries.len() - 1]);
    }
}

/// Where no identifier occurs twice, there are as many names as pairs.
proof fn lemma_names_count(entries: Seq<(String, String)>)
    requires
        distinct_identifiers(entries),
    ensures
        names_of(entries).dom().finite(),
        names_of(entries).dom().len() == entries.len(),
    decreases entries.len(),
{
    if entries.len() > 0 {
        let front = entries.drop_last();
        let last = entries.last();
        assert forall|i: int, j: int| 0 <= i < j < front.len() implies (#[trigger] front[i]).0@ != (
        #[trigger] front[j]).0@ by {
            assert(front[i] == entries[i] && front[j] == entries[j]);
        }
        lemma_names_count(front);
        assert forall|i: int| 0 <= i < front.len() implies (#[trigger] front[i]).0@
            != last.0@ by {
            assert(front[i] == entries[i] && last == entries[entries.len() - 1]);
        }
        lemma_names_absent(front, last.0@);
        assert(names_of(entries).dom() =~= names_of(front).dom().insert(last.0@));
    }
}

/// Giving the identifier of one pair a new name changes that name alone.
proof fn lemma_names_renamed(
    entries: Seq<(String, String)>,
    renamed: Seq<(String, String)>,
    at: int,
)
    requires
        distinct_identifiers(entries),
        0 <= at < entries.len(),
        renamed.len() == entries.len(),
        renamed[at].0@ == entries[at].0@,
        forall|i: int| 0 <= i < entries.len() && i != at ==> renamed[i] == entries[i],
    ensures
        distinct_identifiers(renamed),
        names_of(renamed) == names_of(entries).insert(entries[at].0@, renamed[at].1@),
    decreases entries.len(),
{
    let front = entries.drop_last();
    let renamed_front = renamed.drop_last();
    let last = entries.len() - 1;
    assert(entries.last() == entries[last] && renamed.last() == renamed[last]);
    assert forall|i: int, j: int| 0 <= i < j < renamed.len() implies (#[trigger] renamed[i]).0@ != (
    #[trigger] renamed[j]).0@ by {
        assert(renamed[i].0@ == entries[i].0@ && renamed[j].0@ == entries[j].0@);
    }
    if at == last {
        assert(renamed_front =~= front);
        assert(names_of(renamed) =~= names_of(entries).insert(entries[at].0@, renamed[at].1@));
    } else {
        assert forall|i: int, j: int| 0 <= i < j < front.len() implies (#[trigger] front[i]).0@ != (
        #[trigger] front[j]).0@ by {
            assert(front[i] == entries[i] && front[j] == entries[j]);
        }
        assert(front[at] == entries[at] && renamed_front[at] == renamed[at]);
        assert forall|i: int| 0 <= i < front.len() && i != at implies renamed_front[i]
            == front[i] by {
            assert(front[i] == entries[i] && renamed_front[i] == renamed[i]);
        }
        lemma_names_renamed(front, renamed_front, at);
        assert(entries[at].0@ != entries[last].0@);
        assert(names_of(renamed) =~= names_of(entries).insert(entries[at].0@, renamed[at].1@));
    }
}

/// The display names learnt so far. The cache lives as long as the relay and
/// only grows: a name is set or replaced, never removed.
#[derive(Debug)]
pub struct DisplayNameCache {
    entries: Vec<(String, String)>,
}

impl View for DisplayNameCache {
    type V = Map<Seq<char>, Seq<char>>;

    closed spec fn view(&self) -> Map<Seq<char>, Seq<char>> {
        names_of(self.entries@)
    }
}

impl DisplayNameCache {
    #[verifier::type_invariant]
    spec fn well_formed(self) -> bool {
        distinct_identifiers(self.entries@)
    }

    /// Makes an empty cache.
    pub fn new() -> (cache: Self)
        ensures
            cache@ == Map::<Seq<char>, Seq<char>>::empty(),
    {
        Self { entries: Vec::new() }
    }

    /// The number of apps whose display name is known.
    pub fn len(&self) -> (count: usize)
        ensures
            self@.dom().finite(),
            count == self@.dom().len(),
    {
        proof {
            use_type_invariant(self);
            lemma_names_count(self.entries@);
        }
        self.entries.len()
    }

    /// Looks up the display name of the app `app_identifier`.
    pub fn get(&self, app_identifier: &String) -> (name: Option<&String>)
        ensures
            match name {
                Some(found) => self@.contains_key(app_identifier@) && self@[app_identifier@]
                    == found@,
                None => !self@.contains_key(app_identifier@),
            },
    {
        proof {
            use_type_invariant(self);
        }
        let mut i: usize = 0;
        while i < self.entries.len()
            invariant
                i <= self.entries.len(),
                distinct_identifiers(self.entries@),
                forall|j: int| 0 <= j < i ==> (#[trigger] self.entries@[j]).0@ != app_identifier@,
            decreases self.entries.len() - i,
        {
            if self.entries[i].0 == *app_identifier {
                proof {
                    lemma_names_at(self.entries@, i as int);
                }
                return Some(&self.entries[i].1);
            }
            i += 1;
        }
        proof {
            lemma_names_absent(self.entries@, app_identifier@);
        }
        None
    }

    /// Sets the display name of the app `app_identifier`, in place of the one
    /// known before if there was one. No other name changes.
    pub fn insert(&mut self, app_identifier: String, display_name: String)
        ensures
            final(self)@ == old(self)@.insert(app_identifier@, display_name@),
    {
        proof {
            use_type_invariant(&*self);
        }
        let mut taken = Self::new();
        core::mem::swap(self, &mut taken);
        let mut entries = taken.entries;
        let ghost before = entries@;
        let mut i: usize = 0;
        while i < entries.len()
            invariant
                i <= entries.len(),
                entries@ == before,
                distinct_identifiers(before),
                names_of(before) == old(self)@,
                forall|j: int| 0 <= j < i ==> (#[trigger] entries@[j]).0@ != app_identifier@,
            decreases entries.len() - i,
        {
            if entries[i].0 == app_identifier {
                entries[i] = (app_identifier, display_name);
                proof {
                    lemma_names_renamed(before, entries@, i as int);
                }
                *self = Self { entries };
                return ;
            }
            i += 1;
        }
        entries.push((app_identifier, display_name));
        proof {
            assert(entries@.drop_last() =~= before);
            assert forall|a: int, b: int| 0 <= a < b < entries@.len() implies (
            #[trigger] entries@[a]).0@ != (#[trigger] entries@[b]).0@ by {
                if b < before.len() {
                    assert(entries@[a] == before[a] && entries@[b] == before[b]);
                } else {
                    assert(entries@[a] == before[a]);
                }
            }
        }
        *self = Self { entries };
    }
}

/// The cache only grows: whatever had a name before a name was set has one
/// after, and the same one unless it is the app whose name was set.
pub proof fn lemma_cache_grows(
    names: Map<Seq<char>, Seq<char>>,
    app_identifier: Seq<char>,
    display_name: Seq<char>,
    other: Seq<char>,
)
    requires
        names.contains_key(other),
    ensures
        names.insert(app_identifier, display_name).contains_key(other),
        other != app_identifier ==> names.insert(app_identifier, display_name)[other]
            == names[other],
        names.insert(app_identifier, display_name)[app_identifier] == display_name,
{
}

} // verus!
