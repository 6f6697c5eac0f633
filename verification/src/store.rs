//! The insertion-ordered keyed store that passes values between
//! scheduled units.

use vstd::prelude::*;

use crate::data::Data;

verus! {

/// A store key: a small enumerated slot identifier.
pub type Id = usize;

/// Whether some entry of `entries` carries the key `id`.
pub open spec fn contains_key(entries: Seq<(Id, Data)>, id: Id) -> bool {
    exists|j: int| 0 <= j < entries.len() && entries[j].0 == id
}

/// Whether `i` indexes the first entry of `entries` carrying the key `id`.
pub open spec fn is_first_match(entries: Seq<(Id, Data)>, id: Id, i: int) -> bool {
    &&& 0 <= i < entries.len()
    &&& entries[i].0 == id
    &&& forall|j: int| 0 <= j < i ==> entries[j].0 != id
}

/// The first entry of `entries` carrying the key `id`, if any.
pub open spec fn lookup(entries: Seq<(Id, Data)>, id: Id) -> Option<(Id, Data)>
    decreases entries.len(),
{
    if entries.len() == 0 {
        None
    } else if entries[0].0 == id {
        Some(entries[0])
    } else {
        lookup(entries.drop_first(), id)
    }
}

/// `lookup` yields the entry at the first matching index.
pub proof fn lemma_lookup_at(entries: Seq<(Id, Data)>, id: Id, i: int)
    requires
        is_first_match(entries, id, i),
    ensures
        lookup(entries, id) == Some(entries[i]),
    decreases entries.len(),
{
    if i == 0 {
    } else {
        let rest = entries.drop_first();
        assert(forall|j: int| 0 <= j < rest.len() ==> rest[j] == entries[j + 1]);
        lemma_lookup_at(rest, id, i - 1);
    }
}

/// `lookup` yields nothing when no entry carries the key.
pub proof fn lemma_lookup_none(entries: Seq<(Id, Data)>, id: Id)
    requires
        forall|j: int| 0 <= j < entries.len() ==> entries[j].0 != id,
    ensures
        lookup(entries, id) is None,
    decreases entries.len(),
{
    if entries.len() > 0 {
        let rest = entries.drop_first();
        assert(forall|j: int| 0 <= j < rest.len() ==> rest[j] == entries[j + 1]);
        lemma_lookup_none(rest, id);
    }
}

/// `entries` with its first entry carrying `id` taken out; `entries`
/// itself when no entry carries it.
pub open spec fn remove_key(entries: Seq<(Id, Data)>, id: Id) -> Seq<(Id, Data)>
    decreases entries.len(),
{
    if entries.len() == 0 {
        entries
    } else if entries[0].0 == id {
        entries.drop_first()
    } else {
        seq![entries[0]] + remove_key(entries.drop_first(), id)
    }
}

/// `remove_key` takes out exactly the entry at the first matching index.
pub proof fn lemma_remove_key_at(entries: Seq<(Id, Data)>, id: Id, i: int)
    requires
        is_first_match(entries, id, i),
    ensures
        remove_key(entries, id) == entries.remove(i),
    decreases entries.len(),
{
    if i == 0 {
        assert(entries.drop_first() =~= entries.remove(0));
    } else {
        let rest = entries.drop_first();
        assert(forall|j: int| 0 <= j < rest.len() ==> rest[j] == entries[j + 1]);
        lemma_remove_key_at(rest, id, i - 1);
        assert(seq![entries[0]] + rest.remove(i - 1) =~= entries.remove(i));
    }
}

/// `remove_key` leaves `entries` unchanged when no entry carries the key.
pub proof fn lemma_remove_key_absent(entries: Seq<(Id, Data)>, id: Id)
    requires
        forall|j: int| 0 <= j < entries.len() ==> entries[j].0 != id,
    ensures
        remove_key(entries, id) == entries,
    decreases entries.len(),
{
    if entries.len() > 0 {
        let rest = entries.drop_first();
        assert(forall|j: int| 0 <= j < rest.len() ==> rest[j] == entries[j + 1]);
        lemma_remove_key_absent(rest, id);
        assert(seq![entries[0]] + rest =~= entries);
    }
}

/// `entries` with the value of its first entry carrying `id` replaced by
/// `data`, in place; `entries` itself when no entry carries the key.
pub open spec fn replace_key(entries: Seq<(Id, Data)>, id: Id, data: Data) -> Seq<(Id, Data)>
    decreases entries.len(),
{
    if entries.len() == 0 {
        entries
    } else if entries[0].0 == id {
        entries.update(0, (id, data))
    } else {
        seq![entries[0]] + replace_key(entries.drop_first(), id, data)
    }
}

/// `replace_key` updates exactly the entry at the first matching index.
pub proof fn lemma_replace_key_at(entries: Seq<(Id, Data)>, id: Id, i: int, data: Data)
    requires
        is_first_match(entries, id, i),
    ensures
        replace_key(entries, id, data) == entries.update(i, (id, data)),
    decreases entries.len(),
{
    if i == 0 {
    } else {
        let rest = entries.drop_first();
        assert(forall|j: int| 0 <= j < rest.len() ==> rest[j] == entries[j + 1]);
        lemma_replace_key_at(rest, id, i - 1, data);
        assert(seq![entries[0]] + rest.update(i - 1, (id, data)) =~= entries.update(i, (id, data)));
    }
}

/// `replace_key` leaves `entries` unchanged when no entry carries the key.
pub proof fn lemma_replace_key_absent(entries: Seq<(Id, Data)>, id: Id, data: Data)
    requires
        forall|j: int| 0 <= j < entries.len() ==> entries[j].0 != id,
    ensures
        replace_key(entries, id, data) == entries,
    decreases entries.len(),
{
    if entries.len() > 0 {
        let rest = entries.drop_first();
        assert(forall|j: int| 0 <= j < rest.len() ==> rest[j] == entries[j + 1]);
        lemma_replace_key_absent(rest, id, data);
        assert(seq![entries[0]] + rest =~= entries);
    }
}

/// The keyed scratch store: an insertion-ordered sequence of
/// (key, value) entries with lookup, removal and in-place replacement
/// by key.  Lookups scan linearly and act on the first matching entry.
pub struct Store(pub Vec<(Id, Data)>);

impl View for Store {
    type V = Seq<(Id, Data)>;

    open spec fn view(&self) -> Seq<(Id, Data)> {
        self.0@
    }
}

impl Store {
    /// Makes an empty store.
    pub fn new() -> (r: Self)
        ensures
            r@ =~= Seq::<(Id, Data)>::empty(),
    {
        Self(Vec::new())
    }

    /// Appends a new entry; keys are not checked for uniqueness.
    pub fn push(&mut self, id: Id, data: Data)
        ensures
            final(self)@ == old(self)@.push((id, data)),
    {
        self.0.push((id, data));
    }

    /// The index of the first entry carrying `id`, or nothing if absent.
    pub fn position(&self, id: Id) -> (r: Option<usize>)
        ensures
            match r {
                Some(i) => is_first_match(self@, id, i as int),
                None => forall|j: int| 0 <= j < self@.len() ==> self@[j].0 != id,
            },
    {
        let n = self.0.len();
        let mut i: usize = 0;
        while i < n
            invariant
                i <= n,
                n == self@.len(),
                forall|j: int| 0 <= j < i ==> self@[j].0 != id,
            decreases n - i,
        {
            if self.0[i].0 == id {
                return Some(i);
            }
            i = i + 1;
        }
        None
    }

    /// Inserts an entry at the index `idx`, shifting later entries back.
    pub fn insert(&mut self, idx: usize, new: (Id, Data))
        requires
            idx <= old(self)@.len(),
        ensures
            final(self)@ == old(self)@.insert(idx as int, new),
    {
        self.0.insert(idx, new);
    }

    /// The first entry carrying `id`, left in place; nothing if absent.
    pub fn read(&self, id: Id) -> (r: Option<&(Id, Data)>)
        ensures
            match r {
                Some(e) => lookup(self@, id) == Some(*e),
                None => lookup(self@, id) is None,
            },
    {
        match self.position(id) {
            Some(i) => {
                proof {
                    lemma_lookup_at(self@, id, i as int);
                }
                Some(&self.0[i])
            },
            None => {
                proof {
                    lemma_lookup_none(self@, id);
                }
                None
            },
        }
    }

    /// Removes and returns the first entry carrying `id`; nothing if
    /// absent, leaving the store unchanged.
    pub fn rm(&mut self, id: Id) -> (r: Option<(Id, Data)>)
        ensures
            r == lookup(old(self)@, id),
            final(self)@ == remove_key(old(self)@, id),
    {
        match self.position(id) {
            Some(idx) => {
                proof {
                    lemma_lookup_at(self@, id, idx as int);
                    lemma_remove_key_at(self@, id, idx as int);
                }
                Some(self.0.remove(idx))
            },
            None => {
                proof {
                    lemma_lookup_none(self@, id);
                    lemma_remove_key_absent(self@, id);
                }
                None
            },
        }
    }

    /// Replaces the first entry carrying `id` in place, keeping its
    /// position among the other entries; does nothing if absent.
    pub fn edit(&mut self, id: Id, data: Data)
        ensures
            final(self)@ == replace_key(old(self)@, id, data),
    {
        match self.position(id) {
            Some(idx) => {
                self.0.remove(idx);
                self.0.insert(idx, (id, data));
                proof {
                    assert(self@ =~= old(self)@.update(idx as int, (id, data)));
                    lemma_replace_key_at(old(self)@, id, idx as int, data);
                }
            },
            None => {
                proof {
                    lemma_replace_key_absent(self@, id, data);
                }
            },
        }
    }
}

/// Reading a freshly pushed key finds the pushed value: with `id` absent
/// from `entries`, a push of `(id, data)` makes it the first match.
pub proof fn lemma_push_then_lookup(entries: Seq<(Id, Data)>, id: Id, data: Data)
    requires
        !contains_key(entries, id),
    ensures
        lookup(entries.push((id, data)), id) == Some((id, data)),
{
    let pushed = entries.push((id, data));
    assert(forall|j: int| 0 <= j < entries.len() ==> pushed[j] == entries[j]);
    assert(is_first_match(pushed, id, entries.len() as int));
    lemma_lookup_at(pushed, id, entries.len() as int);
}

/// After removing a key that occurred only once, reading it finds
/// nothing.
pub proof fn lemma_remove_then_lookup(entries: Seq<(Id, Data)>, id: Id, i: int)
    requires
        is_first_match(entries, id, i),
        forall|j: int| 0 <= j < entries.len() && entries[j].0 == id ==> j == i,
    ensures
        lookup(entries.remove(i), id) is None,
{
    let removed = entries.remove(i);
    assert(forall|j: int| 0 <= j < removed.len() ==> removed[j].0 != id) by {
        assert(forall|j: int| 0 <= j < i ==> removed[j] == entries[j]);
        assert(forall|j: int| i <= j < removed.len() ==> removed[j] == entries[j + 1]);
    }
    lemma_lookup_none(removed, id);
}

/// Replacing a key's entry in place makes reads find the new value and
/// moves no other entry: every other index keeps its old entry.
pub proof fn lemma_edit_then_lookup(entries: Seq<(Id, Data)>, id: Id, i: int, data: Data)
    requires
        is_first_match(entries, id, i),
    ensures
        lookup(entries.update(i, (id, data)), id) == Some((id, data)),
        forall|j: int|
            0 <= j < entries.len() && j != i ==> entries.update(i, (id, data))[j] == entries[j],
{
    let updated = entries.update(i, (id, data));
    assert(is_first_match(updated, id, i));
    lemma_lookup_at(updated, id, i);
}

} // verus!
