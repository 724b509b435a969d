use vstd::prelude::*;

verus! {

/// True when there is an entry with identifier `id`.
pub open spec fn has_key<V>(s: Seq<(u128, V)>, id: u128) -> bool {
    exists|i: int| 0 <= i < s.len() && s[i].0 == id
}

/// The position of the entry with identifier `id`.
pub open spec fn key_pos<V>(s: Seq<(u128, V)>, id: u128) -> int
    recommends
        has_key(s, id),
{
    choose|i: int| 0 <= i < s.len() && s[i].0 == id
}

/// No identifier occurs twice.
pub open spec fn keys_unique<V>(s: Seq<(u128, V)>) -> bool {
    forall|i: int, j: int| 0 <= i < s.len() && 0 <= j < s.len() && i != j ==> s[i].0 != s[j].0
}

/// The entries after `id` has been bound to `v`: an entry with that
/// identifier is replaced in place, otherwise the new entry comes last.
pub open spec fn inserted<V>(s: Seq<(u128, V)>, id: u128, v: V) -> Seq<(u128, V)> {
    if has_key(s, id) {
        s.update(key_pos(s, id), (id, v))
    } else {
        s.push((id, v))
    }
}

/// The entries after the one with identifier `id`, if any, has been dropped.
pub open spec fn removed<V>(s: Seq<(u128, V)>, id: u128) -> Seq<(u128, V)> {
    if has_key(s, id) {
        s.remove(key_pos(s, id))
    } else {
        s
    }
}

/// In a sequence with unique identifiers, the position of an identifier is
/// the one index that holds it.
pub proof fn lemma_key_pos_unique<V>(s: Seq<(u128, V)>, i: int)
    requires
        keys_unique(s),
        0 <= i < s.len(),
    ensures
        has_key(s, s[i].0),
        key_pos(s, s[i].0) == i,
{
}

/// The mapping that a sequence of entries stands for.
pub open spec fn map_of<V>(s: Seq<(u128, V)>) -> Map<u128, V> {
    Map::new(|k: u128| has_key(s, k), |k: u128| s[key_pos(s, k)].1)
}

/// Binding an identifier in the entries binds it in the mapping they stand
/// for, and keeps identifiers unique.
pub proof fn lemma_inserted_map<V>(s: Seq<(u128, V)>, id: u128, v: V)
    requires
        keys_unique(s),
    ensures
        keys_unique(inserted(s, id, v)),
        map_of(inserted(s, id, v)) == map_of(s).insert(id, v),
{
    let t = inserted(s, id, v);
    if has_key(s, id) {
        let p = key_pos(s, id);
        assert forall|k: u128| has_key(t, k) implies t[key_pos(t, k)].1 == map_of(s).insert(
            id,
            v,
        )[k] by {
            let i = key_pos(t, k);
            if k != id {
                assert(s[i].0 == k);
                lemma_key_pos_unique(s, i);
            }
        }
        assert forall|k: u128| has_key(s, k) implies has_key(t, k) by {
            let i = key_pos(s, k);
            assert(t[i].0 == k);
        }
    } else {
        assert forall|k: u128| has_key(t, k) implies t[key_pos(t, k)].1 == map_of(s).insert(
            id,
            v,
        )[k] by {
            let i = key_pos(t, k);
            if k != id {
                assert(s[i].0 == k);
                lemma_key_pos_unique(s, i);
            }
        }
        assert forall|k: u128| has_key(s, k) implies has_key(t, k) by {
            let i = key_pos(s, k);
            assert(t[i].0 == k);
        }
        assert(t[s.len() as int].0 == id);
    }
    assert(map_of(t) =~= map_of(s).insert(id, v));
}

/// Dropping an identifier from the entries drops it from the mapping they
/// stand for, and keeps identifiers unique.
pub proof fn lemma_removed_map<V>(s: Seq<(u128, V)>, id: u128)
    requires
        keys_unique(s),
    ensures
        keys_unique(removed(s, id)),
        map_of(removed(s, id)) == map_of(s).remove(id),
{
    let t = removed(s, id);
    if has_key(s, id) {
        let p = key_pos(s, id);
        assert forall|i: int, j: int| 0 <= i < t.len() && 0 <= j < t.len() && i != j implies t[i].0
            != t[j].0 by {
            let a = if i < p { i } else { i + 1 };
            let b = if j < p { j } else { j + 1 };
            assert(t[i] == s[a]);
            assert(t[j] == s[b]);
        }
        assert forall|k: u128| has_key(t, k) implies k != id && has_key(s, k) && t[key_pos(t, k)].1
            == s[key_pos(s, k)].1 by {
            let i = key_pos(t, k);
            let a = if i < p { i } else { i + 1 };
            assert(t[i] == s[a]);
            lemma_key_pos_unique(s, a);
        }
        assert forall|k: u128| has_key(s, k) && k != id implies has_key(t, k) by {
            let a = key_pos(s, k);
            let i = if a < p { a } else { a - 1 };
            assert(t[i] == s[a]);
        }
    }
    assert(map_of(t) =~= map_of(s).remove(id));
}

/// The views of a sequence of identifier and record pairs.
pub open spec fn entries_view<T: View>(s: Seq<(u128, T)>) -> Seq<(u128, T::V)> {
    s.map_values(|e: (u128, T)| (e.0, e.1@))
}

/// A mapping from 128-bit identifiers to records, each identifier bound at
/// most once. Entries keep the order in which their identifiers were first
/// bound.
pub struct Store<T> {
    entries: Vec<(u128, T)>,
}

impl<T: View> View for Store<T> {
    type V = Seq<(u128, T::V)>;

    closed spec fn view(&self) -> Seq<(u128, T::V)> {
        entries_view(self.entries@)
    }
}

impl<T: View> Store<T> {
    /// The store's invariant: identifiers are unique.
    pub open spec fn wf(&self) -> bool {
        keys_unique(self@)
    }

    /// An empty store.
    pub fn new() -> (r: Self)
        ensures
            r.wf(),
            r@ == Seq::<(u128, T::V)>::empty(),
    {
        let r = Store { entries: Vec::new() };
        assert(r@ =~= Seq::<(u128, T::V)>::empty());
        r
    }

    /// The store holding `entries`, in their order, if no identifier
    /// occurs twice among them.
    pub fn from_entries(entries: Vec<(u128, T)>) -> (r: Option<Self>)
        ensures
            r.is_some() == keys_unique(entries_view(entries@)),
            r matches Some(s) ==> s@ == entries_view(entries@),
    {
        let ghost v = entries_view(entries@);
        let mut i: usize = 0;
        while i < entries.len()
            invariant
                v == entries_view(entries@),
                i <= entries@.len(),
                forall|a: int, b: int| 0 <= a < i && 0 <= b < entries@.len() && a != b ==> v[a].0 != v[b].0,
            decreases entries@.len() - i,
        {
            let mut j: usize = 0;
            while j < entries.len()
                invariant
                    v == entries_view(entries@),
                    i < entries@.len(),
                    j <= entries@.len(),
                    forall|a: int, b: int| 0 <= a < i && 0 <= b < entries@.len() && a != b ==> v[a].0 != v[b].0,
                    forall|b: int| 0 <= b < j && b != i ==> v[i as int].0 != v[b].0,
                decreases entries@.len() - j,
            {
                if j != i && entries[i].0 == entries[j].0 {
                    assert(v[i as int].0 == v[j as int].0);
                    return None;
                }
                j += 1;
            }
            i += 1;
        }
        Some(Store { entries })
    }

    /// Number of entries.
    pub fn len(&self) -> (r: usize)
        ensures
            r == self@.len(),
    {
        self.entries.len()
    }

    /// True when the store holds no entry.
    pub fn is_empty(&self) -> (r: bool)
        ensures
            r == (self@.len() == 0),
    {
        self.entries.len() == 0
    }

    /// The identifier and record at position `i`.
    pub fn entry(&self, i: usize) -> (r: (u128, &T))
        requires
            i < self@.len(),
        ensures
            r.0 == self@[i as int].0,
            r.1@ == self@[i as int].1,
    {
        let e = &self.entries[i];
        (e.0, &e.1)
    }

    /// The position of identifier `id`, if it is bound.
    pub fn position(&self, id: u128) -> (r: Option<usize>)
        requires
            self.wf(),
        ensures
            r.is_none() == !has_key(self@, id),
            r matches Some(i) ==> i < self@.len() && self@[i as int].0 == id && key_pos(self@, id)
                == i,
    {
        let mut i: usize = 0;
        while i < self.entries.len()
            invariant
                self.wf(),
                i <= self.entries@.len(),
                forall|j: int| 0 <= j < i ==> self@[j].0 != id,
            decreases self.entries@.len() - i,
        {
            if self.entries[i].0 == id {
                proof {
                    lemma_key_pos_unique(self@, i as int);
                }
                return Some(i);
            }
            i += 1;
        }
        None
    }

    /// The record bound to `id`, if any.
    pub fn get(&self, id: u128) -> (r: Option<&T>)
        requires
            self.wf(),
        ensures
            r.is_none() == !map_of(self@).contains_key(id),
            r matches Some(v) ==> v@ == self@[key_pos(self@, id)].1 && v@ == map_of(self@)[id],
    {
        match self.position(id) {
            Some(i) => Some(&self.entries[i].1),
            None => None,
        }
    }

    /// Binds `id` to `value`, replacing the record bound to it before.
    pub fn insert(&mut self, id: u128, value: T)
        requires
            old(self).wf(),
        ensures
            final(self).wf(),
            final(self)@ == inserted(old(self)@, id, value@),
            map_of(final(self)@) == map_of(old(self)@).insert(id, value@),
    {
        let ghost v = value@;
        proof {
            lemma_inserted_map(self@, id, v);
        }
        match self.position(id) {
            Some(i) => {
                self.entries.set(i, (id, value));
                assert(self@ =~= old(self)@.update(i as int, (id, v)));
            },
            None => {
                self.entries.push((id, value));
                assert(self@ =~= old(self)@.push((id, v)));
            },
        }
    }

    /// Binds a freshly drawn random identifier to `value` and returns it.
    pub fn insert_new(&mut self, value: T) -> (id: u128)
        requires
            old(self).wf(),
        ensures
            final(self).wf(),
            final(self)@ == inserted(old(self)@, id, value@),
            map_of(final(self)@) == map_of(old(self)@).insert(id, value@),
    {
        let id = random_id();
        self.insert(id, value);
        id
    }

    /// Unbinds `id`, handing back the record that was bound to it.
    pub fn remove(&mut self, id: u128) -> (r: Option<T>)
        requires
            old(self).wf(),
        ensures
            final(self).wf(),
            final(self)@ == removed(old(self)@, id),
            map_of(final(self)@) == map_of(old(self)@).remove(id),
            r.is_none() == !has_key(old(self)@, id),
            r matches Some(v) ==> v@ == old(self)@[key_pos(old(self)@, id)].1,
    {
        proof {
            lemma_removed_map(self@, id);
        }
        match self.position(id) {
            Some(i) => {
                let e = self.entries.remove(i);
                assert(self@ =~= old(self)@.remove(i as int));
                Some(e.1)
            },
            None => None,
        }
    }
}

/// Relies on uuid's `Uuid::new_v4` and `Uuid::as_u128`: a random identifier
/// whose version field reads 4 and whose variant bits read 10.
#[verifier::external_body]
fn random_id() -> (r: u128)
    ensures
        r & 0xF000_C000_0000_0000_0000 == 0x4000_8000_0000_0000_0000,
{
    uuid::Uuid::new_v4().as_u128()
}

} // verus!
