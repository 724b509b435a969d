use vstd::prelude::*;

use crate::error::StoreError;
use crate::store::{has_key, inserted, key_pos, removed, Store};

verus! {

/// The pharmacological class of a substance.
#[derive(Debug, Clone, Copy, PartialEq, Eq, Structural)]
pub enum SubstanceClass {
    Stimulant,
    Depressant,
    Psychedelic,
    Dissociative,
    Cannabinoid,
    Entheogen,
    Deliriant,
    Empathogen,
    Neurotransmitter,
}

/// Number of substance classes.
pub const SUBSTANCE_CLASS_COUNT: u32 = 9;

/// The name under which a class is shown.
pub open spec fn class_name(c: SubstanceClass) -> Seq<char> {
    match c {
        SubstanceClass::Stimulant => "Stimulant"@,
        SubstanceClass::Depressant => "Depressant"@,
        SubstanceClass::Psychedelic => "Psychedelic"@,
        SubstanceClass::Dissociative => "Dissociative"@,
        SubstanceClass::Cannabinoid => "Cannabinoid"@,
        SubstanceClass::Entheogen => "Entheogen"@,
        SubstanceClass::Deliriant => "Deliriant"@,
        SubstanceClass::Empathogen => "Empathogen"@,
        SubstanceClass::Neurotransmitter => "Neurotransmitter"@,
    }
}

/// Position of a class in the fixed list of classes.
pub open spec fn class_index(c: SubstanceClass) -> u32 {
    match c {
        SubstanceClass::Stimulant => 0,
        SubstanceClass::Depressant => 1,
        SubstanceClass::Psychedelic => 2,
        SubstanceClass::Dissociative => 3,
        SubstanceClass::Cannabinoid => 4,
        SubstanceClass::Entheogen => 5,
        SubstanceClass::Deliriant => 6,
        SubstanceClass::Empathogen => 7,
        SubstanceClass::Neurotransmitter => 8,
    }
}

/// The class at position `i` of the fixed list; the last class for any
/// position past the end.
pub open spec fn class_at(i: u32) -> SubstanceClass {
    if i == 0 {
        SubstanceClass::Stimulant
    } else if i == 1 {
        SubstanceClass::Depressant
    } else if i == 2 {
        SubstanceClass::Psychedelic
    } else if i == 3 {
        SubstanceClass::Dissociative
    } else if i == 4 {
        SubstanceClass::Cannabinoid
    } else if i == 5 {
        SubstanceClass::Entheogen
    } else if i == 6 {
        SubstanceClass::Deliriant
    } else if i == 7 {
        SubstanceClass::Empathogen
    } else {
        SubstanceClass::Neurotransmitter
    }
}

impl SubstanceClass {
    /// The name under which this class is shown.
    pub fn to_string(&self) -> (r: String)
        ensures
            r@ == class_name(*self),
    {
        match self {
            SubstanceClass::Stimulant => "Stimulant".to_string(),
            SubstanceClass::Depressant => "Depressant".to_string(),
            SubstanceClass::Psychedelic => "Psychedelic".to_string(),
            SubstanceClass::Dissociative => "Dissociative".to_string(),
            SubstanceClass::Cannabinoid => "Cannabinoid".to_string(),
            SubstanceClass::Entheogen => "Entheogen".to_string(),
            SubstanceClass::Deliriant => "Deliriant".to_string(),
            SubstanceClass::Empathogen => "Empathogen".to_string(),
            SubstanceClass::Neurotransmitter => "Neurotransmitter".to_string(),
        }
    }
}


impl SubstanceClass {
    /// Every class, in the order in which they are offered.
    pub fn all() -> (r: Vec<SubstanceClass>)
        ensures
            r@.len() == SUBSTANCE_CLASS_COUNT,
            forall|i: int| 0 <= i < r@.len() ==> class_index(#[trigger] r@[i]) == i,
    {
        vec![
            SubstanceClass::Stimulant,
            SubstanceClass::Depressant,
            SubstanceClass::Psychedelic,
            SubstanceClass::Dissociative,
            SubstanceClass::Cannabinoid,
            SubstanceClass::Entheogen,
            SubstanceClass::Deliriant,
            SubstanceClass::Empathogen,
            SubstanceClass::Neurotransmitter,
        ]
    }

    /// Position of this class in the fixed list of classes.
    pub fn index(&self) -> (r: u32)
        ensures
            r == class_index(*self),
            r < SUBSTANCE_CLASS_COUNT,
    {
        match self {
            SubstanceClass::Stimulant => 0,
            SubstanceClass::Depressant => 1,
            SubstanceClass::Psychedelic => 2,
            SubstanceClass::Dissociative => 3,
            SubstanceClass::Cannabinoid => 4,
            SubstanceClass::Entheogen => 5,
            SubstanceClass::Deliriant => 6,
            SubstanceClass::Empathogen => 7,
            SubstanceClass::Neurotransmitter => 8,
        }
    }

    /// The class at position `i` of the fixed list, if there is one.
    pub fn from_index(i: u32) -> (r: Option<SubstanceClass>)
        ensures
            r.is_some() == (i < SUBSTANCE_CLASS_COUNT),
            r matches Some(c) ==> class_index(c) == i && c == class_at(i),
    {
        match i {
            0 => Some(SubstanceClass::Stimulant),
            1 => Some(SubstanceClass::Depressant),
            2 => Some(SubstanceClass::Psychedelic),
            3 => Some(SubstanceClass::Dissociative),
            4 => Some(SubstanceClass::Cannabinoid),
            5 => Some(SubstanceClass::Entheogen),
            6 => Some(SubstanceClass::Deliriant),
            7 => Some(SubstanceClass::Empathogen),
            8 => Some(SubstanceClass::Neurotransmitter),
            _ => None,
        }
    }
}

/// A substance: a name and a class.
#[derive(Debug)]
pub struct Substance {
    pub name: String,
    pub class: SubstanceClass,
}

/// What a substance is, as values.
pub struct SubstanceView {
    pub name: Seq<char>,
    pub class: SubstanceClass,
}

impl View for Substance {
    type V = SubstanceView;

    open spec fn view(&self) -> SubstanceView {
        SubstanceView { name: self.name@, class: self.class }
    }
}

impl Clone for Substance {
    fn clone(&self) -> (r: Self)
        ensures
            r == *self,
    {
        Substance { name: self.name.clone(), class: self.class }
    }
}

/// The field of a substance that an edit replaces.
#[derive(Debug, Clone, Copy, PartialEq, Eq, Structural)]
pub enum SubstanceEditOptions {
    Name,
    Class,
}

impl SubstanceEditOptions {
    /// Both options, in the order in which they are offered.
    pub fn all() -> (r: Vec<SubstanceEditOptions>)
        ensures
            r@ == seq![SubstanceEditOptions::Name, SubstanceEditOptions::Class],
    {
        let r = vec![SubstanceEditOptions::Name, SubstanceEditOptions::Class];
        assert(r@ =~= seq![SubstanceEditOptions::Name, SubstanceEditOptions::Class]);
        r
    }

    /// The name under which this option is shown.
    pub fn to_string(&self) -> (r: String)
        ensures
            r@ == (match *self {
                SubstanceEditOptions::Name => "Name"@,
                SubstanceEditOptions::Class => "Class"@,
            }),
    {
        match self {
            SubstanceEditOptions::Name => "Name".to_string(),
            SubstanceEditOptions::Class => "Class".to_string(),
        }
    }
}

/// The entry at position `i` is named `name`.
pub open spec fn named_at(s: Seq<(u128, SubstanceView)>, name: Seq<char>, i: int) -> bool {
    0 <= i < s.len() && s[i].1.name == name
}

/// Some entry is named `name`.
pub open spec fn name_taken(s: Seq<(u128, SubstanceView)>, name: Seq<char>) -> bool {
    exists|i: int| named_at(s, name, i)
}

/// Two different entries are named `name`.
pub open spec fn name_shared(s: Seq<(u128, SubstanceView)>, name: Seq<char>) -> bool {
    exists|i: int, j: int| named_at(s, name, i) && named_at(s, name, j) && i != j
}

/// The entry at position `i` is the only one named `name`.
pub open spec fn named_only_at(s: Seq<(u128, SubstanceView)>, name: Seq<char>, i: int) -> bool {
    named_at(s, name, i) && forall|j: int| named_at(s, name, j) ==> j == i
}

/// The outcome of a lookup by name: the position of the one entry with that
/// name, or why there is none.
pub open spec fn lookup_by_name(s: Seq<(u128, SubstanceView)>, name: Seq<char>) -> Result<
    int,
    StoreError,
> {
    if !name_taken(s, name) {
        Err(StoreError::NotFound)
    } else if name_shared(s, name) {
        Err(StoreError::AmbiguousName)
    } else {
        Ok(choose|i: int| named_at(s, name, i))
    }
}

/// The record an edit leaves: each field given replaces the old one.
pub open spec fn edited(
    old: SubstanceView,
    new_name: Option<Seq<char>>,
    new_class: Option<SubstanceClass>,
) -> SubstanceView {
    SubstanceView {
        name: match new_name {
            Some(n) => n,
            None => old.name,
        },
        class: match new_class {
            Some(c) => c,
            None => old.class,
        },
    }
}

/// The entries after the record at position `i` has been edited in place,
/// under its identifier.
pub open spec fn after_edit(
    s: Seq<(u128, SubstanceView)>,
    i: int,
    new_name: Option<Seq<char>>,
    new_class: Option<SubstanceClass>,
) -> Seq<(u128, SubstanceView)> {
    s.update(i, (s[i].0, edited(s[i].1, new_name, new_class)))
}

/// The view of an optional string.
pub open spec fn opt_view(s: Option<String>) -> Option<Seq<char>> {
    match s {
        Some(t) => Some(t@),
        None => None,
    }
}

/// True when some substance in the store is named `name` (names compare
/// case-sensitively).
pub fn substance_exists(store: &Store<Substance>, name: &str) -> (r: bool)
    ensures
        r == name_taken(store@, name@),
{
    let mut i: usize = 0;
    while i < store.len()
        invariant
            i <= store@.len(),
            forall|j: int| 0 <= j < i ==> !named_at(store@, name@, j),
        decreases store@.len() - i,
    {
        let (_, s) = store.entry(i);
        if crate::text::text_eq(s.name.as_str(), name) {
            assert(named_at(store@, name@, i as int));
            return true;
        }
        i += 1;
    }
    false
}

/// The position of the one substance named `name`. Fails with `NotFound`
/// when none is, and with `AmbiguousName` when more than one is.
pub fn find_by_name(store: &Store<Substance>, name: &str) -> (r: Result<usize, StoreError>)
    ensures
        r matches Ok(i) ==> named_only_at(store@, name@, i as int),
        r is Ok <==> (name_taken(store@, name@) && !name_shared(store@, name@)),
        r == Err::<usize, StoreError>(StoreError::NotFound) <==> !name_taken(store@, name@),
        r == Err::<usize, StoreError>(StoreError::AmbiguousName) <==> name_shared(store@, name@),
        r matches Ok(i) ==> lookup_by_name(store@, name@) == Ok::<int, StoreError>(i as int),
        r matches Err(e) ==> lookup_by_name(store@, name@) == Err::<int, StoreError>(e),
{
    let mut found: Option<usize> = None;
    let mut i: usize = 0;
    while i < store.len()
        invariant
            i <= store@.len(),
            found matches Some(k) ==> k < i && named_at(store@, name@, k as int),
            forall|j: int|
                0 <= j < i && named_at(store@, name@, j) ==> found == Some(j as usize),
        decreases store@.len() - i,
    {
        let (_, s) = store.entry(i);
        if crate::text::text_eq(s.name.as_str(), name) {
            match found {
                Some(k) => {
                    assert(named_at(store@, name@, k as int) && named_at(store@, name@, i as int));
                    return Err(StoreError::AmbiguousName);
                },
                None => {
                    found = Some(i);
                },
            }
        }
        i += 1;
    }
    match found {
        Some(k) => {
            assert(named_at(store@, name@, k as int));
            Ok(k)
        },
        None => Err(StoreError::NotFound),
    }
}

/// The substance named `name`, copied out of the store, as an ingestion
/// records it. Fails with `NoSubstances` when the store is empty, and
/// otherwise as `find_by_name` does.
pub fn get_substance(store: &Store<Substance>, name: &str) -> (r: Result<Substance, StoreError>)
    ensures
        store@.len() == 0 ==> r == Err::<Substance, StoreError>(StoreError::NoSubstances),
        store@.len() > 0 ==> match lookup_by_name(store@, name@) {
            Ok(i) => r matches Ok(s) && s@ == store@[i].1,
            Err(e) => r == Err::<Substance, StoreError>(e),
        },
{
    if store.is_empty() {
        return Err(StoreError::NoSubstances);
    }
    match find_by_name(store, name) {
        Ok(i) => {
            let (_, s) = store.entry(i);
            Ok(s.clone())
        },
        Err(e) => Err(e),
    }
}

/// The names of all substances, in store order.
pub fn substances_to_vec(store: &Store<Substance>) -> (r: Vec<String>)
    ensures
        r@.len() == store@.len(),
        forall|i: int| 0 <= i < r@.len() ==> #[trigger] r@[i]@ == store@[i].1.name,
{
    let mut r: Vec<String> = Vec::new();
    let mut i: usize = 0;
    while i < store.len()
        invariant
            i <= store@.len(),
            r@.len() == i,
            forall|j: int| 0 <= j < i ==> #[trigger] r@[j]@ == store@[j].1.name,
        decreases store@.len() - i,
    {
        let (_, s) = store.entry(i);
        r.push(s.name.clone());
        i += 1;
    }
    r
}

/// Adds a substance under a fresh random identifier, unless one with the
/// same name exists already. Returns the new identifier, or `None` (and
/// leaves the store as it was) when the name is taken.
pub fn add_substance(store: &mut Store<Substance>, name: String, class: SubstanceClass) -> (r:
    Option<u128>)
    requires
        old(store).wf(),
    ensures
        final(store).wf(),
        r.is_none() == name_taken(old(store)@, name@),
        r is None ==> final(store)@ == old(store)@,
        r matches Some(id) ==> final(store)@ == inserted(
            old(store)@,
            id,
            SubstanceView { name: name@, class },
        ),
{
    if substance_exists(store, name.as_str()) {
        None
    } else {
        let id = store.insert_new(Substance { name, class });
        Some(id)
    }
}

/// One removal request: the store and the outcome after the one substance
/// named `name` has been removed, if `confirmed` holds and the lookup by
/// name succeeds; otherwise the store is left as it was.
pub open spec fn remove_step(s: Seq<(u128, SubstanceView)>, name: Seq<char>, confirmed: bool) -> (
    Seq<(u128, SubstanceView)>,
    Result<bool, StoreError>,
) {
    if !confirmed {
        (s, Ok(false))
    } else {
        match lookup_by_name(s, name) {
            Ok(i) => (s.remove(i), Ok(true)),
            Err(e) => (s, Err(e)),
        }
    }
}

/// The store after the removal requests `reqs`, taken in order.
pub open spec fn remove_all(s: Seq<(u128, SubstanceView)>, reqs: Seq<(Seq<char>, bool)>) -> Seq<
    (u128, SubstanceView),
>
    decreases reqs.len(),
{
    if reqs.len() == 0 {
        s
    } else {
        remove_step(remove_all(s, reqs.drop_last()), reqs.last().0, reqs.last().1).0
    }
}

/// The views of removal requests.
pub open spec fn requests_view(reqs: Seq<(String, bool)>) -> Seq<(Seq<char>, bool)> {
    reqs.map_values(|q: (String, bool)| (q.0@, q.1))
}

/// Removes the one substance named `name` when `confirmed` holds. Returns
/// whether a substance was removed; fails as `find_by_name` does, leaving
/// the store as it was. An unconfirmed removal leaves the store unchanged.
pub fn remove_substance(store: &mut Store<Substance>, name: &str, confirmed: bool) -> (r: Result<
    bool,
    StoreError,
>)
    requires
        old(store).wf(),
    ensures
        final(store).wf(),
        (final(store)@, r) == remove_step(old(store)@, name@, confirmed),
        !confirmed ==> r == Ok::<bool, StoreError>(false) && final(store)@ == old(store)@,
{
    if !confirmed {
        return Ok(false);
    }
    match find_by_name(store, name) {
        Ok(i) => {
            let (id, _) = store.entry(i);
            proof {
                crate::store::lemma_key_pos_unique(store@, i as int);
            }
            let _ = store.remove(id);
            Ok(true)
        },
        Err(e) => Err(e),
    }
}

/// Takes removal requests in order, each a name and whether its removal was
/// confirmed, as `remove_substance` does. Returns each request's outcome.
pub fn remove_substances(store: &mut Store<Substance>, requests: &Vec<(String, bool)>) -> (r: Vec<
    Result<bool, StoreError>,
>)
    requires
        old(store).wf(),
    ensures
        final(store).wf(),
        final(store)@ == remove_all(old(store)@, requests_view(requests@)),
        r@.len() == requests@.len(),
        forall|j: int|
            0 <= j < r@.len() ==> #[trigger] r@[j] == remove_step(
                remove_all(old(store)@, requests_view(requests@).take(j)),
                requests@[j].0@,
                requests@[j].1,
            ).1,
{
    let ghost q = requests_view(requests@);
    let mut r: Vec<Result<bool, StoreError>> = Vec::new();
    let mut i: usize = 0;
    assert(q.take(0) =~= Seq::<(Seq<char>, bool)>::empty());
    while i < requests.len()
        invariant
            q == requests_view(requests@),
            i <= requests@.len(),
            store.wf(),
            store@ == remove_all(old(store)@, q.take(i as int)),
            r@.len() == i,
            forall|j: int|
                0 <= j < i ==> #[trigger] r@[j] == remove_step(
                    remove_all(old(store)@, q.take(j)),
                    requests@[j].0@,
                    requests@[j].1,
                ).1,
        decreases requests@.len() - i,
    {
        let (name, confirmed) = &requests[i];
        let outcome = remove_substance(store, name.as_str(), *confirmed);
        proof {
            assert(q.take(i + 1).drop_last() =~= q.take(i as int));
            assert(q.take(i + 1).last() == q[i as int]);
        }
        r.push(outcome);
        i += 1;
    }
    assert(q.take(requests@.len() as int) =~= q);
    r
}

/// Replaces the name and/or the class of the one substance named `name`,
/// keeping its identifier and its place. Returns its position; fails as
/// `find_by_name` does, leaving the store as it was.
pub fn edit_substance(
    store: &mut Store<Substance>,
    name: &str,
    new_name: Option<String>,
    new_class: Option<SubstanceClass>,
) -> (r: Result<usize, StoreError>)
    requires
        old(store).wf(),
    ensures
        final(store).wf(),
        match lookup_by_name(old(store)@, name@) {
            Ok(i) => r == Ok::<usize, StoreError>(i as usize) && final(store)@ == after_edit(
                old(store)@,
                i,
                opt_view(new_name),
                new_class,
            ),
            Err(e) => r == Err::<usize, StoreError>(e) && final(store)@ == old(store)@,
        },
{
    match find_by_name(store, name) {
        Ok(i) => {
            let (id, current) = store.entry(i);
            let updated_name = match new_name {
                Some(n) => n,
                None => current.name.clone(),
            };
            let updated_class = match new_class {
                Some(c) => c,
                None => current.class,
            };
            proof {
                crate::store::lemma_key_pos_unique(store@, i as int);
            }
            store.insert(id, Substance { name: updated_name, class: updated_class });
            Ok(i)
        },
        Err(e) => Err(e),
    }
}

} // verus!
