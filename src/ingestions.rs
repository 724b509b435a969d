use vstd::prelude::*;

use crate::calendar::{clock_text_spec, date_text_spec, Date, Time};
use crate::error::StoreError;
use crate::store::{inserted, Store};
use crate::substances::{get_substance, lookup_by_name, Substance, SubstanceView};

verus! {

/// The unit a dose is measured in.
#[derive(Debug, Clone, Copy, PartialEq, Eq, Structural)]
pub enum DoseUnit {
    Ug,
    Mg,
    G,
    Ml,
}

/// How a dose is written after its amount.
pub open spec fn unit_name(u: DoseUnit) -> Seq<char> {
    match u {
        DoseUnit::Ug => "ug"@,
        DoseUnit::Mg => "mg"@,
        DoseUnit::G => "g"@,
        DoseUnit::Ml => "ml"@,
    }
}

impl DoseUnit {
    /// Every unit, in the order in which they are offered.
    pub fn all() -> (r: Vec<DoseUnit>)
        ensures
            r@ == seq![DoseUnit::Ug, DoseUnit::Mg, DoseUnit::G, DoseUnit::Ml],
    {
        let r = vec![DoseUnit::Ug, DoseUnit::Mg, DoseUnit::G, DoseUnit::Ml];
        assert(r@ =~= seq![DoseUnit::Ug, DoseUnit::Mg, DoseUnit::G, DoseUnit::Ml]);
        r
    }

    /// The unit's short lower-case name.
    pub fn to_string(&self) -> (r: String)
        ensures
            r@ == unit_name(*self),
    {
        match self {
            DoseUnit::Ug => "ug".to_string(),
            DoseUnit::Mg => "mg".to_string(),
            DoseUnit::G => "g".to_string(),
            DoseUnit::Ml => "ml".to_string(),
        }
    }
}

/// The route by which a substance was taken.
#[derive(Debug, Clone, Copy, PartialEq, Eq, Structural)]
pub enum IngestionMethod {
    Oral,
    Sublingual,
    Buccal,
    Insuffulated,
    Rectal,
    Transdermal,
    Subcutaneous,
    Intramuscular,
    Intravenous,
    Smoked,
    Inhaled,
}

/// Number of ingestion methods.
pub const INGESTION_METHOD_COUNT: u32 = 11;

/// Position of a method in the fixed list of methods.
pub open spec fn method_index(m: IngestionMethod) -> u32 {
    match m {
        IngestionMethod::Oral => 0,
        IngestionMethod::Sublingual => 1,
        IngestionMethod::Buccal => 2,
        IngestionMethod::Insuffulated => 3,
        IngestionMethod::Rectal => 4,
        IngestionMethod::Transdermal => 5,
        IngestionMethod::Subcutaneous => 6,
        IngestionMethod::Intramuscular => 7,
        IngestionMethod::Intravenous => 8,
        IngestionMethod::Smoked => 9,
        IngestionMethod::Inhaled => 10,
    }
}

/// The method at position `i` of the fixed list; the last method for any
/// position past the end.
pub open spec fn method_at(i: u32) -> IngestionMethod {
    if i == 0 {
        IngestionMethod::Oral
    } else if i == 1 {
        IngestionMethod::Sublingual
    } else if i == 2 {
        IngestionMethod::Buccal
    } else if i == 3 {
        IngestionMethod::Insuffulated
    } else if i == 4 {
        IngestionMethod::Rectal
    } else if i == 5 {
        IngestionMethod::Transdermal
    } else if i == 6 {
        IngestionMethod::Subcutaneous
    } else if i == 7 {
        IngestionMethod::Intramuscular
    } else if i == 8 {
        IngestionMethod::Intravenous
    } else if i == 9 {
        IngestionMethod::Smoked
    } else {
        IngestionMethod::Inhaled
    }
}

/// The name under which a method is shown.
pub open spec fn method_name(m: IngestionMethod) -> Seq<char> {
    match m {
        IngestionMethod::Oral => "Oral"@,
        IngestionMethod::Sublingual => "Sublingual"@,
        IngestionMethod::Buccal => "Buccal"@,
        IngestionMethod::Insuffulated => "Insuffulated"@,
        IngestionMethod::Rectal => "Rectal"@,
        IngestionMethod::Transdermal => "Transdermal"@,
        IngestionMethod::Subcutaneous => "Subcutaneous"@,
        IngestionMethod::Intramuscular => "Intramuscular"@,
        IngestionMethod::Intravenous => "Intravenous"@,
        IngestionMethod::Smoked => "Smoked"@,
        IngestionMethod::Inhaled => "Inhaled"@,
    }
}

impl IngestionMethod {
    /// Every method, in the order in which they are offered.
    pub fn all() -> (r: Vec<IngestionMethod>)
        ensures
            r@.len() == INGESTION_METHOD_COUNT,
            forall|i: int| 0 <= i < r@.len() ==> method_index(#[trigger] r@[i]) == i,
    {
        vec![
            IngestionMethod::Oral,
            IngestionMethod::Sublingual,
            IngestionMethod::Buccal,
            IngestionMethod::Insuffulated,
            IngestionMethod::Rectal,
            IngestionMethod::Transdermal,
            IngestionMethod::Subcutaneous,
            IngestionMethod::Intramuscular,
            IngestionMethod::Intravenous,
            IngestionMethod::Smoked,
            IngestionMethod::Inhaled,
        ]
    }

    /// Position of this method in the fixed list of methods.
    pub fn index(&self) -> (r: u32)
        ensures
            r == method_index(*self),
            r < INGESTION_METHOD_COUNT,
    {
        match self {
            IngestionMethod::Oral => 0,
            IngestionMethod::Sublingual => 1,
            IngestionMethod::Buccal => 2,
            IngestionMethod::Insuffulated => 3,
            IngestionMethod::Rectal => 4,
            IngestionMethod::Transdermal => 5,
            IngestionMethod::Subcutaneous => 6,
            IngestionMethod::Intramuscular => 7,
            IngestionMethod::Intravenous => 8,
            IngestionMethod::Smoked => 9,
            IngestionMethod::Inhaled => 10,
        }
    }

    /// The method at position `i` of the fixed list, if there is one.
    pub fn from_index(i: u32) -> (r: Option<IngestionMethod>)
        ensures
            r.is_some() == (i < INGESTION_METHOD_COUNT),
            r matches Some(m) ==> method_index(m) == i && m == method_at(i),
    {
        match i {
            0 => Some(IngestionMethod::Oral),
            1 => Some(IngestionMethod::Sublingual),
            2 => Some(IngestionMethod::Buccal),
            3 => Some(IngestionMethod::Insuffulated),
            4 => Some(IngestionMethod::Rectal),
            5 => Some(IngestionMethod::Transdermal),
            6 => Some(IngestionMethod::Subcutaneous),
            7 => Some(IngestionMethod::Intramuscular),
            8 => Some(IngestionMethod::Intravenous),
            9 => Some(IngestionMethod::Smoked),
            10 => Some(IngestionMethod::Inhaled),
            _ => None,
        }
    }

    /// The name under which this method is shown.
    pub fn to_string(&self) -> (r: String)
        ensures
            r@ == method_name(*self),
    {
        match self {
            IngestionMethod::Oral => "Oral".to_string(),
            IngestionMethod::Sublingual => "Sublingual".to_string(),
            IngestionMethod::Buccal => "Buccal".to_string(),
            IngestionMethod::Insuffulated => "Insuffulated".to_string(),
            IngestionMethod::Rectal => "Rectal".to_string(),
            IngestionMethod::Transdermal => "Transdermal".to_string(),
            IngestionMethod::Subcutaneous => "Subcutaneous".to_string(),
            IngestionMethod::Intramuscular => "Intramuscular".to_string(),
            IngestionMethod::Intravenous => "Intravenous".to_string(),
            IngestionMethod::Smoked => "Smoked".to_string(),
            IngestionMethod::Inhaled => "Inhaled".to_string(),
        }
    }
}

/// An amount and the unit it is written in. The amount is a non-negative
/// IEEE 754 binary64 number, held as its bit pattern.
#[derive(Debug)]
pub struct Dose {
    pub unit: String,
    pub value_bits: u64,
}

/// What a dose is, as values.
pub struct DoseView {
    pub unit: Seq<char>,
    pub value_bits: u64,
}

impl View for Dose {
    type V = DoseView;

    open spec fn view(&self) -> DoseView {
        DoseView { unit: self.unit@, value_bits: self.value_bits }
    }
}

impl Clone for Dose {
    fn clone(&self) -> (r: Self)
        ensures
            r == *self,
    {
        Dose { unit: self.unit.clone(), value_bits: self.value_bits }
    }
}

/// One logged event of taking a substance. The substance is a copy of the
/// record as it was when the ingestion was logged.
#[derive(Debug)]
pub struct Ingestion {
    pub substance: Substance,
    pub dose: Dose,
    pub ingestion_method: IngestionMethod,
    pub time: Time,
    pub date: Date,
}

/// What an ingestion is, as values.
pub struct IngestionView {
    pub substance: SubstanceView,
    pub dose: DoseView,
    pub ingestion_method: IngestionMethod,
    pub time: (u32, u32, u32, u32),
    pub date: (i32, u32, u32),
}

impl View for Ingestion {
    type V = IngestionView;

    open spec fn view(&self) -> IngestionView {
        IngestionView {
            substance: self.substance@,
            dose: self.dose@,
            ingestion_method: self.ingestion_method,
            time: self.time@,
            date: self.date@,
        }
    }
}

impl Clone for Ingestion {
    fn clone(&self) -> (r: Self)
        ensures
            r == *self,
    {
        Ingestion {
            substance: self.substance.clone(),
            dose: self.dose.clone(),
            ingestion_method: self.ingestion_method,
            time: self.time,
            date: self.date,
        }
    }
}

/// One field of an ingestion and the value that replaces it.
#[derive(Debug)]
pub enum IngestionEdit {
    Substance(Substance),
    Dose(Dose),
    Method(IngestionMethod),
    Time(Time),
    Date(Date),
}

/// The ingestion with the field that `e` names replaced.
pub open spec fn edited_ingestion(v: IngestionView, e: IngestionEdit) -> IngestionView {
    match e {
        IngestionEdit::Substance(s) => IngestionView { substance: s@, ..v },
        IngestionEdit::Dose(d) => IngestionView { dose: d@, ..v },
        IngestionEdit::Method(m) => IngestionView { ingestion_method: m, ..v },
        IngestionEdit::Time(t) => IngestionView { time: t@, ..v },
        IngestionEdit::Date(d) => IngestionView { date: d@, ..v },
    }
}

/// How an ingestion is listed: date, time, then name and dose, where
/// `amount` is the dose's amount as already written out.
pub open spec fn line_spec(v: IngestionView, amount: Seq<char>) -> Seq<char> {
    date_text_spec(v.date.0, v.date.1, v.date.2) + " "@ + clock_text_spec(v.time.0, v.time.1)
        + "   "@ + v.substance.name + " "@ + amount + v.dose.unit
}

impl Ingestion {
    /// This ingestion with the field that `edit` names replaced.
    pub fn with_edit(&self, edit: IngestionEdit) -> (r: Ingestion)
        ensures
            r@ == edited_ingestion(self@, edit),
    {
        match edit {
            IngestionEdit::Substance(s) => Ingestion {
                substance: s,
                dose: self.dose.clone(),
                ingestion_method: self.ingestion_method,
                time: self.time,
                date: self.date,
            },
            IngestionEdit::Dose(d) => Ingestion {
                substance: self.substance.clone(),
                dose: d,
                ingestion_method: self.ingestion_method,
                time: self.time,
                date: self.date,
            },
            IngestionEdit::Method(m) => Ingestion {
                substance: self.substance.clone(),
                dose: self.dose.clone(),
                ingestion_method: m,
                time: self.time,
                date: self.date,
            },
            IngestionEdit::Time(t) => Ingestion {
                substance: self.substance.clone(),
                dose: self.dose.clone(),
                ingestion_method: self.ingestion_method,
                time: t,
                date: self.date,
            },
            IngestionEdit::Date(d) => Ingestion {
                substance: self.substance.clone(),
                dose: self.dose.clone(),
                ingestion_method: self.ingestion_method,
                time: self.time,
                date: d,
            },
        }
    }

    /// The ingestion's list line, given its amount as already written out
    /// (say `100` or `0.5`); for a year from 0 to 9999 it reads like
    /// `2024-01-01 09:00   LSD 100ug`.
    pub fn to_line(&self, amount: &str) -> (r: String)
        ensures
            0 <= self@.date.0 <= 9999 ==> r@ == line_spec(self@, amount@),
    {
        let mut r = self.date.to_text();
        r.append(" ");
        let clock = self.time.to_clock_text();
        r.append(clock.as_str());
        r.append("   ");
        r.append(self.substance.name.as_str());
        r.append(" ");
        r.append(amount);
        r.append(self.dose.unit.as_str());
        proof {
            reveal_strlit(" ");
            reveal_strlit("   ");
        }
        r
    }
}

/// Two ingestions share the key they are picked by: substance name,
/// substance class, date and time.
pub open spec fn same_key(a: IngestionView, b: IngestionView) -> bool {
    a.substance.name == b.substance.name && a.substance.class == b.substance.class && a.date
        == b.date && a.time == b.time
}

/// The entry at position `i` has the key of `k`.
pub open spec fn keyed_at(s: Seq<(u128, IngestionView)>, k: IngestionView, i: int) -> bool {
    0 <= i < s.len() && same_key(s[i].1, k)
}

/// Some entry has the key of `k`.
pub open spec fn key_taken(s: Seq<(u128, IngestionView)>, k: IngestionView) -> bool {
    exists|i: int| keyed_at(s, k, i)
}

/// Two different entries have the key of `k`.
pub open spec fn key_shared(s: Seq<(u128, IngestionView)>, k: IngestionView) -> bool {
    exists|i: int, j: int| keyed_at(s, k, i) && keyed_at(s, k, j) && i != j
}

/// The outcome of a lookup by key: the position of the one entry with the
/// key of `k`, or why there is none.
pub open spec fn lookup_by_key(s: Seq<(u128, IngestionView)>, k: IngestionView) -> Result<
    int,
    StoreError,
> {
    if !key_taken(s, k) {
        Err(StoreError::NotFound)
    } else if key_shared(s, k) {
        Err(StoreError::AmbiguousName)
    } else {
        Ok(choose|i: int| keyed_at(s, k, i))
    }
}

/// The position of the one ingestion that has the key of `key` (substance
/// name and class, date, time). Fails with `NotFound` when none has it, and
/// with `AmbiguousName` when more than one has.
pub fn find_ingestion(store: &Store<Ingestion>, key: &Ingestion) -> (r: Result<usize, StoreError>)
    ensures
        r matches Ok(i) ==> keyed_at(store@, key@, i as int) && forall|j: int|
            keyed_at(store@, key@, j) ==> j == i,
        r matches Ok(i) ==> lookup_by_key(store@, key@) == Ok::<int, StoreError>(i as int),
        r matches Err(e) ==> lookup_by_key(store@, key@) == Err::<int, StoreError>(e),
{
    let mut found: Option<usize> = None;
    let mut i: usize = 0;
    while i < store.len()
        invariant
            i <= store@.len(),
            found matches Some(k) ==> k < i && keyed_at(store@, key@, k as int),
            forall|j: int| 0 <= j < i && keyed_at(store@, key@, j) ==> found == Some(j as usize),
        decreases store@.len() - i,
    {
        let (_, v) = store.entry(i);
        proof {
            Date::lemma_view_injective(v.date, key.date);
            Time::lemma_view_injective(v.time, key.time);
        }
        if crate::text::text_eq(v.substance.name.as_str(), key.substance.name.as_str())
            && v.substance.class == key.substance.class && v.date == key.date && v.time
            == key.time {
            assert(keyed_at(store@, key@, i as int));
            match found {
                Some(k) => {
                    assert(keyed_at(store@, key@, k as int));
                    return Err(StoreError::AmbiguousName);
                },
                None => {
                    found = Some(i);
                },
            }
        }
        i += 1;
    }
    match found {
        Some(k) => {
            assert(keyed_at(store@, key@, k as int));
            Ok(k)
        },
        None => Err(StoreError::NotFound),
    }
}

/// Builds the ingestion to be logged, embedding a copy of the substance
/// named `substance_name`. Fails with `NoSubstances` when no substance
/// exists, and otherwise as the lookup by name does.
pub fn build_ingestion(
    substances: &Store<Substance>,
    substance_name: &str,
    dose: Dose,
    ingestion_method: IngestionMethod,
    date: Date,
    time: Time,
) -> (r: Result<Ingestion, StoreError>)
    ensures
        substances@.len() == 0 ==> r == Err::<Ingestion, StoreError>(StoreError::NoSubstances),
        substances@.len() > 0 ==> match lookup_by_name(substances@, substance_name@) {
            Ok(i) => r matches Ok(v) && v@ == (IngestionView {
                substance: substances@[i].1,
                dose: dose@,
                ingestion_method,
                time: time@,
                date: date@,
            }),
            Err(e) => r == Err::<Ingestion, StoreError>(e),
        },
{
    match get_substance(substances, substance_name) {
        Ok(substance) => Ok(Ingestion { substance, dose, ingestion_method, time, date }),
        Err(e) => Err(e),
    }
}

/// Logs `ingestion` under a fresh random identifier, which it returns.
pub fn add_ingestion(store: &mut Store<Ingestion>, ingestion: Ingestion) -> (id: u128)
    requires
        old(store).wf(),
    ensures
        final(store).wf(),
        final(store)@ == inserted(old(store)@, id, ingestion@),
{
    store.insert_new(ingestion)
}

/// Replaces the field that `edit` names in the one ingestion that has the
/// key of `key`, keeping its identifier and its place. Returns its
/// position; fails as `find_ingestion` does, leaving the store as it was.
pub fn edit_ingestion(store: &mut Store<Ingestion>, key: &Ingestion, edit: IngestionEdit) -> (r:
    Result<usize, StoreError>)
    requires
        old(store).wf(),
    ensures
        final(store).wf(),
        match lookup_by_key(old(store)@, key@) {
            Ok(i) => r == Ok::<usize, StoreError>(i as usize) && final(store)@ == old(store)@.update(
                i,
                (old(store)@[i].0, edited_ingestion(old(store)@[i].1, edit)),
            ),
            Err(e) => r == Err::<usize, StoreError>(e) && final(store)@ == old(store)@,
        },
{
    match find_ingestion(store, key) {
        Ok(i) => {
            let (id, current) = store.entry(i);
            let replacement = current.with_edit(edit);
            proof {
                crate::store::lemma_key_pos_unique(store@, i as int);
            }
            store.insert(id, replacement);
            Ok(i)
        },
        Err(e) => Err(e),
    }
}

/// Removing ingestions is not offered yet: the store is left as it is.
pub fn remove_ingestion(store: &mut Store<Ingestion>)
    ensures
        final(store)@ == old(store)@,
{
}

} // verus!
