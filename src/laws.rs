use vstd::prelude::*;

use crate::error::StoreError;
use crate::ingestions::{key_shared, lookup_by_key, IngestionView};
use crate::substances::{after_edit, lookup_by_name, SubstanceClass, SubstanceView};

verus! {

/// Editing only the class of the substance named `name` keeps its
/// identifier and its name, sets its class, and leaves every other entry
/// as it was.
pub proof fn lemma_edit_class_keeps_identity(
    s: Seq<(u128, SubstanceView)>,
    name: Seq<char>,
    class: SubstanceClass,
)
    requires
        lookup_by_name(s, name) is Ok,
    ensures
        ({
            let i = lookup_by_name(s, name)->Ok_0;
            let t = after_edit(s, i, None, Some(class));
            &&& t.len() == s.len()
            &&& t[i].0 == s[i].0
            &&& t[i].1.name == s[i].1.name
            &&& t[i].1.name == name
            &&& t[i].1.class == class
            &&& forall|j: int| 0 <= j < s.len() && j != i ==> t[j] == s[j]
        }),
{
    let i = lookup_by_name(s, name)->Ok_0;
    assert(crate::substances::named_at(s, name, i));
}

/// When two ingestions share the key an edit picks by (substance name and
/// class, date, time), the lookup fails as ambiguous rather than picking
/// one of them.
pub proof fn lemma_shared_key_is_ambiguous(s: Seq<(u128, IngestionView)>, key: IngestionView)
    requires
        key_shared(s, key),
    ensures
        lookup_by_key(s, key) == Err::<int, StoreError>(StoreError::AmbiguousName),
{
}

} // verus!
