use vstd::prelude::*;

use crate::codec::{enc_store, ensure_store, parse_store, save};
use crate::error::StoreError;
use crate::ingestions::{Ingestion, IngestionView};
use crate::store::Store;
use crate::substances::{Substance, SubstanceView};

verus! {

/// Where the stores live: one directory, one file per kind of record.
pub struct Config {
    pub save_dir: String,
}

impl Config {
    /// The path of the substance store.
    pub fn substances_file(&self) -> (r: String)
        ensures
            r@ == self.save_dir@ + "/substances.bin"@,
    {
        let mut r = self.save_dir.clone();
        r.append("/substances.bin");
        r
    }

    /// The path of the ingestion store.
    pub fn ingestions_file(&self) -> (r: String)
        ensures
            r@ == self.save_dir@ + "/ingestions.bin"@,
    {
        let mut r = self.save_dir.clone();
        r.append("/ingestions.bin");
        r
    }
}

/// The bytes a new substance store file is created with: an empty store.
pub fn create_substances_file() -> (r: Vec<u8>)
    ensures
        r@ == enc_store::<Substance>(Seq::<(u128, SubstanceView)>::empty()),
{
    let st = Store::<Substance>::new();
    save(&st)
}

/// The bytes a new ingestion store file is created with: an empty store.
pub fn create_ingestions_file() -> (r: Vec<u8>)
    ensures
        r@ == enc_store::<Ingestion>(Seq::<(u128, IngestionView)>::empty()),
{
    let st = Store::<Ingestion>::new();
    save(&st)
}

/// Opens the substance store given the bytes of its file, if the file
/// exists; see `ensure_store`.
pub fn ensure_substance_file(existing: Option<&[u8]>) -> (r: Result<
    (Store<Substance>, Option<Vec<u8>>),
    StoreError,
>)
    ensures
        match existing {
            None => r matches Ok((st, Some(bytes))) && st.wf() && st@.len() == 0 && bytes@
                == enc_store::<Substance>(Seq::<(u128, SubstanceView)>::empty()),
            Some(b) => match parse_store::<Substance>(b@) {
                Some(s) => r matches Ok((st, None)) && st.wf() && st@ == s,
                None => r matches Err(e) && e == StoreError::CorruptStore,
            },
        },
{
    ensure_store::<Substance>(existing)
}

/// Opens the ingestion store given the bytes of its file, if the file
/// exists; see `ensure_store`.
pub fn ensure_ingestion_files(existing: Option<&[u8]>) -> (r: Result<
    (Store<Ingestion>, Option<Vec<u8>>),
    StoreError,
>)
    ensures
        match existing {
            None => r matches Ok((st, Some(bytes))) && st.wf() && st@.len() == 0 && bytes@
                == enc_store::<Ingestion>(Seq::<(u128, IngestionView)>::empty()),
            Some(b) => match parse_store::<Ingestion>(b@) {
                Some(s) => r matches Ok((st, None)) && st.wf() && st@ == s,
                None => r matches Err(e) && e == StoreError::CorruptStore,
            },
        },
{
    ensure_store::<Ingestion>(existing)
}

} // verus!
