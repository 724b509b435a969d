//! A personal log of substances and ingestions, kept as two record stores.
//!
//! Every store maps a 128-bit identifier to a record and is written to disk
//! as one byte blob. This crate holds the records, the store, the blob
//! encoding and the operations on stores; reading and writing files,
//! prompting and command-line handling are left to the caller.
mod calendar;
mod codec;
mod drugs;
mod error;
mod files;
mod ingestions;
mod laws;
mod store;
mod substances;
mod text;

pub use calendar::{
    clock_text_spec, date_text_spec, days_in_month, is_leap_year, valid_hmsn, valid_ymd, Date,
    Time, MAX_YEAR, MIN_YEAR,
};
pub use codec::{
    enc_store, ensure_spec, ensure_store, lemma_ensure_idempotent, lemma_record_round_trip,
    lemma_store_round_trip, load, load_store, parse_store, save, valid_entries, valid_ingestion,
    Record,
};
pub use drugs::{
    category_name, status_name, unit_label, Category, Combo, Dosage, Duration, Links, SourceData,
    Sources, Status, Unit,
};
pub use error::{error_message, StoreError};
pub use files::{
    create_ingestions_file, create_substances_file, ensure_ingestion_files,
    ensure_substance_file, Config,
};
pub use ingestions::{
    add_ingestion, build_ingestion, edit_ingestion, edited_ingestion, find_ingestion,
    key_shared, line_spec, lookup_by_key, method_name, remove_ingestion, same_key, unit_name, Dose,
    DoseUnit, DoseView, Ingestion, IngestionEdit, IngestionMethod, IngestionView,
};
pub use laws::{lemma_edit_class_keeps_identity, lemma_shared_key_is_ambiguous};
pub use store::{
    has_key, inserted, key_pos, keys_unique, lemma_inserted_map, lemma_removed_map, map_of,
    removed, Store,
};
pub use substances::{
    add_substance, after_edit, class_name, edit_substance, edited, find_by_name, get_substance,
    lookup_by_name, name_shared, name_taken, remove_all, remove_step, remove_substance,
    remove_substances, requests_view, substance_exists,
    substances_to_vec, Substance, SubstanceClass, SubstanceEditOptions, SubstanceView,
};
