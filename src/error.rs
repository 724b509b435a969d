use vstd::prelude::*;

verus! {

/// What can go wrong with a store or a lookup in it.
#[derive(Debug, Clone, Copy, PartialEq, Eq, Structural)]
pub enum StoreError {
    /// A store was read before its file was created.
    MissingStore,
    /// A store's bytes are not a valid encoding of a mapping.
    CorruptStore,
    /// No record has the name or key looked for.
    NotFound,
    /// More than one record has the name or key looked for.
    AmbiguousName,
    /// An ingestion was to be logged while no substance exists.
    NoSubstances,
}

/// The message shown for an error.
pub open spec fn error_message(e: StoreError) -> Seq<char> {
    match e {
        StoreError::MissingStore => "the store file does not exist yet"@,
        StoreError::CorruptStore =>
            "could not read the store file: its contents are not a valid store. If you are tech-savvy, try fixing it with a hex editor"@,
        StoreError::NotFound => "no record matches"@,
        StoreError::AmbiguousName => "more than one record matches"@,
        StoreError::NoSubstances => "add a substance before you log an ingestion"@,
    }
}

impl StoreError {
    /// A message for the user.
    pub fn message(&self) -> (r: &'static str)
        ensures
            r@ == error_message(*self),
    {
        match self {
            StoreError::MissingStore => "the store file does not exist yet",
            StoreError::CorruptStore =>
                "could not read the store file: its contents are not a valid store. If you are tech-savvy, try fixing it with a hex editor",
            StoreError::NotFound => "no record matches",
            StoreError::AmbiguousName => "more than one record matches",
            StoreError::NoSubstances => "add a substance before you log an ingestion",
        }
    }
}

} // verus!
