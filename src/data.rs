use vstd::prelude::*;

verus! {

/// One registered command: the command line itself, a category and a note.
/// Any of the three may be empty.
#[derive(Debug, Clone, PartialEq, Eq)]
pub struct Entry {
    pub command: String,
    pub category: String,
    pub note: String,
}

/// What reading the store file produced, before the store's rules apply.
pub enum StoreRead {
    /// The file does not exist yet.
    Absent,
    /// The file exists but could not be opened; the reason is attached.
    Unreadable(String),
    /// The file was read but does not hold a list of entries; the reason is attached.
    Malformed(String),
    /// The file was read and holds these entries, in stored order.
    Decoded(Vec<Entry>),
}

/// A failure to load the store that the caller cannot recover from.
pub enum StoreError {
    /// The store file exists but could not be opened.
    Unreadable(String),
}

/// The entries that loading yields, or the fatal error.
pub open spec fn loaded(read: StoreRead) -> Result<Seq<Entry>, StoreError> {
    match read {
        StoreRead::Absent => Ok(Seq::empty()),
        StoreRead::Unreadable(why) => Err(StoreError::Unreadable(why)),
        StoreRead::Malformed(_) => Ok(Seq::empty()),
        StoreRead::Decoded(v) => Ok(v@),
    }
}

/// Applies the store's loading rules: a missing file is an empty store, an
/// unparsable one is treated as empty, and a file that cannot be opened is fatal.
pub fn load_entries(read: StoreRead) -> (r: Result<Vec<Entry>, StoreError>)
    ensures
        match (r, loaded(read)) {
            (Ok(v), Ok(s)) => v@ == s,
            (Err(e), Err(f)) => e == f,
            _ => false,
        },
{
    match read {
        StoreRead::Absent => Ok(Vec::new()),
        StoreRead::Unreadable(why) => Err(StoreError::Unreadable(why)),
        StoreRead::Malformed(_) => Ok(Vec::new()),
        StoreRead::Decoded(v) => Ok(v),
    }
}

} // verus!
