//! The storage-facing data model: the raw persisted record this library
//! reads, holding the two fields it requires (discriminator tag and opaque
//! content) plus the record identifier and its visibility rule.

use vstd::prelude::*;
use crate::content::{Content, ContentFieldV};
use crate::errors::{StorageError, StorageErrorV};

verus! {

/// Who may see a persisted section record.
#[derive(Clone, Copy, Debug, PartialEq, Eq, Structural)]
pub enum VisibilityRule {
    Public,
    AuthorizedOnly,
}

/// One persisted section record, as handed over by the storage
/// collaborator: identifier, discriminator tag, opaque content block and
/// visibility rule.
#[derive(Clone, Debug, PartialEq, Eq)]
pub struct RawRecord {
    pub id: String,
    pub tag: String,
    pub content: Content,
    pub visibility: VisibilityRule,
}

/// Spec-level model of one persisted record.
#[verifier::ext_equal]
pub struct RawRecordV {
    pub id: Seq<char>,
    pub tag: Seq<char>,
    pub content: Seq<ContentFieldV>,
    pub visibility: VisibilityRule,
}

impl View for RawRecord {
    type V = RawRecordV;

    open spec fn view(&self) -> RawRecordV {
        RawRecordV {
            id: self.id@,
            tag: self.tag@,
            content: self.content@,
            visibility: self.visibility,
        }
    }
}

/// The spec-level contents of a fetched record sequence.
pub open spec fn records_view(records: Seq<RawRecord>) -> Seq<RawRecordV> {
    records.map_values(|r: RawRecord| r@)
}

/// The spec-level outcome of a storage fetch.
pub open spec fn fetch_view(fetched: Result<Vec<RawRecord>, StorageError>) -> Result<
    Seq<RawRecordV>,
    StorageErrorV,
> {
    match fetched {
        Ok(records) => Ok(records_view(records@)),
        Err(e) => Err(e@),
    }
}

} // verus!
