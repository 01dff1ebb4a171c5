//! The section model: one UI unit wrapping exactly one component, built
//! from one persisted record by decoding the embedded tag and content and
//! attaching the record's own identifier untouched.

use vstd::prelude::*;
use crate::errors::{SectionDecodeError, SectionDecodeErrorV};
use crate::model::{RawRecord, RawRecordV};
use crate::sdui_component::{SDUIComponent, SDUIComponentV, decode, decode_spec};

verus! {

/// One unit of returned UI content: an identifier and its component.
#[derive(Clone, Debug, PartialEq, Eq)]
pub struct SDUISection {
    pub id: String,
    pub component: SDUIComponent,
}

/// Spec-level model of a section.
#[verifier::ext_equal]
pub struct SDUISectionV {
    pub id: Seq<char>,
    pub component: SDUIComponentV,
}

impl View for SDUISection {
    type V = SDUISectionV;

    open spec fn view(&self) -> SDUISectionV {
        SDUISectionV { id: self.id@, component: self.component@ }
    }
}

/// What building a section from one persisted record yields: the decoded
/// component under the record's identifier, or the decode failure
/// annotated with that identifier.
pub open spec fn build_section_spec(record: RawRecordV) -> Result<SDUISectionV, SectionDecodeErrorV> {
    match decode_spec(record.tag, record.content) {
        Ok(c) => Ok(SDUISectionV { id: record.id, component: c }),
        Err(e) => Err(SectionDecodeErrorV { section_id: record.id, error: e }),
    }
}

/// Builds one section from one persisted record.
pub fn build_section(record: &RawRecord) -> (r: Result<SDUISection, SectionDecodeError>)
    ensures
        build_section_spec(record@) matches Ok(v) ==> (r matches Ok(s) && s@ == v),
        build_section_spec(record@) matches Err(e) ==> (r matches Err(d) && d@ == e),
{
    match decode(record.tag.as_str(), &record.content) {
        Ok(c) => Ok(SDUISection { id: record.id.clone(), component: c }),
        Err(e) => Err(SectionDecodeError { section_id: record.id.clone(), error: e }),
    }
}

} // verus!
