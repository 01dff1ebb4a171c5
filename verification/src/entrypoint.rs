//! Entrypoint resolution: given a requesting identity, an entrypoint key
//! and the outcome of the storage fetch for that key, assembles the
//! ordered sequence of sections — validating the key, filtering records by
//! identity-based visibility in order, and decoding each remaining record,
//! failing fast on the first decode failure.

use vstd::prelude::*;
use crate::errors::{ResolutionError, ResolutionErrorV, StorageError, StorageErrorV};
use crate::model::{RawRecord, RawRecordV, VisibilityRule, fetch_view, records_view};
use crate::sdui_section::{SDUISection, SDUISectionV, build_section, build_section_spec};
use crate::users::User;

verus! {

/// Whether one persisted record may be shown to the requesting identity:
/// public records to everyone, authorized-only records to authorized users
/// alone.
pub open spec fn visible_to(user: User, record: RawRecordV) -> bool {
    match record.visibility {
        VisibilityRule::Public => true,
        VisibilityRule::AuthorizedOnly => user is AuthorizedUser,
    }
}

/// The records the identity may see, in their persisted order.
pub open spec fn visible_records(user: User, records: Seq<RawRecordV>) -> Seq<RawRecordV>
    decreases records.len(),
{
    if records.len() == 0 {
        Seq::empty()
    } else if visible_to(user, records[0]) {
        seq![records[0]] + visible_records(user, records.drop_first())
    } else {
        visible_records(user, records.drop_first())
    }
}

/// What assembling fetched records yields: the sections of the visible
/// records in persisted order, or the failure of the first visible record
/// that does not decode.
pub open spec fn assemble_spec(user: User, records: Seq<RawRecordV>) -> Result<
    Seq<SDUISectionV>,
    ResolutionErrorV,
>
    decreases records.len(),
{
    if records.len() == 0 {
        Ok(Seq::empty())
    } else if !visible_to(user, records[0]) {
        assemble_spec(user, records.drop_first())
    } else {
        match build_section_spec(records[0]) {
            Err(e) => Err(ResolutionErrorV::Decode(e)),
            Ok(s) => match assemble_spec(user, records.drop_first()) {
                Err(e) => Err(e),
                Ok(tail) => Ok(seq![s] + tail),
            },
        }
    }
}

/// What a whole resolution yields: an empty key is invalid, a storage
/// failure is carried through, and fetched records are assembled.
pub open spec fn resolve_spec(
    user: User,
    key: Seq<char>,
    fetched: Result<Seq<RawRecordV>, StorageErrorV>,
) -> Result<Seq<SDUISectionV>, ResolutionErrorV> {
    if key.len() == 0 {
        Err(ResolutionErrorV::InvalidKey)
    } else {
        match fetched {
            Err(e) => Err(ResolutionErrorV::Storage(e)),
            Ok(records) => assemble_spec(user, records),
        }
    }
}

/// Decides whether one record is visible to the requesting identity.
pub fn record_visible(user: &User, record: &RawRecord) -> (b: bool)
    ensures
        b == visible_to(*user, record@),
{
    match record.visibility {
        VisibilityRule::Public => true,
        VisibilityRule::AuthorizedOnly => match user {
            User::AuthorizedUser(_) => true,
            User::AnonymousUser(_) => false,
            User::UnauthorizedUser(_) => false,
        },
    }
}

/// Assembles fetched records into sections: filters by visibility in
/// order, decodes each remaining record, and fails fast on the first
/// decode failure.
pub fn assemble_sections(user: &User, records: &Vec<RawRecord>) -> (r: Result<
    Vec<SDUISection>,
    ResolutionError,
>)
    ensures
        assemble_spec(*user, records_view(records@)) matches Ok(ss) ==> (r matches Ok(v)
            && v@.map_values(|s: SDUISection| s@) == ss),
        assemble_spec(*user, records_view(records@)) matches Err(e) ==> (r matches Err(d) && d@
            == e),
{
    let ghost rv = records_view(records@);
    let mut out: Vec<SDUISection> = Vec::new();
    let n = records.len();
    let mut i: usize = 0;
    proof {
        assert(rv.skip(0) =~= rv);
        assert(out@.map_values(|s: SDUISection| s@) =~= Seq::<SDUISectionV>::empty());
    }
    while i < n
        invariant
            i <= n,
            n == records.len(),
            rv == records_view(records@),
            rv.len() == n,
            match assemble_spec(*user, rv.skip(i as int)) {
                Ok(tail) => assemble_spec(*user, rv) == Ok::<Seq<SDUISectionV>, ResolutionErrorV>(
                    out@.map_values(|s: SDUISection| s@) + tail,
                ),
                Err(e) => assemble_spec(*user, rv) == Err::<Seq<SDUISectionV>, ResolutionErrorV>(e),
            },
        decreases n - i,
    {
        let ghost rem = rv.skip(i as int);
        proof {
            assert(rem[0] == rv[i as int]);
            assert(rv[i as int] == records@[i as int]@);
            assert(rem.drop_first() =~= rv.skip(i as int + 1));
        }
        if record_visible(user, &records[i]) {
            match build_section(&records[i]) {
                Ok(s) => {
                    let ghost done = out@.map_values(|q: SDUISection| q@);
                    out.push(s);
                    proof {
                        assert(out@.map_values(|q: SDUISection| q@) =~= done.push(s@));
                        if assemble_spec(*user, rv.skip(i as int + 1)) is Ok {
                            let tail = assemble_spec(*user, rv.skip(i as int + 1))->Ok_0;
                            assert(assemble_spec(*user, rem) == Ok::<
                                Seq<SDUISectionV>,
                                ResolutionErrorV,
                            >(seq![s@] + tail));
                            assert(done.push(s@) + tail =~= done + (seq![s@] + tail));
                        }
                    }
                },
                Err(e) => {
                    proof {
                        assert(assemble_spec(*user, rem) == Err::<
                            Seq<SDUISectionV>,
                            ResolutionErrorV,
                        >(ResolutionErrorV::Decode(e@)));
                    }
                    return Err(ResolutionError::Decode(e));
                },
            }
        }
        i = i + 1;
    }
    proof {
        assert(rv.skip(n as int) =~= Seq::<RawRecordV>::empty());
        assert(out@.map_values(|s: SDUISection| s@) + Seq::<SDUISectionV>::empty() =~= out@
            .map_values(|s: SDUISection| s@));
    }
    Ok(out)
}

/// Resolves an entrypoint: validates the key, carries a storage failure
/// through, and assembles the fetched records into ordered sections.
pub fn resolve_sections(
    user: &User,
    entrypoint_key: &str,
    fetched: Result<Vec<RawRecord>, StorageError>,
) -> (r: Result<Vec<SDUISection>, ResolutionError>)
    ensures
        resolve_spec(*user, entrypoint_key@, fetch_view(fetched)) matches Ok(ss) ==> (r matches Ok(
            v,
        ) && v@.map_values(|s: SDUISection| s@) == ss),
        resolve_spec(*user, entrypoint_key@, fetch_view(fetched)) matches Err(e) ==> (r matches Err(
            d,
        ) && d@ == e),
{
    if entrypoint_key.is_empty() {
        return Err(ResolutionError::InvalidKey);
    }
    let records = match fetched {
        Ok(v) => v,
        Err(e) => {
            return Err(ResolutionError::Storage(e));
        },
    };
    assemble_sections(user, &records)
}

/// Empty entrypoint: zero persisted records assemble to the empty
/// sequence, not to an error.
pub proof fn lemma_empty_entrypoint(user: User)
    ensures
        assemble_spec(user, Seq::empty()) == Ok::<Seq<SDUISectionV>, ResolutionErrorV>(
            Seq::empty(),
        ),
{
}

/// When no record carries a visibility restriction, every record is kept.
pub proof fn lemma_all_public_records_kept(user: User, records: Seq<RawRecordV>)
    requires
        forall|i: int|
            0 <= i < records.len() ==> records[i].visibility == VisibilityRule::Public,
    ensures
        visible_records(user, records) == records,
    decreases records.len(),
{
    if records.len() == 0 {
        assert(visible_records(user, records) =~= records);
    } else {
        let rest = records.drop_first();
        assert(forall|i: int| 0 <= i < rest.len() ==> rest[i] == records[i + 1]);
        lemma_all_public_records_kept(user, rest);
        assert(visible_records(user, records) =~= records);
    }
}

/// Order preservation: when every visible record decodes, assembly
/// succeeds and returns exactly the visible records' sections, in their
/// persisted relative order.
pub proof fn lemma_assemble_decodes_in_order(user: User, records: Seq<RawRecordV>)
    requires
        forall|i: int|
            0 <= i < records.len() && visible_to(user, records[i]) ==> build_section_spec(
                records[i],
            ) is Ok,
    ensures
        assemble_spec(user, records) == Ok::<Seq<SDUISectionV>, ResolutionErrorV>(
            visible_records(user, records).map_values(
                |rec: RawRecordV| build_section_spec(rec)->Ok_0,
            ),
        ),
    decreases records.len(),
{
    let f = |rec: RawRecordV| build_section_spec(rec)->Ok_0;
    if records.len() == 0 {
        assert(visible_records(user, records).map_values(f) =~= Seq::<SDUISectionV>::empty());
    } else {
        let rest = records.drop_first();
        assert(forall|i: int| 0 <= i < rest.len() ==> rest[i] == records[i + 1]);
        lemma_assemble_decodes_in_order(user, rest);
        if visible_to(user, records[0]) {
            assert(build_section_spec(records[0]) is Ok);
            assert(visible_records(user, records) == seq![records[0]] + visible_records(
                user,
                rest,
            ));
            assert((seq![records[0]] + visible_records(user, rest)).map_values(f) =~= seq![
                f(records[0]),
            ] + visible_records(user, rest).map_values(f));
        } else {
            assert(visible_records(user, records) == visible_records(user, rest));
        }
    }
}

/// Order preservation at the resolution level: for a valid key and
/// records free of visibility restrictions that all decode, resolution
/// succeeds with one section per record, in exactly the persisted order —
/// no reordering, no deduplication.
pub proof fn lemma_resolve_preserves_persisted_order(
    user: User,
    key: Seq<char>,
    records: Seq<RawRecordV>,
)
    requires
        key.len() > 0,
        forall|i: int|
            0 <= i < records.len() ==> records[i].visibility == VisibilityRule::Public,
        forall|i: int| 0 <= i < records.len() ==> build_section_spec(records[i]) is Ok,
    ensures
        resolve_spec(user, key, Ok(records)) == Ok::<Seq<SDUISectionV>, ResolutionErrorV>(
            records.map_values(|rec: RawRecordV| build_section_spec(rec)->Ok_0),
        ),
{
    lemma_all_public_records_kept(user, records);
    lemma_assemble_decodes_in_order(user, records);
}

/// Fail-fast: when the first visible record that does not decode sits at
/// position `i`, the whole assembly fails with exactly that record's
/// annotated decode failure, and no partial sequence is returned.
pub proof fn lemma_assemble_fails_fast(user: User, records: Seq<RawRecordV>, i: int)
    requires
        0 <= i < records.len(),
        visible_to(user, records[i]),
        build_section_spec(records[i]) is Err,
        forall|j: int|
            0 <= j < i && visible_to(user, records[j]) ==> build_section_spec(records[j]) is Ok,
    ensures
        assemble_spec(user, records) == Err::<Seq<SDUISectionV>, ResolutionErrorV>(
            ResolutionErrorV::Decode(build_section_spec(records[i])->Err_0),
        ),
    decreases i,
{
    if i == 0 {
    } else {
        let rest = records.drop_first();
        assert(forall|j: int| 0 <= j < rest.len() ==> rest[j] == records[j + 1]);
        lemma_assemble_fails_fast(user, rest, i - 1);
    }
}

} // verus!
