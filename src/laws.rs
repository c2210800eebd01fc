//! What holds of the caches over several resolutions.
//!
//! `SystemWorld::begin_source`, `finish_source`, `begin_file`, `finish_file`
//! and `reset_pass` state what they do to the cache of an identity
//! (`SystemWorld::slot_model`) through `begin_step`, `source_finish`,
//! `file_finish` and `reset_step`; the laws below follow those steps over
//! several calls, from any cache state.
use vstd::prelude::*;

use crate::cell::{
    begin_step, creates_object, file_finish, objects_below, previous_ok, reset_step, source_finish,
    CellModel,
};
use crate::world::{lemma_slot_at, SystemWorld};
use crate::error::FileError;
use crate::id::FileIdView;
use crate::outside::outcome_hash;
use crate::source::{decoded, SourceModel};

verus! {

/// Unchanged content read again in a later pass gives back the value of the
/// first resolution: the same source object, with nothing rebuilt.
pub proof fn unchanged_source_is_kept(
    c0: CellModel<SourceModel>,
    out: Result<Seq<u8>, FileError>,
    id: FileIdView,
    fresh1: u64,
    fresh2: u64,
)
    ensures
        ({
            let (c1, v1) = source_finish(begin_step(c0).0, out, id, fresh1);
            let (c2, hit) = begin_step(reset_step(c1));
            &&& hit is None
            &&& source_finish(c2, out, id, fresh2) == (c2, v1)
            &&& !creates_object(c2, out)
        }),
{
}

/// Unchanged bytes read again in a later pass give back the bytes of the
/// first resolution.
pub proof fn unchanged_file_is_kept(c0: CellModel<Seq<u8>>, out: Result<Seq<u8>, FileError>)
    ensures
        ({
            let (c1, v1) = file_finish(begin_step(c0).0, out);
            let (c2, hit) = begin_step(reset_step(c1));
            &&& hit is None
            &&& file_finish(c2, out) == (c2, v1)
        }),
{
}

/// Changed bytes in a later pass replace the text of the existing source
/// object in place: the object stays, only its text changes. The raw-bytes
/// cell takes the new bytes.
pub proof fn changed_text_keeps_object(
    c0: CellModel<SourceModel>,
    out1: Result<Seq<u8>, FileError>,
    b2: Seq<u8>,
    id: FileIdView,
    fresh1: u64,
    fresh2: u64,
)
    requires
        source_finish(begin_step(c0).0, out1, id, fresh1).1 is Ok,
        decoded(b2) is Some,
        outcome_hash(Ok(b2)) != outcome_hash(out1),
    ensures
        ({
            let (c1, v1) = source_finish(begin_step(c0).0, out1, id, fresh1);
            let c2 = begin_step(reset_step(c1)).0;
            &&& source_finish(c2, Ok(b2), id, fresh2).1 == Ok::<SourceModel, FileError>(
                SourceModel { text: decoded(b2)->Some_0, ..v1->Ok_0 },
            )
            &&& !creates_object(c2, Ok(b2))
        }),
{
}

/// Changed bytes in a later pass give the raw-bytes cell the new bytes.
pub proof fn changed_bytes_are_taken(
    c0: CellModel<Seq<u8>>,
    out1: Result<Seq<u8>, FileError>,
    b2: Seq<u8>,
)
    requires
        outcome_hash(Ok(b2)) != outcome_hash(out1),
    ensures
        ({
            let c1 = file_finish(begin_step(c0).0, out1).0;
            let c2 = begin_step(reset_step(c1)).0;
            file_finish(c2, Ok(b2)).1 == Ok::<Seq<u8>, FileError>(b2)
        }),
{
}

/// A failed read is cached like a success: within the pass the same error
/// comes back without a read, and in a later pass with the same failure the
/// same error comes back with the cell unchanged.
pub proof fn error_is_cached(
    c: CellModel<SourceModel>,
    e: FileError,
    id: FileIdView,
    fresh: u64,
)
    requires
        c.data == Some(Err::<SourceModel, FileError>(e)),
        c.fingerprint == outcome_hash(Err(e)),
    ensures
        c.accessed ==> begin_step(c) == (c, Some(Err::<SourceModel, FileError>(e))),
        ({
            let c2 = begin_step(reset_step(c)).0;
            &&& begin_step(reset_step(c)).1 is None
            &&& source_finish(c2, Err(e), id, fresh) == (c2, Err::<SourceModel, FileError>(e))
        }),
{
}

/// A failure with another cause replaces a cached error.
pub proof fn changed_error_replaces_cached(
    c: CellModel<SourceModel>,
    e2: FileError,
    id: FileIdView,
    fresh: u64,
)
    requires
        c.fingerprint != outcome_hash(Err(e2)),
    ensures
        source_finish(c, Err(e2), id, fresh).1 == Err::<SourceModel, FileError>(e2),
{
}

/// Within one pass, a second resolution of the decoded text hands back the
/// value of the first without asking for a read, whatever the file holds by
/// then.
pub proof fn pass_short_circuit_source(
    c0: CellModel<SourceModel>,
    out: Result<Seq<u8>, FileError>,
    id: FileIdView,
    fresh: u64,
)
    ensures
        ({
            let (c2, v) = source_finish(begin_step(c0).0, out, id, fresh);
            begin_step(c2) == (c2, Some(v))
        }),
{
}

/// Within one pass, a second resolution of the raw bytes hands back the
/// value of the first without asking for a read.
pub proof fn pass_short_circuit_file(c0: CellModel<Seq<u8>>, out: Result<Seq<u8>, FileError>)
    ensures
        ({
            let (c2, v) = file_finish(begin_step(c0).0, out);
            begin_step(c2) == (c2, Some(v))
        }),
{
}

/// Where a resolution builds a new source object, its number differs from
/// that of the main document and of every source the store held.
pub proof fn new_object_is_fresh(
    w: SystemWorld,
    id: FileIdView,
    out: Result<Seq<u8>, FileError>,
    other: FileIdView,
)
    requires
        w.wf(),
        creates_object(w.slot_model(id).source, out),
    ensures
        ({
            let r = source_finish(w.slot_model(id).source, out, id, w.next_object).1;
            &&& r is Ok
            &&& r->Ok_0.object == w.next_object
            &&& r->Ok_0.object != w.main@.object
            &&& previous_ok(w.slot_model(other).source) matches Some(p) ==> p.object
                != r->Ok_0.object
        }),
{
    if w.has_slot(other) {
        let j = choose|j: int| 0 <= j < w.slots@.len() && w.slots@[j].id@ == other;
        lemma_slot_at(w, j);
        assert(objects_below(w.slots@[j].model().source, w.next_object));
    }
}

} // verus!
