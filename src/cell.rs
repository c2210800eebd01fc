use vstd::prelude::*;

use crate::error::FileError;
use crate::id::{FileId, FileIdView};
use crate::outside::{fingerprint, outcome_hash, outcome_view};
use crate::source::{decode_utf8, decoded, Source, SourceModel};

verus! {

/// The mathematical value of a cache cell: the last value produced (or the
/// error), the fingerprint of the raw read it came from, and whether the cell
/// was already consulted in the current pass.
pub struct CellModel<V> {
    pub data: Option<Result<V, FileError>>,
    pub fingerprint: u128,
    pub accessed: bool,
}

/// A cell that was never used.
pub open spec fn empty_cell<V>() -> CellModel<V> {
    CellModel { data: None, fingerprint: 0, accessed: false }
}

/// Consulting a cell at the start of a resolution: within a pass, a cell
/// that holds a value hands it back without any read; otherwise it is marked
/// as consulted and a read is needed (`None`).
pub open spec fn begin_step<V>(c: CellModel<V>) -> (CellModel<V>, Option<Result<V, FileError>>) {
    if c.accessed && c.data is Some {
        (c, c.data)
    } else {
        (CellModel { accessed: true, ..c }, None)
    }
}

/// A new pass: the cell must be consulted again.
pub open spec fn reset_step<V>(c: CellModel<V>) -> CellModel<V> {
    CellModel { accessed: false, ..c }
}

/// Whether a read with fingerprint `fp` leaves the cell's value as it is.
pub open spec fn reuses<V>(c: CellModel<V>, fp: u128) -> bool {
    fp == c.fingerprint && c.data is Some
}

/// The value a cell held, where it was a success.
pub open spec fn previous_ok<V>(c: CellModel<V>) -> Option<V> {
    match c.data {
        Some(Ok(v)) => Some(v),
        _ => None,
    }
}

/// The decoded source that a read outcome gives: the previous source object
/// with its text replaced where there is one, else a new object `fresh`.
pub open spec fn rebuild_source(
    out: Result<Seq<u8>, FileError>,
    prev: Option<SourceModel>,
    id: FileIdView,
    fresh: u64,
) -> Result<SourceModel, FileError> {
    match out {
        Err(e) => Err(e),
        Ok(b) => match decoded(b) {
            None => Err(FileError::InvalidUtf8),
            Some(t) => match prev {
                Some(p) => Ok(SourceModel { text: t, ..p }),
                None => Ok(SourceModel { id, text: t, object: fresh }),
            },
        },
    }
}

/// Whether finishing a decoded-text cell with `out` builds a new object.
pub open spec fn creates_object(c: CellModel<SourceModel>, out: Result<Seq<u8>, FileError>) -> bool {
    !reuses(c, outcome_hash(out)) && previous_ok(c) is None && out is Ok && decoded(
        out->Ok_0,
    ) is Some
}

/// Every source object that the cell holds is numbered below `n`.
pub open spec fn objects_below(c: CellModel<SourceModel>, n: u64) -> bool {
    match c.data {
        Some(Ok(s)) => s.object < n,
        _ => true,
    }
}

/// Feeding a read outcome to a decoded-text cell: an unchanged fingerprint
/// keeps the value, a changed one rebuilds it.
pub open spec fn source_finish(
    c: CellModel<SourceModel>,
    out: Result<Seq<u8>, FileError>,
    id: FileIdView,
    fresh: u64,
) -> (CellModel<SourceModel>, Result<SourceModel, FileError>) {
    let fp = outcome_hash(out);
    if reuses(c, fp) {
        (c, c.data->Some_0)
    } else {
        let v = rebuild_source(out, previous_ok(c), id, fresh);
        (CellModel { data: Some(v), fingerprint: fp, accessed: c.accessed }, v)
    }
}

/// Feeding a read outcome to a raw-bytes cell: an unchanged fingerprint
/// keeps the value, a changed one takes the new bytes.
pub open spec fn file_finish(c: CellModel<Seq<u8>>, out: Result<Seq<u8>, FileError>) -> (
    CellModel<Seq<u8>>,
    Result<Seq<u8>, FileError>,
) {
    let fp = outcome_hash(out);
    if reuses(c, fp) {
        (c, c.data->Some_0)
    } else {
        (CellModel { data: Some(out), fingerprint: fp, accessed: c.accessed }, out)
    }
}

/// The mathematical value of a result.
pub open spec fn result_view<T: View>(r: Result<T, FileError>) -> Result<T::V, FileError> {
    match r {
        Ok(v) => Ok(v@),
        Err(e) => Err(e),
    }
}

/// A single-value cache for one resource, keyed by a fingerprint of the raw
/// read it was built from.
pub struct SlotCell<T> {
    pub data: Option<Result<T, FileError>>,
    pub fingerprint: u128,
    pub accessed: bool,
}

impl<T: View> SlotCell<T> {
    pub open spec fn model(&self) -> CellModel<T::V> {
        CellModel {
            data: match self.data {
                Some(r) => Some(result_view(r)),
                None => None,
            },
            fingerprint: self.fingerprint,
            accessed: self.accessed,
        }
    }

    /// An empty cell.
    pub fn new() -> (r: SlotCell<T>)
        ensures
            r.model() == empty_cell::<T::V>(),
    {
        SlotCell { data: None, fingerprint: 0, accessed: false }
    }

    /// Fills the cell with a value, consulted for this pass.
    pub fn init(&mut self, data: T)
        ensures
            final(self).model() == (CellModel {
                data: Some(Ok(data@)),
                accessed: true,
                ..old(self).model()
            }),
    {
        self.data = Some(Ok(data));
        self.accessed = true;
    }

    /// Marks the cell as consulted; true where it already was and holds a
    /// value, which then stands for this pass.
    pub fn begin(&mut self) -> (hit: bool)
        ensures
            hit == begin_step(old(self).model()).1 is Some,
            final(self).model() == begin_step(old(self).model()).0,
            final(self).data == old(self).data,
    {
        let hit = self.accessed && self.data.is_some();
        self.accessed = true;
        hit
    }

    /// Starts a new pass for this cell.
    pub fn reset(&mut self)
        ensures
            final(self).model() == reset_step(old(self).model()),
            final(self).data == old(self).data,
    {
        self.accessed = false;
    }
}

/// Copies a cached decoded-text result.
fn copy_source_result(r: &Result<Source, FileError>) -> (c: Result<Source, FileError>)
    ensures
        result_view(c) == result_view(*r),
{
    match r {
        Ok(s) => Ok(s.duplicate()),
        Err(e) => Err(e.duplicate()),
    }
}

/// Copies a cached raw-bytes result.
fn copy_bytes_result(r: &Result<Vec<u8>, FileError>) -> (c: Result<Vec<u8>, FileError>)
    ensures
        result_view(c) == result_view(*r),
{
    match r {
        Ok(b) => Ok(b.clone()),
        Err(e) => Err(e.duplicate()),
    }
}

/// The mathematical value of a file slot: its two cells.
pub struct SlotModel {
    pub source: CellModel<SourceModel>,
    pub file: CellModel<Seq<u8>>,
}

/// A slot that was never used.
pub open spec fn empty_slot() -> SlotModel {
    SlotModel { source: empty_cell(), file: empty_cell() }
}

/// The cache record of one file identity: decoded text and raw bytes.
pub struct FileSlot {
    pub id: FileId,
    pub source: SlotCell<Source>,
    pub file: SlotCell<Vec<u8>>,
}

impl FileSlot {
    pub open spec fn model(&self) -> SlotModel {
        SlotModel { source: self.source.model(), file: self.file.model() }
    }

    /// A fresh slot for `id`.
    pub fn new(id: FileId) -> (r: FileSlot)
        ensures
            r.id@ == id@,
            r.model() == empty_slot(),
    {
        FileSlot { id, source: SlotCell::new(), file: SlotCell::new() }
    }

    /// The cached decoded text where it stands for this pass; else marks the
    /// cell as consulted and returns `None`: a read is needed.
    pub fn begin_source(&mut self) -> (r: Option<Result<Source, FileError>>)
        ensures
            final(self).id == old(self).id,
            final(self).file == old(self).file,
            final(self).model().source == begin_step(old(self).model().source).0,
            match r {
                Some(v) => begin_step(old(self).model().source).1 == Some(result_view(v)),
                None => begin_step(old(self).model().source).1 is None,
            },
    {
        if self.source.begin() {
            match &self.source.data {
                Some(d) => Some(copy_source_result(d)),
                None => None,
            }
        } else {
            None
        }
    }

    /// The cached raw bytes where they stand for this pass; else marks the
    /// cell as consulted and returns `None`: a read is needed.
    pub fn begin_file(&mut self) -> (r: Option<Result<Vec<u8>, FileError>>)
        ensures
            final(self).id == old(self).id,
            final(self).source == old(self).source,
            final(self).model().file == begin_step(old(self).model().file).0,
            match r {
                Some(v) => begin_step(old(self).model().file).1 == Some(result_view(v)),
                None => begin_step(old(self).model().file).1 is None,
            },
    {
        if self.file.begin() {
            match &self.file.data {
                Some(d) => Some(copy_bytes_result(d)),
                None => None,
            }
        } else {
            None
        }
    }
    /// Feeds the outcome of a raw read to the decoded-text cell. `fresh` is
    /// the object a newly built source gets.
    /// Also tells whether a new object was built.
    pub fn finish_source(&mut self, out: Result<Vec<u8>, FileError>, fresh: u64) -> (r: (
        Result<Source, FileError>,
        bool,
    ))
        ensures
            r.1 == creates_object(old(self).model().source, outcome_view(&out)),
            final(self).id == old(self).id,
            final(self).file == old(self).file,
            final(self).model().source == source_finish(
                old(self).model().source,
                outcome_view(&out),
                old(self).id@,
                fresh,
            ).0,
            result_view(r.0) == source_finish(
                old(self).model().source,
                outcome_view(&out),
                old(self).id@,
                fresh,
            ).1,
    {
        let fp = fingerprint(&out);
        if fp == self.source.fingerprint {
            match &self.source.data {
                Some(d) => {
                    return (copy_source_result(d), false);
                },
                None => {},
            }
        }
        self.source.fingerprint = fp;
        let prev = match self.source.data.take() {
            Some(Ok(s)) => Some(s),
            _ => None,
        };
        let mut created = false;
        let value = match out {
            Err(e) => Err(e),
            Ok(bytes) => match decode_utf8(bytes.as_slice()) {
                Err(e) => Err(e),
                Ok(text) => match prev {
                    Some(mut p) => {
                        p.replace(text);
                        Ok(p)
                    },
                    None => {
                        created = true;
                        Ok(Source::new(self.id.duplicate(), text, fresh))
                    },
                },
            },
        };
        let copy = copy_source_result(&value);
        self.source.data = Some(value);
        (copy, created)
    }

    /// Feeds the outcome of a raw read to the raw-bytes cell.
    pub fn finish_file(&mut self, out: Result<Vec<u8>, FileError>) -> (r: Result<
        Vec<u8>,
        FileError,
    >)
        ensures
            final(self).id == old(self).id,
            final(self).source == old(self).source,
            final(self).model().file == file_finish(old(self).model().file, outcome_view(&out)).0,
            result_view(r) == file_finish(old(self).model().file, outcome_view(&out)).1,
    {
        let fp = fingerprint(&out);
        if fp == self.file.fingerprint {
            match &self.file.data {
                Some(d) => {
                    return copy_bytes_result(d);
                },
                None => {},
            }
        }
        self.file.fingerprint = fp;
        let copy = copy_bytes_result(&out);
        self.file.data = Some(out);
        copy
    }

    /// Starts a new pass for both cells.
    pub fn reset(&mut self)
        ensures
            final(self).id == old(self).id,
            final(self).model() == (SlotModel {
                source: reset_step(old(self).model().source),
                file: reset_step(old(self).model().file),
            }),
    {
        self.source.reset();
        self.file.reset();
    }
}

} // verus!
