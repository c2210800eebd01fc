use vstd::prelude::*;

use crate::error::FileError;
use crate::id::{FileId, FileIdView};
use crate::outside::{utf8_decode, utf8_text};

verus! {

/// A decoded source file. `object` names the in-memory object: a text that
/// is replaced in place keeps it, a newly built source gets a fresh one.
#[derive(Debug)]
pub struct Source {
    pub id: FileId,
    pub text: String,
    pub object: u64,
}

/// The mathematical value of a source.
pub struct SourceModel {
    pub id: FileIdView,
    pub text: Seq<char>,
    pub object: u64,
}

impl View for Source {
    type V = SourceModel;

    open spec fn view(&self) -> SourceModel {
        SourceModel { id: self.id@, text: self.text@, object: self.object }
    }
}

impl Source {
    /// A source for `id` with `text`, as the object `object`.
    pub fn new(id: FileId, text: String, object: u64) -> (r: Source)
        ensures
            r@ == (SourceModel { id: id@, text: text@, object }),
    {
        Source { id, text, object }
    }

    /// A copy with the same value.
    pub fn duplicate(&self) -> (r: Source)
        ensures
            r@ == self@,
    {
        Source { id: self.id.duplicate(), text: self.text.clone(), object: self.object }
    }

    /// Replaces the text in place; identity and object stay.
    pub fn replace(&mut self, text: String)
        ensures
            final(self)@ == (SourceModel { text: text@, ..old(self)@ }),
    {
        self.text = text;
    }
}

/// The UTF-8 byte-order mark.
pub open spec fn has_bom(b: Seq<u8>) -> bool {
    b.len() >= 3 && b[0] == 0xEFu8 && b[1] == 0xBBu8 && b[2] == 0xBFu8
}

/// The bytes without a leading byte-order mark.
pub open spec fn without_bom(b: Seq<u8>) -> Seq<u8> {
    if has_bom(b) {
        b.subrange(3, b.len() as int)
    } else {
        b
    }
}

/// The text that raw file bytes decode to, if any.
pub open spec fn decoded(b: Seq<u8>) -> Option<Seq<char>> {
    utf8_text(without_bom(b))
}

/// Decodes raw file bytes as UTF-8 after dropping an optional byte-order
/// mark; invalid UTF-8 is `InvalidUtf8`.
pub fn decode_utf8(buf: &[u8]) -> (r: Result<String, FileError>)
    ensures
        match r {
            Ok(s) => decoded(buf@) == Some(s@),
            Err(e) => decoded(buf@) is None && e == FileError::InvalidUtf8,
        },
{
    let n = buf.len();
    let start: usize = if n >= 3 && buf[0] == 0xEFu8 && buf[1] == 0xBBu8 && buf[2] == 0xBFu8 {
        3
    } else {
        0
    };
    let mut body: Vec<u8> = Vec::new();
    let mut i: usize = start;
    while i < n
        invariant
            start <= i <= n,
            n == buf@.len(),
            body@ == buf@.subrange(start as int, i as int),
        decreases n - i,
    {
        body.push(buf[i]);
        i = i + 1;
    }
    assert(body@ == without_bom(buf@));
    match utf8_decode(body) {
        Some(s) => Ok(s),
        None => Err(FileError::InvalidUtf8),
    }
}

} // verus!
