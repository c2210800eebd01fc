use vstd::prelude::*;

use crate::cell::{
    begin_step, creates_object, empty_slot, file_finish, objects_below, reset_step, result_view,
    source_finish, FileSlot, SlotModel,
};
use crate::clock::{date_at, date_spec, CalendarDate, Instant};
use crate::error::FileError;
use crate::id::{FileId, FileIdView};
use crate::outside::{clock_now, outcome_view, resolve_in, resolved_path};
use crate::source::{Source, SourceModel};
use vstd::utf8::encode_utf8;

verus! {

/// The virtual file store: the in-memory main document, one slot per file
/// identity that was asked for, and the instant that "today" is taken from.
///
/// A resolution goes in two steps. `begin_source` / `begin_file` answer
/// from the cache where the answer stands for this pass; otherwise the
/// caller reads the file (see `system_path`) and hands the outcome to
/// `finish_source` / `finish_file`.
pub struct SystemWorld {
    pub root: String,
    pub main: Source,
    pub slots: Vec<FileSlot>,
    pub now: Option<Instant>,
    pub next_object: u64,
}

/// The name of the in-memory main document.
pub open spec fn main_name() -> Seq<char> {
    seq!['<', 'm', 'a', 'i', 'n', '>']
}

impl SystemWorld {
    /// Each identity has at most one slot, and the main document has none.
    /// Every live source object is numbered below `next_object`, so that a
    /// new one differs from all of them.
    pub open spec fn wf(&self) -> bool {
        &&& forall|i: int, j: int|
            0 <= i < j < self.slots@.len() ==> self.slots@[i].id@ != self.slots@[j].id@
        &&& forall|i: int| 0 <= i < self.slots@.len() ==> self.slots@[i].id@ != self.main.id@
        &&& self.main.object < self.next_object
        &&& forall|i: int|
            0 <= i < self.slots@.len() ==> objects_below(
                #[trigger] self.slots@[i].model().source,
                self.next_object,
            )
    }

    /// Whether `id` has a slot.
    pub open spec fn has_slot(&self, id: FileIdView) -> bool {
        exists|i: int| 0 <= i < self.slots@.len() && self.slots@[i].id@ == id
    }

    /// The cache state of `id`; an identity without a slot is an empty one.
    pub open spec fn slot_model(&self, id: FileIdView) -> SlotModel {
        if self.has_slot(id) {
            self.slots@[choose|i: int| 0 <= i < self.slots@.len() && self.slots@[i].id@ == id].model()
        } else {
            empty_slot()
        }
    }

    /// The identity of the main document.
    pub open spec fn main_id(&self) -> FileIdView {
        self.main.id@
    }

    /// What stays the same over a resolution but the cache of `id` and the
    /// object counter.
    pub open spec fn same_except(&self, other: &SystemWorld, id: FileIdView) -> bool {
        &&& self.root == other.root
        &&& self.main@ == other.main@
        &&& self.now == other.now
        &&& forall|k: FileIdView| k != id ==> self.slot_model(k) == other.slot_model(k)
    }

    /// A store for a project under `root` whose main document holds
    /// `main_content`.
    pub fn new(root: String, main_content: String) -> (r: SystemWorld)
        ensures
            r.wf(),
            r.root == root,
            r.main@ == (SourceModel {
                id: FileIdView { package: None, vpath: main_name(), fake: true },
                text: main_content@,
                object: 0,
            }),
            r.now is None,
            r.next_object == 1,
            forall|k: FileIdView| r.slot_model(k) == empty_slot(),
    {
        proof {
            reveal_strlit("<main>");
        }
        let name = "<main>".to_owned();
        assert(name@ =~= main_name());
        let main_id = FileId::new_fake(name);
        SystemWorld {
            root,
            main: Source::new(main_id, main_content, 0),
            slots: Vec::new(),
            now: None,
            next_object: 1,
        }
    }

    /// The identity of the main document.
    pub fn main(&self) -> (r: &FileId)
        ensures
            r@ == self.main_id(),
    {
        &self.main.id
    }

    /// The index of the slot of `id`, if any.
    fn find_slot(&self, id: &FileId) -> (r: Option<usize>)
        ensures
            match r {
                Some(i) => i < self.slots@.len() && self.slots@[i as int].id@ == id@,
                None => !self.has_slot(id@),
            },
    {
        let mut i: usize = 0;
        while i < self.slots.len()
            invariant
                i <= self.slots@.len(),
                forall|j: int| 0 <= j < i ==> self.slots@[j].id@ != id@,
            decreases self.slots@.len() - i,
        {
            if self.slots[i].id.same(id) {
                return Some(i);
            }
            i = i + 1;
        }
        None
    }

    /// The index of the slot of `id`, made empty where there was none.
    fn slot_index(&mut self, id: &FileId) -> (i: usize)
        requires
            old(self).wf(),
            id@ != old(self).main_id(),
        ensures
            final(self).wf(),
            i < final(self).slots@.len(),
            final(self).slots@[i as int].id@ == id@,
            final(self).root == old(self).root,
            final(self).main == old(self).main,
            final(self).now == old(self).now,
            final(self).next_object == old(self).next_object,
            forall|k: FileIdView| final(self).slot_model(k) == old(self).slot_model(k),
    {
        match self.find_slot(id) {
            Some(i) => i,
            None => {
                let ghost before = *self;
                self.slots.push(FileSlot::new(id.duplicate()));
                let i = self.slots.len() - 1;
                assert forall|k: FileIdView| self.slot_model(k) == before.slot_model(k) by {
                    if k == id@ {
                        assert(self.slots@[i as int].id@ == k);
                        assert(self.has_slot(k));
                    } else if before.has_slot(k) {
                        let j = choose|j: int|
                            0 <= j < before.slots@.len() && before.slots@[j].id@ == k;
                        assert(self.slots@[j] == before.slots@[j]);
                        assert(self.has_slot(k));
                        let c = choose|c: int| 0 <= c < self.slots@.len() && self.slots@[c].id@ == k;
                        assert(c == j);
                    } else {
                        assert(!self.has_slot(k)) by {
                            if self.has_slot(k) {
                                let c = choose|c: int|
                                    0 <= c < self.slots@.len() && self.slots@[c].id@ == k;
                                assert(c < before.slots@.len());
                                assert(before.slots@[c].id@ == k);
                            }
                        }
                    }
                }
                i
            },
        }
    }
    /// Starts a resolution of the decoded text of `id`. The main document is
    /// answered from memory. Another identity is answered from its cache where
    /// that stands for this pass; `None` asks for a read, whose outcome goes to
    /// `finish_source`.
    pub fn begin_source(&mut self, id: &FileId) -> (r: Option<Result<Source, FileError>>)
        requires
            old(self).wf(),
        ensures
            final(self).wf(),
            final(self).same_except(old(self), id@),
            final(self).next_object == old(self).next_object,
            id@ == old(self).main_id() ==> final(self).slot_model(id@) == old(self).slot_model(
                id@,
            ) && (r matches Some(Ok(s)) && s@ == old(self).main@),
            id@ != old(self).main_id() ==> {
                &&& final(self).slot_model(id@).source == begin_step(
                    old(self).slot_model(id@).source,
                ).0
                &&& final(self).slot_model(id@).file == old(self).slot_model(id@).file
                &&& match r {
                    Some(v) => begin_step(old(self).slot_model(id@).source).1 == Some(
                        result_view(v),
                    ),
                    None => begin_step(old(self).slot_model(id@).source).1 is None,
                }
            },
    {
        if id.same(&self.main.id) {
            return Some(Ok(self.main.duplicate()));
        }
        let i = self.slot_index(id);
        let ghost before = *self;
        proof {
            lemma_slot_at(before, i as int);
        }
        let r = self.slots[i].begin_source();
        proof {
            lemma_slot_updated(before, *self, i as int);
        }
        r
    }

    /// Finishes a resolution of the decoded text of `id` with the outcome of
    /// its raw read. A new source object takes the next object number.
    pub fn finish_source(&mut self, id: &FileId, out: Result<Vec<u8>, FileError>) -> (r: Result<
        Source,
        FileError,
    >)
        requires
            old(self).wf(),
            id@ != old(self).main_id(),
            old(self).next_object < u64::MAX,
        ensures
            final(self).wf(),
            final(self).same_except(old(self), id@),
            final(self).slot_model(id@).source == source_finish(
                old(self).slot_model(id@).source,
                outcome_view(&out),
                id@,
                old(self).next_object,
            ).0,
            final(self).slot_model(id@).file == old(self).slot_model(id@).file,
            result_view(r) == source_finish(
                old(self).slot_model(id@).source,
                outcome_view(&out),
                id@,
                old(self).next_object,
            ).1,
            final(self).next_object == if creates_object(
                old(self).slot_model(id@).source,
                outcome_view(&out),
            ) {
                old(self).next_object + 1
            } else {
                old(self).next_object as int
            },
    {
        let i = self.slot_index(id);
        let ghost before = *self;
        proof {
            lemma_slot_at(before, i as int);
        }
        let fresh = self.next_object;
        let (r, created) = self.slots[i].finish_source(out, fresh);
        if created {
            self.next_object = fresh + 1;
        }
        proof {
            lemma_slot_updated(before, *self, i as int);
        }
        r
    }

    /// Starts a resolution of the raw bytes of `id`. The main document is
    /// answered from memory. Another identity is answered from its cache where
    /// that stands for this pass; `None` asks for a read, whose outcome goes to
    /// `finish_file`.
    pub fn begin_file(&mut self, id: &FileId) -> (r: Option<Result<Vec<u8>, FileError>>)
        requires
            old(self).wf(),
        ensures
            final(self).wf(),
            final(self).same_except(old(self), id@),
            final(self).next_object == old(self).next_object,
            id@ == old(self).main_id() ==> final(self).slot_model(id@) == old(self).slot_model(
                id@,
            ) && (r matches Some(Ok(b)) && b@ == encode_utf8(old(self).main.text@)),
            id@ != old(self).main_id() ==> {
                &&& final(self).slot_model(id@).file == begin_step(
                    old(self).slot_model(id@).file,
                ).0
                &&& final(self).slot_model(id@).source == old(self).slot_model(id@).source
                &&& match r {
                    Some(v) => begin_step(old(self).slot_model(id@).file).1 == Some(
                        result_view(v),
                    ),
                    None => begin_step(old(self).slot_model(id@).file).1 is None,
                }
            },
    {
        if id.same(&self.main.id) {
            let bytes = vstd::slice::slice_to_vec(self.main.text.as_str().as_bytes());
            return Some(Ok(bytes));
        }
        let i = self.slot_index(id);
        let ghost before = *self;
        proof {
            lemma_slot_at(before, i as int);
        }
        let r = self.slots[i].begin_file();
        proof {
            lemma_slot_updated(before, *self, i as int);
        }
        r
    }

    /// Finishes a resolution of the raw bytes of `id` with the outcome of its
    /// raw read.
    pub fn finish_file(&mut self, id: &FileId, out: Result<Vec<u8>, FileError>) -> (r: Result<
        Vec<u8>,
        FileError,
    >)
        requires
            old(self).wf(),
            id@ != old(self).main_id(),
        ensures
            final(self).wf(),
            final(self).same_except(old(self), id@),
            final(self).next_object == old(self).next_object,
            final(self).slot_model(id@).file == file_finish(
                old(self).slot_model(id@).file,
                outcome_view(&out),
            ).0,
            final(self).slot_model(id@).source == old(self).slot_model(id@).source,
            result_view(r) == file_finish(old(self).slot_model(id@).file, outcome_view(&out)).1,
    {
        let i = self.slot_index(id);
        let ghost before = *self;
        proof {
            lemma_slot_at(before, i as int);
        }
        let r = self.slots[i].finish_file(out);
        proof {
            lemma_slot_updated(before, *self, i as int);
        }
        r
    }
    /// Starts a new compilation pass: every cache must be consulted again.
    pub fn reset_pass(&mut self)
        requires
            old(self).wf(),
        ensures
            final(self).wf(),
            final(self).root == old(self).root,
            final(self).main@ == old(self).main@,
            final(self).now == old(self).now,
            final(self).next_object == old(self).next_object,
            forall|k: FileIdView|
                final(self).slot_model(k) == (SlotModel {
                    source: reset_step(old(self).slot_model(k).source),
                    file: reset_step(old(self).slot_model(k).file),
                }),
    {
        let ghost start = *self;
        let mut i: usize = 0;
        while i < self.slots.len()
            invariant
                start.wf(),
                self.wf(),
                i <= self.slots@.len(),
                self.slots@.len() == start.slots@.len(),
                self.root == start.root,
                self.main == start.main,
                self.now == start.now,
                self.next_object == start.next_object,
                forall|j: int|
                    0 <= j < self.slots@.len() ==> self.slots@[j].id@ == start.slots@[j].id@,
                forall|j: int|
                    0 <= j < i ==> self.slots@[j].model() == (SlotModel {
                        source: reset_step(start.slots@[j].model().source),
                        file: reset_step(start.slots@[j].model().file),
                    }),
                forall|j: int| i <= j < self.slots@.len() ==> self.slots@[j] == start.slots@[j],
            decreases self.slots@.len() - i,
        {
            self.slots[i].reset();
            i = i + 1;
        }
        assert forall|k: FileIdView|
            self.slot_model(k) == (SlotModel {
                source: reset_step(start.slot_model(k).source),
                file: reset_step(start.slot_model(k).file),
            }) by {
            if start.has_slot(k) {
                let j = choose|j: int| 0 <= j < start.slots@.len() && start.slots@[j].id@ == k;
                lemma_slot_at(start, j);
                lemma_slot_at(*self, j);
            } else {
                assert(!self.has_slot(k)) by {
                    if self.has_slot(k) {
                        let c = choose|c: int| 0 <= c < self.slots@.len() && self.slots@[c].id@ == k;
                        assert(start.slots@[c].id@ == k);
                    }
                }
                assert(reset_step(empty_slot().source) == empty_slot().source);
                assert(reset_step(empty_slot().file) == empty_slot().file);
            }
        }
    }

    /// The current date: local without an offset, else in UTC shifted by
    /// `offset` hours. The instant is read from the clock on the first call
    /// only; every later call of this store derives its date from it.
    pub fn today(&mut self, offset: Option<i64>) -> (r: Option<CalendarDate>)
        requires
            old(self).wf(),
        ensures
            final(self).wf(),
            final(self).root == old(self).root,
            final(self).main@ == old(self).main@,
            final(self).slots@ == old(self).slots@,
            final(self).next_object == old(self).next_object,
            final(self).now is Some,
            old(self).now is Some ==> final(self).now == old(self).now,
            r == date_spec(final(self).now->Some_0, offset),
    {
        let now = match self.now {
            Some(t) => t,
            None => {
                let t = clock_now();
                self.now = Some(t);
                t
            },
        };
        date_at(now, offset)
    }
}

/// The mathematical value of a prepared package directory, if any.
pub open spec fn package_dir_view(d: Option<Result<String, FileError>>) -> Option<
    Result<Seq<char>, FileError>,
> {
    match d {
        Some(Ok(p)) => Some(Ok(p@)),
        Some(Err(e)) => Some(Err(e)),
        None => None,
    }
}

/// A virtual path resolved under a directory; climbing out of it is
/// `AccessDenied`.
pub open spec fn resolve_spec(dir: Seq<char>, vpath: Seq<char>) -> Result<Seq<char>, FileError> {
    match resolved_path(dir, vpath) {
        Some(p) => Ok(p),
        None => Err(FileError::AccessDenied),
    }
}

/// The physical path of a file: under its package's directory when it lies
/// in a package, else under the project root.
pub open spec fn path_spec(
    root: Seq<char>,
    id: FileIdView,
    package_dir: Option<Result<Seq<char>, FileError>>,
) -> Result<Seq<char>, FileError> {
    match package_dir {
        Some(Err(e)) => Err(e),
        Some(Ok(dir)) => resolve_spec(dir, id.vpath),
        None => resolve_spec(root, id.vpath),
    }
}

/// The physical path of `id`. `package_dir` is what preparing the package
/// of `id` gave (its directory, or why it failed), and is given exactly when
/// `id` lies in a package.
pub fn system_path(root: &String, id: &FileId, package_dir: Option<Result<String, FileError>>) -> (r:
    Result<String, FileError>)
    requires
        id@.package is Some <==> package_dir is Some,
    ensures
        match r {
            Ok(p) => path_spec(root@, id@, package_dir_view(package_dir)) == Ok::<
                Seq<char>,
                FileError,
            >(p@),
            Err(e) => path_spec(root@, id@, package_dir_view(package_dir)) == Err::<
                Seq<char>,
                FileError,
            >(e),
        },
{
    let found = match package_dir {
        Some(Err(e)) => {
            return Err(e);
        },
        Some(Ok(dir)) => resolve_in(dir.as_str(), id.vpath.as_str()),
        None => resolve_in(root.as_str(), id.vpath.as_str()),
    };
    match found {
        Some(p) => Ok(p),
        None => Err(FileError::AccessDenied),
    }
}

/// The project root that a caller's setting names: the current directory
/// where none or an empty one is given.
pub fn project_root(root: Option<String>) -> (r: String)
    ensures
        r@ == match root {
            Some(s) => if s@.len() == 0 {
                seq!['.']
            } else {
                s@
            },
            None => seq!['.'],
        },
{
    proof {
        reveal_strlit(".");
    }
    match root {
        Some(s) => if s.as_str().is_empty() {
            let d = ".".to_owned();
            assert(d@ =~= seq!['.']);
            d
        } else {
            s
        },
        None => {
            let d = ".".to_owned();
            assert(d@ =~= seq!['.']);
            d
        },
    }
}

/// The slot at index `i` is the one that `slot_model` finds for its identity.
pub(crate) proof fn lemma_slot_at(w: SystemWorld, i: int)
    requires
        w.wf(),
        0 <= i < w.slots@.len(),
    ensures
        w.has_slot(w.slots@[i].id@),
        w.slot_model(w.slots@[i].id@) == w.slots@[i].model(),
{
    let id = w.slots@[i].id@;
    assert(w.has_slot(id));
    let c = choose|c: int| 0 <= c < w.slots@.len() && w.slots@[c].id@ == id;
    assert(c == i);
}

/// Changing the slot at index `i` alone changes the cache of its identity
/// alone.
proof fn lemma_slot_updated(before: SystemWorld, after: SystemWorld, i: int)
    requires
        before.wf(),
        0 <= i < before.slots@.len(),
        after.slots@.len() == before.slots@.len(),
        forall|j: int| 0 <= j < before.slots@.len() ==> after.slots@[j].id@ == before.slots@[j].id@,
        forall|j: int| 0 <= j < before.slots@.len() && j != i ==> after.slots@[j] == before.slots@[j],
        after.main == before.main,
        after.next_object >= before.next_object,
        objects_below(after.slots@[i].model().source, after.next_object),
    ensures
        after.wf(),
        after.slot_model(before.slots@[i].id@) == after.slots@[i].model(),
        forall|k: FileIdView|
            k != before.slots@[i].id@ ==> after.slot_model(k) == before.slot_model(k),
{
    assert forall|j: int| 0 <= j < after.slots@.len() implies objects_below(
        #[trigger] after.slots@[j].model().source,
        after.next_object,
    ) by {
        if j != i {
            assert(objects_below(before.slots@[j].model().source, before.next_object));
        }
    }
    assert(after.wf());
    lemma_slot_at(after, i);
    assert forall|k: FileIdView| k != before.slots@[i].id@ implies after.slot_model(k)
        == before.slot_model(k) by {
        if before.has_slot(k) {
            let j = choose|j: int| 0 <= j < before.slots@.len() && before.slots@[j].id@ == k;
            lemma_slot_at(before, j);
            lemma_slot_at(after, j);
        } else {
            assert(!after.has_slot(k)) by {
                if after.has_slot(k) {
                    let c = choose|c: int| 0 <= c < after.slots@.len() && after.slots@[c].id@ == k;
                    assert(before.slots@[c].id@ == k);
                }
            }
        }
    }
}

} // verus!
