//! One watched log file: how far it has been read, and what each change
//! notification asks the reader to do.

use crate::text::string_from_utf8;
use vstd::prelude::*;
use vstd::slice::{slice_subrange, slice_to_vec};
use vstd::utf8::{decode_utf8, decode_utf8_encode_utf8, encode_utf8, valid_utf8};

verus! {

/// What a change notification says happened to a path.
#[derive(Debug, Clone, Copy, PartialEq, Eq, Hash, Structural)]
pub enum WatchEventKind {
    /// The file's data changed.
    ModifiedData,
    /// The file is gone.
    Removed,
    /// Anything else.
    Other,
}

/// One change notification.
#[derive(Debug)]
pub struct WatchEvent {
    pub path: String,
    pub kind: WatchEventKind,
}

/// What the reader does next for a notification.
#[derive(Debug, Clone, Copy, PartialEq, Eq, Hash, Structural)]
pub enum WatchAction {
    /// Nothing.
    Ignore,
    /// Ask for the file's size and hand it to [`LogSource::plan`].
    Stat,
    /// Stop watching: the file was removed.
    Stop,
}

/// The bytes to read: `len` of them, more than zero, starting at `from`.
#[derive(Debug, Clone, Copy, PartialEq, Eq, Hash, Structural)]
pub struct ReadPlan {
    pub from: u64,
    pub len: u64,
}

/// Why a source stops.
#[derive(Debug, Clone, Copy, PartialEq, Eq, Hash, Structural)]
pub enum WatchError {
    /// The bytes handed in are not those that were asked for.
    Io,
    /// The new bytes are not UTF-8.
    Decode,
}

/// Text that was appended to a log file. It is never empty.
#[derive(Debug)]
pub struct ParsedChunk {
    text: String,
}

impl View for ParsedChunk {
    type V = Seq<char>;

    closed spec fn view(&self) -> Seq<char> {
        self.text@
    }
}

impl ParsedChunk {
    #[verifier::type_invariant]
    spec fn holds_text(self) -> bool {
        self.text@.len() > 0 && encode_utf8(self.text@).len() > 0
    }

    /// The chunk's text.
    pub fn text(&self) -> (t: &str)
        ensures
            t@ == self@,
            t@.len() > 0,
    {
        proof {
            use_type_invariant(self);
        }
        self.text.as_str()
    }

    /// The chunk's text, owned.
    pub fn into_text(self) -> (t: String)
        ensures
            t@ == self@,
            t@.len() > 0,
    {
        proof {
            use_type_invariant(&self);
        }
        self.text
    }

    /// The number of bytes that the chunk takes in the file.
    pub fn byte_len(&self) -> (n: usize)
        ensures
            n == encode_utf8(self@).len(),
            n > 0,
    {
        proof {
            use_type_invariant(self);
        }
        self.text.as_str().as_bytes().len()
    }
}

/// What there is to read of a file of `size` bytes that has been read up
/// to `offset`: the bytes from `offset` on if the file is longer than
/// that, and nothing if it has the same size or is shorter.
pub open spec fn read_plan(offset: u64, size: u64) -> Option<ReadPlan> {
    if size > offset {
        Some(ReadPlan { from: offset, len: (size - offset) as u64 })
    } else {
        None
    }
}

/// Whether `bytes` can be what was read for `plan` by a source that
/// stands at `offset`: the plan starts there, asks for at least one
/// byte, ends within the range of file positions, and `bytes` has the
/// planned length.
pub open spec fn plan_fits(offset: u64, plan: ReadPlan, bytes: Seq<u8>) -> bool {
    &&& plan.from == offset
    &&& plan.len > 0
    &&& plan.from + plan.len <= u64::MAX
    &&& bytes.len() == plan.len
}

/// The bytes of `file` that lie beyond `offset`, if there are any.
pub open spec fn appended(offset: u64, file: Seq<u8>) -> Option<Seq<u8>> {
    if file.len() > offset {
        Some(file.subrange(offset as int, file.len() as int))
    } else {
        None
    }
}

/// A file that grows by `written` at its end, read up to its old end,
/// has exactly `written` to read.
pub proof fn lemma_growth_is_what_was_written(before: Seq<u8>, written: Seq<u8>)
    requires
        written.len() > 0,
        before.len() + written.len() <= u64::MAX,
    ensures
        appended(before.len() as u64, before + written) == Some(written),
{
    assert((before + written).subrange(before.len() as int, (before + written).len() as int)
        =~= written);
}

/// A file that is no longer than what has been read has nothing to
/// read, however short it has become.
pub proof fn lemma_truncation_has_nothing_to_read(offset: u64, file: Seq<u8>)
    requires
        file.len() <= offset,
    ensures
        appended(offset, file) is None,
        file.len() <= u64::MAX ==> read_plan(offset, file.len() as u64) is None,
{
}

/// After a truncation, what there is to read starts where reading had
/// stopped: the bytes before that are never read again.
pub proof fn lemma_growth_past_offset_resumes_there(offset: u64, file: Seq<u8>)
    requires
        file.len() > offset,
    ensures
        appended(offset, file) matches Some(bytes) && bytes.len() == file.len() - offset
            && forall|i: int| 0 <= i < bytes.len() ==> bytes[i] == file[offset + i],
{
}

/// Where a source that stands at `offset` stands after one round on
/// `file`: at the end of the file if there was text to read, and where
/// it stood if there was nothing to read or what there was is no text.
pub open spec fn offset_after_round(offset: u64, file: Seq<u8>) -> u64 {
    match appended(offset, file) {
        Some(bytes) => if valid_utf8(bytes) && file.len() <= u64::MAX {
            file.len() as u64
        } else {
            offset
        },
        None => offset,
    }
}

/// Where a source that stands at `offset` stands after one round on each
/// of `files` in turn.
pub open spec fn offset_after_rounds(offset: u64, files: Seq<Seq<u8>>) -> u64
    decreases files.len(),
{
    if files.len() == 0 {
        offset
    } else {
        offset_after_round(offset_after_rounds(offset, files.drop_last()), files.last())
    }
}

/// The offset of a source never goes back, whatever becomes of the file.
pub proof fn lemma_offset_never_goes_back(offset: u64, files: Seq<Seq<u8>>)
    ensures
        offset_after_rounds(offset, files) >= offset,
    decreases files.len(),
{
    if files.len() > 0 {
        lemma_offset_never_goes_back(offset, files.drop_last());
    }
}

/// While the file is no longer than what has been read, round after
/// round gives nothing and leaves the offset where it is.
pub proof fn lemma_nothing_until_growth(offset: u64, files: Seq<Seq<u8>>)
    requires
        forall|i: int| 0 <= i < files.len() ==> (#[trigger] files[i]).len() <= offset,
    ensures
        offset_after_rounds(offset, files) == offset,
        forall|i: int| 0 <= i < files.len() ==> appended(offset, #[trigger] files[i]) is None,
    decreases files.len(),
{
    if files.len() > 0 {
        let before = files.drop_last();
        assert forall|i: int| 0 <= i < before.len() implies (#[trigger] before[i]).len()
            <= offset by {
            assert(before[i] == files[i]);
        }
        lemma_nothing_until_growth(offset, before);
        assert(files.last() == files[files.len() - 1]);
    }
}

/// One monitored log file and how far it has been read.
#[derive(Debug)]
pub struct LogSource {
    path: String,
    offset: u64,
}

impl LogSource {
    /// The file's path.
    pub closed spec fn spec_path(&self) -> Seq<char> {
        self.path@
    }

    /// The number of bytes of the file that have been read or skipped.
    pub closed spec fn spec_offset(&self) -> u64 {
        self.offset
    }

    /// Starts at the file's current size: what the file holds already
    /// is not read.
    pub fn new(path: String, size: u64) -> (source: LogSource)
        ensures
            source.spec_path() == path@,
            source.spec_offset() == size,
    {
        LogSource { path, offset: size }
    }

    pub fn path(&self) -> (p: &str)
        ensures
            p@ == self.spec_path(),
    {
        self.path.as_str()
    }

    #[verifier::when_used_as_spec(spec_offset)]
    pub fn offset(&self) -> (o: u64)
        ensures
            o == self.spec_offset(),
    {
        self.offset
    }

    /// What a notification asks for. One for another path is ignored.
    /// For this path: changed data asks for the file's size, a removal
    /// ends the watch, anything else is ignored.
    pub fn on_event(&self, event: &WatchEvent) -> (action: WatchAction)
        ensures
            action == (if event.path@ != self.spec_path() {
                WatchAction::Ignore
            } else {
                match event.kind {
                    WatchEventKind::ModifiedData => WatchAction::Stat,
                    WatchEventKind::Removed => WatchAction::Stop,
                    WatchEventKind::Other => WatchAction::Ignore,
                }
            }),
    {
        if event.path != self.path {
            return WatchAction::Ignore;
        }
        match event.kind {
            WatchEventKind::ModifiedData => WatchAction::Stat,
            WatchEventKind::Removed => WatchAction::Stop,
            WatchEventKind::Other => WatchAction::Ignore,
        }
    }

    /// What to read, given the file's current size.
    pub fn plan(&self, current_size: u64) -> (plan: Option<ReadPlan>)
        ensures
            plan == read_plan(self.spec_offset(), current_size),
    {
        if current_size > self.offset {
            Some(ReadPlan { from: self.offset, len: current_size - self.offset })
        } else {
            None
        }
    }

    /// Takes the bytes that were read for `plan`. Where they are the
    /// planned number of bytes from the current offset and are UTF-8,
    /// the offset moves past them and they become one chunk. Otherwise
    /// the source fails and its offset stays.
    pub fn commit(&mut self, plan: ReadPlan, bytes: Vec<u8>) -> (res: Result<
        ParsedChunk,
        WatchError,
    >)
        ensures
            final(self).spec_path() == old(self).spec_path(),
            final(self).spec_offset() >= old(self).spec_offset(),
            !plan_fits(old(self).spec_offset(), plan, bytes@) ==> res == Err::<
                ParsedChunk,
                WatchError,
            >(WatchError::Io),
            plan_fits(old(self).spec_offset(), plan, bytes@) && !valid_utf8(bytes@) ==> res
                == Err::<ParsedChunk, WatchError>(WatchError::Decode),
            plan_fits(old(self).spec_offset(), plan, bytes@) && valid_utf8(bytes@) ==> res is Ok,
            res matches Ok(chunk) ==> chunk@ == decode_utf8(bytes@) && encode_utf8(chunk@)
                == bytes@,
            res is Err ==> final(self).spec_offset() == old(self).spec_offset(),
            res is Ok ==> final(self).spec_offset() == old(self).spec_offset() + bytes@.len(),
    {
        if plan.from != self.offset || plan.len == 0 || plan.len > u64::MAX - plan.from {
            return Err(WatchError::Io);
        }
        if bytes.len() as u64 != plan.len {
            return Err(WatchError::Io);
        }
        let ghost raw = bytes@;
        match string_from_utf8(bytes) {
            None => Err(WatchError::Decode),
            Some(text) => {
                proof {
                    decode_utf8_encode_utf8(raw);
                    assert(text@.len() > 0);
                }
                self.offset = self.offset + plan.len;
                Ok(ParsedChunk { text })
            },
        }
    }

    /// One round against a file held in memory: plans from the file's
    /// size, reads the planned bytes and commits them.
    pub fn poll(&mut self, file: &[u8]) -> (res: Result<Option<ParsedChunk>, WatchError>)
        ensures
            final(self).spec_path() == old(self).spec_path(),
            final(self).spec_offset() >= old(self).spec_offset(),
            final(self).spec_offset() == offset_after_round(old(self).spec_offset(), file@),
            match appended(old(self).spec_offset(), file@) {
                None => {
                    &&& res matches Ok(None)
                    &&& final(self).spec_offset() == old(self).spec_offset()
                },
                Some(bytes) => if valid_utf8(bytes) {
                    &&& res matches Ok(Some(chunk)) && chunk@ == decode_utf8(bytes)
                        && encode_utf8(chunk@) == bytes
                    &&& final(self).spec_offset() == file@.len()
                } else {
                    &&& res matches Err(e) && e == WatchError::Decode
                    &&& final(self).spec_offset() == old(self).spec_offset()
                },
            },
    {
        let size: u64 = file.len() as u64;
        match self.plan(size) {
            None => Ok(None),
            Some(plan) => {
                let bytes = slice_to_vec(slice_subrange(file, plan.from as usize, file.len()));
                match self.commit(plan, bytes) {
                    Ok(chunk) => Ok(Some(chunk)),
                    Err(e) => Err(e),
                }
            },
        }
    }
}

} // verus!
