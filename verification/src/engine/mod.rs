//! The engine: the loaded modules, each with the one log file it reads,
//! and the way from a change notification to the module it is for.

pub mod config;
pub mod plugin;
pub mod watcher;

use crate::engine::plugin::Plugin;
use crate::engine::watcher::{appended, plan_fits, LogSource, ParsedChunk, ReadPlan, WatchError};
use crate::text::same_text;
use vstd::prelude::*;
use vstd::utf8::{decode_utf8, valid_utf8};

verus! {

/// One module and the log file it reads.
#[derive(Debug)]
pub struct Pipeline {
    source: LogSource,
    plugin: Plugin,
    declared_log_path: String,
}

/// What the engine knows of one pipeline, as plain values.
pub struct PipelineView {
    /// The module's name.
    pub module: Seq<char>,
    /// Where the module was loaded from.
    pub location: Seq<char>,
    /// The log file that the module said it wants read.
    pub declared_log_path: Seq<char>,
    /// The canonical path of the file that is read.
    pub path: Seq<char>,
    /// How far the file has been read.
    pub offset: u64,
}

impl View for Pipeline {
    type V = PipelineView;

    closed spec fn view(&self) -> PipelineView {
        PipelineView {
            module: self.plugin.plugin_name@,
            location: self.plugin.plugin_location@,
            declared_log_path: self.declared_log_path@,
            path: self.source.spec_path(),
            offset: self.source.spec_offset(),
        }
    }
}

impl Pipeline {
    pub fn plugin(&self) -> (plugin: &Plugin)
        ensures
            plugin.plugin_name@ == self@.module,
            plugin.plugin_location@ == self@.location,
    {
        &self.plugin
    }

    pub fn declared_log_path(&self) -> (path: &str)
        ensures
            path@ == self@.declared_log_path,
    {
        self.declared_log_path.as_str()
    }

    pub fn source(&self) -> (source: &LogSource)
        ensures
            source.spec_path() == self@.path,
            source.spec_offset() == self@.offset,
    {
        &self.source
    }
}

/// What came of one round for a pipeline.
#[derive(Debug, Clone, Copy, PartialEq, Eq, Hash, Structural)]
pub enum RoundOutcome {
    /// Nothing: the notification was ignored, or there was nothing to
    /// read.
    Idle,
    /// A chunk was read and handed on.
    Delivered,
    /// The file was removed.
    Removed,
    /// The round failed: the file could not be read, or what was read is
    /// no text.
    Failed(WatchError),
}

impl RoundOutcome {
    /// Whether the pipeline ends with this round: its file is gone, or
    /// the round failed.
    pub open spec fn ends_pipeline(self) -> bool {
        self is Removed || self is Failed
    }
}

/// Whether watching goes on.
#[derive(Debug, Clone, Copy, PartialEq, Eq, Hash, Structural)]
pub enum Next {
    /// There are pipelines left to watch.
    Continue,
    /// No pipeline is left.
    Finished,
}

/// What the engine did after a round.
#[derive(Debug)]
pub struct Settled {
    /// The pipeline that ended, if one did.
    pub retired: Option<Pipeline>,
    pub next: Next,
}

/// Why a module was not taken in.
#[derive(Debug)]
pub enum EngineError {
    /// A module of this name is there already.
    DuplicateModule(String),
    /// This log file is read by another module already.
    DuplicateSource(String),
}

/// No two pipelines have the same module name, and no two read the same
/// file.
pub open spec fn one_to_one(pipelines: Seq<PipelineView>) -> bool {
    forall|i: int, j: int|
        0 <= i < pipelines.len() && 0 <= j < pipelines.len() && i != j ==> (
        #[trigger] pipelines[i]).module != (#[trigger] pipelines[j]).module && pipelines[i].path
            != pipelines[j].path
}

/// Where the pipeline that reads `path` stands, if there is one.
pub open spec fn reads_path(pipelines: Seq<PipelineView>, i: int, path: Seq<char>) -> bool {
    0 <= i < pipelines.len() && pipelines[i].path == path
}

/// Whether no pipeline reads `path`.
pub open spec fn unread(pipelines: Seq<PipelineView>, path: Seq<char>) -> bool {
    forall|j: int| 0 <= j < pipelines.len() ==> (#[trigger] pipelines[j]).path != path
}

/// The pipelines with the one at `i` moved on to `offset`.
pub open spec fn advanced(pipelines: Seq<PipelineView>, i: int, offset: u64) -> Seq<
    PipelineView,
> {
    pipelines.update(i, PipelineView { offset, ..pipelines[i] })
}

/// The loaded modules, each with the log file it reads. No two modules
/// have the same name, and no two read the same file.
#[derive(Debug)]
pub struct Engine {
    pipelines: Vec<Pipeline>,
}

impl View for Engine {
    type V = Seq<PipelineView>;

    closed spec fn view(&self) -> Seq<PipelineView> {
        views_of(self.pipelines@)
    }
}

/// The plain values of a run of pipelines.
pub open spec fn views_of(pipelines: Seq<Pipeline>) -> Seq<PipelineView> {
    Seq::new(pipelines.len(), |i: int| pipelines[i]@)
}

impl Engine {
    #[verifier::type_invariant]
    spec fn modules_and_sources_one_to_one(self) -> bool {
        one_to_one(self@)
    }

    /// Hands the pipelines out and leaves the engine without any.
    fn take_pipelines(&mut self) -> (pipelines: Vec<Pipeline>)
        ensures
            views_of(pipelines@) == old(self)@,
            pipelines@.len() == old(self)@.len(),
            one_to_one(old(self)@),
            final(self)@.len() == 0,
    {
        proof {
            use_type_invariant(&*self);
        }
        let mut taken = Engine { pipelines: Vec::new() };
        core::mem::swap(self, &mut taken);
        taken.pipelines
    }

    /// An engine without modules.
    pub fn new() -> (engine: Engine)
        ensures
            engine@.len() == 0,
    {
        Engine { pipelines: Vec::new() }
    }

    /// The number of modules.
    pub fn len(&self) -> (n: usize)
        ensures
            n == self@.len(),
            one_to_one(self@),
    {
        proof {
            use_type_invariant(self);
        }
        self.pipelines.len()
    }

    /// The pipeline at `index`.
    pub fn pipeline(&self, index: usize) -> (p: Option<&Pipeline>)
        ensures
            p is Some <==> index < self@.len(),
            p matches Some(q) ==> q@ == self@[index as int],
    {
        if index < self.pipelines.len() {
            Some(&self.pipelines[index])
        } else {
            None
        }
    }

    /// Where the module of this name stands, if it is there.
    pub fn find_module(&self, name: &str) -> (at: Option<usize>)
        ensures
            at matches Some(i) ==> i < self@.len() && self@[i as int].module == name@,
            at is None ==> forall|j: int| 0 <= j < self@.len() ==> self@[j].module != name@,
    {
        let mut i: usize = 0;
        while i < self.pipelines.len()
            invariant
                i <= self.pipelines.len(),
                self@.len() == self.pipelines.len(),
                forall|j: int| 0 <= j < i ==> self@[j].module != name@,
            decreases self.pipelines.len() - i,
        {
            if same_text(self.pipelines[i].plugin.get_plugin_name(), name) {
                return Some(i);
            }
            i += 1;
        }
        None
    }

    /// Where the pipeline that reads `path` stands, if there is one. No
    /// other pipeline reads that path.
    pub fn find_source(&self, path: &str) -> (at: Option<usize>)
        ensures
            at matches Some(i) ==> reads_path(self@, i as int, path@) && forall|j: int|
                0 <= j < self@.len() && j != i ==> self@[j].path != path@,
            at is None ==> unread(self@, path@),
    {
        proof {
            use_type_invariant(self);
        }
        let mut i: usize = 0;
        while i < self.pipelines.len()
            invariant
                i <= self.pipelines.len(),
                self@.len() == self.pipelines.len(),
                one_to_one(self@),
                forall|j: int| 0 <= j < i ==> self@[j].path != path@,
            decreases self.pipelines.len() - i,
        {
            if same_text(self.pipelines[i].source.path(), path) {
                assert forall|j: int| 0 <= j < self@.len() && j != i implies self@[j].path
                    != path@ by {
                    assert(self@[j].path != self@[i as int].path);
                }
                return Some(i);
            }
            i += 1;
        }
        None
    }

    /// Takes a loaded module in, with the log file that it said it wants
    /// read, the canonical path of that file, and the file's current
    /// size: reading starts there. A module whose name, or whose file,
    /// the engine has already is turned away, and the engine stays as it
    /// is.
    pub fn register(
        &mut self,
        plugin: Plugin,
        declared_log_path: String,
        path: String,
        size: u64,
    ) -> (res: Result<usize, EngineError>)
        ensures
            match res {
                Ok(index) => {
                    &&& index == old(self)@.len()
                    &&& final(self)@ == old(self)@.push(
                        PipelineView {
                            module: plugin.plugin_name@,
                            location: plugin.plugin_location@,
                            declared_log_path: declared_log_path@,
                            path: path@,
                            offset: size,
                        },
                    )
                    &&& forall|j: int|
                        0 <= j < old(self)@.len() ==> old(self)@[j].module != plugin.plugin_name@
                            && old(self)@[j].path != path@
                },
                Err(EngineError::DuplicateModule(name)) => {
                    &&& final(self)@ == old(self)@
                    &&& name == plugin.plugin_name
                    &&& exists|j: int|
                        0 <= j < old(self)@.len() && old(self)@[j].module == plugin.plugin_name@
                },
                Err(EngineError::DuplicateSource(p)) => {
                    &&& final(self)@ == old(self)@
                    &&& p == path
                    &&& forall|j: int|
                        0 <= j < old(self)@.len() ==> old(self)@[j].module != plugin.plugin_name@
                    &&& exists|j: int| 0 <= j < old(self)@.len() && old(self)@[j].path == path@
                },
            },
    {
        proof {
            use_type_invariant(&*self);
        }
        if self.find_module(plugin.get_plugin_name()).is_some() {
            return Err(EngineError::DuplicateModule(plugin.plugin_name));
        }
        if self.find_source(path.as_str()).is_some() {
            return Err(EngineError::DuplicateSource(path));
        }
        let ghost before = self@;
        let ghost added = PipelineView {
            module: plugin.plugin_name@,
            location: plugin.plugin_location@,
            declared_log_path: declared_log_path@,
            path: path@,
            offset: size,
        };
        let source = LogSource::new(path, size);
        let mut pipelines = self.take_pipelines();
        let index = pipelines.len();
        pipelines.push(Pipeline { source, plugin, declared_log_path });
        proof {
            assert(views_of(pipelines@) =~= before.push(added));
        }
        *self = Engine { pipelines };
        Ok(index)
    }

    /// Where the first of an event's paths that the engine reads leads:
    /// the position of that path in the event, and the pipeline.
    pub fn route(&self, paths: &Vec<String>) -> (hit: Option<(usize, usize)>)
        ensures
            hit matches Some((k, i)) ==> {
                &&& k < paths@.len()
                &&& reads_path(self@, i as int, paths@[k as int]@)
                &&& forall|n: int| 0 <= n < k ==> unread(self@, (#[trigger] paths@[n])@)
            },
            hit is None ==> forall|n: int|
                0 <= n < paths@.len() ==> unread(self@, (#[trigger] paths@[n])@),
    {
        let mut k: usize = 0;
        while k < paths.len()
            invariant
                k <= paths.len(),
                forall|n: int| 0 <= n < k ==> unread(self@, (#[trigger] paths@[n])@),
            decreases paths.len() - k,
        {
            match self.find_source(paths[k].as_str()) {
                Some(i) => {
                    return Some((k, i));
                },
                None => {},
            }
            k += 1;
        }
        None
    }

    /// Takes the bytes that were read for `plan` on behalf of the
    /// pipeline at `index`, as [`LogSource::commit`] does. No other
    /// pipeline moves. An index beyond the pipelines is an I/O failure.
    pub fn commit(&mut self, index: usize, plan: ReadPlan, bytes: Vec<u8>) -> (res: Result<
        ParsedChunk,
        WatchError,
    >)
        ensures
            final(self)@.len() == old(self)@.len(),
            index >= old(self)@.len() ==> res == Err::<ParsedChunk, WatchError>(WatchError::Io),
            index < old(self)@.len() ==> {
                let offset = old(self)@[index as int].offset;
                &&& !plan_fits(offset, plan, bytes@) ==> res == Err::<ParsedChunk, WatchError>(
                    WatchError::Io,
                )
                &&& plan_fits(offset, plan, bytes@) && !valid_utf8(bytes@) ==> res == Err::<
                    ParsedChunk,
                    WatchError,
                >(WatchError::Decode)
                &&& plan_fits(offset, plan, bytes@) && valid_utf8(bytes@) ==> res is Ok
            },
            res matches Ok(chunk) ==> {
                &&& chunk@ == decode_utf8(bytes@)
                &&& final(self)@ == advanced(
                    old(self)@,
                    index as int,
                    (old(self)@[index as int].offset + bytes@.len()) as u64,
                )
            },
            res is Err ==> final(self)@ == old(self)@,
    {
        proof {
            use_type_invariant(&*self);
        }
        if index >= self.pipelines.len() {
            return Err(WatchError::Io);
        }
        let ghost before = self@;
        let mut pipelines = self.take_pipelines();
        let mut pipeline = pipelines.remove(index);
        let outcome = pipeline.source.commit(plan, bytes);
        pipelines.insert(index, pipeline);
        proof {
            match outcome {
                Ok(_) => {
                    assert(views_of(pipelines@) =~= advanced(
                        before,
                        index as int,
                        (before[index as int].offset + bytes@.len()) as u64,
                    ));
                },
                Err(_) => {
                    assert(views_of(pipelines@) =~= before);
                },
            }
        }
        *self = Engine { pipelines };
        outcome
    }

    /// Lets the pipeline at `index` go, as when its file was removed, and
    /// hands it out. The others stay as they are, in their order.
    pub fn retire(&mut self, index: usize) -> (gone: Option<Pipeline>)
        ensures
            index < old(self)@.len() ==> {
                &&& gone matches Some(p) && p@ == old(self)@[index as int]
                &&& final(self)@ == old(self)@.remove(index as int)
            },
            index >= old(self)@.len() ==> gone is None && final(self)@ == old(self)@,
    {
        proof {
            use_type_invariant(&*self);
        }
        if index >= self.pipelines.len() {
            return None;
        }
        let ghost before = self@;
        let mut pipelines = self.take_pipelines();
        let pipeline = pipelines.remove(index);
        proof {
            assert(views_of(pipelines@) =~= before.remove(index as int));
            let after = before.remove(index as int);
            assert forall|i: int, j: int|
                0 <= i < after.len() && 0 <= j < after.len() && i != j implies (
            #[trigger] after[i]).module != (#[trigger] after[j]).module && after[i].path
                != after[j].path by {
                let a = if i < index { i } else { i + 1 };
                let b = if j < index { j } else { j + 1 };
                assert(after[i] == before[a]);
                assert(after[j] == before[b]);
            }
        }
        *self = Engine { pipelines };
        Some(pipeline)
    }

    /// Settles a round for the pipeline at `index`. A pipeline whose file
    /// was removed, or whose round failed, ends: it leaves the engine and
    /// is handed out, and the others stay as they are, in their order.
    /// After any other round the engine stays as it is. Watching is
    /// finished exactly when no pipeline is left.
    pub fn settle(&mut self, index: usize, outcome: RoundOutcome) -> (settled: Settled)
        ensures
            outcome.ends_pipeline() && index < old(self)@.len() ==> {
                &&& settled.retired matches Some(p) && p@ == old(self)@[index as int]
                &&& final(self)@ == old(self)@.remove(index as int)
            },
            !(outcome.ends_pipeline() && index < old(self)@.len()) ==> {
                &&& settled.retired is None
                &&& final(self)@ == old(self)@
            },
            settled.next == Next::Finished <==> final(self)@.len() == 0,
    {
        let retired = match outcome {
            RoundOutcome::Removed => self.retire(index),
            RoundOutcome::Failed(_) => self.retire(index),
            RoundOutcome::Idle => None,
            RoundOutcome::Delivered => None,
        };
        let next = if self.len() == 0 {
            Next::Finished
        } else {
            Next::Continue
        };
        Settled { retired, next }
    }

    /// One round for the file at `path`, held in memory: the pipeline
    /// that reads `path` takes what was appended to the file and hands it
    /// out as one chunk, with its own position. No other pipeline moves,
    /// and a path that no pipeline reads gives nothing.
    pub fn deliver(&mut self, path: &str, file: &[u8]) -> (res: Result<
        Option<(usize, ParsedChunk)>,
        WatchError,
    >)
        ensures
            final(self)@.len() == old(self)@.len(),
            unread(old(self)@, path@) ==> {
                &&& res matches Ok(None)
                &&& final(self)@ == old(self)@
            },
            forall|i: int| #[trigger]
                reads_path(old(self)@, i, path@) ==> match appended(old(self)@[i].offset, file@) {
                    None => {
                        &&& res matches Ok(None)
                        &&& final(self)@ == old(self)@
                    },
                    Some(bytes) => if valid_utf8(bytes) {
                        &&& res matches Ok(Some((at, chunk))) && at == i && chunk@ == decode_utf8(
                            bytes,
                        )
                        &&& final(self)@ == advanced(old(self)@, i, file@.len() as u64)
                    } else {
                        &&& res matches Err(e) && e == WatchError::Decode
                        &&& final(self)@ == old(self)@
                    },
                },
    {
        proof {
            use_type_invariant(&*self);
        }
        let index = match self.find_source(path) {
            Some(i) => i,
            None => {
                return Ok(None);
            },
        };
        let ghost before = self@;
        let mut pipelines = self.take_pipelines();
        let mut pipeline = pipelines.remove(index);
        let outcome = pipeline.source.poll(file);
        pipelines.insert(index, pipeline);
        proof {
            match outcome {
                Ok(Some(_)) => {
                    assert(views_of(pipelines@) =~= advanced(
                        before,
                        index as int,
                        file@.len() as u64,
                    ));
                },
                _ => {
                    assert(views_of(pipelines@) =~= before);
                },
            }
        }
        *self = Engine { pipelines };
        match outcome {
            Ok(Some(chunk)) => Ok(Some((index, chunk))),
            Ok(None) => Ok(None),
            Err(e) => Err(e),
        }
    }
}

} // verus!
