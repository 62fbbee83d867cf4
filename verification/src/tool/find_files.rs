//! The file search tool: a filter over directory entries and a depth-first
//! traversal that is driven one step at a time.

use crate::expand::expand_path;
use crate::pattern::{compile, is_match, pattern_matches, pattern_source, source};
use crate::time::Timestamp;
use crate::tool::{Tool, ToolError};
use regex::Regex;
use std::path::PathBuf;
use vstd::prelude::*;

verus! {

/// Parameters specific to the FindFiles tool.
pub struct FindFilesParams {
    pub in_directory: String,
    pub is_directory: Option<bool>,
    pub is_symlink: Option<bool>,
    /// In bytes.
    pub min_size: Option<u64>,
    pub min_time_created: Option<Timestamp>,
    /// In bytes.
    pub max_size: Option<u64>,
    pub max_time_created: Option<Timestamp>,
    pub min_time_modified: Option<Timestamp>,
    pub max_time_modified: Option<Timestamp>,
    pub name_regex: Option<String>,
}

/// An output specific to the FindFiles tool.
#[derive(Debug)]
pub struct FindFilesOutput {
    pub path: String,
}

/// What the file system tells about one file.
#[derive(Clone, Copy, Debug)]
pub struct FileMeta {
    pub is_symlink: bool,
    pub is_dir: bool,
    /// In bytes.
    pub len: u64,
    /// `None` where the platform cannot tell.
    pub created: Option<Timestamp>,
    /// `None` where the platform cannot tell.
    pub modified: Option<Timestamp>,
}

/// One entry of a directory listing.
pub struct FileEntry {
    pub path: String,
    /// The last component of the path; `None` if it is not valid Unicode.
    pub name: Option<String>,
    /// Metadata of the entry itself; a symbolic link is not followed.
    pub meta: FileMeta,
    /// For a symbolic link, the metadata of the file it leads to; `None` for
    /// other entries and for a link that cannot be resolved.
    pub target: Option<FileMeta>,
}

impl FileEntry {
    /// The metadata that type and size are judged by: the link's target where
    /// the entry is a resolved symbolic link, the entry's own otherwise.
    pub open spec fn resolved(&self) -> FileMeta {
        match self.target {
            Some(target) if self.meta.is_symlink => target,
            _ => self.meta,
        }
    }
}

/// Whether `time` lies within the optional bounds, both inclusive. A time
/// that is unknown lies within no bounds, unless there are none.
pub open spec fn time_within(
    time: Option<Timestamp>,
    min: Option<Timestamp>,
    max: Option<Timestamp>,
) -> bool {
    (min is Some || max is Some) ==> {
        &&& time is Some
        &&& min matches Some(lo) ==> time->0.total_nanos() >= lo.total_nanos()
        &&& max matches Some(hi) ==> time->0.total_nanos() <= hi.total_nanos()
    }
}

/// Whether `size` lies within the optional bounds, both inclusive.
pub open spec fn size_within(size: u64, min: Option<u64>, max: Option<u64>) -> bool {
    &&& min matches Some(lo) ==> size >= lo
    &&& max matches Some(hi) ==> size <= hi
}

/// The conditions that an entry has to meet to be reported.
pub struct Filter {
    pub is_directory: Option<bool>,
    pub is_symlink: Option<bool>,
    pub min_size: Option<u64>,
    pub min_time_created: Option<Timestamp>,
    pub max_size: Option<u64>,
    pub max_time_created: Option<Timestamp>,
    pub min_time_modified: Option<Timestamp>,
    pub max_time_modified: Option<Timestamp>,
    pub name_regex: Option<Regex>,
}

impl Filter {
    /// The text of the name pattern, if there is one.
    pub open spec fn name_pattern(&self) -> Option<Seq<char>> {
        match self.name_regex {
            Some(re) => Some(pattern_source(&re)),
            None => None,
        }
    }

    /// Whether the filter asks exactly what `params` ask.
    pub open spec fn reflects(&self, params: &FindFilesParams) -> bool {
        &&& self.is_directory == params.is_directory
        &&& self.is_symlink == params.is_symlink
        &&& self.min_size == params.min_size
        &&& self.max_size == params.max_size
        &&& self.min_time_created == params.min_time_created
        &&& self.max_time_created == params.max_time_created
        &&& self.min_time_modified == params.min_time_modified
        &&& self.max_time_modified == params.max_time_modified
        &&& self.name_pattern() == match params.name_regex {
            Some(p) => Some(p@),
            None => None,
        }
    }

    /// Whether an entry with this name passes the name pattern: the pattern
    /// has to match somewhere in the name, so a name that is not valid
    /// Unicode passes no pattern.
    pub open spec fn name_accepted(&self, name: Option<String>) -> bool {
        self.name_regex matches Some(re) ==> name matches Some(n) && pattern_matches(&re, n@)
    }

    /// The text of the name pattern, if there is one.
    pub fn pattern(&self) -> (text: Option<&str>)
        ensures
            match text {
                Some(t) => self.name_pattern() == Some(t@),
                None => self.name_pattern() is None,
            },
    {
        match &self.name_regex {
            Some(re) => Some(source(re)),
            None => None,
        }
    }

    /// Whether `entry` meets every condition of the filter.
    ///
    /// Link status, times and name are those of the entry itself; type and
    /// size are those of the file that a symbolic link leads to.
    pub open spec fn accepts(&self, entry: &FileEntry) -> bool {
        &&& self.is_symlink matches Some(want) ==> entry.meta.is_symlink == want
        &&& time_within(entry.meta.created, self.min_time_created, self.max_time_created)
        &&& time_within(entry.meta.modified, self.min_time_modified, self.max_time_modified)
        &&& self.name_accepted(entry.name)
        &&& self.is_directory matches Some(want) ==> entry.resolved().is_dir == want
        &&& size_within(entry.resolved().len, self.min_size, self.max_size)
    }

    /// Whether the filter asks for the type or the size of an entry, which
    /// for a symbolic link are those of the file it leads to.
    pub open spec fn asks_for_target(&self) -> bool {
        self.is_directory is Some || self.min_size is Some || self.max_size is Some
    }

    /// Decides whether the file that a symbolic link leads to has to be
    /// looked up for this filter.
    pub fn wants_target(&self) -> (wanted: bool)
        ensures
            wanted == self.asks_for_target(),
    {
        self.is_directory.is_some() || self.min_size.is_some() || self.max_size.is_some()
    }

    /// Puts a filter together from the parameters and the outcome of compiling
    /// their name pattern, where they have one.
    pub fn assemble(params: FindFilesParams, compiled: Option<Result<Regex, regex::Error>>) -> (res:
        Result<Filter, ToolError>)
        ensures
            compiled matches Some(Err(e)) ==> res == Err::<Filter, ToolError>(ToolError::Regex(e)),
            !(compiled matches Some(Err(_))) ==> {
                &&& res matches Ok(f)
                &&& f.is_directory == params.is_directory
                &&& f.is_symlink == params.is_symlink
                &&& f.min_size == params.min_size
                &&& f.max_size == params.max_size
                &&& f.min_time_created == params.min_time_created
                &&& f.max_time_created == params.max_time_created
                &&& f.min_time_modified == params.min_time_modified
                &&& f.max_time_modified == params.max_time_modified
                &&& f.name_regex == match compiled {
                    Some(Ok(re)) => Some(re),
                    _ => None,
                }
            },
    {
        let name_regex = match compiled {
            Some(Ok(re)) => Some(re),
            Some(Err(e)) => {
                return Err(ToolError::Regex(e));
            },
            None => None,
        };
        Ok(
            Filter {
                is_directory: params.is_directory,
                is_symlink: params.is_symlink,
                min_size: params.min_size,
                min_time_created: params.min_time_created,
                max_size: params.max_size,
                max_time_created: params.max_time_created,
                min_time_modified: params.min_time_modified,
                max_time_modified: params.max_time_modified,
                name_regex,
            },
        )
    }

    /// Builds the filter that `params` describe, compiling the name pattern.
    ///
    /// Fails only where there is a name pattern and it does not compile.
    pub fn try_from(params: FindFilesParams) -> (res: Result<Filter, ToolError>)
        ensures
            params.name_regex is None ==> res is Ok,
            res matches Ok(f) ==> f.reflects(&params),
            res matches Err(e) ==> e is Regex && params.name_regex is Some,
    {
        let compiled = match &params.name_regex {
            Some(pattern) => Some(compile(pattern.as_str())),
            None => None,
        };
        Filter::assemble(params, compiled)
    }

    fn time_matches(time: &Option<Timestamp>, min: &Option<Timestamp>, max: &Option<Timestamp>) -> (b:
        bool)
        ensures
            b == time_within(*time, *min, *max),
    {
        if min.is_none() && max.is_none() {
            return true;
        }
        let time = match time {
            Some(time) => time,
            None => {
                return false;
            },
        };
        if let Some(lo) = min {
            if time.is_before(lo) {
                return false;
            }
        }
        if let Some(hi) = max {
            if time.is_after(hi) {
                return false;
            }
        }
        true
    }

    /// Decides whether `entry` is to be reported.
    pub fn is_matching(&self, entry: &FileEntry) -> (b: bool)
        ensures
            b == self.accepts(entry),
    {
        if let Some(is_symlink) = self.is_symlink {
            if entry.meta.is_symlink != is_symlink {
                return false;
            }
        }
        if !Self::time_matches(&entry.meta.created, &self.min_time_created, &self.max_time_created) {
            return false;
        }
        if !Self::time_matches(
            &entry.meta.modified,
            &self.min_time_modified,
            &self.max_time_modified,
        ) {
            return false;
        }
        if let Some(name_regex) = &self.name_regex {
            if let Some(name) = &entry.name {
                if !is_match(name_regex, name.as_str()) {
                    return false;
                }
            } else {
                return false;
            }
        }
        // Type and size are those of the file that a symbolic link leads to.

        let meta = match entry.target {
            Some(target) if entry.meta.is_symlink => target,
            _ => entry.meta,
        };
        if let Some(is_directory) = self.is_directory {
            if meta.is_dir != is_directory {
                return false;
            }
        }
        if let Some(min_size) = self.min_size {
            if meta.len < min_size {
                return false;
            }
        }
        if let Some(max_size) = self.max_size {
            if meta.len > max_size {
                return false;
            }
        }
        true
    }
}

/// A tool for finding files on the local file system.
pub struct FindFiles;

impl FindFiles {
    /// Creates a FindFiles instance.
    pub fn new() -> (tool: Self)
        ensures
            tool.spec_name() == "find_files"@,
    {
        FindFiles
    }

    /// The directory to search, given the outcome of expanding what the
    /// path in the parameters borrows from the environment.
    pub fn expanded(expanded: Result<PathBuf, String>) -> (res: Result<PathBuf, ToolError>)
        ensures
            match expanded {
                Ok(directory) => res == Ok::<PathBuf, ToolError>(directory),
                Err(cause) => res == Err::<PathBuf, ToolError>(ToolError::Shellexpend(cause)),
            },
    {
        match expanded {
            Ok(directory) => Ok(directory),
            Err(cause) => Err(ToolError::Shellexpend(cause)),
        }
    }

    /// The directory to search: `params.in_directory` with the variables of
    /// the environment replaced by their values and a tilde in front by the
    /// home directory. Fails where a variable cannot be had.
    pub fn directory(&self, params: &FindFilesParams) -> (res: Result<PathBuf, ToolError>)
        ensures
            !crate::expand::asks_for_expansion(params.in_directory@) ==> res == Ok::<
                PathBuf,
                ToolError,
            >(crate::expand::path_of(params.in_directory@)),
            res matches Err(e) ==> e is Shellexpend && crate::expand::asks_for_expansion(
                params.in_directory@,
            ),
    {
        Self::expanded(expand_path(params.in_directory.as_str()))
    }

    /// Starts a search.
    ///
    /// `listing` is the outcome of finding and opening the directory to
    /// search: a cursor over its entries, or the reason why there is none.
    /// That reason is reported before a bad name pattern is; either way
    /// nothing has been produced yet.
    pub fn call<D>(&self, params: FindFilesParams, listing: Result<D, ToolError>) -> (res: Result<
        FindFilesIterator<D>,
        ToolError,
    >)
        ensures
            listing matches Err(e) ==> res == Err::<FindFilesIterator<D>, ToolError>(e),
            listing matches Ok(root) ==> {
                &&& params.name_regex is None ==> res is Ok
                &&& res matches Ok(search) ==> {
                    &&& search.filter().reflects(&params)
                    &&& search.state() == WalkState::<D> { stack: seq![root], pending: None }
                }
                &&& res matches Err(e) ==> e is Regex && params.name_regex is Some
            },
    {
        let root = match listing {
            Ok(root) => root,
            Err(e) => {
                return Err(e);
            },
        };
        let filter = Filter::try_from(params)?;
        let mut entries_stack: Vec<D> = Vec::new();
        entries_stack.push(root);
        Ok(FindFilesIterator { filter, entries_stack, pending: None })
    }
}

impl Tool for FindFiles {
    type Params = FindFilesParams;

    type Output = FindFilesOutput;

    open spec fn spec_name(&self) -> Seq<char> {
        "find_files"@
    }

    fn name(&self) -> &'static str {
        "find_files"
    }

    open spec fn spec_description(&self) -> Option<Seq<char>> {
        None
    }

    fn description(&self) -> Option<&'static str> {
        None
    }
}

/// What has happened since the last step of a search.
pub enum WalkEvent<D> {
    /// The consumer wants the next item.
    Resume,
    /// The directory on top of the stack has no further entry.
    EndOfDirectory,
    /// An entry, or its metadata, could not be read.
    EntryFailed,
    /// The next entry of the directory on top of the stack.
    Entry(FileEntry),
    /// The directory that was asked for has been opened, or could not be.
    Listing(Option<D>),
}

/// What is to happen next in a search.
pub enum WalkAction {
    /// Read the next entry of the directory on top of the stack.
    ReadEntry,
    /// Open the directory at this path and report the outcome.
    OpenDirectory(String),
    /// Hand this item to the consumer.
    Yield(FindFilesOutput),
    /// The search is over, or was cancelled: there are no more items.
    Finished,
}

/// The part of a search that changes from step to step.
pub ghost struct WalkState<D> {
    /// The directories that are not exhausted yet, innermost last.
    pub stack: Seq<D>,
    /// A directory entry that waits for its listing.
    pub pending: Option<FileEntry>,
}

/// The step that begins a new round: nothing more is read once cancellation
/// was requested or no directory is left.
pub open spec fn next_round(cancelled: bool, depth: nat) -> WalkAction {
    if cancelled || depth == 0 {
        WalkAction::Finished
    } else {
        WalkAction::ReadEntry
    }
}

/// The step that follows the handling of `entry`: it is reported if the
/// filter accepts it, else a new round begins.
pub open spec fn conclude(filter: &Filter, entry: FileEntry, cancelled: bool, depth: nat) -> WalkAction {
    if filter.accepts(&entry) {
        WalkAction::Yield(FindFilesOutput { path: entry.path })
    } else {
        next_round(cancelled, depth)
    }
}

/// One step of the depth-first traversal: the state and the action that
/// follow from a state and an event.
pub open spec fn walk_next<D>(
    filter: &Filter,
    state: WalkState<D>,
    event: WalkEvent<D>,
    cancelled: bool,
) -> (WalkState<D>, WalkAction) {
    match event {
        WalkEvent::Resume | WalkEvent::EntryFailed => (
            WalkState { stack: state.stack, pending: None },
            next_round(cancelled, state.stack.len()),
        ),
        WalkEvent::EndOfDirectory => {
            let stack = if state.stack.len() > 0 {
                state.stack.drop_last()
            } else {
                state.stack
            };
            (WalkState { stack, pending: None }, next_round(cancelled, stack.len()))
        },
        WalkEvent::Entry(entry) => if entry.meta.is_dir {
            (
                WalkState { stack: state.stack, pending: Some(entry) },
                WalkAction::OpenDirectory(entry.path),
            )
        } else {
            (
                WalkState { stack: state.stack, pending: None },
                conclude(filter, entry, cancelled, state.stack.len()),
            )
        },
        WalkEvent::Listing(listing) => {
            let stack = match listing {
                Some(cursor) if state.pending is Some => state.stack.push(cursor),
                _ => state.stack,
            };
            let action = match state.pending {
                Some(entry) => conclude(filter, entry, cancelled, stack.len()),
                None => next_round(cancelled, stack.len()),
            };
            (WalkState { stack, pending: None }, action)
        },
    }
}

/// A search in progress: the filter and the stack of directories that are
/// still being listed.
///
/// The search does no reading itself. Its owner performs the action that
/// [`FindFilesIterator::step`] returns and reports what came of it with the
/// next call.
pub struct FindFilesIterator<D> {
    filter: Filter,
    entries_stack: Vec<D>,
    pending: Option<FileEntry>,
}

impl<D> FindFilesIterator<D> {
    /// The filter that entries are held against.
    pub closed spec fn filter(&self) -> Filter {
        self.filter
    }

    /// The state of the traversal.
    pub closed spec fn state(&self) -> WalkState<D> {
        WalkState { stack: self.entries_stack@, pending: self.pending }
    }

    /// Decides whether the file that a symbolic link leads to has to be
    /// looked up for this search.
    pub fn wants_target(&self) -> (wanted: bool)
        ensures
            wanted == self.filter().asks_for_target(),
    {
        self.filter.wants_target()
    }

    /// The cursor of the directory that is being listed, if any is left.
    pub fn cursor(&mut self) -> (top: Option<&mut D>)
        ensures
            final(self).filter() == old(self).filter(),
            final(self).state().pending == old(self).state().pending,
            old(self).state().stack.len() == 0 ==> top is None && final(self).state().stack
                == old(self).state().stack,
            old(self).state().stack.len() > 0 ==> {
                &&& top matches Some(cursor)
                &&& *cursor == old(self).state().stack.last()
                &&& final(self).state().stack == old(self).state().stack.drop_last().push(
                    *final(cursor),
                )
            },
    {
        let n = self.entries_stack.len();
        if n == 0 {
            None
        } else {
            Some(&mut self.entries_stack[n - 1])
        }
    }

    fn next_round(&self, cancelled: bool) -> (action: WalkAction)
        ensures
            action == next_round(cancelled, self.entries_stack@.len()),
    {
        if cancelled || self.entries_stack.len() == 0 {
            WalkAction::Finished
        } else {
            WalkAction::ReadEntry
        }
    }

    fn conclude(&self, entry: FileEntry, cancelled: bool) -> (action: WalkAction)
        ensures
            action == conclude(&self.filter, entry, cancelled, self.entries_stack@.len()),
    {
        if self.filter.is_matching(&entry) {
            WalkAction::Yield(FindFilesOutput { path: entry.path })
        } else {
            self.next_round(cancelled)
        }
    }

    /// Takes in what happened and decides what is to happen next.
    ///
    /// `cancelled` is the cancellation flag as it stands at the time of the
    /// call. It is looked at whenever a new entry would be read, and nowhere
    /// else: an entry that was read already is still judged and reported.
    pub fn step(&mut self, event: WalkEvent<D>, cancelled: bool) -> (action: WalkAction)
        ensures
            final(self).filter() == old(self).filter(),
            (final(self).state(), action) == walk_next(
                &old(self).filter(),
                old(self).state(),
                event,
                cancelled,
            ),
    {
        match event {
            WalkEvent::Resume | WalkEvent::EntryFailed => {
                self.pending = None;
                self.next_round(cancelled)
            },
            WalkEvent::EndOfDirectory => {
                self.pending = None;
                self.entries_stack.pop();
                self.next_round(cancelled)
            },
            WalkEvent::Entry(entry) => {
                if entry.meta.is_dir {
                    let path = entry.path.clone();
                    self.pending = Some(entry);
                    WalkAction::OpenDirectory(path)
                } else {
                    self.pending = None;
                    self.conclude(entry, cancelled)
                }
            },
            WalkEvent::Listing(listing) => {
                let pending = self.pending.take();
                match pending {
                    Some(entry) => {
                        if let Some(cursor) = listing {
                            self.entries_stack.push(cursor);
                        }
                        self.conclude(entry, cancelled)
                    },
                    None => self.next_round(cancelled),
                }
            },
        }
    }
}

/// A filter that asks for neither type nor size judges an entry without
/// regard to the file that it leads to as a symbolic link, so that file need
/// not be looked up.
pub proof fn lemma_target_unasked_is_unread(filter: &Filter, entry: FileEntry, target: Option<FileMeta>)
    requires
        !filter.asks_for_target(),
    ensures
        filter.accepts(&entry) == filter.accepts(&FileEntry { target, ..entry }),
{
}

/// Once cancellation was requested, no step asks for another entry to be
/// read; a consumer that asks for the next item is told that there is none.
/// No step fails on that account: every action is one of the ordinary four.
pub proof fn lemma_cancellation_halts<D>(filter: &Filter, state: WalkState<D>, event: WalkEvent<D>)
    ensures
        walk_next(filter, state, event, true).1 !is ReadEntry,
        event is Resume ==> walk_next(filter, state, event, true).1 is Finished,
        event is EndOfDirectory || event is EntryFailed ==> walk_next(filter, state, event, true).1
            is Finished,
{
}

} // verus!
