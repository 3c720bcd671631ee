//! The task of one file, as a state machine.
//!
//! A task is driven from outside: it is told what happened and answers with
//! what is to be done next. It starts pending, has its file opened, gathers
//! the chunks read from it until an empty chunk marks the end of the file,
//! has the gathered bytes formatted and shown, and is done. A failure while
//! the file is opened or read ends the task at once; what was gathered is
//! dropped, so a file is shown whole or not at all. Nothing is tried twice.

use vstd::prelude::*;
use vstd::utf8::{decode_utf8, valid_utf8};
use crate::color::Rgb;
use crate::format::{
    error_line, error_text, lossy_utf8, render_file, renders, status_text,
};

verus! {

/// The size of the chunks in which a file is read. Any size of at least one
/// byte gives the same result: larger chunks take more memory and fewer
/// reads.
pub const CHUNK_SIZE: usize = 8192;

/// Where a task stands. A task that has ended is its own outcome: done with
/// its byte count, or failed with what went wrong.
#[derive(Clone, Debug, PartialEq, Eq)]
pub enum TaskState {
    /// Not started.
    Pending,
    /// Started: its file is being opened.
    Opened,
    /// Its file is open; `buffer` holds what was read so far.
    Reading { buffer: Vec<u8> },
    /// Its file was read to the end; `buffer` holds all of it.
    Formatting { buffer: Vec<u8> },
    /// Ended well, after `bytes_read` bytes.
    Done { bytes_read: usize },
    /// Ended by a failure.
    Failed { error: String },
}

/// What happened to a task.
#[derive(Clone, Debug, PartialEq, Eq)]
pub enum TaskEvent {
    /// The task was started.
    Started,
    /// Its file was opened.
    FileOpened,
    /// A read returned `data`. Empty `data` is the end of the file.
    Chunk { data: Vec<u8> },
    /// The formatted content and the status line were shown.
    Emitted,
    /// Opening or reading the file failed, or the work could not be run.
    Failure { detail: String },
}

/// What is to be done next for a task.
#[derive(Clone, Copy, Debug, PartialEq, Eq, Structural)]
pub enum TaskAction {
    /// Open the file.
    Open,
    /// Read the next chunk.
    ReadChunk,
    /// Format the buffer and show it, with the status line.
    Emit,
    /// Report the failure. Nothing follows.
    ReportFailure,
    /// Nothing is left to do.
    Stop,
}

/// The task of one file.
#[derive(Clone, Debug, PartialEq, Eq)]
pub struct FileTask {
    /// The path of the file, as it is shown.
    pub path: String,
    /// Where the task stands.
    pub state: TaskState,
}

/// A state as a plain value.
pub enum StateModel {
    Pending,
    Opened,
    Reading { buffer: Seq<u8> },
    Formatting { buffer: Seq<u8> },
    Done { bytes_read: nat },
    Failed { error: Seq<char> },
}

/// An event as a plain value.
pub enum EventModel {
    Started,
    FileOpened,
    Chunk { data: Seq<u8> },
    Emitted,
    Failure { detail: Seq<char> },
}

impl View for TaskState {
    type V = StateModel;

    open spec fn view(&self) -> StateModel {
        match self {
            TaskState::Pending => StateModel::Pending,
            TaskState::Opened => StateModel::Opened,
            TaskState::Reading { buffer } => StateModel::Reading { buffer: buffer@ },
            TaskState::Formatting { buffer } => StateModel::Formatting { buffer: buffer@ },
            TaskState::Done { bytes_read } => StateModel::Done { bytes_read: *bytes_read as nat },
            TaskState::Failed { error } => StateModel::Failed { error: error@ },
        }
    }
}

impl View for TaskEvent {
    type V = EventModel;

    open spec fn view(&self) -> EventModel {
        match self {
            TaskEvent::Started => EventModel::Started,
            TaskEvent::FileOpened => EventModel::FileOpened,
            TaskEvent::Chunk { data } => EventModel::Chunk { data: data@ },
            TaskEvent::Emitted => EventModel::Emitted,
            TaskEvent::Failure { detail } => EventModel::Failure { detail: detail@ },
        }
    }
}

/// A task in a terminal state has ended.
pub open spec fn is_terminal(state: StateModel) -> bool {
    state is Done || state is Failed
}

/// The state that follows `state` on `event`. An event that `state` does not
/// wait for leaves it as it is.
pub open spec fn next_state(state: StateModel, event: EventModel) -> StateModel {
    match (state, event) {
        (StateModel::Pending, EventModel::Started) => StateModel::Opened,
        (StateModel::Opened, EventModel::FileOpened) => StateModel::Reading { buffer: Seq::empty() },
        (StateModel::Opened, EventModel::Failure { detail }) => StateModel::Failed { error: detail },
        (StateModel::Reading { buffer }, EventModel::Chunk { data }) => if data.len() == 0 {
            StateModel::Formatting { buffer }
        } else {
            StateModel::Reading { buffer: buffer + data }
        },
        (StateModel::Reading { buffer }, EventModel::Failure { detail }) => StateModel::Failed {
            error: detail,
        },
        (StateModel::Formatting { buffer }, EventModel::Emitted) => StateModel::Done {
            bytes_read: buffer.len(),
        },
        _ => state,
    }
}

/// What is to be done after `event` came in `state`: nothing where `state`
/// does not wait for `event`.
pub open spec fn action_for(state: StateModel, event: EventModel) -> Option<TaskAction> {
    match (state, event) {
        (StateModel::Pending, EventModel::Started) => Some(TaskAction::Open),
        (StateModel::Opened, EventModel::FileOpened) => Some(TaskAction::ReadChunk),
        (StateModel::Opened, EventModel::Failure { detail }) => Some(TaskAction::ReportFailure),
        (StateModel::Reading { buffer }, EventModel::Chunk { data }) => if data.len() == 0 {
            Some(TaskAction::Emit)
        } else {
            Some(TaskAction::ReadChunk)
        },
        (StateModel::Reading { buffer }, EventModel::Failure { detail }) => Some(
            TaskAction::ReportFailure,
        ),
        (StateModel::Formatting { buffer }, EventModel::Emitted) => Some(TaskAction::Stop),
        _ => None,
    }
}

impl FileTask {
    /// A pending task for the file at `path`.
    pub fn new(path: String) -> (task: FileTask)
        ensures
            task.path == path,
            task.state@ == StateModel::Pending,
    {
        FileTask { path, state: TaskState::Pending }
    }

    /// Takes the task one step on: to the state that follows on `event`, with
    /// what is to be done next.
    pub fn step(self, event: TaskEvent) -> (res: (FileTask, Option<TaskAction>))
        ensures
            res.0.path == self.path,
            res.0.state@ == next_state(self.state@, event@),
            res.1 == action_for(self.state@, event@),
    {
        let FileTask { path, state } = self;
        match (state, event) {
            (TaskState::Pending, TaskEvent::Started) => (
                FileTask { path, state: TaskState::Opened },
                Some(TaskAction::Open),
            ),
            (TaskState::Opened, TaskEvent::FileOpened) => (
                FileTask { path, state: TaskState::Reading { buffer: Vec::new() } },
                Some(TaskAction::ReadChunk),
            ),
            (TaskState::Opened, TaskEvent::Failure { detail }) => (
                FileTask { path, state: TaskState::Failed { error: detail } },
                Some(TaskAction::ReportFailure),
            ),
            (TaskState::Reading { buffer }, TaskEvent::Chunk { data }) => {
                if data.len() == 0 {
                    (FileTask { path, state: TaskState::Formatting { buffer } }, Some(TaskAction::Emit))
                } else {
                    let mut buffer = buffer;
                    let mut data = data;
                    buffer.append(&mut data);
                    (
                        FileTask { path, state: TaskState::Reading { buffer } },
                        Some(TaskAction::ReadChunk),
                    )
                }
            },
            (TaskState::Reading { buffer }, TaskEvent::Failure { detail }) => (
                FileTask { path, state: TaskState::Failed { error: detail } },
                Some(TaskAction::ReportFailure),
            ),
            (TaskState::Formatting { buffer }, TaskEvent::Emitted) => (
                FileTask { path, state: TaskState::Done { bytes_read: buffer.len() } },
                Some(TaskAction::Stop),
            ),
            (state, _) => (FileTask { path, state }, None),
        }
    }

    /// Everything to show for a file read to its end, for a task that is
    /// formatting: the units of its content, then its status line. A task in
    /// any other state has nothing to show.
    pub fn emit(&self, color: Option<Rgb>, show_line_numbers: bool) -> (out: Option<Vec<String>>)
        ensures
            out is Some <==> self.state@ is Formatting,
            match (out, self.state@) {
                (Some(shown), StateModel::Formatting { buffer }) => {
                    &&& shown.len() >= 1
                    &&& shown.deep_view().last() == status_text(self.path@, buffer.len())
                    &&& renders(
                        lossy_utf8(buffer),
                        color,
                        show_line_numbers,
                        shown.deep_view().drop_last(),
                    )
                    &&& valid_utf8(buffer) ==> renders(
                        decode_utf8(buffer),
                        color,
                        show_line_numbers,
                        shown.deep_view().drop_last(),
                    )
                },
                _ => true,
            },
    {
        match &self.state {
            TaskState::Formatting { buffer } => Some(
                render_file(self.path.as_str(), buffer.as_slice(), color, show_line_numbers),
            ),
            _ => None,
        }
    }

    /// The line that reports a failed task: its path and what went wrong. A
    /// task in any other state has no such line.
    pub fn failure_line(&self) -> (line: Option<String>)
        ensures
            match self.state@ {
                StateModel::Failed { error } => line matches Some(text) && text@ == error_text(
                    self.path@,
                    error,
                ),
                _ => line is None,
            },
    {
        match &self.state {
            TaskState::Failed { error } => Some(error_line(self.path.as_str(), error.as_str())),
            _ => None,
        }
    }
}

/// The state that is reached from `state` when `events` come in, one after
/// the other.
pub open spec fn run(state: StateModel, events: Seq<EventModel>) -> StateModel
    decreases events.len(),
{
    if events.len() == 0 {
        state
    } else {
        run(next_state(state, events.first()), events.drop_first())
    }
}

/// One event for each chunk, in order.
pub open spec fn chunk_events(chunks: Seq<Seq<u8>>) -> Seq<EventModel> {
    Seq::new(chunks.len(), |i: int| EventModel::Chunk { data: chunks[i] })
}

/// No chunk is empty: none of them is the end of the file.
pub open spec fn all_nonempty(chunks: Seq<Seq<u8>>) -> bool {
    forall|i: int| 0 <= i < chunks.len() ==> (#[trigger] chunks[i]).len() > 0
}

/// The lengths of the chunks, added up.
pub open spec fn total_len(chunks: Seq<Seq<u8>>) -> nat
    decreases chunks.len(),
{
    if chunks.len() == 0 {
        0
    } else {
        chunks.first().len() + total_len(chunks.drop_first())
    }
}

/// What happens to a task whose file is opened and read to its end in
/// `chunks`.
pub open spec fn read_to_end(chunks: Seq<Seq<u8>>) -> Seq<EventModel> {
    seq![EventModel::Started, EventModel::FileOpened] + chunk_events(chunks) + seq![
        EventModel::Chunk { data: Seq::empty() },
    ]
}

/// Events that come one run after the other lead where they lead as one run.
pub proof fn lemma_run_concat(state: StateModel, first: Seq<EventModel>, then: Seq<EventModel>)
    ensures
        run(state, first + then) == run(run(state, first), then),
    decreases first.len(),
{
    if first.len() > 0 {
        assert((first + then).drop_first() == first.drop_first() + then);
        lemma_run_concat(next_state(state, first.first()), first.drop_first(), then);
    }
}

/// A task that has ended stays as it is, whatever comes in.
pub proof fn lemma_terminal_absorbs(state: StateModel, events: Seq<EventModel>)
    requires
        is_terminal(state),
    ensures
        run(state, events) == state,
    decreases events.len(),
{
    if events.len() > 0 {
        lemma_terminal_absorbs(state, events.drop_first());
    }
}

/// The flattened chunks are as long as the chunks together.
pub proof fn lemma_flatten_len(chunks: Seq<Seq<u8>>)
    ensures
        chunks.flatten().len() == total_len(chunks),
    decreases chunks.len(),
{
    if chunks.len() > 0 {
        lemma_flatten_len(chunks.drop_first());
    }
}

/// A reading task that is handed chunks, none of them empty, keeps reading
/// and holds what it held before followed by the chunks, in order.
pub proof fn lemma_chunks_accumulate(buffer: Seq<u8>, chunks: Seq<Seq<u8>>)
    requires
        all_nonempty(chunks),
    ensures
        run(StateModel::Reading { buffer }, chunk_events(chunks)) == (StateModel::Reading {
            buffer: buffer + chunks.flatten(),
        }),
    decreases chunks.len(),
{
    if chunks.len() > 0 {
        let rest = chunks.drop_first();
        assert(chunk_events(chunks).drop_first() == chunk_events(rest));
        lemma_chunks_accumulate(buffer + chunks.first(), rest);
        assert(buffer + chunks.first() + rest.flatten() == buffer + chunks.flatten());
    }
}

/// The byte count is exact. A task whose file is read to its end holds the
/// bytes of all chunks, each once and in order, when it formats, and is done
/// with the sum of the chunk lengths as its count, wherever the chunk
/// boundaries fell.
pub proof fn lemma_byte_count(chunks: Seq<Seq<u8>>)
    requires
        all_nonempty(chunks),
    ensures
        run(StateModel::Pending, read_to_end(chunks)) == (StateModel::Formatting {
            buffer: chunks.flatten(),
        }),
        run(StateModel::Pending, read_to_end(chunks).push(EventModel::Emitted)) == (
        StateModel::Done { bytes_read: total_len(chunks) }),
{
    let opening = seq![EventModel::Started, EventModel::FileOpened];
    let ending = seq![EventModel::Chunk { data: Seq::<u8>::empty() }];
    let empty = Seq::<u8>::empty();
    let full = StateModel::Reading { buffer: chunks.flatten() };
    let formatting = StateModel::Formatting { buffer: chunks.flatten() };
    assert(run(StateModel::Pending, opening) == StateModel::Reading { buffer: empty }) by {
        reveal_with_fuel(run, 3);
    }
    assert(run(StateModel::Reading { buffer: empty }, chunk_events(chunks)) == full) by {
        lemma_chunks_accumulate(empty, chunks);
    }
    assert(run(full, ending) == formatting) by {
        reveal_with_fuel(run, 2);
    }
    lemma_run_concat(StateModel::Pending, opening, chunk_events(chunks));
    lemma_run_concat(StateModel::Pending, opening + chunk_events(chunks), ending);
    let shown = seq![EventModel::Emitted];
    assert(read_to_end(chunks).push(EventModel::Emitted) == read_to_end(chunks) + shown);
    lemma_run_concat(StateModel::Pending, read_to_end(chunks), shown);
    assert(run(formatting, shown) == StateModel::Done { bytes_read: chunks.flatten().len() }) by {
        reveal_with_fuel(run, 2);
    }
    lemma_flatten_len(chunks);
}

/// Reading the same bytes again gives the same task. Two reads of a file
/// whose chunks join to the same bytes end in the same state, with the same
/// buffer to format, even where the chunk boundaries differ.
pub proof fn lemma_same_bytes_same_task(first: Seq<Seq<u8>>, second: Seq<Seq<u8>>)
    requires
        all_nonempty(first),
        all_nonempty(second),
        first.flatten() == second.flatten(),
    ensures
        run(StateModel::Pending, read_to_end(first)) == run(
            StateModel::Pending,
            read_to_end(second),
        ),
{
    lemma_byte_count(first);
    lemma_byte_count(second);
}

/// A failure ends a task for good, and nothing of its file is shown. When
/// opening fails, or a read fails after any number of chunks, the task has
/// failed with that failure, holds no byte of the file, and whatever comes
/// in later changes nothing.
pub proof fn lemma_failure_is_final(
    chunks: Seq<Seq<u8>>,
    detail: Seq<char>,
    later: Seq<EventModel>,
)
    requires
        all_nonempty(chunks),
    ensures
        run(
            StateModel::Pending,
            seq![EventModel::Started, EventModel::Failure { detail }] + later,
        ) == (StateModel::Failed { error: detail }),
        run(
            StateModel::Pending,
            seq![EventModel::Started, EventModel::FileOpened] + chunk_events(chunks) + seq![
                EventModel::Failure { detail },
            ] + later,
        ) == (StateModel::Failed { error: detail }),
{
    let failed = StateModel::Failed { error: detail };
    let failure = seq![EventModel::Failure { detail }];
    let refused = seq![EventModel::Started, EventModel::Failure { detail }];
    let opening = seq![EventModel::Started, EventModel::FileOpened];
    let empty = Seq::<u8>::empty();
    lemma_terminal_absorbs(failed, later);
    assert(run(StateModel::Pending, refused) == failed) by {
        reveal_with_fuel(run, 3);
    }
    lemma_run_concat(StateModel::Pending, refused, later);
    assert(run(StateModel::Pending, opening) == StateModel::Reading { buffer: empty }) by {
        reveal_with_fuel(run, 3);
    }
    lemma_chunks_accumulate(empty, chunks);
    let reading = StateModel::Reading { buffer: empty + chunks.flatten() };
    assert(run(reading, failure) == failed) by {
        reveal_with_fuel(run, 2);
    }
    lemma_run_concat(StateModel::Pending, opening, chunk_events(chunks));
    lemma_run_concat(StateModel::Pending, opening + chunk_events(chunks), failure);
    lemma_run_concat(StateModel::Pending, opening + chunk_events(chunks) + failure, later);
}

} // verus!
