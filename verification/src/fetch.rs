//! The decisions of one resumable transfer: what to ask the server for, what its answer means
//! for the artifact on disk, and how far the transfer has come.
//!
//! The transfer itself (the request, the body, the file) is the caller's business. The caller
//! reports what happened as a [`FetchEvent`] and is told what to do next as a [`FetchAction`].

use crate::content_range::ContentRange;
use crate::text::{decimal, push_decimal};
use vstd::prelude::*;
use vstd::string::StringExecFns;

verus! {

/// Why a transfer was given up.
#[derive(Clone, Copy, Debug, PartialEq, Eq)]
pub enum FetchError {
    /// The response has no `Content-Range` header, or one that says nothing that can be relied
    /// on: the server does not resume transfers as expected.
    MissingOrInvalidRange,
    /// The server holds `remote` bytes and says that nothing is left to send, but the artifact
    /// on disk has `local` bytes: it is not a beginning of the same data.
    SizeMismatch {
        /// The length of the artifact on disk
        local: u64,
        /// The size of the data on the server
        remote: u64,
    },
    /// The network or the disk failed.
    Network,
    /// The caller reported something that cannot happen at this point of a transfer.
    OutOfOrder,
}

/// How far a transfer has come.
#[derive(Clone, Copy, Debug, PartialEq, Eq)]
pub enum FetchState {
    /// The artifact is being opened for appending.
    Opening,
    /// The server was asked for the bytes from `offset` on.
    Requesting {
        /// The length that the artifact had when it was opened
        offset: u64,
    },
    /// The body is arriving and is appended block by block.
    Streaming {
        /// The bytes of the data known to be on disk, never more than `total`
        downloaded: u64,
        /// The size of the data on the server
        total: u64,
    },
    /// The body has ended and the artifact is being flushed.
    Flushing,
    /// The artifact is complete.
    Finished,
    /// The transfer was given up.
    Failed(FetchError),
}

/// What the caller reports.
#[derive(Clone, Copy, Debug, PartialEq, Eq)]
pub enum FetchEvent {
    /// The artifact was opened for appending and has `length` bytes.
    Opened {
        /// The current length of the artifact
        length: u64,
    },
    /// The head of the response arrived, with this range in it (see
    /// [`ContentRange::from_response`]).
    Responded {
        /// The range that the response announces
        range: Option<ContentRange>,
    },
    /// A block of `len` bytes of the body arrived and was appended to the artifact.
    Chunk {
        /// The number of bytes appended
        len: usize,
    },
    /// The body has ended.
    EndOfBody,
    /// The artifact was flushed.
    Flushed,
    /// The network or the disk failed.
    Fault,
}

/// What the caller is to do next.
#[derive(Clone, Copy, Debug, PartialEq, Eq)]
pub enum FetchAction {
    /// Ask the server for the bytes from `start` on (see [`range_header`]), and report the head
    /// of its response.
    Request {
        /// The first byte that is wanted
        start: u64,
    },
    /// Show the progress, wait for the next block of the body, append it and report it; or
    /// report that the body has ended.
    Receive {
        /// The bytes of the data known to be on disk
        downloaded: u64,
        /// The size of the data on the server
        total: u64,
    },
    /// Flush the artifact and report it.
    Flush,
    /// Stop: the artifact is complete.
    Succeed,
    /// Stop: the transfer was given up.
    Fail(FetchError),
}

/// What the answer to a request for the bytes from `start` on means: `Ok(None)` where nothing
/// is left to fetch, `Ok(Some(total))` where a body follows, of data of `total` bytes in all.
/// A range that does not lie inside the data counts as none.
pub open spec fn resume_plan(start: u64, range: Option<ContentRange>) -> Result<
    Option<u64>,
    FetchError,
> {
    match range {
        Some(ContentRange::Full { start: first, end: last, size }) => if first <= last < size {
            Ok(Some(size))
        } else {
            Err(FetchError::MissingOrInvalidRange)
        },
        Some(ContentRange::Size(size)) => if size == start {
            Ok(None)
        } else {
            Err(FetchError::SizeMismatch { local: start, remote: size })
        },
        None => Err(FetchError::MissingOrInvalidRange),
    }
}

/// The progress after `len` more bytes: their sum, capped at `total`.
pub open spec fn progress_after(downloaded: u64, len: usize, total: u64) -> u64 {
    if downloaded + len <= total {
        (downloaded + len) as u64
    } else {
        total
    }
}

/// The state after `event`, and what to do then.
pub open spec fn fetch_step(state: FetchState, event: FetchEvent) -> (FetchState, FetchAction) {
    match (state, event) {
        (FetchState::Finished, _) => (FetchState::Finished, FetchAction::Succeed),
        (FetchState::Failed(e), _) => (FetchState::Failed(e), FetchAction::Fail(e)),
        (_, FetchEvent::Fault) => (
            FetchState::Failed(FetchError::Network),
            FetchAction::Fail(FetchError::Network),
        ),
        (FetchState::Opening, FetchEvent::Opened { length }) => (
            FetchState::Requesting { offset: length },
            FetchAction::Request { start: length },
        ),
        (FetchState::Requesting { offset }, FetchEvent::Responded { range }) => match resume_plan(
            offset,
            range,
        ) {
            Ok(None) => (FetchState::Finished, FetchAction::Succeed),
            Ok(Some(total)) => (
                FetchState::Streaming { downloaded: progress_after(offset, 0, total), total },
                FetchAction::Receive { downloaded: progress_after(offset, 0, total), total },
            ),
            Err(e) => (FetchState::Failed(e), FetchAction::Fail(e)),
        },
        (FetchState::Streaming { downloaded, total }, FetchEvent::Chunk { len }) => (
            FetchState::Streaming { downloaded: progress_after(downloaded, len, total), total },
            FetchAction::Receive { downloaded: progress_after(downloaded, len, total), total },
        ),
        (FetchState::Streaming { .. }, FetchEvent::EndOfBody) => (
            FetchState::Flushing,
            FetchAction::Flush,
        ),
        (FetchState::Flushing, FetchEvent::Flushed) => (FetchState::Finished, FetchAction::Succeed),
        _ => (
            FetchState::Failed(FetchError::OutOfOrder),
            FetchAction::Fail(FetchError::OutOfOrder),
        ),
    }
}

/// The value of the `Range` header that asks for the bytes from `start` on.
pub open spec fn range_header_text(start: u64) -> Seq<char> {
    "bytes="@ + decimal(start as nat) + "-"@
}

/// The value of the `Range` header that asks for the bytes from `start` on: `bytes=<start>-`.
pub fn range_header(start: u64) -> (header: String)
    ensures
        header@ == range_header_text(start),
{
    let mut header = String::from_str("bytes=");
    push_decimal(&mut header, start);
    header.append("-");
    header
}

/// Decides what the answer to a request for the bytes from `start` on means for the transfer.
pub fn plan_resume(start: u64, range: Option<ContentRange>) -> (plan: Result<
    Option<u64>,
    FetchError,
>)
    ensures
        plan == resume_plan(start, range),
{
    match range {
        Some(ContentRange::Full { start: first, end: last, size }) => if first <= last && last
            < size {
            Ok(Some(size))
        } else {
            Err(FetchError::MissingOrInvalidRange)
        },
        Some(ContentRange::Size(size)) => if size == start {
            Ok(None)
        } else {
            Err(FetchError::SizeMismatch { local: start, remote: size })
        },
        None => Err(FetchError::MissingOrInvalidRange),
    }
}

/// The progress to show after `len` more bytes were appended.
pub fn advance_progress(downloaded: u64, len: usize, total: u64) -> (progress: u64)
    ensures
        progress == progress_after(downloaded, len, total),
{
    if downloaded >= total || len as u64 >= total - downloaded {
        total
    } else {
        downloaded + len as u64
    }
}

impl FetchState {
    /// The state in which every transfer starts: the caller opens the artifact for appending,
    /// creating it where there is none, and reports [`FetchEvent::Opened`].
    pub fn new() -> (state: FetchState)
        ensures
            state == FetchState::Opening,
    {
        FetchState::Opening
    }

    /// Whether the transfer has ended, well or not.
    pub open spec fn is_final(self) -> bool {
        self is Finished || self is Failed
    }

    /// Whether the transfer has ended, well or not.
    pub fn has_ended(&self) -> (ended: bool)
        ensures
            ended == self.is_final(),
    {
        match self {
            FetchState::Finished => true,
            FetchState::Failed(_) => true,
            _ => false,
        }
    }

    /// Takes in what the caller reports, and says what to do next.
    pub fn step(self, event: FetchEvent) -> (next: (FetchState, FetchAction))
        ensures
            next == fetch_step(self, event),
    {
        match self {
            FetchState::Finished => (FetchState::Finished, FetchAction::Succeed),
            FetchState::Failed(e) => (FetchState::Failed(e), FetchAction::Fail(e)),
            FetchState::Opening => match event {
                FetchEvent::Fault => fail(FetchError::Network),
                FetchEvent::Opened { length } => (
                    FetchState::Requesting { offset: length },
                    FetchAction::Request { start: length },
                ),
                _ => fail(FetchError::OutOfOrder),
            },
            FetchState::Requesting { offset } => match event {
                FetchEvent::Fault => fail(FetchError::Network),
                FetchEvent::Responded { range } => match plan_resume(offset, range) {
                    Ok(None) => (FetchState::Finished, FetchAction::Succeed),
                    Ok(Some(total)) => {
                        let downloaded = advance_progress(offset, 0, total);
                        (
                            FetchState::Streaming { downloaded, total },
                            FetchAction::Receive { downloaded, total },
                        )
                    },
                    Err(e) => fail(e),
                },
                _ => fail(FetchError::OutOfOrder),
            },
            FetchState::Streaming { downloaded, total } => match event {
                FetchEvent::Fault => fail(FetchError::Network),
                FetchEvent::Chunk { len } => {
                    let downloaded = advance_progress(downloaded, len, total);
                    (
                        FetchState::Streaming { downloaded, total },
                        FetchAction::Receive { downloaded, total },
                    )
                },
                FetchEvent::EndOfBody => (FetchState::Flushing, FetchAction::Flush),
                _ => fail(FetchError::OutOfOrder),
            },
            FetchState::Flushing => match event {
                FetchEvent::Fault => fail(FetchError::Network),
                FetchEvent::Flushed => (FetchState::Finished, FetchAction::Succeed),
                _ => fail(FetchError::OutOfOrder),
            },
        }
    }
}

fn fail(error: FetchError) -> (next: (FetchState, FetchAction))
    ensures
        next == (FetchState::Failed(error), FetchAction::Fail(error)),
{
    (FetchState::Failed(error), FetchAction::Fail(error))
}

/// A transfer as far as it has come: its state, what the caller was told to do after each
/// event, and how many bytes of body the caller appended to the artifact on being told to
/// receive.
pub struct FetchTrace {
    /// The state after the last event
    pub state: FetchState,
    /// The action after each event, in order
    pub actions: Seq<FetchAction>,
    /// The bytes appended while the body was awaited
    pub appended: nat,
}

/// The bytes that `event` adds to the artifact in `state`: those of a block that was asked for.
pub open spec fn appended_by(state: FetchState, event: FetchEvent) -> nat {
    match (state, event) {
        (FetchState::Streaming { .. }, FetchEvent::Chunk { len }) => len as nat,
        _ => 0,
    }
}

/// The transfer that starts by opening the artifact and in which `events` happen in order.
pub open spec fn fetch_run(events: Seq<FetchEvent>) -> FetchTrace
    decreases events.len(),
{
    if events.len() == 0 {
        FetchTrace { state: FetchState::Opening, actions: Seq::empty(), appended: 0 }
    } else {
        let before = fetch_run(events.drop_last());
        let (state, action) = fetch_step(before.state, events.last());
        FetchTrace {
            state,
            actions: before.actions.push(action),
            appended: before.appended + appended_by(before.state, events.last()),
        }
    }
}

/// The blocks of a body as events.
pub open spec fn chunk_events(lens: Seq<usize>) -> Seq<FetchEvent> {
    Seq::new(lens.len(), |i: int| FetchEvent::Chunk { len: lens[i] })
}

/// The number of bytes of a body that arrives in blocks of these lengths.
pub open spec fn body_len(lens: Seq<usize>) -> nat
    decreases lens.len(),
{
    if lens.len() == 0 {
        0
    } else {
        body_len(lens.drop_last()) + lens.last() as nat
    }
}

/// A run goes on from where its beginning ended: each further event adds one action, and
/// the actions of the beginning stay.
pub proof fn lemma_fetch_run_extends(events: Seq<FetchEvent>, more: Seq<FetchEvent>)
    ensures
        fetch_run(events + more).actions.len() == events.len() + more.len(),
        forall|i: int|
            0 <= i < events.len() ==> fetch_run(events + more).actions[i] == fetch_run(
                events,
            ).actions[i],
        fetch_run(events + more).appended >= fetch_run(events).appended,
    decreases more.len(),
{
    if more.len() == 0 {
        assert(events + more =~= events);
        lemma_fetch_run_len(events);
    } else {
        assert((events + more).drop_last() =~= events + more.drop_last());
        lemma_fetch_run_extends(events, more.drop_last());
    }
}

/// Each event is answered by one action.
pub proof fn lemma_fetch_run_len(events: Seq<FetchEvent>)
    ensures
        fetch_run(events).actions.len() == events.len(),
    decreases events.len(),
{
    if events.len() > 0 {
        lemma_fetch_run_len(events.drop_last());
    }
}

/// A transfer that has ended stays as it ended, and nothing more is appended to the artifact.
pub proof fn lemma_fetch_final_stays(events: Seq<FetchEvent>, more: Seq<FetchEvent>)
    requires
        fetch_run(events).state.is_final(),
    ensures
        fetch_run(events + more).state == fetch_run(events).state,
        fetch_run(events + more).appended == fetch_run(events).appended,
    decreases more.len(),
{
    if more.len() == 0 {
        assert(events + more =~= events);
    } else {
        assert((events + more).drop_last() =~= events + more.drop_last());
        lemma_fetch_final_stays(events, more.drop_last());
    }
}

/// Fetching into an artifact that is already complete asks the server once, from the
/// artifact's length on, then ends well with nothing appended, whatever is reported after.
///
/// The artifact has `length` bytes, and the server answers that its data has `length` bytes.
pub proof fn lemma_complete_artifact_is_left_alone(length: u64, more: Seq<FetchEvent>)
    ensures
        ({
            let events = seq![
                FetchEvent::Opened { length },
                FetchEvent::Responded { range: Some(ContentRange::Size(length)) },
            ];
            let run = fetch_run(events + more);
            &&& run.state == FetchState::Finished
            &&& run.appended == 0
            &&& run.actions[0] == FetchAction::Request { start: length }
            &&& run.actions[1] == FetchAction::Succeed
        }),
{
    let events = seq![
        FetchEvent::Opened { length },
        FetchEvent::Responded { range: Some(ContentRange::Size(length)) },
    ];
    let first = seq![FetchEvent::Opened { length }];
    assert(first.drop_last() =~= Seq::<FetchEvent>::empty());
    assert(fetch_run(Seq::<FetchEvent>::empty()).state == FetchState::Opening);
    assert(fetch_run(Seq::<FetchEvent>::empty()).appended == 0);
    assert(events.drop_last() =~= first);
    assert(fetch_run(first).state == FetchState::Requesting { offset: length });
    assert(fetch_run(first).actions =~= seq![FetchAction::Request { start: length }]);
    assert(fetch_run(events).state == FetchState::Finished);
    assert(fetch_run(events).appended == 0);
    assert(fetch_run(events).actions =~= seq![
        FetchAction::Request { start: length },
        FetchAction::Succeed,
    ]);
    lemma_fetch_final_stays(events, more);
    lemma_fetch_run_extends(events, more);
}

/// While the body arrives, the progress is the offset plus what was appended, capped at the
/// total, and everything reported is appended.
proof fn lemma_streaming(head: Seq<FetchEvent>, offset: u64, total: u64, lens: Seq<usize>)
    requires
        fetch_run(head).state == (FetchState::Streaming { downloaded: offset, total }),
        offset + body_len(lens) <= total,
    ensures
        fetch_run(head + chunk_events(lens)).state == (FetchState::Streaming {
            downloaded: (offset + body_len(lens)) as u64,
            total,
        }),
        fetch_run(head + chunk_events(lens)).appended == fetch_run(head).appended + body_len(lens),
    decreases lens.len(),
{
    if lens.len() == 0 {
        assert(head + chunk_events(lens) =~= head);
    } else {
        let init = lens.drop_last();
        assert((head + chunk_events(lens)).drop_last() =~= head + chunk_events(init));
        assert((head + chunk_events(lens)).last() == FetchEvent::Chunk { len: lens.last() });
        lemma_streaming(head, offset, total, init);
    }
}

/// Fetching into an artifact that holds a beginning of the data asks the server for the
/// bytes from the artifact's length on, appends what arrives, and ends well with an artifact
/// of the size of the data.
///
/// The artifact has `length` bytes of `size`, and the server does as it was asked: it
/// announces the bytes from `length` to the last one and sends that many, in blocks of any
/// lengths.
pub proof fn lemma_partial_artifact_is_completed(length: u64, size: u64, lens: Seq<usize>)
    requires
        length < size,
        body_len(lens) == size - length,
    ensures
        ({
            let range = ContentRange::Full { start: length, end: (size - 1) as u64, size };
            let head = seq![
                FetchEvent::Opened { length },
                FetchEvent::Responded { range: Some(range) },
            ];
            let tail = seq![FetchEvent::EndOfBody, FetchEvent::Flushed];
            let run = fetch_run(head + chunk_events(lens) + tail);
            &&& range.well_formed()
            &&& run.actions[0] == FetchAction::Request { start: length }
            &&& run.state == FetchState::Finished
            &&& length + run.appended == size
        }),
{
    let range = ContentRange::Full { start: length, end: (size - 1) as u64, size };
    let first = seq![FetchEvent::Opened { length }];
    let head = seq![FetchEvent::Opened { length }, FetchEvent::Responded { range: Some(range) }];
    let tail = seq![FetchEvent::EndOfBody, FetchEvent::Flushed];
    assert(first.drop_last() =~= Seq::<FetchEvent>::empty());
    assert(fetch_run(Seq::<FetchEvent>::empty()).state == FetchState::Opening);
    assert(fetch_run(Seq::<FetchEvent>::empty()).appended == 0);
    assert(head.drop_last() =~= first);
    assert(fetch_run(first).state == FetchState::Requesting { offset: length });
    assert(fetch_run(first).appended == 0);
    assert(fetch_run(first).actions =~= seq![FetchAction::Request { start: length }]);
    assert(fetch_run(head).state == FetchState::Streaming { downloaded: length, total: size });
    assert(fetch_run(head).appended == 0);
    lemma_streaming(head, length, size, lens);
    let body = head + chunk_events(lens);
    let ended = body.push(FetchEvent::EndOfBody);
    assert(ended.drop_last() =~= body);
    assert(fetch_run(ended).state == FetchState::Flushing);
    assert(fetch_run(ended).appended == size - length);
    let all = ended.push(FetchEvent::Flushed);
    assert(all.drop_last() =~= ended);
    assert(fetch_run(all).state == FetchState::Finished);
    assert(fetch_run(all).appended == size - length);
    assert(all =~= head + chunk_events(lens) + tail);
    let rest = seq![FetchEvent::Responded { range: Some(range) }] + chunk_events(lens) + tail;
    assert(all =~= first + rest);
    lemma_fetch_run_extends(first, rest);
    assert(fetch_run(first + rest).actions[0] == fetch_run(first).actions[0]);
}

} // verus!
