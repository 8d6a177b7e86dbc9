//! One download, as a machine that is told what happened and answers what to
//! do next: request, name and open the file, then read, write and report
//! chunk by chunk until the body ends or something fails.

use vstd::prelude::*;
use crate::filename::{
    is_time_name,
    naming_segment,
    percent_decoded,
    resolve_filename,
    ResponseInfo,
};

verus! {

/// What went wrong in a download.
#[derive(Clone, Copy, Debug, PartialEq, Eq, Structural)]
pub enum Failure {
    /// The request was not answered.
    Request,
    /// No name could be made for the file.
    Filename,
    /// The file could not be opened.
    Open,
    /// The body broke off.
    Body,
    /// A chunk could not be written.
    Write,
}

/// The two kinds of failure: of the transfer, or of keeping what came.
#[derive(Clone, Copy, Debug, PartialEq, Eq, Structural)]
pub enum FailureClass {
    Transfer,
    Persistence,
}

/// How far a download has come.
#[derive(Clone, Copy, Debug, PartialEq, Eq, Structural)]
pub enum Phase {
    /// The request is out.
    Requesting,
    /// The file is being opened.
    Opening,
    /// The next chunk is being read.
    Reading,
    /// A chunk of `len` bytes is being written.
    Writing { len: usize },
    /// The body ended and all of it is written.
    Completed,
    /// The download was given up.
    Aborted { failure: Failure },
}

/// What happened to the last thing a download asked for.
#[derive(Clone, Debug, PartialEq, Eq)]
pub enum Event {
    /// It failed.
    Failed,
    /// The request was answered, by an address that names a file or at a time
    /// that gives one.
    Responded { filename: String, content_length: Option<u64> },
    /// The request was answered, but no file name could be made.
    Unnamed,
    /// The file is open.
    Opened,
    /// A chunk of `len` bytes was read.
    Chunk { len: usize },
    /// The body ended.
    End,
    /// The chunk was written, all of it.
    Written,
}

/// What a download asks for next.
#[derive(Clone, Debug, PartialEq, Eq)]
pub enum Action {
    /// Open the file `filename` for writing, new or emptied. Once it is open,
    /// and where `total` is known, tell the progress sink the name and the
    /// total.
    Open { filename: String, total: Option<u64> },
    /// Read the next chunk of the body.
    Read,
    /// Write the chunk of `len` bytes that was read.
    Write { len: usize },
    /// Tell the progress sink that `bytes` more bytes are written, then read
    /// the next chunk of the body.
    Report { bytes: u64 },
    /// Tell the progress sink that the download is done, and end.
    Complete,
    /// End without a word to the progress sink. What is written stays.
    Abort { failure: Failure },
}

/// An event as a plain value.
pub enum EventView {
    Failed,
    Responded { filename: Seq<char>, content_length: Option<u64> },
    Unnamed,
    Opened,
    Chunk { len: usize },
    End,
    Written,
}

/// An action as a plain value.
pub enum ActionView {
    Open { filename: Seq<char>, total: Option<u64> },
    Read,
    Write { len: usize },
    Report { bytes: u64 },
    Complete,
    Abort { failure: Failure },
}

impl View for Event {
    type V = EventView;

    open spec fn view(&self) -> EventView {
        match self {
            Event::Failed => EventView::Failed,
            Event::Responded { filename, content_length } => EventView::Responded {
                filename: filename@,
                content_length: *content_length,
            },
            Event::Unnamed => EventView::Unnamed,
            Event::Opened => EventView::Opened,
            Event::Chunk { len } => EventView::Chunk { len: *len },
            Event::End => EventView::End,
            Event::Written => EventView::Written,
        }
    }
}

impl View for Action {
    type V = ActionView;

    open spec fn view(&self) -> ActionView {
        match self {
            Action::Open { filename, total } => ActionView::Open {
                filename: filename@,
                total: *total,
            },
            Action::Read => ActionView::Read,
            Action::Write { len } => ActionView::Write { len: *len },
            Action::Report { bytes } => ActionView::Report { bytes: *bytes },
            Action::Complete => ActionView::Complete,
            Action::Abort { failure } => ActionView::Abort { failure: *failure },
        }
    }
}

/// A download as a plain value: its phase, the total that the response
/// declared, if it did, and the bytes written so far.
pub struct TransferView {
    pub phase: Phase,
    pub total: Option<u64>,
    pub written: nat,
}

/// One download.
pub struct Transfer {
    phase: Phase,
    total: Option<u64>,
    written: u64,
}

impl View for Transfer {
    type V = TransferView;

    closed spec fn view(&self) -> TransferView {
        TransferView { phase: self.phase, total: self.total, written: self.written as nat }
    }
}

/// The class of a failure: a request that is not answered and a body that
/// breaks off are failures of the transfer, the others of persistence.
pub open spec fn class_of(failure: Failure) -> FailureClass {
    match failure {
        Failure::Request => FailureClass::Transfer,
        Failure::Body => FailureClass::Transfer,
        Failure::Filename => FailureClass::Persistence,
        Failure::Open => FailureClass::Persistence,
        Failure::Write => FailureClass::Persistence,
    }
}

/// The total that is told to the progress sink: the declared length, unless
/// none is declared or it is zero.
pub open spec fn announced_total(content_length: Option<u64>) -> Option<u64> {
    match content_length {
        Some(n) => if n != 0 {
            Some(n)
        } else {
            None
        },
        None => None,
    }
}

/// A download at its start.
pub open spec fn initial() -> TransferView {
    TransferView { phase: Phase::Requesting, total: None, written: 0 }
}

/// A download that is given up for `failure`.
pub open spec fn aborted(t: TransferView, failure: Failure) -> (TransferView, ActionView) {
    (TransferView { phase: Phase::Aborted { failure }, ..t }, ActionView::Abort { failure })
}

/// The download after `event`, and what it asks for. In each phase one
/// event, or two, lead on; any other means that what was asked for failed.
/// The bytes written are counted in a `u64`: a chunk that would bring them
/// above what a `u64` counts is taken as not written. A download that has
/// ended stays as it is.
pub open spec fn next(t: TransferView, event: EventView) -> (TransferView, ActionView) {
    match t.phase {
        Phase::Requesting => match event {
            EventView::Responded { filename, content_length } => (
                TransferView { phase: Phase::Opening, total: announced_total(content_length), ..t },
                ActionView::Open { filename, total: announced_total(content_length) },
            ),
            EventView::Unnamed => aborted(t, Failure::Filename),
            _ => aborted(t, Failure::Request),
        },
        Phase::Opening => match event {
            EventView::Opened => (TransferView { phase: Phase::Reading, ..t }, ActionView::Read),
            _ => aborted(t, Failure::Open),
        },
        Phase::Reading => match event {
            EventView::Chunk { len } => (
                TransferView { phase: Phase::Writing { len }, ..t },
                ActionView::Write { len },
            ),
            EventView::End => (
                TransferView { phase: Phase::Completed, ..t },
                ActionView::Complete,
            ),
            _ => aborted(t, Failure::Body),
        },
        Phase::Writing { len } => match event {
            EventView::Written => if t.written + len <= u64::MAX {
                (
                    TransferView { phase: Phase::Reading, written: t.written + len as nat, ..t },
                    ActionView::Report { bytes: len as u64 },
                )
            } else {
                aborted(t, Failure::Write)
            },
            _ => aborted(t, Failure::Write),
        },
        Phase::Completed => (t, ActionView::Complete),
        Phase::Aborted { failure } => (t, ActionView::Abort { failure }),
    }
}

/// The download after the events `events`, from its start.
pub open spec fn run(events: Seq<EventView>) -> TransferView
    decreases events.len(),
{
    if events.len() == 0 {
        initial()
    } else {
        next(run(events.drop_last()), events.last()).0
    }
}

/// What the download asked for last, after the events `events`.
pub open spec fn last_action(events: Seq<EventView>) -> Option<ActionView> {
    if events.len() == 0 {
        None
    } else {
        Some(next(run(events.drop_last()), events.last()).1)
    }
}

/// The bytes that the download reported to the progress sink over the events
/// `events`: the sum over its `Report` actions.
pub open spec fn reported_bytes(events: Seq<EventView>) -> nat
    decreases events.len(),
{
    if events.len() == 0 {
        0
    } else {
        reported_bytes(events.drop_last()) + match last_action(events) {
            Some(ActionView::Report { bytes }) => bytes as nat,
            _ => 0,
        }
    }
}

/// The bytes that were written to the file over the events `events`: the sum
/// over the `Write` actions that were answered by `Written`.
pub open spec fn written_bytes(events: Seq<EventView>) -> nat
    decreases events.len(),
{
    if events.len() == 0 {
        0
    } else {
        written_bytes(events.drop_last()) + match (
            last_action(events.drop_last()),
            events.last(),
        ) {
            (Some(ActionView::Write { len }), EventView::Written) => len as nat,
            _ => 0,
        }
    }
}

/// Whether the download has ended.
pub open spec fn ended(t: TransferView) -> bool {
    t.phase is Completed || t.phase is Aborted
}

/// The bytes reported to the progress sink are the bytes written to the
/// file, after any events, as long as the bytes written fit in a `u64`. The
/// download's own count is that number too.
pub proof fn lemma_reported_is_written(events: Seq<EventView>)
    requires
        written_bytes(events) <= u64::MAX,
    ensures
        reported_bytes(events) == written_bytes(events),
        run(events).written == written_bytes(events),
    decreases events.len(),
{
    if events.len() > 0 {
        lemma_reported_is_written(events.drop_last());
    }
}

/// The bytes written never become fewer, and grow only with a report of
/// as many bytes to the progress sink.
pub proof fn lemma_written_grows_with_reports(t: TransferView, event: EventView)
    ensures
        next(t, event).0.written == t.written + match next(t, event).1 {
            ActionView::Report { bytes } => bytes as nat,
            _ => 0,
        },
{
}

/// A download that has ended stays as it is, whatever it is told.
pub proof fn lemma_ended_stays(t: TransferView, event: EventView)
    requires
        ended(t),
    ensures
        next(t, event).0 == t,
        !(next(t, event).1 is Report),
{
}

/// A download that was given up stays given up, whatever follows: after a
/// failure it never completes.
pub proof fn lemma_aborted_never_completes(events: Seq<EventView>, more: Seq<EventView>)
    requires
        run(events).phase is Aborted,
    ensures
        run(events + more).phase == run(events).phase,
    decreases more.len(),
{
    if more.len() > 0 {
        lemma_aborted_never_completes(events, more.drop_last());
        assert((events + more).drop_last() =~= events + more.drop_last());
    }
}

impl Failure {
    /// The class of this failure.
    pub fn class(&self) -> (c: FailureClass)
        ensures
            c == class_of(*self),
    {
        match self {
            Failure::Request => FailureClass::Transfer,
            Failure::Body => FailureClass::Transfer,
            Failure::Filename => FailureClass::Persistence,
            Failure::Open => FailureClass::Persistence,
            Failure::Write => FailureClass::Persistence,
        }
    }
}

/// The event for a request that was answered with `info`: the response with
/// its file name, or that no name could be made. The name is the naming
/// segment of the address with its percent escapes decoded, and a name from
/// the clock where the address has no such segment.
pub fn response_event(info: &ResponseInfo) -> (event: Event)
    ensures
        match naming_segment(info.path_segments.deep_view()) {
            Some(segment) => event@ == (EventView::Responded {
                filename: percent_decoded(segment),
                content_length: info.content_length,
            }),
            None => match event@ {
                EventView::Responded { filename, content_length } => is_time_name(filename)
                    && content_length == info.content_length,
                EventView::Unnamed => true,
                _ => false,
            },
        },
{
    match resolve_filename(&info.path_segments) {
        Ok(filename) => Event::Responded { filename, content_length: info.content_length },
        Err(_) => Event::Unnamed,
    }
}

impl Transfer {
    /// A download whose request is out.
    pub fn new() -> (t: Transfer)
        ensures
            t@ == initial(),
    {
        Transfer { phase: Phase::Requesting, total: None, written: 0 }
    }

    /// How far the download has come.
    pub fn phase(&self) -> (p: Phase)
        ensures
            p == self@.phase,
    {
        self.phase
    }

    /// The total that the response declared, once it is known.
    pub fn declared_total(&self) -> (total: Option<u64>)
        ensures
            total == self@.total,
    {
        self.total
    }

    /// The bytes written so far.
    pub fn bytes_written(&self) -> (n: u64)
        ensures
            n == self@.written,
    {
        self.written
    }

    /// Whether the download has ended.
    pub fn has_ended(&self) -> (b: bool)
        ensures
            b == ended(self@),
    {
        match self.phase {
            Phase::Completed => true,
            Phase::Aborted { .. } => true,
            _ => false,
        }
    }

    fn abort(&mut self, failure: Failure) -> (action: Action)
        ensures
            (final(self)@, action@) == aborted(old(self)@, failure),
    {
        self.phase = Phase::Aborted { failure };
        Action::Abort { failure }
    }

    /// Takes `event` and answers what to do next.
    pub fn step(&mut self, event: Event) -> (action: Action)
        ensures
            (final(self)@, action@) == next(old(self)@, event@),
    {
        match self.phase {
            Phase::Requesting => match event {
                Event::Responded { filename, content_length } => {
                    let total = match content_length {
                        Some(n) => if n != 0 {
                            Some(n)
                        } else {
                            None
                        },
                        None => None,
                    };
                    self.phase = Phase::Opening;
                    self.total = total;
                    Action::Open { filename, total }
                },
                Event::Unnamed => self.abort(Failure::Filename),
                _ => self.abort(Failure::Request),
            },
            Phase::Opening => match event {
                Event::Opened => {
                    self.phase = Phase::Reading;
                    Action::Read
                },
                _ => self.abort(Failure::Open),
            },
            Phase::Reading => match event {
                Event::Chunk { len } => {
                    self.phase = Phase::Writing { len };
                    Action::Write { len }
                },
                Event::End => {
                    self.phase = Phase::Completed;
                    Action::Complete
                },
                _ => self.abort(Failure::Body),
            },
            Phase::Writing { len } => match event {
                Event::Written => {
                    if len as u128 <= (u64::MAX - self.written) as u128 {
                        self.phase = Phase::Reading;
                        self.written = self.written + len as u64;
                        Action::Report { bytes: len as u64 }
                    } else {
                        self.abort(Failure::Write)
                    }
                },
                _ => self.abort(Failure::Write),
            },
            Phase::Completed => Action::Complete,
            Phase::Aborted { failure } => Action::Abort { failure },
        }
    }
}

} // verus!
