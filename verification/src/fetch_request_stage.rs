//! The stage that asks peers for the headers of empty slices.
use crate::channels::latest;
use crate::clock::now;
use crate::header_slices::{HeaderSlice, HeaderSliceStatus, HeaderSlices, HEADER_SLICE_SIZE};
use crate::locks::{peek, read, replace, shared, upgradable_read, upgrade};
use crate::messages::{GetBlockHeadersMessage, Message, PeerFilter, SendMessageCommand};
use crate::scan::{
    lemma_refusal_ends_the_pass, lemma_request_id_after_step, lemma_requests_in_push,
    lemma_unrefused_pass_requests_every_empty_slice, request_id_after, requests_in,
    visit_after_answer, wants_request, ScanEnd, ScanReport, SliceVisit,
};
use crate::sentry_client_reactor::{SendMessageError, SentryClientReactor};
use parking_lot::RwLock;
use std::sync::Arc;
use tokio::sync::watch;
use vstd::prelude::*;

verus! {

/// Why a call of the stage failed for good.
#[derive(Clone, Copy, Debug, PartialEq, Eq, Structural)]
pub enum StageError {
    /// The store that announces empty slices is gone.
    PendingWatchClosed,
    /// A request could not be sent, and not because the queue was full.
    SendFailed(SendMessageError),
    /// The send queue closed while the stage waited for room in it.
    CapacityUnavailable,
}

/// What the driver tells the stage.
#[derive(Clone, Copy, Debug, PartialEq, Eq, Structural)]
pub enum StageEvent {
    /// A new call begins.
    Invoked,
    /// The number of empty slices was announced anew.
    PendingChanged,
    /// Nobody is left to announce the number of empty slices.
    PendingClosed,
    /// The send queue has room again.
    CapacityReserved,
    /// The send queue closed before it had room.
    CapacityFailed,
}

/// What the driver does next.
#[derive(Clone, Copy, Debug, PartialEq, Eq)]
pub enum StageAction {
    /// Wait until the number of empty slices is announced anew, then hand in
    /// `PendingChanged`, or `PendingClosed` if that can no longer happen.
    AwaitPending,
    /// Wait until the send queue has room, then hand in `CapacityReserved`,
    /// or `CapacityFailed` if the queue closed.
    AwaitCapacity,
    /// The call is over, with this result.
    Done(Result<(), StageError>),
}

impl StageAction {
    /// What follows a pass that ended with `end`.
    pub open spec fn spec_after_scan(end: ScanEnd) -> StageAction {
        match end {
            ScanEnd::Completed => StageAction::Done(Ok(())),
            ScanEnd::QueueFull => StageAction::AwaitCapacity,
            ScanEnd::Failed(error) => StageAction::Done(Err(StageError::SendFailed(error))),
        }
    }

    /// What follows a pass that ended with `end`: after a full queue the call
    /// goes on once the queue has room, after a failure it ends with that
    /// failure, and otherwise it ends well.
    #[verifier::when_used_as_spec(spec_after_scan)]
    pub fn after_scan(end: ScanEnd) -> (action: StageAction)
        ensures
            action == StageAction::spec_after_scan(end),
    {
        match end {
            ScanEnd::Completed => StageAction::Done(Ok(())),
            ScanEnd::QueueFull => StageAction::AwaitCapacity,
            ScanEnd::Failed(error) => StageAction::Done(Err(StageError::SendFailed(error))),
        }
    }
}

/// Whether a step that was told of `pending` empty slices has work to do.
pub open spec fn spec_has_work(pending: usize) -> bool {
    pending != 0
}

/// Whether a step that was told of `pending` empty slices has work to do:
/// with at least one it makes a pass, with none it waits for the next change
/// of the number.
#[verifier::when_used_as_spec(spec_has_work)]
pub fn has_work(pending: usize) -> (work: bool)
    ensures
        work == spec_has_work(pending),
        work <==> pending > 0,
{
    pending != 0
}

/// What one step of a call did and what the driver does next.
#[derive(Debug, PartialEq, Eq)]
pub struct StageStep {
    pub action: StageAction,
    /// The number of empty slices that the stage was told of, if the event
    /// made it ask.
    pub pending: Option<usize>,
    /// The pass over the slices, if the step made one.
    pub scan: Option<ScanReport>,
}

impl StageStep {
    /// Whether this is a step that the stage can take on `event` when the
    /// next request identifier is `first_id`.
    ///
    /// When a wait ends badly the call ends with the matching error, and when
    /// room in the queue was found it ends well; neither looks at the slices.
    /// At the start of a call and after a change of the number of empty
    /// slices, the stage asks for that number: at zero it waits for the next
    /// change and sends nothing, and else it makes one pass and goes on as
    /// the end of the pass decides.
    pub open spec fn follows(self, event: StageEvent, first_id: u64) -> bool {
        match event {
            StageEvent::Invoked | StageEvent::PendingChanged => {
                &&& self.pending is Some
                &&& !has_work(self.pending->0) ==> self.action == StageAction::AwaitPending
                    && self.scan is None
                &&& has_work(self.pending->0) ==> self.scan is Some && self.scan->0.follows(
                    first_id,
                ) && self.action == StageAction::spec_after_scan(self.scan->0.end)
            },
            StageEvent::PendingClosed => {
                &&& self.action == StageAction::Done(Err(StageError::PendingWatchClosed))
                &&& self.pending is None
                &&& self.scan is None
            },
            StageEvent::CapacityReserved => {
                &&& self.action == StageAction::Done(Ok(()))
                &&& self.pending is None
                &&& self.scan is None
            },
            StageEvent::CapacityFailed => {
                &&& self.action == StageAction::Done(Err(StageError::CapacityUnavailable))
                &&& self.pending is None
                &&& self.scan is None
            },
        }
    }

    /// How many request identifiers the step drew.
    pub open spec fn requests(self) -> nat {
        match self.scan {
            Some(report) => requests_in(report.visits@),
            None => 0,
        }
    }
}

/// Sends requests to peers, through the sentry client, for the slices that
/// are empty. The slices become waiting.
pub struct FetchRequestStage {
    header_slices: Arc<HeaderSlices>,
    sentry: Arc<RwLock<SentryClientReactor>>,
    next_request_id: u64,
    pending_watch: watch::Receiver<usize>,
}

impl FetchRequestStage {
    /// The identifier that the next request will carry.
    pub closed spec fn spec_next_request_id(&self) -> u64 {
        self.next_request_id
    }

    /// How many slices the store of this stage holds.
    pub closed spec fn slice_count(&self) -> nat {
        self.header_slices.spec_len()
    }

    /// A stage that works on `header_slices` and sends through `sentry`. Its
    /// first request will carry the identifier 0.
    pub fn new(header_slices: Arc<HeaderSlices>, sentry: Arc<RwLock<SentryClientReactor>>) -> (stage:
        Self)
        ensures
            stage.spec_next_request_id() == 0,
            stage.slice_count() == header_slices.spec_len(),
            stage.spec_header_slices() == header_slices,
            stage.spec_sentry() == sentry,
    {
        let pending_watch = header_slices.watch_status_changes(HeaderSliceStatus::Empty);
        FetchRequestStage { header_slices, sentry, next_request_id: 0, pending_watch }
    }

    /// The identifier that the next request will carry.
    #[verifier::when_used_as_spec(spec_next_request_id)]
    pub fn next_request_id(&self) -> (id: u64)
        ensures
            id == self.spec_next_request_id(),
    {
        self.next_request_id
    }

    /// The store that this stage works on.
    pub fn header_slices(&self) -> (store: &Arc<HeaderSlices>)
        ensures
            *store == self.spec_header_slices(),
            store.spec_len() == self.slice_count(),
    {
        &self.header_slices
    }

    /// The sentry client that this stage sends through.
    pub fn sentry(&self) -> (sentry: &Arc<RwLock<SentryClientReactor>>)
        ensures
            *sentry == self.spec_sentry(),
    {
        &self.sentry
    }

    /// The subscription on which the stage hears of empty slices. What the
    /// caller does to it is done to the stage's own subscription; nothing
    /// else of the stage changes.
    pub fn pending_watch(&mut self) -> (watch: &mut watch::Receiver<usize>)
        ensures
            *watch == old(self).spec_pending_watch(),
            final(self).spec_pending_watch() == *final(watch),
            final(self).spec_header_slices() == old(self).spec_header_slices(),
            final(self).spec_sentry() == old(self).spec_sentry(),
            final(self).spec_next_request_id() == old(self).spec_next_request_id(),
            final(self).slice_count() == old(self).slice_count(),
    {
        &mut self.pending_watch
    }

    fn pending_count(&self) -> usize {
        self.header_slices.count_slices_in_status(HeaderSliceStatus::Empty)
    }

    /// Builds the request for `limit` headers from `block_num` on and offers
    /// it to the sentry client, for one peer picked at random. Returns what
    /// was offered, with the client's answer.
    fn request(&self, request_id: u64, block_num: u64, limit: u64) -> (sent: (
        SendMessageCommand,
        Result<(), SendMessageError>,
    ))
        ensures
            sent.0 == (SendMessageCommand {
                message: Message::GetBlockHeaders(
                    GetBlockHeadersMessage::spec_ascending(request_id, block_num, limit),
                ),
                peer_filter: PeerFilter::Random(1),
            }),
    {
        let message = GetBlockHeadersMessage::ascending(request_id, block_num, limit);
        let command = SendMessageCommand {
            message: Message::GetBlockHeaders(message),
            peer_filter: PeerFilter::Random(1),
        };
        let sentry = read(&self.sentry);
        let answer = shared(&sentry).try_send_message(command.message, command.peer_filter);
        (command, answer)
    }

    /// Visits the slice at `index`: holds its lock so that no other stage can
    /// change it, and, if `wants_request` says so, asks for its headers. What
    /// becomes of the slice is what `visit_after_answer` makes of the sentry
    /// client's answer and of the time read after it; a slice that is left
    /// changed is written back under the same lock, made exclusive.
    fn visit(&mut self, index: usize) -> (visit: SliceVisit)
        requires
            index < old(self).slice_count(),
        ensures
            visit.follows(old(self).spec_next_request_id()),
            final(self).spec_next_request_id() == if visit is Skipped {
                old(self).spec_next_request_id()
            } else {
                request_id_after(old(self).spec_next_request_id(), 1)
            },
            final(self).slice_count() == old(self).slice_count(),
    {
        let guard = upgradable_read(self.header_slices.slice_lock(index));
        let seen: HeaderSlice = *peek(&guard);
        if wants_request(seen) {
            let request_id: u64 = self.next_request_id;
            self.next_request_id = request_id.wrapping_add(1);

            let limit: u64 = HEADER_SLICE_SIZE as u64 + 1;
            let sent = self.request(request_id, seen.start_block_num, limit);
            let visit = visit_after_answer(seen, request_id, sent.1, now());
            assert(visit.spec_command() == Some(sent.0));
            match visit {
                SliceVisit::Requested { left, .. } => {
                    let mut guard = upgrade(guard);
                    let mut slice: HeaderSlice = seen;
                    slice.request_time = left.request_time;
                    self.header_slices.set_slice_status(&mut slice, left.status);
                    assert(slice == left);
                    replace(&mut guard, slice);
                },
                _ => {},
            }
            visit
        } else {
            SliceVisit::Skipped { seen }
        }
    }

    /// Makes one pass over the slices, from the first to the last, and stops
    /// early at the first request that the sentry client refuses.
    ///
    /// The report says for each slice visited what was found under its lock
    /// and what was left there. After a pass that was completed every slice
    /// of the store has been visited.
    pub fn request_pending(&mut self) -> (report: ScanReport)
        ensures
            report.follows(old(self).spec_next_request_id()),
            final(self).spec_next_request_id() == request_id_after(
                old(self).spec_next_request_id(),
                requests_in(report.visits@),
            ),
            report.visits@.len() <= old(self).slice_count(),
            report.end is Completed ==> report.visits@.len() == old(self).slice_count(),
            final(self).slice_count() == old(self).slice_count(),
    {
        let ghost first = self.next_request_id;
        let count = self.header_slices.len();
        let mut visits: Vec<SliceVisit> = Vec::new();
        let mut end = ScanEnd::Completed;
        let mut index: usize = 0;
        proof {
            lemma_request_id_after_step(first, 0);
        }
        while index < count
            invariant_except_break
                end is Completed,
                visits@.len() == index,
                forall|i: int| 0 <= i < visits@.len() ==> !((#[trigger] visits@[i]) is Refused),
            invariant
                index <= count,
                count == self.slice_count(),
                self.slice_count() == old(self).slice_count(),
                visits@.len() <= count,
                self.next_request_id == request_id_after(first, requests_in(visits@)),
                forall|i: int|
                    0 <= i < visits@.len() ==> (#[trigger] visits@[i]).follows(
                        request_id_after(first, requests_in(visits@.take(i))),
                    ),
            ensures
                forall|i: int| 0 <= i < visits@.len() - 1 ==> !((#[trigger] visits@[i]) is Refused),
                end == ScanEnd::after(visits@),
                end is Completed ==> visits@.len() == count,
            decreases count - index,
        {
            let ghost before = visits@;
            let visit = self.visit(index);
            visits.push(visit);
            proof {
                lemma_requests_in_push(before, visit);
                lemma_request_id_after_step(first, requests_in(before));
                assert(visits@.take(before.len() as int) =~= before);
                assert forall|i: int| 0 <= i < visits@.len() implies (#[trigger] visits@[i]).follows(
                    request_id_after(first, requests_in(visits@.take(i))),
                ) by {
                    if i < before.len() {
                        assert(visits@.take(i) =~= before.take(i));
                        assert(visits@[i] == before[i]);
                    }
                }
            }
            match visit {
                SliceVisit::Refused { error, .. } => {
                    end = ScanEnd::after_refusal(error);
                    break;
                },
                _ => {},
            }
            index = index + 1;
        }
        ScanReport { visits, end }
    }

    /// The number of empty slices on which a step decides whether there is
    /// work, given the number `counted` that the store counts: `counted`
    /// itself unless it is zero, and then what was announced last. Only in
    /// that case is the subscription read.
    fn pending_told(&mut self, counted: usize) -> (pending: usize)
        ensures
            counted != 0 ==> pending == counted && final(self).spec_pending_watch() == old(
                self,
            ).spec_pending_watch(),
            final(self).spec_header_slices() == old(self).spec_header_slices(),
            final(self).spec_sentry() == old(self).spec_sentry(),
            final(self).spec_next_request_id() == old(self).spec_next_request_id(),
            final(self).slice_count() == old(self).slice_count(),
    {
        if counted == 0 {
            latest(&mut self.pending_watch)
        } else {
            counted
        }
    }

    /// Takes one step of a call.
    ///
    /// A call begins with `Invoked`. Each step says what the driver waits for
    /// before it hands in the next event, until a step ends the call with
    /// `Done`. The stage itself never waits. Whether a step makes a pass is
    /// what `has_work` says of the number of empty slices it was told of, and
    /// what follows a pass is what `StageAction::after_scan` says of its end.
    pub fn execute(&mut self, event: StageEvent) -> (step: StageStep)
        ensures
            step.follows(event, old(self).spec_next_request_id()),
            final(self).spec_next_request_id() == request_id_after(
                old(self).spec_next_request_id(),
                step.requests(),
            ),
            step.scan matches Some(report) ==> {
                &&& report.visits@.len() <= old(self).slice_count()
                &&& report.end is Completed ==> report.visits@.len() == old(self).slice_count()
            },
            final(self).slice_count() == old(self).slice_count(),
    {
        proof {
            lemma_request_id_after_step(self.next_request_id, 0);
        }
        match event {
            StageEvent::PendingClosed => StageStep {
                action: StageAction::Done(Err(StageError::PendingWatchClosed)),
                pending: None,
                scan: None,
            },
            StageEvent::CapacityReserved => StageStep {
                action: StageAction::Done(Ok(())),
                pending: None,
                scan: None,
            },
            StageEvent::CapacityFailed => StageStep {
                action: StageAction::Done(Err(StageError::CapacityUnavailable)),
                pending: None,
                scan: None,
            },
            _ => {
                let counted: usize = match event {
                    StageEvent::Invoked => self.pending_count(),
                    _ => 0,
                };
                let pending = self.pending_told(counted);
                if has_work(pending) {
                    let report = self.request_pending();
                    let action = StageAction::after_scan(report.end);
                    StageStep { action, pending: Some(pending), scan: Some(report) }
                } else {
                    StageStep { action: StageAction::AwaitPending, pending: Some(pending), scan: None }
                }
            },
        }
    }

    /// The store that this stage works on: the one it was made with.
    pub closed spec fn spec_header_slices(&self) -> Arc<HeaderSlices> {
        self.header_slices
    }

    /// The sentry client that this stage sends through: the one it was made
    /// with.
    pub closed spec fn spec_sentry(&self) -> Arc<RwLock<SentryClientReactor>> {
        self.sentry
    }

    /// The subscription on which the stage hears of empty slices.
    pub closed spec fn spec_pending_watch(&self) -> watch::Receiver<usize> {
        self.pending_watch
    }
}

/// While no empty slice is announced the stage waits and sends nothing; once
/// one is, it no longer waits for another.
pub proof fn lemma_stage_waits_for_work(step: StageStep, event: StageEvent, first_id: u64)
    requires
        step.follows(event, first_id),
        event == StageEvent::Invoked || event == StageEvent::PendingChanged,
    ensures
        step.pending == Some(0usize) <==> step.action == StageAction::AwaitPending,
        step.action == StageAction::AwaitPending ==> step.scan is None && step.requests() == 0,
{
}

/// A full queue is no failure: the call goes on when the queue has room
/// again, and then ends well without another pass.
pub proof fn lemma_full_queue_pauses_the_call(
    step: StageStep,
    event: StageEvent,
    first_id: u64,
    resumed: StageStep,
    resumed_id: u64,
)
    requires
        step.follows(event, first_id),
        step.scan matches Some(report) && report.end == ScanEnd::QueueFull,
        resumed.follows(StageEvent::CapacityReserved, resumed_id),
    ensures
        step.action == StageAction::AwaitCapacity,
        resumed.action == StageAction::Done(Ok(())),
        resumed.scan is None,
        resumed.requests() == 0,
{
}

/// A request that is refused for any reason but a full queue ends the call
/// with that reason as its error, and no slice after the refused one is
/// visited.
pub proof fn lemma_failed_send_ends_the_call(
    step: StageStep,
    event: StageEvent,
    first_id: u64,
    i: int,
)
    requires
        step.follows(event, first_id),
        step.scan is Some,
        0 <= i < step.scan->0.visits@.len(),
        step.scan->0.visits@[i] is Refused,
        step.scan->0.visits@[i]->error != SendMessageError::SendQueueFull,
    ensures
        step.action == StageAction::Done(
            Err(StageError::SendFailed(step.scan->0.visits@[i]->error)),
        ),
        i == step.scan->0.visits@.len() - 1,
        step.scan->0.visits@[i].spec_left() == step.scan->0.visits@[i].spec_seen(),
{
    let report = step.scan->0;
    assert(report.follows(first_id));
    lemma_refusal_ends_the_pass(report, first_id, i);
}

/// A step that makes a pass without a refusal ends the call well, and the
/// pass has left every slice that it found empty as waiting.
pub proof fn lemma_unrefused_step_ends_well(
    step: StageStep,
    event: StageEvent,
    first_id: u64,
    i: int,
)
    requires
        step.follows(event, first_id),
        step.scan is Some,
        forall|k: int|
            0 <= k < step.scan->0.visits@.len() ==> !(#[trigger] step.scan->0.visits@[k]
                is Refused),
        0 <= i < step.scan->0.visits@.len(),
        step.scan->0.visits@[i].spec_seen().status == HeaderSliceStatus::Empty,
    ensures
        step.action == StageAction::Done(Ok(())),
        step.scan->0.visits@[i].spec_left().status == HeaderSliceStatus::Waiting,
        step.scan->0.visits@[i].spec_left().request_time is Some,
{
    let report = step.scan->0;
    assert(report.follows(first_id));
    lemma_unrefused_pass_requests_every_empty_slice(report, first_id, i);
}

} // verus!
