//! What one pass over the slices does, slice by slice.
//!
//! A pass takes each slice under its lock, asks a peer for the headers of
//! every slice that is still empty, and stops at the first request that the
//! sentry client refuses. What it found and did is written down as one
//! `SliceVisit` per slice; `ScanReport::follows` says which reports a pass
//! can produce.
use crate::header_slices::{HeaderSlice, HeaderSliceStatus, HEADER_SLICE_SIZE};
use crate::messages::{GetBlockHeadersMessage, Message, PeerFilter, SendMessageCommand};
use crate::sentry_client_reactor::SendMessageError;
use std::time::Instant;
use vstd::prelude::*;

verus! {

/// The request identifier that comes `drawn` draws after `first`. The counter
/// has 64 bits and starts again at 0 after the last of them.
pub open spec fn request_id_after(first: u64, drawn: nat) -> u64 {
    ((first + drawn) % 0x1_0000_0000_0000_0000) as u64
}

/// What is offered to the sentry client for the slice that starts at
/// `start_block`: a request for one header more than the slice holds, so that
/// the last header of the slice can be linked to the first of the next, meant
/// for one peer picked at random.
pub open spec fn spec_slice_request(request_id: u64, start_block: u64) -> SendMessageCommand {
    SendMessageCommand {
        message: Message::GetBlockHeaders(
            GetBlockHeadersMessage::spec_ascending(
                request_id,
                start_block,
                (HEADER_SLICE_SIZE + 1) as u64,
            ),
        ),
        peer_filter: PeerFilter::Random(1),
    }
}

/// Builds what is offered to the sentry client for the slice that starts at
/// `start_block`: a request for one header more than the slice holds, meant
/// for one peer picked at random.
#[verifier::when_used_as_spec(spec_slice_request)]
pub fn slice_request(request_id: u64, start_block: u64) -> (command: SendMessageCommand)
    ensures
        command == spec_slice_request(request_id, start_block),
{
    let limit: u64 = HEADER_SLICE_SIZE as u64 + 1;
    SendMessageCommand {
        message: Message::GetBlockHeaders(
            GetBlockHeadersMessage::ascending(request_id, start_block, limit),
        ),
        peer_filter: PeerFilter::Random(1),
    }
}

/// Whether a pass asks for the headers of a slice that it found as `seen`:
/// it does for an empty slice and for no other.
pub fn wants_request(seen: HeaderSlice) -> (wanted: bool)
    ensures
        wanted == (seen.status == HeaderSliceStatus::Empty),
{
    seen.status == HeaderSliceStatus::Empty
}

/// What becomes of an empty slice once the sentry client has answered the
/// request made for it with `request_id`.
///
/// If the client took the request, the slice is left waiting, with `at` as
/// the time of the request whatever time it held before. If the client
/// refused, the slice is left as it was found and the refusal is kept.
/// `at` is the reading of the clock taken after the answer; a refusal makes
/// no use of it.
pub fn visit_after_answer(
    seen: HeaderSlice,
    request_id: u64,
    answer: Result<(), SendMessageError>,
    at: Instant,
) -> (visit: SliceVisit)
    requires
        seen.status == HeaderSliceStatus::Empty,
    ensures
        visit.follows(request_id),
        answer is Ok ==> visit == (SliceVisit::Requested {
            seen,
            command: slice_request(request_id, seen.start_block_num),
            left: seen.requested_at(at),
        }),
        answer matches Err(error) ==> visit == (SliceVisit::Refused {
            seen,
            command: slice_request(request_id, seen.start_block_num),
            error,
        }),
{
    let command = slice_request(request_id, seen.start_block_num);
    match answer {
        Ok(()) => {
            let left = HeaderSlice {
                start_block_num: seen.start_block_num,
                status: HeaderSliceStatus::Waiting,
                request_time: Some(at),
            };
            SliceVisit::Requested { seen, command, left }
        },
        Err(error) => SliceVisit::Refused { seen, command, error },
    }
}

/// What a pass found at one slice and what it did there.
#[derive(Clone, Copy, Debug, PartialEq, Eq)]
pub enum SliceVisit {
    /// The slice was not empty. Nothing was sent and the slice stayed as it
    /// was.
    Skipped { seen: HeaderSlice },
    /// The slice was empty, the sentry client took `command`, and the slice
    /// was left as `left`.
    Requested { seen: HeaderSlice, command: SendMessageCommand, left: HeaderSlice },
    /// The slice was empty and the sentry client refused `command` with
    /// `error`. The slice stayed as it was.
    Refused { seen: HeaderSlice, command: SendMessageCommand, error: SendMessageError },
}

impl SliceVisit {
    /// The slice as the pass found it.
    pub open spec fn spec_seen(self) -> HeaderSlice {
        match self {
            SliceVisit::Skipped { seen } => seen,
            SliceVisit::Requested { seen, .. } => seen,
            SliceVisit::Refused { seen, .. } => seen,
        }
    }

    /// The slice as the pass found it.
    #[verifier::when_used_as_spec(spec_seen)]
    pub fn seen(self) -> (slice: HeaderSlice)
        ensures
            slice == self.spec_seen(),
    {
        match self {
            SliceVisit::Skipped { seen } => seen,
            SliceVisit::Requested { seen, .. } => seen,
            SliceVisit::Refused { seen, .. } => seen,
        }
    }

    /// The slice as the pass left it.
    pub open spec fn spec_left(self) -> HeaderSlice {
        match self {
            SliceVisit::Skipped { seen } => seen,
            SliceVisit::Requested { left, .. } => left,
            SliceVisit::Refused { seen, .. } => seen,
        }
    }

    /// The slice as the pass left it.
    #[verifier::when_used_as_spec(spec_left)]
    pub fn left(self) -> (slice: HeaderSlice)
        ensures
            slice == self.spec_left(),
    {
        match self {
            SliceVisit::Skipped { seen } => seen,
            SliceVisit::Requested { left, .. } => left,
            SliceVisit::Refused { seen, .. } => seen,
        }
    }

    /// What the pass offered to the sentry client for this slice, if it
    /// offered anything.
    pub open spec fn spec_command(self) -> Option<SendMessageCommand> {
        match self {
            SliceVisit::Skipped { .. } => None,
            SliceVisit::Requested { command, .. } => Some(command),
            SliceVisit::Refused { command, .. } => Some(command),
        }
    }

    /// What the pass offered to the sentry client for this slice, if it
    /// offered anything.
    #[verifier::when_used_as_spec(spec_command)]
    pub fn command(self) -> (command: Option<SendMessageCommand>)
        ensures
            command == self.spec_command(),
    {
        match self {
            SliceVisit::Skipped { .. } => None,
            SliceVisit::Requested { command, .. } => Some(command),
            SliceVisit::Refused { command, .. } => Some(command),
        }
    }

    /// The identifier of the request that the pass offered for this slice, if
    /// it offered one.
    pub open spec fn spec_request_id(self) -> Option<u64> {
        match self.spec_command() {
            Some(command) => match command.message {
                Message::GetBlockHeaders(request) => Some(request.request_id),
            },
            None => None,
        }
    }

    /// The identifier of the request that the pass offered for this slice, if
    /// it offered one.
    #[verifier::when_used_as_spec(spec_request_id)]
    pub fn request_id(self) -> (id: Option<u64>)
        ensures
            id == self.spec_request_id(),
    {
        match self.command() {
            Some(command) => match command.message {
                Message::GetBlockHeaders(request) => Some(request.request_id),
            },
            None => None,
        }
    }

    /// Whether this is a visit that a pass can make when the next request
    /// identifier is `request_id`.
    ///
    /// A slice that is not empty is skipped. For an empty one the command is
    /// `slice_request` with `request_id` and the slice's first block; if the
    /// command was taken, the slice is left waiting with the time of the
    /// request, and otherwise it is not touched.
    pub open spec fn follows(self, request_id: u64) -> bool {
        match self {
            SliceVisit::Skipped { seen } => seen.status != HeaderSliceStatus::Empty,
            SliceVisit::Requested { seen, command, left } => {
                &&& seen.status == HeaderSliceStatus::Empty
                &&& command == slice_request(request_id, seen.start_block_num)
                &&& left.request_time is Some
                &&& left == seen.requested_at(left.request_time->0)
            },
            SliceVisit::Refused { seen, command, error } => {
                &&& seen.status == HeaderSliceStatus::Empty
                &&& command == slice_request(request_id, seen.start_block_num)
            },
        }
    }
}

/// How many request identifiers the visits of `visits` drew: one for each
/// slice that was not skipped.
pub open spec fn requests_in(visits: Seq<SliceVisit>) -> nat
    decreases visits.len(),
{
    if visits.len() == 0 {
        0
    } else {
        requests_in(visits.drop_last()) + if visits.last() is Skipped {
            0nat
        } else {
            1nat
        }
    }
}

/// How a pass over the slices ended.
#[derive(Clone, Copy, Debug, PartialEq, Eq, Structural)]
pub enum ScanEnd {
    /// Every slice was visited.
    Completed,
    /// The send queue was full; the slices from there on were not visited.
    QueueFull,
    /// A request could not be sent for a reason that will not pass; the
    /// slices from there on were not visited.
    Failed(SendMessageError),
}

impl ScanEnd {
    /// The end of a pass whose last request was refused with `error`.
    pub open spec fn spec_after_refusal(error: SendMessageError) -> ScanEnd {
        if error.spec_is_transient() {
            ScanEnd::QueueFull
        } else {
            ScanEnd::Failed(error)
        }
    }

    /// The end of a pass whose last request was refused with `error`: a full
    /// queue is no failure, everything else is.
    #[verifier::when_used_as_spec(spec_after_refusal)]
    pub fn after_refusal(error: SendMessageError) -> (end: ScanEnd)
        ensures
            end == ScanEnd::spec_after_refusal(error),
            end !is Completed,
            end is QueueFull <==> error == SendMessageError::SendQueueFull,
            end is Failed ==> end == ScanEnd::Failed(error),
    {
        if error.is_transient() {
            ScanEnd::QueueFull
        } else {
            ScanEnd::Failed(error)
        }
    }

    /// The end of a pass that made `visits`: decided by the last visit alone.
    pub open spec fn after(visits: Seq<SliceVisit>) -> ScanEnd {
        if visits.len() > 0 && visits.last() is Refused {
            ScanEnd::spec_after_refusal(visits.last()->error)
        } else {
            ScanEnd::Completed
        }
    }
}

/// What one pass over the slices found and did.
#[derive(Debug, PartialEq, Eq)]
pub struct ScanReport {
    /// One entry for each slice visited, in the order of the store.
    pub visits: Vec<SliceVisit>,
    pub end: ScanEnd,
}

impl ScanReport {
    /// Whether this is a report of a pass that started with `first_id` as the
    /// next request identifier.
    ///
    /// Each visit follows from the slice it found and from the identifier
    /// that was next at that point; only the last visit can be a refusal,
    /// since a refusal ends the pass; and the end is the one that the last
    /// visit decides.
    pub open spec fn follows(self, first_id: u64) -> bool {
        &&& forall|i: int|
            0 <= i < self.visits@.len() ==> (#[trigger] self.visits@[i]).follows(
                request_id_after(first_id, requests_in(self.visits@.take(i))),
            )
        &&& forall|i: int|
            0 <= i < self.visits@.len() - 1 ==> !((#[trigger] self.visits@[i]) is Refused)
        &&& self.end == ScanEnd::after(self.visits@)
    }
}

/// Drawing one identifier after `drawn` others is drawing `drawn + 1`.
pub proof fn lemma_request_id_after_step(first: u64, drawn: nat)
    ensures
        request_id_after(request_id_after(first, drawn), 1) == request_id_after(first, drawn + 1),
        request_id_after(first, 0) == first,
{
}

/// Identifiers drawn in two rounds are the identifiers drawn in one: where
/// one call of the stage stops, the next goes on.
pub proof fn lemma_request_id_after_add(first: u64, earlier: nat, later: nat)
    ensures
        request_id_after(request_id_after(first, earlier), later) == request_id_after(
            first,
            earlier + later,
        ),
{
}

/// Until the counter has used up its 64 bits, a request drawn later carries a
/// larger identifier, and none carries one below the first.
pub proof fn lemma_request_ids_increase(first: u64, earlier: nat, later: nat)
    requires
        earlier < later,
        first + later <= u64::MAX,
    ensures
        first <= request_id_after(first, earlier) < request_id_after(first, later),
{
}

/// A visit appended to others adds its own draw to theirs.
pub proof fn lemma_requests_in_push(visits: Seq<SliceVisit>, visit: SliceVisit)
    ensures
        requests_in(visits.push(visit)) == requests_in(visits) + if visit is Skipped {
            0nat
        } else {
            1nat
        },
{
    assert(visits.push(visit).drop_last() =~= visits);
}

/// The first `j` visits drew at least what the first `i` of them drew, at
/// most one more per visit, and more if the visit at `i` drew.
pub proof fn lemma_requests_in_take(visits: Seq<SliceVisit>, i: int, j: int)
    requires
        0 <= i <= j <= visits.len(),
    ensures
        requests_in(visits.take(i)) <= requests_in(visits.take(j)) <= requests_in(visits.take(i))
            + (j - i),
        i < j && !(visits[i] is Skipped) ==> requests_in(visits.take(i)) < requests_in(
            visits.take(j),
        ),
    decreases j - i,
{
    if i < j {
        lemma_requests_in_take(visits, i, j - 1);
        assert(visits.take(j).drop_last() =~= visits.take(j - 1));
        assert(visits.take(j).last() == visits[j - 1]);
    }
}

/// What a visit of a pass offered to the sentry client: the request for the
/// slice it found, with the identifier that comes after as many draws as the
/// visits before it made.
pub proof fn lemma_request_id_of_visit(report: ScanReport, first_id: u64, i: int)
    requires
        report.follows(first_id),
        0 <= i < report.visits@.len(),
        report.visits@[i].spec_command() is Some,
    ensures
        report.visits@[i].spec_command() == Some(
            slice_request(
                request_id_after(first_id, requests_in(report.visits@.take(i))),
                report.visits@[i].spec_seen().start_block_num,
            ),
        ),
        report.visits@[i].spec_request_id() == Some(
            request_id_after(first_id, requests_in(report.visits@.take(i))),
        ),
        requests_in(report.visits@.take(i)) < requests_in(report.visits@),
{
    let visits = report.visits@;
    assert(visits[i].follows(request_id_after(first_id, requests_in(visits.take(i)))));
    lemma_requests_in_take(visits, i, visits.len() as int);
    assert(visits.take(visits.len() as int) =~= visits);
}

/// Within one pass the request identifiers grow from slice to slice and
/// never repeat, and none is below the identifier that the pass started
/// with. This holds as long as the counter does not start again at 0 during
/// the pass.
pub proof fn lemma_request_ids_increase_within_pass(
    report: ScanReport,
    first_id: u64,
    i: int,
    j: int,
)
    requires
        report.follows(first_id),
        0 <= i < j < report.visits@.len(),
        report.visits@[i].spec_request_id() is Some,
        report.visits@[j].spec_request_id() is Some,
        first_id + requests_in(report.visits@) <= u64::MAX + 1,
    ensures
        first_id <= report.visits@[i].spec_request_id()->0
            < report.visits@[j].spec_request_id()->0,
{
    let visits = report.visits@;
    lemma_request_id_of_visit(report, first_id, i);
    lemma_request_id_of_visit(report, first_id, j);
    lemma_requests_in_take(visits, i, j);
    lemma_request_ids_increase(first_id, requests_in(visits.take(i)), requests_in(visits.take(j)));
}

/// Every request of a later pass carries a larger identifier than every
/// request of an earlier pass of the same stage, as long as the counter does
/// not start again at 0 on the way.
pub proof fn lemma_request_ids_increase_across_passes(
    earlier: ScanReport,
    later: ScanReport,
    first_id: u64,
    i: int,
    j: int,
)
    requires
        earlier.follows(first_id),
        later.follows(request_id_after(first_id, requests_in(earlier.visits@))),
        0 <= i < earlier.visits@.len(),
        0 <= j < later.visits@.len(),
        earlier.visits@[i].spec_request_id() is Some,
        later.visits@[j].spec_request_id() is Some,
        first_id + requests_in(earlier.visits@) + requests_in(later.visits@) <= u64::MAX + 1,
    ensures
        earlier.visits@[i].spec_request_id()->0 < later.visits@[j].spec_request_id()->0,
{
    let drawn = requests_in(earlier.visits@);
    lemma_request_id_of_visit(earlier, first_id, i);
    lemma_request_id_of_visit(later, request_id_after(first_id, drawn), j);
    lemma_request_id_after_add(first_id, drawn, requests_in(later.visits@.take(j)));
    lemma_request_ids_increase(
        first_id,
        requests_in(earlier.visits@.take(i)),
        drawn + requests_in(later.visits@.take(j)),
    );
}

/// A pass asks for the headers of a slice only if it found the slice empty,
/// and it leaves every other slice as it found it.
pub proof fn lemma_only_empty_slices_are_requested(report: ScanReport, first_id: u64, i: int)
    requires
        report.follows(first_id),
        0 <= i < report.visits@.len(),
    ensures
        report.visits@[i].spec_seen().status != HeaderSliceStatus::Empty
            <==> report.visits@[i].spec_command() is None,
        report.visits@[i].spec_command() is None ==> report.visits@[i].spec_left()
            == report.visits@[i].spec_seen(),
{
    assert(report.visits@[i].follows(
        request_id_after(first_id, requests_in(report.visits@.take(i))),
    ));
}

/// A pass that meets no refusal visits until the end and leaves every slice
/// that it found empty as waiting, with the time of its request and with the
/// first block it had.
pub proof fn lemma_unrefused_pass_requests_every_empty_slice(
    report: ScanReport,
    first_id: u64,
    i: int,
)
    requires
        report.follows(first_id),
        forall|k: int| 0 <= k < report.visits@.len() ==> !(#[trigger] report.visits@[k] is Refused),
        0 <= i < report.visits@.len(),
        report.visits@[i].spec_seen().status == HeaderSliceStatus::Empty,
    ensures
        report.end == ScanEnd::Completed,
        report.visits@[i] is Requested,
        report.visits@[i].spec_left().status == HeaderSliceStatus::Waiting,
        report.visits@[i].spec_left().request_time is Some,
        report.visits@[i].spec_left().start_block_num
            == report.visits@[i].spec_seen().start_block_num,
        report.visits@[i].spec_command() == Some(
            slice_request(
                request_id_after(first_id, requests_in(report.visits@.take(i))),
                report.visits@[i].spec_seen().start_block_num,
            ),
        ),
{
    let visits = report.visits@;
    assert(visits[i].follows(request_id_after(first_id, requests_in(visits.take(i)))));
    assert(!(visits[visits.len() - 1] is Refused));
}

/// A refusal ends the pass on the spot: the refused slice is the last one
/// visited and stays as it was found, a full queue ends the pass without a
/// failure, and every other refusal ends it with that refusal as the failure.
pub proof fn lemma_refusal_ends_the_pass(report: ScanReport, first_id: u64, i: int)
    requires
        report.follows(first_id),
        0 <= i < report.visits@.len(),
        report.visits@[i] is Refused,
    ensures
        i == report.visits@.len() - 1,
        report.visits@[i].spec_left() == report.visits@[i].spec_seen(),
        report.visits@[i]->error == SendMessageError::SendQueueFull ==> report.end
            == ScanEnd::QueueFull,
        report.visits@[i]->error != SendMessageError::SendQueueFull ==> report.end
            == ScanEnd::Failed(report.visits@[i]->error),
{
}

} // verus!
