//! The slices of a header download and the store that the stages share.
use crate::channels::{new_watch, publish, subscribe};
use crate::locks::{new_lock, peek, read, replace, shared, upgradable_read, upgrade};
use parking_lot::lock_api::RwLock;
use parking_lot::RawRwLock;
use std::sync::atomic::{AtomicUsize, Ordering};
use std::time::Instant;
use tokio::sync::watch;
use vstd::prelude::*;

verus! {

/// How many headers a slice holds.
pub const HEADER_SLICE_SIZE: usize = 192;

/// How many values `HeaderSliceStatus` has.
pub const STATUS_COUNT: usize = 7;

/// Where a slice stands on its way from nothing to saved headers.
#[derive(Clone, Copy, Debug, PartialEq, Eq, Structural)]
pub enum HeaderSliceStatus {
    /// Nobody has asked for the headers yet.
    Empty,
    /// A request is out and the answer has not come.
    Waiting,
    /// The headers have arrived.
    Downloaded,
    /// The headers agree with each other.
    VerifiedInternally,
    /// The headers link to the slices around them.
    Verified,
    /// The headers failed a check.
    Invalid,
    /// The headers are in the database.
    Saved,
}

impl HeaderSliceStatus {
    /// The place of a status among the seven, from 0.
    pub open spec fn spec_index(self) -> usize {
        match self {
            HeaderSliceStatus::Empty => 0,
            HeaderSliceStatus::Waiting => 1,
            HeaderSliceStatus::Downloaded => 2,
            HeaderSliceStatus::VerifiedInternally => 3,
            HeaderSliceStatus::Verified => 4,
            HeaderSliceStatus::Invalid => 5,
            HeaderSliceStatus::Saved => 6,
        }
    }

    /// The place of a status among the seven, from 0.
    #[verifier::when_used_as_spec(spec_index)]
    pub fn index(self) -> (i: usize)
        ensures
            i == self.spec_index(),
            i < STATUS_COUNT,
    {
        match self {
            HeaderSliceStatus::Empty => 0,
            HeaderSliceStatus::Waiting => 1,
            HeaderSliceStatus::Downloaded => 2,
            HeaderSliceStatus::VerifiedInternally => 3,
            HeaderSliceStatus::Verified => 4,
            HeaderSliceStatus::Invalid => 5,
            HeaderSliceStatus::Saved => 6,
        }
    }

    /// The status at a place among the seven; none beyond the last.
    pub fn from_index(i: usize) -> (status: Option<HeaderSliceStatus>)
        ensures
            i < STATUS_COUNT <==> status is Some,
            status matches Some(s) ==> s.spec_index() == i,
    {
        if i == 0 {
            Some(HeaderSliceStatus::Empty)
        } else if i == 1 {
            Some(HeaderSliceStatus::Waiting)
        } else if i == 2 {
            Some(HeaderSliceStatus::Downloaded)
        } else if i == 3 {
            Some(HeaderSliceStatus::VerifiedInternally)
        } else if i == 4 {
            Some(HeaderSliceStatus::Verified)
        } else if i == 5 {
            Some(HeaderSliceStatus::Invalid)
        } else if i == 6 {
            Some(HeaderSliceStatus::Saved)
        } else {
            None
        }
    }
}

/// A run of `HEADER_SLICE_SIZE` consecutive headers to download.
#[derive(Clone, Copy, Debug, PartialEq, Eq)]
pub struct HeaderSlice {
    /// The number of the first block of the run.
    pub start_block_num: u64,
    pub status: HeaderSliceStatus,
    /// When the headers were last asked for, if ever.
    pub request_time: Option<Instant>,
}

impl HeaderSlice {
    /// The slice that starts at `start_block_num` and was never asked for.
    pub open spec fn spec_new(start_block_num: u64) -> HeaderSlice {
        HeaderSlice { start_block_num, status: HeaderSliceStatus::Empty, request_time: None }
    }

    /// The slice that starts at `start_block_num` and was never asked for.
    #[verifier::when_used_as_spec(spec_new)]
    pub fn new(start_block_num: u64) -> (slice: HeaderSlice)
        ensures
            slice == HeaderSlice::spec_new(start_block_num),
    {
        HeaderSlice { start_block_num, status: HeaderSliceStatus::Empty, request_time: None }
    }

    /// This slice with another status and nothing else changed.
    pub open spec fn with_status(self, status: HeaderSliceStatus) -> HeaderSlice {
        HeaderSlice { status, ..self }
    }

    /// This slice once its headers were asked for at `at`: waiting, with `at`
    /// as the time of the request.
    pub open spec fn requested_at(self, at: Instant) -> HeaderSlice {
        HeaderSlice { status: HeaderSliceStatus::Waiting, request_time: Some(at), ..self }
    }
}

/// How many of `slices` have `status`.
pub open spec fn count_in_status(slices: Seq<HeaderSlice>, status: HeaderSliceStatus) -> nat {
    slices.filter(|slice: HeaderSlice| slice.status == status).len()
}

/// Counts the slices of `slices` that have `status`.
pub fn count_slices(slices: &Vec<HeaderSlice>, status: HeaderSliceStatus) -> (count: usize)
    ensures
        count == count_in_status(slices@, status),
{
    let ghost has_status = |slice: HeaderSlice| slice.status == status;
    let mut count: usize = 0;
    let mut i: usize = 0;
    while i < slices.len()
        invariant
            i <= slices.len(),
            count <= i,
            count == slices@.take(i as int).filter(has_status).len(),
            has_status == |slice: HeaderSlice| slice.status == status,
        decreases slices.len() - i,
    {
        proof {
            let prefix = slices@.take(i as int);
            assert(slices@.take(i + 1) =~= prefix.push(slices@[i as int]));
            Seq::filter_distributes_over_add(prefix, seq![slices@[i as int]], has_status);
            reveal_with_fuel(Seq::filter, 2);
            assert(prefix.push(slices@[i as int]) =~= prefix + seq![slices@[i as int]]);
            assert(seq![slices@[i as int]].drop_last() =~= Seq::<HeaderSlice>::empty());
        }
        if slices[i].status == status {
            count = count + 1;
        }
        i = i + 1;
    }
    proof {
        assert(slices@.take(slices.len() as int) =~= slices@);
    }
    count
}

/// The number of slices in one status, and the channel on which each change
/// of that number is announced.
struct StatusWatch {
    count: AtomicUsize,
    sender: watch::Sender<usize>,
}

/// The slices of a download, shared by the stages that work on them.
///
/// Each slice sits behind a lock of its own, so that stages working on
/// different slices do not wait for each other. For each status the store
/// counts the slices that have it; a slice changes status only through
/// `set_slice_status`, which keeps the counts.
pub struct HeaderSlices {
    slices: Vec<RwLock<RawRwLock, HeaderSlice>>,
    status_watches: Vec<StatusWatch>,
}

impl HeaderSlices {
    #[verifier::type_invariant]
    spec fn one_watch_per_status(self) -> bool {
        self.status_watches@.len() == STATUS_COUNT
    }

    /// How many slices the store holds. The number never changes.
    pub closed spec fn spec_len(&self) -> nat {
        self.slices@.len()
    }

    /// A store that holds `slices`, in this order.
    pub fn new(slices: Vec<HeaderSlice>) -> (store: HeaderSlices)
        ensures
            store.spec_len() == slices@.len(),
    {
        let mut status_watches: Vec<StatusWatch> = Vec::new();
        let mut k: usize = 0;
        while k < STATUS_COUNT
            invariant
                k <= STATUS_COUNT,
                status_watches@.len() == k,
            decreases STATUS_COUNT - k,
        {
            let count: usize = match HeaderSliceStatus::from_index(k) {
                Some(status) => count_slices(&slices, status),
                None => 0,
            };
            status_watches.push(
                StatusWatch { count: AtomicUsize::new(count), sender: new_watch(count) },
            );
            k = k + 1;
        }
        let mut locks: Vec<RwLock<RawRwLock, HeaderSlice>> = Vec::new();
        let mut i: usize = 0;
        while i < slices.len()
            invariant
                i <= slices.len(),
                locks@.len() == i,
            decreases slices.len() - i,
        {
            locks.push(new_lock(slices[i]));
            i = i + 1;
        }
        HeaderSlices { slices: locks, status_watches }
    }

    /// How many slices the store holds.
    pub fn len(&self) -> (n: usize)
        ensures
            n == self.spec_len(),
    {
        self.slices.len()
    }

    /// The lock of the slice at `index`.
    pub(crate) fn slice_lock(&self, index: usize) -> (lock: &RwLock<RawRwLock, HeaderSlice>)
        requires
            index < self.spec_len(),
        ensures
            *lock == self.spec_slice_lock(index as int),
    {
        &self.slices[index]
    }

    /// The slice at `index` as it is at the moment of the call, or nothing if
    /// the store has no such slice.
    pub fn slice_at(&self, index: usize) -> (slice: Option<HeaderSlice>)
        ensures
            slice is Some <==> index < self.spec_len(),
    {
        if index < self.slices.len() {
            let guard = read(&self.slices[index]);
            Some(*shared(&guard))
        } else {
            None
        }
    }

    /// How many slices had `status` when the count was last updated.
    pub fn count_slices_in_status(&self, status: HeaderSliceStatus) -> usize {
        proof {
            use_type_invariant(self);
        }
        self.status_watches[status.index()].count.load(Ordering::SeqCst)
    }

    /// A subscription to the number of slices in `status`: it is told of
    /// every change from now on.
    pub fn watch_status_changes(&self, status: HeaderSliceStatus) -> watch::Receiver<usize> {
        proof {
            use_type_invariant(self);
        }
        subscribe(&self.status_watches[status.index()].sender)
    }

    /// Gives `slice` the status `status`, moves one from the count of its old
    /// status to the count of the new one, and announces both counts. The
    /// caller holds the slice's lock exclusively.
    pub fn set_slice_status(&self, slice: &mut HeaderSlice, status: HeaderSliceStatus)
        ensures
            *final(slice) == old(slice).with_status(status),
    {
        proof {
            use_type_invariant(self);
        }
        let old_watch = &self.status_watches[slice.status.index()];
        let new_watch = &self.status_watches[status.index()];
        slice.status = status;
        let old_before: usize = old_watch.count.fetch_sub(1, Ordering::SeqCst);
        let new_before: usize = new_watch.count.fetch_add(1, Ordering::SeqCst);
        publish(&old_watch.sender, old_before.wrapping_sub(1));
        publish(&new_watch.sender, new_before.wrapping_add(1));
    }

    /// Takes the slice at `index` under its lock and gives it `status`, as
    /// another stage does when it moves a slice on. Without such a slice
    /// nothing happens and the answer is `false`.
    pub fn update_slice_status(&self, index: usize, status: HeaderSliceStatus) -> (found: bool)
        ensures
            found <==> index < self.spec_len(),
    {
        if index < self.slices.len() {
            let guard = upgradable_read(&self.slices[index]);
            let mut slice: HeaderSlice = *peek(&guard);
            let mut guard = upgrade(guard);
            self.set_slice_status(&mut slice, status);
            replace(&mut guard, slice);
            true
        } else {
            false
        }
    }

    /// The lock of the slice at `index`, counted from 0 in the order in which
    /// the store was given its slices.
    pub closed spec fn spec_slice_lock(&self, index: int) -> RwLock<RawRwLock, HeaderSlice> {
        self.slices@[index]
    }
}

} // verus!
