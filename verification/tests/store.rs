use header_fetch::header_slices::{
    count_slices, HeaderSlice, HeaderSliceStatus, HeaderSlices, HEADER_SLICE_SIZE, STATUS_COUNT,
};
use header_fetch::messages::{
    GetBlockHeadersMessage, GetBlockHeadersMessageParams, Message, PeerFilter, SendMessageCommand,
};
use header_fetch::sentry_client_reactor::{SendMessageError, SentryClientReactor};
use std::time::Instant;
use tokio::sync::mpsc;

fn slice(start_block_num: u64, status: HeaderSliceStatus) -> HeaderSlice {
    HeaderSlice { start_block_num, status, request_time: None }
}

#[test]
fn slice_size_is_192() {
    assert_eq!(HEADER_SLICE_SIZE, 192);
    assert_eq!(STATUS_COUNT, 7);
}

#[test]
fn new_slice_is_empty_and_never_requested() {
    assert_eq!(
        HeaderSlice::new(384),
        HeaderSlice { start_block_num: 384, status: HeaderSliceStatus::Empty, request_time: None }
    );
}

#[test]
fn ascending_request_skips_nothing() {
    assert_eq!(
        GetBlockHeadersMessage::ascending(7, 100, 193),
        GetBlockHeadersMessage {
            request_id: 7,
            params: GetBlockHeadersMessageParams {
                start_block: 100,
                limit: 193,
                skip: 0,
                reverse: 0
            },
        }
    );
}

#[test]
fn status_index_and_back() {
    let all = [
        HeaderSliceStatus::Empty,
        HeaderSliceStatus::Waiting,
        HeaderSliceStatus::Downloaded,
        HeaderSliceStatus::VerifiedInternally,
        HeaderSliceStatus::Verified,
        HeaderSliceStatus::Invalid,
        HeaderSliceStatus::Saved,
    ];
    for (k, status) in all.iter().enumerate() {
        assert_eq!(status.index(), k);
        assert_eq!(HeaderSliceStatus::from_index(k), Some(*status));
    }
    assert_eq!(HeaderSliceStatus::from_index(7), None);
    assert_eq!(HeaderSliceStatus::from_index(usize::MAX), None);
}

#[test]
fn count_slices_counts_one_status() {
    let slices = vec![
        slice(0, HeaderSliceStatus::Empty),
        slice(192, HeaderSliceStatus::Waiting),
        slice(384, HeaderSliceStatus::Empty),
        slice(576, HeaderSliceStatus::Saved),
        slice(768, HeaderSliceStatus::Empty),
    ];
    assert_eq!(count_slices(&slices, HeaderSliceStatus::Empty), 3);
    assert_eq!(count_slices(&slices, HeaderSliceStatus::Waiting), 1);
    assert_eq!(count_slices(&slices, HeaderSliceStatus::Saved), 1);
    assert_eq!(count_slices(&slices, HeaderSliceStatus::Invalid), 0);
    assert_eq!(count_slices(&Vec::new(), HeaderSliceStatus::Empty), 0);
}

#[test]
fn store_counts_what_it_was_given() {
    let store = HeaderSlices::new(vec![
        slice(0, HeaderSliceStatus::Empty),
        slice(192, HeaderSliceStatus::Waiting),
        slice(384, HeaderSliceStatus::Empty),
    ]);
    assert_eq!(store.len(), 3);
    assert_eq!(store.count_slices_in_status(HeaderSliceStatus::Empty), 2);
    assert_eq!(store.count_slices_in_status(HeaderSliceStatus::Waiting), 1);
    assert_eq!(store.count_slices_in_status(HeaderSliceStatus::Downloaded), 0);
    assert_eq!(store.slice_at(1), Some(slice(192, HeaderSliceStatus::Waiting)));
    assert_eq!(store.slice_at(3), None);
    assert_eq!(*store.watch_status_changes(HeaderSliceStatus::Empty).borrow(), 2);
    assert_eq!(*store.watch_status_changes(HeaderSliceStatus::Saved).borrow(), 0);
}

#[test]
fn set_slice_status_keeps_the_counts() {
    let store = HeaderSlices::new(vec![slice(0, HeaderSliceStatus::Empty)]);
    let mut empty_watch = store.watch_status_changes(HeaderSliceStatus::Empty);
    let mut waiting_watch = store.watch_status_changes(HeaderSliceStatus::Waiting);
    let at = Instant::now();
    let mut copy = HeaderSlice {
        start_block_num: 0,
        status: HeaderSliceStatus::Empty,
        request_time: Some(at),
    };

    store.set_slice_status(&mut copy, HeaderSliceStatus::Waiting);

    assert_eq!(
        copy,
        HeaderSlice {
            start_block_num: 0,
            status: HeaderSliceStatus::Waiting,
            request_time: Some(at)
        }
    );
    assert_eq!(store.count_slices_in_status(HeaderSliceStatus::Empty), 0);
    assert_eq!(store.count_slices_in_status(HeaderSliceStatus::Waiting), 1);
    assert!(empty_watch.has_changed().unwrap());
    assert!(waiting_watch.has_changed().unwrap());
    assert_eq!(*empty_watch.borrow_and_update(), 0);
    assert_eq!(*waiting_watch.borrow_and_update(), 1);
}

#[test]
fn update_slice_status_changes_one_slice() {
    let store = HeaderSlices::new(vec![
        slice(0, HeaderSliceStatus::Waiting),
        slice(192, HeaderSliceStatus::Waiting),
    ]);

    assert!(store.update_slice_status(1, HeaderSliceStatus::Downloaded));
    assert!(!store.update_slice_status(2, HeaderSliceStatus::Downloaded));

    assert_eq!(store.slice_at(0), Some(slice(0, HeaderSliceStatus::Waiting)));
    assert_eq!(store.slice_at(1), Some(slice(192, HeaderSliceStatus::Downloaded)));
    assert_eq!(store.count_slices_in_status(HeaderSliceStatus::Waiting), 1);
    assert_eq!(store.count_slices_in_status(HeaderSliceStatus::Downloaded), 1);
}

#[test]
fn sentry_client_reports_full_and_stopped() {
    let (sender, mut receiver) = mpsc::channel(1);
    let sentry = SentryClientReactor::new(sender);
    let message = Message::GetBlockHeaders(GetBlockHeadersMessage::ascending(1, 2, 3));

    assert_eq!(sentry.try_send_message(message, PeerFilter::Random(1)), Ok(()));
    assert_eq!(
        sentry.try_send_message(message, PeerFilter::All),
        Err(SendMessageError::SendQueueFull)
    );
    assert_eq!(
        receiver.try_recv().ok(),
        Some(SendMessageCommand { message, peer_filter: PeerFilter::Random(1) })
    );
    assert_eq!(sentry.try_send_message(message, PeerFilter::MinBlock(9)), Ok(()));
    drop(receiver);
    assert_eq!(
        sentry.try_send_message(message, PeerFilter::All),
        Err(SendMessageError::ReactorStopped)
    );
    assert!(sentry.send_queue().is_closed());
}
