//! The messages that the stage hands to the sentry client.
use vstd::prelude::*;

verus! {

/// Which header a request starts from, how many headers it asks for and in
/// which direction it walks.
#[derive(Clone, Copy, Debug, PartialEq, Eq, Structural)]
pub struct GetBlockHeadersMessageParams {
    pub start_block: u64,
    pub limit: u64,
    pub skip: u64,
    pub reverse: u8,
}

/// A request for a run of headers, tagged so that the answer can be matched
/// to it.
#[derive(Clone, Copy, Debug, PartialEq, Eq, Structural)]
pub struct GetBlockHeadersMessage {
    pub request_id: u64,
    pub params: GetBlockHeadersMessageParams,
}

/// A message for a peer.
#[derive(Clone, Copy, Debug, PartialEq, Eq, Structural)]
pub enum Message {
    GetBlockHeaders(GetBlockHeadersMessage),
}

/// Which peers a message goes to.
#[derive(Clone, Copy, Debug, PartialEq, Eq, Structural)]
pub enum PeerFilter {
    /// Peers that have reached at least this block.
    MinBlock(u64),
    /// This many peers, picked at random.
    Random(u64),
    /// Every connected peer.
    All,
}

/// A message together with the peers it is meant for: one entry of the send
/// queue.
#[derive(Clone, Copy, Debug, PartialEq, Eq, Structural)]
pub struct SendMessageCommand {
    pub message: Message,
    pub peer_filter: PeerFilter,
}

impl GetBlockHeadersMessage {
    /// The request for `limit` consecutive headers upwards from `start_block`.
    pub open spec fn spec_ascending(request_id: u64, start_block: u64, limit: u64) -> Self {
        GetBlockHeadersMessage {
            request_id,
            params: GetBlockHeadersMessageParams { start_block, limit, skip: 0, reverse: 0 },
        }
    }

    /// Builds the request for `limit` consecutive headers upwards from
    /// `start_block`: nothing is skipped and the walk is not reversed.
    #[verifier::when_used_as_spec(spec_ascending)]
    pub fn ascending(request_id: u64, start_block: u64, limit: u64) -> (message: Self)
        ensures
            message == Self::spec_ascending(request_id, start_block, limit),
    {
        GetBlockHeadersMessage {
            request_id,
            params: GetBlockHeadersMessageParams { start_block, limit, skip: 0, reverse: 0 },
        }
    }
}

} // verus!
