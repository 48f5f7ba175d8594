//! Messages exchanged over the gossip network.
use vstd::prelude::*;
use std::sync::Arc;
use crate::model::{Block, Bytes32, Transaction};

verus! {

/// A validator's vote on a block in a consensus round.
#[derive(Clone, Copy, Debug, PartialEq, Eq)]
pub struct ConsensusVote {
    pub block_id: Bytes32,
    pub height: u64,
    pub round: u64,
}

/// Which kind of message a gossip topic carries, so that a received payload can be
/// decoded as the matching `GossipsubMessage`.
#[derive(Debug, Clone, Copy)]
pub enum GossipTopicTag {
    NewTx,
    NewBlock,
    ConensusVote,
}

/// A shared value to broadcast to the network; it is received as a `GossipsubMessage`.
#[derive(Debug, Clone)]
pub enum GossipsubBroadcastRequest {
    NewTx(Arc<Transaction>),
    NewBlock(Arc<Block>),
    ConensusVote(Arc<ConsensusVote>),
}

/// A message received from the network.
#[derive(Debug, Clone)]
pub enum GossipsubMessage {
    NewTx(Transaction),
    NewBlock(Block),
    ConensusVote(ConsensusVote),
}

} // verus!
