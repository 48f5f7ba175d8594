//! Block production: DA-height selection, previous-block resolution, transaction
//! selection, block assembly and the request-handling worker.
use vstd::prelude::*;
use crate::db::KvStoreError;
use crate::model::{
    header_id, transactions_root_of, zero32, zero_bytes32, Block, BlockHeader, BlockHeight,
    Bytes32, DaBlockHeight, Transaction,
};

verus! {

/// The default distance to trail the DA layer. We trail the finalized DA height by some
/// margin to ensure all peers have adequate time to finalize the same blocks.
pub const DA_HEIGHT_TRAIL: u64 = 10;

/// Settings of a block producer, fixed for its lifetime.
#[derive(Clone, Copy, Debug)]
pub struct Config {
    pub validator_id: Bytes32,
    /// The most gas that the selected transactions may declare in total.
    pub max_gas_per_block: u64,
    /// How far behind the relayer's finalized DA height new blocks stay.
    pub da_height_trail: u64,
}

impl Config {
    pub fn new(validator_id: Bytes32, max_gas_per_block: u64) -> (r: Config)
        ensures
            r.validator_id == validator_id,
            r.max_gas_per_block == max_gas_per_block,
            r.da_height_trail == DA_HEIGHT_TRAIL,
    {
        Config { validator_id, max_gas_per_block, da_height_trail: DA_HEIGHT_TRAIL }
    }
}

/// Why a production attempt failed.
#[derive(Clone, Copy, Debug, PartialEq, Eq, Structural)]
pub enum ProducerError {
    /// A relayer, pool or store call failed.
    CollaboratorUnavailable,
    /// The block below the requested height is not in the store.
    NotFound,
}

/// The external chain's view, as the producer reads it.
pub trait Relayer {
    fn get_best_finalized_da_height(&self) -> Result<DaBlockHeight, ProducerError>;

    fn get_block_production_key(&self, validator_id: Bytes32, da_height: DaBlockHeight) -> Result<
        Bytes32,
        ProducerError,
    >;
}

/// The pool of pending transactions.
pub trait TxPool {
    fn get_includable_txs(&self) -> Result<Vec<Transaction>, ProducerError>;
}

/// The store of blocks produced so far.
pub trait BlockProducerDatabase {
    fn get_block(&self, height: BlockHeight) -> Result<Block, KvStoreError>;
}

/// What a new block links to: the block below it, or nothing for the first block.
#[derive(Clone, Copy, Debug, PartialEq, Eq)]
pub struct PreviousBlockInfo {
    pub hash: Bytes32,
    pub transaction_root: Bytes32,
    pub da_height: DaBlockHeight,
}

/// `best - margin`, or zero where that would go below zero.
pub open spec fn trailed(best: u64, margin: u64) -> u64 {
    if best >= margin {
        (best - margin) as u64
    } else {
        0
    }
}

/// The DA height for a new block: the trailed finalized height, never below the
/// previous block's.
pub open spec fn next_da_height_spec(best: u64, margin: u64, previous: u64) -> u64 {
    if trailed(best, margin) >= previous {
        trailed(best, margin)
    } else {
        previous
    }
}

/// Transactions taken in order, each one that still fits in the remaining gas.
pub open spec fn select_spec(txs: Seq<Transaction>, budget: u64) -> Seq<Transaction>
    decreases txs.len(),
{
    if txs.len() == 0 {
        Seq::empty()
    } else if txs[0].gas_limit <= budget {
        seq![txs[0]] + select_spec(txs.drop_first(), (budget - txs[0].gas_limit) as u64)
    } else {
        select_spec(txs.drop_first(), budget)
    }
}

/// The link data that a block gives the block above it.
pub open spec fn links_to(info: PreviousBlockInfo, parent: BlockHeader) -> bool {
    &&& info.hash@ == header_id(parent)
    &&& info.transaction_root == parent.transactions_root
    &&& info.da_height == parent.number
}

/// The header built for `height` from the link data, the DA height, the producer,
/// the transactions and the time.
pub open spec fn header_spec(
    height: BlockHeight,
    info: PreviousBlockInfo,
    da_height: DaBlockHeight,
    producer: Bytes32,
    root: Bytes32,
    time: i64,
) -> BlockHeader {
    BlockHeader {
        height,
        number: da_height,
        parent_hash: info.hash,
        prev_root: info.transaction_root,
        transactions_root: root,
        time,
        producer,
        metadata: None,
    }
}

/// What holds of every block that a production attempt for `height` returns,
/// whatever the collaborators answered.
pub open spec fn is_candidate(b: Block, height: BlockHeight, config: Config) -> bool {
    &&& b.header.height == height
    &&& b.header.metadata is None
    &&& b.header.transactions_root@ == transactions_root_of(b.transactions@)
    &&& exists|pool: Seq<Transaction>|
        b.transactions@ == #[trigger] select_spec(pool, config.max_gas_per_block)
    &&& height <= 1 ==> {
        &&& b.header.parent_hash@ == zero32()
        &&& b.header.prev_root@ == zero32()
    }
    &&& height > 1 ==> exists|parent: BlockHeader, best: u64|
        {
            &&& b.header.parent_hash@ == #[trigger] header_id(parent)
            &&& b.header.prev_root == parent.transactions_root
            &&& b.header.number >= parent.number
            &&& b.header.number == #[trigger] next_da_height_spec(
                best,
                config.da_height_trail,
                parent.number,
            )
        }
}

/// The DA height for a new block from the relayer's finalized height `best_finalized`:
/// `best_finalized` less `margin` (not below zero), and not below `previous_da_height`.
pub fn next_da_height(best_finalized: DaBlockHeight, margin: u64, previous_da_height: DaBlockHeight) -> (r:
    DaBlockHeight)
    ensures
        r == next_da_height_spec(best_finalized, margin, previous_da_height),
        r >= previous_da_height,
{
    let trailed_best_height = best_finalized.saturating_sub(margin);
    if trailed_best_height >= previous_da_height {
        trailed_best_height
    } else {
        previous_da_height
    }
}

/// Link data of the first block, from the relayer's finalized DA height.
pub fn genesis_block_info(best_finalized: DaBlockHeight) -> (r: PreviousBlockInfo)
    ensures
        r.hash@ == zero32(),
        r.transaction_root@ == zero32(),
        r.da_height == best_finalized,
{
    let hash = zero_bytes32();
    let transaction_root = zero_bytes32();
    PreviousBlockInfo { hash, transaction_root, da_height: best_finalized }
}

/// Link data taken from the block below the one being produced.
pub fn parent_block_info(parent: &Block) -> (r: PreviousBlockInfo)
    ensures
        links_to(r, parent.header),
{
    PreviousBlockInfo {
        hash: parent.id(),
        transaction_root: parent.header.transactions_root,
        da_height: parent.header.number,
    }
}

/// The transactions of `includable_txs`, in order, that fit in the block's gas:
/// each is taken when its gas limit fits in what the earlier ones left.
pub fn select_transactions(includable_txs: Vec<Transaction>, config: &Config) -> (r: Vec<
    Transaction,
>)
    ensures
        r@ == select_spec(includable_txs@, config.max_gas_per_block),
{
    let mut selected: Vec<Transaction> = Vec::new();
    let mut budget: u64 = config.max_gas_per_block;
    let mut i: usize = 0;
    assert(includable_txs@.subrange(0, includable_txs@.len() as int) =~= includable_txs@);
    assert(selected@ + select_spec(includable_txs@, budget) =~= select_spec(includable_txs@, budget));
    while i < includable_txs.len()
        invariant
            0 <= i <= includable_txs@.len(),
            selected@ + select_spec(includable_txs@.subrange(i as int, includable_txs@.len() as int), budget)
                == select_spec(includable_txs@, config.max_gas_per_block),
        decreases includable_txs@.len() - i,
    {
        let ghost rest = includable_txs@.subrange(i as int, includable_txs@.len() as int);
        assert(rest.drop_first() =~= includable_txs@.subrange(i + 1, includable_txs@.len() as int));
        let tx = includable_txs[i];
        let ghost before = selected@;
        if tx.gas_limit <= budget {
            selected.push(tx);
            budget = budget - tx.gas_limit;
            assert(selected@ + select_spec(rest.drop_first(), budget) =~= before + (seq![tx]
                + select_spec(rest.drop_first(), budget)));
        }
        i = i + 1;
    }
    assert(includable_txs@.subrange(includable_txs@.len() as int, includable_txs@.len() as int)
        =~= Seq::<Transaction>::empty());
    assert(selected@ + Seq::<Transaction>::empty() =~= selected@);
    selected
}

/// The block for `height` from its link data, DA height, producer, transactions
/// and time.
pub fn assemble_block(
    height: BlockHeight,
    info: PreviousBlockInfo,
    da_height: DaBlockHeight,
    producer: Bytes32,
    transactions: Vec<Transaction>,
    time: i64,
) -> (r: Block)
    ensures
        r.header == header_spec(height, info, da_height, producer, r.header.transactions_root, time),
        r.header.transactions_root@ == transactions_root_of(transactions@),
        r.transactions@ == transactions@,
{
    let transactions_root = BlockHeader::transactions_root(&transactions);
    let header = BlockHeader {
        height,
        number: da_height,
        parent_hash: info.hash,
        prev_root: info.transaction_root,
        transactions_root,
        time,
        producer,
        metadata: None,
    };
    Block { header, transactions }
}

/// A message to the worker.
pub enum BlockProducerMpsc<S> {
    /// Produce a block at `height` and hand the outcome to `response`.
    Produce { height: BlockHeight, response: S },
    Stop,
}

/// What the worker asks its runner to do after a message.
pub enum WorkerStep<S> {
    /// Deliver `result` to `response`, then go on with the next message.
    Reply { response: S, result: Result<Block, ProducerError> },
    /// Leave the loop.
    Stop,
}

#[derive(Clone, Copy, Debug, PartialEq, Eq, Structural)]
pub enum WorkerState {
    Running,
    Stopped,
}

/// The block production worker over its collaborators.
pub struct Task<D, R, P> {
    pub config: Config,
    pub db: D,
    pub relayer: R,
    pub txpool: P,
    pub state: WorkerState,
}

impl<D: BlockProducerDatabase, R: Relayer, P: TxPool> Task<D, R, P> {
    pub fn new(config: Config, db: D, relayer: R, txpool: P) -> (r: Self)
        ensures
            r.config == config,
            r.db == db,
            r.relayer == relayer,
            r.txpool == txpool,
            r.state == WorkerState::Running,
    {
        Task { config, db, relayer, txpool, state: WorkerState::Running }
    }

    /// Handles one message, or the closed queue (`None`). A production request
    /// always yields a reply, success or failure, and keeps the worker running;
    /// `Stop` and a closed queue stop it for good.
    pub fn event_handler<S>(&mut self, event: Option<BlockProducerMpsc<S>>) -> (r: WorkerStep<S>)
        ensures
            final(self).config == old(self).config,
            final(self).db == old(self).db,
            final(self).relayer == old(self).relayer,
            final(self).txpool == old(self).txpool,
            old(self).state == WorkerState::Stopped ==> r is Stop,
            r is Stop <==> final(self).state == WorkerState::Stopped,
            old(self).state == WorkerState::Running ==> match event {
                Some(BlockProducerMpsc::Produce { height, response }) => match r {
                    WorkerStep::Reply { response: rr, result } => rr == response && (result is Ok
                        ==> is_candidate(result->Ok_0, height, old(self).config)),
                    WorkerStep::Stop => false,
                },
                _ => r is Stop,
            },
    {
        if self.state == WorkerState::Stopped {
            return WorkerStep::Stop;
        }
        match event {
            Some(BlockProducerMpsc::Produce { height, response }) => {
                let result = self.produce_block(height);
                WorkerStep::Reply { response, result }
            },
            Some(BlockProducerMpsc::Stop) => {
                self.state = WorkerState::Stopped;
                WorkerStep::Stop
            },
            None => {
                self.state = WorkerState::Stopped;
                WorkerStep::Stop
            },
        }
    }

    /// Builds a block for `height`: links it to the block below, picks its DA height,
    /// asks the relayer for the producer, selects transactions and stamps the time.
    /// Any failing step fails the whole attempt.
    pub fn produce_block(&self, height: BlockHeight) -> (r: Result<Block, ProducerError>)
        ensures
            r is Ok ==> is_candidate(r->Ok_0, height, self.config),
    {
        let previous_block_info = self.previous_block_info(height)?;
        let new_da_height = self.select_new_da_height(previous_block_info.da_height)?;
        let producer_id = self.relayer.get_block_production_key(
            self.config.validator_id,
            new_da_height,
        )?;
        let best_transactions = self.select_best_transactions()?;
        let time = now_timestamp();
        let block = assemble_block(
            height,
            previous_block_info,
            new_da_height,
            producer_id,
            best_transactions,
            time,
        );
        proof {
            let pool = choose|pool: Seq<Transaction>|
                best_transactions@ == #[trigger] select_spec(pool, self.config.max_gas_per_block);
            assert(block.transactions@ == select_spec(pool, self.config.max_gas_per_block));
            if height > 1 {
                let parent = choose|p: BlockHeader| #[trigger] links_to(previous_block_info, p);
                let best = choose|b: u64|
                    new_da_height == #[trigger] next_da_height_spec(
                        b,
                        self.config.da_height_trail,
                        previous_block_info.da_height,
                    );
                assert(block.header.parent_hash@ == header_id(parent));
                assert(block.header.number == next_da_height_spec(
                    best,
                    self.config.da_height_trail,
                    parent.number,
                ));
            }
        }
        Ok(block)
    }

    /// The DA height for a block above one that referenced `previous_da_height`,
    /// from the relayer's finalized height at call time.
    pub fn select_new_da_height(&self, previous_da_height: DaBlockHeight) -> (r: Result<
        DaBlockHeight,
        ProducerError,
    >)
        ensures
            r is Ok ==> r->Ok_0 >= previous_da_height,
            r is Ok ==> exists|best: u64|
                r->Ok_0 == #[trigger] next_da_height_spec(
                    best,
                    self.config.da_height_trail,
                    previous_da_height,
                ),
    {
        let best = self.relayer.get_best_finalized_da_height()?;
        Ok(next_da_height(best, self.config.da_height_trail, previous_da_height))
    }

    /// The pool's includable transactions, narrowed by the selection policy.
    pub fn select_best_transactions(&self) -> (r: Result<Vec<Transaction>, ProducerError>)
        ensures
            r is Ok ==> exists|pool: Seq<Transaction>|
                r->Ok_0@ == #[trigger] select_spec(pool, self.config.max_gas_per_block),
    {
        let includable_txs = self.txpool.get_includable_txs()?;
        let selected = select_transactions(includable_txs, &self.config);
        Ok(selected)
    }

    /// Link data for a block at `height`: for the first block, zero hash and root
    /// with the relayer's finalized DA height; otherwise those of the stored block
    /// at `height - 1`, which must exist.
    pub fn previous_block_info(&self, height: BlockHeight) -> (r: Result<
        PreviousBlockInfo,
        ProducerError,
    >)
        ensures
            r is Ok && height <= 1 ==> r->Ok_0.hash@ == zero32() && r->Ok_0.transaction_root@
                == zero32(),
            r is Ok && height > 1 ==> exists|parent: BlockHeader| #[trigger]
                links_to(r->Ok_0, parent),
    {
        if height <= 1 {
            let best_da_height = self.relayer.get_best_finalized_da_height()?;
            Ok(genesis_block_info(best_da_height))
        } else {
            match self.db.get_block(height - 1) {
                Ok(previous_block) => {
                    let info = parent_block_info(&previous_block);
                    let r = Ok(info);
                    assert(links_to(r->Ok_0, previous_block.header));
                    r
                },
                Err(KvStoreError::NotFound) => Err(ProducerError::NotFound),
                Err(KvStoreError::Error(_)) => Err(ProducerError::CollaboratorUnavailable),
            }
        }
    }
}

/// A block built on the link data of its parent names the parent's identifier as
/// its parent hash and the parent's transaction root as its previous root.
pub proof fn lemma_parent_linkage(
    parent: BlockHeader,
    info: PreviousBlockInfo,
    height: BlockHeight,
    da_height: DaBlockHeight,
    producer: Bytes32,
    root: Bytes32,
    time: i64,
)
    requires
        links_to(info, parent),
    ensures
        header_spec(height, info, da_height, producer, root, time).parent_hash@ == header_id(
            parent,
        ),
        header_spec(height, info, da_height, producer, root, time).prev_root
            == parent.transactions_root,
{
}

/// The DA height chosen for a block is never below its parent's, whatever the
/// relayer reports and whatever the margin.
pub proof fn lemma_da_height_non_decreasing(
    parent: BlockHeader,
    info: PreviousBlockInfo,
    best: u64,
    margin: u64,
)
    requires
        links_to(info, parent),
    ensures
        next_da_height_spec(best, margin, info.da_height) >= parent.number,
{
}

/// For the first block the link data carries the finalized height itself, so the
/// chosen DA height is exactly the relayer's finalized height: no margin is taken.
pub proof fn lemma_genesis_da_height(best: u64, margin: u64)
    ensures
        next_da_height_spec(best, margin, best) == best,
{
}

/// The DA height is the larger of the trailed finalized height (floored at zero)
/// and the previous block's DA height.
pub proof fn lemma_trailing(best: u64, margin: u64, previous: u64)
    ensures
        next_da_height_spec(best, margin, previous) as int == if best >= margin && best - margin
            >= previous {
            best - margin
        } else {
            previous as int
        },
        next_da_height_spec(best, margin, previous) >= previous,
        best >= margin ==> next_da_height_spec(best, margin, previous) >= best - margin,
{
}

/// Selecting from the same includable transactions under the same configuration
/// gives the same ordered selection.
pub proof fn lemma_selection_deterministic(
    a: Seq<Transaction>,
    b: Seq<Transaction>,
    ca: Config,
    cb: Config,
)
    requires
        a == b,
        ca == cb,
    ensures
        select_spec(a, ca.max_gas_per_block) == select_spec(b, cb.max_gas_per_block),
{
}

/// The gas limits declared by a sequence of transactions, summed.
pub open spec fn total_gas(txs: Seq<Transaction>) -> int
    decreases txs.len(),
{
    if txs.len() == 0 {
        0
    } else {
        txs[0].gas_limit + total_gas(txs.drop_first())
    }
}

/// The selected transactions never declare more gas than the budget.
pub proof fn lemma_selection_within_budget(txs: Seq<Transaction>, budget: u64)
    ensures
        total_gas(select_spec(txs, budget)) <= budget,
    decreases txs.len(),
{
    if txs.len() > 0 {
        lemma_selection_within_budget(txs.drop_first(), budget);
        if txs[0].gas_limit <= budget {
            let rest = select_spec(txs.drop_first(), (budget - txs[0].gas_limit) as u64);
            lemma_selection_within_budget(txs.drop_first(), (budget - txs[0].gas_limit) as u64);
            assert((seq![txs[0]] + rest).drop_first() =~= rest);
        }
    }
}

/// Relies on chrono::Utc::now: the current time as a Unix timestamp in seconds.
#[verifier::external_body]
fn now_timestamp() -> (r: i64) {
    chrono::Utc::now().timestamp()
}

} // verus!
