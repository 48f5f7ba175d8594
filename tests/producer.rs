use block_producer::db::KvStoreError;
use block_producer::model::{Block, BlockHeader, BlockHeight, Bytes32, DaBlockHeight, Transaction};
use block_producer::producer::{
    next_da_height, select_transactions, BlockProducerDatabase, BlockProducerMpsc, Config,
    ProducerError, Relayer, Task, TxPool, WorkerState, WorkerStep, DA_HEIGHT_TRAIL,
};
use std::cell::Cell;

struct FakeRelayer {
    best: DaBlockHeight,
    available: bool,
}

impl Relayer for FakeRelayer {
    fn get_best_finalized_da_height(&self) -> Result<DaBlockHeight, ProducerError> {
        if self.available {
            Ok(self.best)
        } else {
            Err(ProducerError::CollaboratorUnavailable)
        }
    }

    fn get_block_production_key(
        &self,
        validator_id: Bytes32,
        _da_height: DaBlockHeight,
    ) -> Result<Bytes32, ProducerError> {
        Ok(validator_id)
    }
}

struct FakePool {
    txs: Vec<Transaction>,
    calls: Cell<u32>,
}

impl TxPool for FakePool {
    fn get_includable_txs(&self) -> Result<Vec<Transaction>, ProducerError> {
        self.calls.set(self.calls.get() + 1);
        Ok(self.txs.clone())
    }
}

struct FakeStore {
    blocks: Vec<Block>,
}

impl BlockProducerDatabase for FakeStore {
    fn get_block(&self, height: BlockHeight) -> Result<Block, KvStoreError> {
        self.blocks
            .iter()
            .find(|b| b.header.height == height)
            .cloned()
            .ok_or(KvStoreError::NotFound)
    }
}

struct BrokenStore;

impl BlockProducerDatabase for BrokenStore {
    fn get_block(&self, _height: BlockHeight) -> Result<Block, KvStoreError> {
        Err(KvStoreError::Error(Box::new(block_producer::db::Error::Codec)))
    }
}

fn tx(byte: u8, gas_limit: u64) -> Transaction {
    Transaction { id: [byte; 32], gas_limit }
}

fn task(best: DaBlockHeight, blocks: Vec<Block>, txs: Vec<Transaction>) -> Task<FakeStore, FakeRelayer, FakePool> {
    Task::new(
        Config::new([7u8; 32], 1_000),
        FakeStore { blocks },
        FakeRelayer { best, available: true },
        FakePool { txs, calls: Cell::new(0) },
    )
}

#[test]
fn trailing_margin_applied() {
    assert_eq!(DA_HEIGHT_TRAIL, 10);
    assert_eq!(next_da_height(100, 10, 85), 90);
}

#[test]
fn trailing_margin_saturates() {
    assert_eq!(next_da_height(5, 10, 3), 3);
    assert_eq!(next_da_height(5, 10, 0), 0);
}

#[test]
fn previous_height_kept_when_relayer_behind() {
    assert_eq!(next_da_height(50, 10, 85), 85);
    assert_eq!(next_da_height(95, 10, 85), 85);
    assert_eq!(next_da_height(u64::MAX, 0, 3), u64::MAX);
}

#[test]
fn genesis_block_uses_finalized_height() {
    let t = task(42, vec![], vec![tx(1, 10)]);
    let b = t.produce_block(1).unwrap();
    assert_eq!(b.header.height, 1);
    assert_eq!(b.header.parent_hash, [0u8; 32]);
    assert_eq!(b.header.prev_root, [0u8; 32]);
    assert_eq!(b.header.number, 42);
    assert_eq!(b.header.producer, [7u8; 32]);
    assert_eq!(b.header.metadata, None);
    assert_eq!(b.transactions, vec![tx(1, 10)]);
    assert_eq!(b.header.transactions_root, BlockHeader::transactions_root(&b.transactions));
}

#[test]
fn genesis_block_at_height_zero() {
    let t = task(42, vec![], vec![]);
    let b = t.produce_block(0).unwrap();
    assert_eq!(b.header.parent_hash, [0u8; 32]);
    assert_eq!(b.header.number, 42);
}

#[test]
fn missing_parent_fails_and_worker_continues() {
    let mut t = task(100, vec![], vec![]);
    assert_eq!(t.produce_block(10), Err(ProducerError::NotFound));
    match t.event_handler(Some(BlockProducerMpsc::Produce { height: 10, response: 1u8 })) {
        WorkerStep::Reply { response, result } => {
            assert_eq!(response, 1);
            assert_eq!(result, Err(ProducerError::NotFound));
        }
        WorkerStep::Stop => panic!("worker stopped"),
    }
    assert_eq!(t.state, WorkerState::Running);
    match t.event_handler(Some(BlockProducerMpsc::Produce { height: 1, response: 2u8 })) {
        WorkerStep::Reply { response, result } => {
            assert_eq!(response, 2);
            assert_eq!(result.unwrap().header.number, 100);
        }
        WorkerStep::Stop => panic!("worker stopped"),
    }
}

#[test]
fn child_links_to_parent() {
    let t = task(100, vec![], vec![tx(1, 10), tx(2, 20)]);
    let parent = t.produce_block(1).unwrap();
    assert_eq!(parent.header.number, 100);
    let t2 = task(130, vec![parent.clone()], vec![tx(3, 30)]);
    let child = t2.produce_block(2).unwrap();
    assert_eq!(child.header.parent_hash, parent.id());
    assert_eq!(child.header.prev_root, parent.header.transactions_root);
    assert_eq!(child.header.number, 120);
    assert!(child.header.number >= parent.header.number);
}

#[test]
fn child_da_height_never_decreases() {
    let t = task(100, vec![], vec![]);
    let parent = t.produce_block(1).unwrap();
    let t2 = task(3, vec![parent.clone()], vec![]);
    let child = t2.produce_block(2).unwrap();
    assert_eq!(child.header.number, 100);
}

#[test]
fn relayer_failure_fails_attempt() {
    let mut t = task(100, vec![], vec![]);
    t.relayer.available = false;
    assert_eq!(t.produce_block(1), Err(ProducerError::CollaboratorUnavailable));
}

#[test]
fn store_failure_is_collaborator_unavailable() {
    let t = Task::new(
        Config::new([0u8; 32], 10),
        BrokenStore,
        FakeRelayer { best: 1, available: true },
        FakePool { txs: vec![], calls: Cell::new(0) },
    );
    assert_eq!(t.produce_block(5), Err(ProducerError::CollaboratorUnavailable));
}

#[test]
fn stop_and_closed_queue_end_the_worker() {
    let mut t = task(1, vec![], vec![]);
    assert!(matches!(t.event_handler::<u8>(Some(BlockProducerMpsc::Stop)), WorkerStep::Stop));
    assert_eq!(t.state, WorkerState::Stopped);
    assert!(matches!(
        t.event_handler(Some(BlockProducerMpsc::Produce { height: 1, response: 0u8 })),
        WorkerStep::Stop
    ));
    let mut t2 = task(1, vec![], vec![]);
    assert!(matches!(t2.event_handler::<u8>(None), WorkerStep::Stop));
    assert_eq!(t2.state, WorkerState::Stopped);
}

#[test]
fn selection_is_greedy_in_order() {
    let config = Config::new([0u8; 32], 100);
    let txs = vec![tx(1, 60), tx(2, 50), tx(3, 40), tx(4, 1)];
    assert_eq!(select_transactions(txs, &config), vec![tx(1, 60), tx(3, 40)]);
    assert_eq!(select_transactions(vec![], &config), vec![]);
    assert_eq!(select_transactions(vec![tx(1, 101)], &config), vec![]);
    assert_eq!(select_transactions(vec![tx(1, 100)], &config), vec![tx(1, 100)]);
}

#[test]
fn selection_twice_gives_same_result() {
    let t = task(1, vec![], vec![tx(1, 600), tx(2, 500), tx(3, 300)]);
    let a = t.select_best_transactions().unwrap();
    let b = t.select_best_transactions().unwrap();
    assert_eq!(a, b);
    assert_eq!(a, vec![tx(1, 600), tx(3, 300)]);
    assert_eq!(t.txpool.calls.get(), 2);
}

#[test]
fn empty_transactions_root_is_empty_digest() {
    let root = BlockHeader::transactions_root(&vec![]);
    let expected: [u8; 32] = [
        0xe3, 0xb0, 0xc4, 0x42, 0x98, 0xfc, 0x1c, 0x14, 0x9a, 0xfb, 0xf4, 0xc8, 0x99, 0x6f, 0xb9,
        0x24, 0x27, 0xae, 0x41, 0xe4, 0x64, 0x9b, 0x93, 0x4c, 0xa4, 0x95, 0x99, 0x1b, 0x78, 0x52,
        0xb8, 0x55,
    ];
    assert_eq!(root, expected);
}

#[test]
fn transactions_root_depends_on_order() {
    let a = BlockHeader::transactions_root(&vec![tx(1, 1), tx(2, 1)]);
    let b = BlockHeader::transactions_root(&vec![tx(2, 1), tx(1, 1)]);
    let c = BlockHeader::transactions_root(&vec![tx(1, 1)]);
    assert_ne!(a, b);
    assert_ne!(c, [1u8; 32]);
}

fn sample_header() -> BlockHeader {
    BlockHeader {
        height: 0x01020304,
        number: 0x05,
        parent_hash: [0xaa; 32],
        prev_root: [0xbb; 32],
        transactions_root: [0xcc; 32],
        time: -1,
        producer: [0xdd; 32],
        metadata: None,
    }
}

#[test]
fn header_bytes_layout() {
    let bytes = sample_header().to_bytes();
    assert_eq!(bytes.len(), 4 + 8 + 32 * 4 + 8);
    assert_eq!(&bytes[0..4], &[1, 2, 3, 4]);
    assert_eq!(&bytes[4..12], &[0, 0, 0, 0, 0, 0, 0, 5]);
    assert_eq!(&bytes[12..44], &[0xaa; 32]);
    assert_eq!(&bytes[108..116], &[0xff; 8]);
    assert_eq!(&bytes[116..148], &[0xdd; 32]);
}

#[test]
fn header_id_is_digest_of_bytes() {
    let h = sample_header();
    let expected: [u8; 32] = fuel_crypto::Hasher::hash(h.to_bytes()).into();
    assert_eq!(h.id(), expected);
    let mut other = h;
    other.metadata = Some([1u8; 32]);
    assert_eq!(other.id(), h.id());
    other.number = 6;
    assert_ne!(other.id(), h.id());
}
