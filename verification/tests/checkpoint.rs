use amms::amm::erc_4626::ERC4626Vault;
use amms::amm::factory::Factory;
use amms::amm::uniswap_v2::factory::UniswapV2Factory;
use amms::amm::uniswap_v2::UniswapV2Pool;
use amms::amm::uniswap_v3::{TickInfo, UniswapV3Factory, UniswapV3Pool};
use amms::amm::AMM;
use amms::errors::{Outcome, TaskError};
use amms::primitives::{Address, U256};
use amms::sync::checkpoint::{
    construct_checkpoint, deconstruct_checkpoint, get_new_amms_from_range,
    get_new_pools_from_range, sort_amms, sync_amm_data_from_checkpoint, sync_amms_from_checkpoint,
    Checkpoint,
};
use amms::sync::collect::AmmCollector;
use amms::sync::refresh::{AmmRefresh, RefreshAction, RefreshEvent, RefreshState};
use amms::sync::scan::{ScanAction, ScanEvent, ScanState};
use amms::sync::session::{SyncAction, SyncEvent, SyncState};

fn addr(byte: u8) -> Address {
    Address::new([byte; 20])
}

fn u256(value: u64) -> U256 {
    U256 { limbs: [value, 0, 0, 0] }
}

fn v2_pool(byte: u8) -> UniswapV2Pool {
    UniswapV2Pool {
        address: addr(byte),
        token_a: addr(0x0a),
        token_a_decimals: 6,
        token_b: addr(0x0b),
        token_b_decimals: 18,
        reserve_0: 1,
        reserve_1: 2,
        fee: 300,
    }
}

fn v3_pool(byte: u8) -> UniswapV3Pool {
    let info = TickInfo { liquidity_gross: 9, liquidity_net: -3, initialized: true };
    UniswapV3Pool {
        address: addr(byte),
        token_a: addr(0x0a),
        token_a_decimals: 6,
        token_b: addr(0x0b),
        token_b_decimals: 18,
        liquidity: 1,
        sqrt_price: u256(2),
        fee: 500,
        tick: -7,
        tick_spacing: 10,
        tick_bitmap: vec![(-1, u256(5))],
        ticks: vec![(-10, info)],
    }
}

fn vault(byte: u8) -> ERC4626Vault {
    ERC4626Vault {
        vault_token: addr(byte),
        vault_token_decimals: 18,
        asset_token: addr(0x0c),
        asset_token_decimals: 18,
        vault_reserve: u256(1),
        asset_reserve: u256(2),
        deposit_fee: 0,
        withdraw_fee: 0,
    }
}

fn v2(byte: u8) -> AMM {
    AMM::UniswapV2Pool(v2_pool(byte))
}

fn v3(byte: u8) -> AMM {
    AMM::UniswapV3Pool(v3_pool(byte))
}

fn erc(byte: u8) -> AMM {
    AMM::ERC4626Vault(vault(byte))
}

fn text<T: std::fmt::Debug>(value: &T) -> String {
    format!("{:?}", value)
}

fn factories() -> Vec<Factory> {
    vec![
        Factory::UniswapV2Factory(UniswapV2Factory::new(addr(0xf2), 10, 300)),
        Factory::UniswapV3Factory(UniswapV3Factory { address: addr(0xf3), creation_block: 20 }),
    ]
}

#[test]
fn new_checkpoint_holds_its_arguments() {
    let checkpoint = Checkpoint::new(7, 8, factories(), vec![v2(1), v3(2)]);
    assert_eq!((checkpoint.timestamp, checkpoint.block_number), (7, 8));
    assert_eq!(checkpoint.factories, factories());
    assert_eq!(text(&checkpoint.amms), text(&vec![v2(1), v3(2)]));
    assert_eq!(text(&checkpoint.clone()), text(&checkpoint));
}

#[test]
fn amms_are_split_by_kind_in_order() {
    let (pools_v2, pools_v3, vaults) =
        sort_amms(vec![erc(1), v2(2), v3(3), v2(4), erc(5), v3(6), v2(7)]);
    assert_eq!(text(&pools_v2), text(&vec![v2(2), v2(4), v2(7)]));
    assert_eq!(text(&pools_v3), text(&vec![v3(3), v3(6)]));
    assert_eq!(text(&vaults), text(&vec![erc(1), erc(5)]));
}

#[test]
fn splitting_nothing_gives_three_empty_lists() {
    let (pools_v2, pools_v3, vaults) = sort_amms(Vec::new());
    assert!(pools_v2.is_empty() && pools_v3.is_empty() && vaults.is_empty());
}

#[test]
fn checkpoint_gives_back_what_it_was_made_of() {
    let amms = vec![v3(1), erc(2), v2(3)];
    let checkpoint = construct_checkpoint(factories(), &amms, 99, 1700000000);
    assert_eq!(checkpoint.timestamp, 1700000000);
    assert_eq!(checkpoint.factories, factories());
    let (read, block) = deconstruct_checkpoint(checkpoint);
    assert_eq!(text(&read), text(&amms));
    assert_eq!(block, 99);
}

#[test]
fn one_scan_is_started_for_each_factory() {
    let scans = get_new_pools_from_range(factories(), 100, 200, 50);
    assert_eq!(scans.len(), 2);
    for (scan, factory) in scans.iter().zip(factories()) {
        assert_eq!(scan.factory, factory);
        assert_eq!((scan.from_block, scan.to_block, scan.step), (100, 200, 50));
        assert_eq!(scan.state, ScanState::Pools);
    }
    let (same, collector) = get_new_amms_from_range(factories(), 100, 200, 50);
    assert_eq!(same, scans);
    assert!(collector.finish().is_empty());
}

#[test]
fn scan_finds_reads_and_filters() {
    let scan = get_new_pools_from_range(factories(), 100, 200, 50)[1];
    match scan.first::<u32>() {
        ScanAction::GetAllPoolsFromLogs { factory, from_block, to_block, step } => {
            assert_eq!(factory, factories()[1]);
            assert_eq!((from_block, to_block, step), (100, 200, 50));
        }
        _ => panic!("another request"),
    }
    let (scan, action) = scan.next::<u32>(ScanEvent::Pools(vec![v2(1), v2(2)]));
    match action {
        ScanAction::PopulateAmmData { factory, amms, block_number } => {
            assert_eq!(factory, factories()[1]);
            assert_eq!(text(&amms), text(&vec![v2(1), v2(2)]));
            assert_eq!(block_number, Some(200));
        }
        _ => panic!("another request"),
    }
    let (scan, action) = scan.next::<u32>(ScanEvent::Populated(vec![v2(3), v2(4)]));
    match action {
        ScanAction::FilterEmptyAmms(amms) => {
            assert_eq!(text(&amms), text(&vec![v2(3), v2(4)]));
        }
        _ => panic!("another request"),
    }
    let (scan, action) = scan.next::<u32>(ScanEvent::Filtered(vec![v2(4)]));
    match action {
        ScanAction::Return(Ok(amms)) => assert_eq!(text(&amms), text(&vec![v2(4)])),
        _ => panic!("another request"),
    }
    let (_, action) = scan.next::<u32>(ScanEvent::Failed(1));
    assert!(matches!(action, ScanAction::Unexpected(ScanEvent::Failed(1))));
}

#[test]
fn failed_scan_is_over() {
    let scan = get_new_pools_from_range(factories(), 100, 200, 50)[0];
    let (end, action) = scan.next::<u32>(ScanEvent::Failed(4));
    assert!(matches!(action, ScanAction::Return(Err(4))));
    assert_eq!(end.state, ScanState::Finished);
    let (second, _) = scan.next::<u32>(ScanEvent::Pools(Vec::new()));
    let (_, action) = second.next::<u32>(ScanEvent::Failed(5));
    assert!(matches!(action, ScanAction::Return(Err(5))));
    let (unmoved, action) = scan.next::<u32>(ScanEvent::Filtered(Vec::new()));
    assert!(matches!(action, ScanAction::Unexpected(ScanEvent::Filtered(_))));
    assert_eq!(unmoved, scan);
}

/// The refresh of an AMM that comes from block 100 and is brought up to block 200, with its
/// permit granted.
fn permitted(amm: AMM) -> (AmmRefresh, RefreshAction<u32>) {
    let (mut refreshes, collector) = sync_amm_data_from_checkpoint(vec![amm], 100, 200);
    assert_eq!(refreshes.len(), 1);
    assert!(collector.amms.is_empty());
    refreshes.remove(0).next(RefreshEvent::Permit)
}

#[test]
fn one_refresh_is_started_for_each_amm() {
    let (refreshes, _) = sync_amm_data_from_checkpoint(vec![v2(1), erc(2)], 100, 200);
    assert_eq!(refreshes.len(), 2);
    for (refresh, amm) in refreshes.iter().zip([v2(1), erc(2)]) {
        assert_eq!((refresh.checkpoint_block, refresh.to_block), (100, 200));
        match &refresh.state {
            RefreshState::Permit(held) => assert_eq!(text(held), text(&amm)),
            _ => panic!("another state"),
        }
    }
}

#[test]
fn uniswap_v2_pool_is_given_its_reserves() {
    let (refresh, action) = permitted(v2(1));
    match action {
        RefreshAction::GetPoolReserves { pool, block } => {
            assert_eq!((pool, block), (v2_pool(1), 200));
        }
        _ => panic!("another request"),
    }
    let (refresh, action) = refresh.next::<u32>(RefreshEvent::PoolReserves(70, 80));
    assert!(matches!(action, RefreshAction::Delay));
    let (refresh, action) = refresh.next::<u32>(RefreshEvent::DelayOver);
    match action {
        RefreshAction::Return(Ok(AMM::UniswapV2Pool(pool))) => {
            assert_eq!(pool, UniswapV2Pool { reserve_0: 70, reserve_1: 80, ..v2_pool(1) });
        }
        _ => panic!("another request"),
    }
    assert!(matches!(refresh.state, RefreshState::Finished));
}

#[test]
fn uniswap_v3_pool_is_given_ticks_price_and_liquidity() {
    let (refresh, action) = permitted(v3(1));
    match action {
        RefreshAction::PopulateTickData { v3_pool: pool, from_block } => {
            assert_eq!(text(&pool), text(&v3_pool(1)));
            assert_eq!(from_block, 100);
        }
        _ => panic!("another request"),
    }
    let populated = UniswapV3Pool { ticks: Vec::new(), ..v3_pool(1) };
    let (refresh, action) = refresh.next::<u32>(RefreshEvent::TickData(populated));
    match action {
        RefreshAction::GetSqrtPrice { address } => assert_eq!(address, addr(1)),
        _ => panic!("another request"),
    }
    let (refresh, action) = refresh.next::<u32>(RefreshEvent::SqrtPrice(u256(55)));
    match action {
        RefreshAction::GetLiquidity { address } => assert_eq!(address, addr(1)),
        _ => panic!("another request"),
    }
    let (refresh, action) = refresh.next::<u32>(RefreshEvent::Liquidity(66));
    assert!(matches!(action, RefreshAction::Delay));
    let (_, action) = refresh.next::<u32>(RefreshEvent::DelayOver);
    let expected = UniswapV3Pool {
        ticks: Vec::new(),
        sqrt_price: u256(55),
        liquidity: 66,
        ..v3_pool(1)
    };
    match action {
        RefreshAction::Return(Ok(amm)) => {
            assert_eq!(text(&amm), text(&AMM::UniswapV3Pool(expected)));
        }
        _ => panic!("another request"),
    }
}

#[test]
fn vault_is_given_its_reserves() {
    let (refresh, action) = permitted(erc(1));
    match action {
        RefreshAction::GetVaultReserves { vault: asked, block } => {
            assert_eq!((asked, block), (vault(1), 200));
        }
        _ => panic!("another request"),
    }
    let (refresh, _) = refresh.next::<u32>(RefreshEvent::VaultReserves(u256(70), u256(80)));
    let (_, action) = refresh.next::<u32>(RefreshEvent::DelayOver);
    match action {
        RefreshAction::Return(Ok(AMM::ERC4626Vault(refreshed))) => assert_eq!(
            refreshed,
            ERC4626Vault { vault_reserve: u256(70), asset_reserve: u256(80), ..vault(1) }
        ),
        _ => panic!("another request"),
    }
}

#[test]
fn failed_read_ends_a_refresh_without_a_pause() {
    for amm in [v2(1), v3(2), erc(3)] {
        let (refresh, _) = permitted(amm);
        let (refresh, action) = refresh.next::<u32>(RefreshEvent::Failed(12));
        assert!(matches!(action, RefreshAction::Return(Err(12))));
        assert!(matches!(refresh.state, RefreshState::Finished));
        let (_, action) = refresh.next::<u32>(RefreshEvent::DelayOver);
        assert!(matches!(action, RefreshAction::Unexpected(RefreshEvent::DelayOver)));
    }
}

#[test]
fn event_that_answers_nothing_changes_nothing() {
    let (refresh, _) = permitted(v2(1));
    let before = text(&refresh);
    let (refresh, action) = refresh.next::<u32>(RefreshEvent::Liquidity(1));
    assert!(matches!(action, RefreshAction::Unexpected(RefreshEvent::Liquidity(1))));
    assert_eq!(text(&refresh), before);
}

#[test]
fn single_amms_are_gathered_until_a_bad_end() {
    let mut collector = AmmCollector::new();
    let good: Outcome<AMM, u32, u8> = Ok(Ok(v2(1)));
    assert_eq!(collector.absorb_amm(good), Ok(()));
    let good: Outcome<AMM, u32, u8> = Ok(Ok(erc(2)));
    assert_eq!(collector.absorb_amm(good), Ok(()));
    let bad: Outcome<AMM, u32, u8> = Ok(Err(3));
    assert_eq!(collector.absorb_amm(bad), Err(TaskError::Failed(3)));
    let cut: Outcome<AMM, u32, u8> = Err(4);
    assert_eq!(collector.absorb_amm(cut), Err(TaskError::Join(4)));
    assert_eq!(text(&collector.finish()), text(&vec![v2(1), erc(2)]));
}

#[test]
fn lists_are_gathered_until_a_bad_end() {
    let mut collector = AmmCollector::new();
    let good: Outcome<Vec<AMM>, u32, u8> = Ok(Ok(vec![v2(1), v3(2)]));
    assert_eq!(collector.absorb_amms(good), Ok(()));
    let good: Outcome<Vec<AMM>, u32, u8> = Ok(Ok(vec![erc(3)]));
    assert_eq!(collector.absorb_amms(good), Ok(()));
    let bad: Outcome<Vec<AMM>, u32, u8> = Ok(Err(3));
    assert_eq!(collector.absorb_amms(bad), Err(TaskError::Failed(3)));
    let cut: Outcome<Vec<AMM>, u32, u8> = Err(4);
    assert_eq!(collector.absorb_amms(cut), Err(TaskError::Join(4)));
    assert_eq!(text(&collector.finish()), text(&vec![v2(1), v3(2), erc(3)]));
}

#[test]
fn order_of_ends_does_not_matter() {
    let gather = |bytes: Vec<u8>| -> Vec<String> {
        let mut collector = AmmCollector::new();
        for byte in bytes {
            let outcome: Outcome<AMM, u32, u8> = Ok(Ok(v2(byte)));
            collector.absorb_amm(outcome).unwrap();
        }
        let mut texts: Vec<String> = collector.finish().iter().map(text).collect();
        texts.sort();
        texts
    };
    assert_eq!(gather(vec![1, 2, 3]), gather(vec![3, 1, 2]));
}

#[test]
fn checkpoint_is_brought_up_to_date() {
    let sync = sync_amms_from_checkpoint(50);
    assert!(matches!(sync.first::<u32>(), SyncAction::GetBlockNumber));
    let (sync, action) = sync.next::<u32>(SyncEvent::BlockNumber(200));
    assert!(matches!(action, SyncAction::ReadCheckpoint));
    let checkpoint = Checkpoint::new(1, 100, factories(), vec![v2(1), v3(2)]);
    let (sync, action) = sync.next::<u32>(SyncEvent::Checkpoint(checkpoint));
    match action {
        SyncAction::SyncAmmData { amms, checkpoint_block, to_block } => {
            assert_eq!(text(&amms), text(&vec![v2(1), v3(2)]));
            assert_eq!((checkpoint_block, to_block), (100, 200));
        }
        _ => panic!("another request"),
    }
    let (sync, action) = sync.next::<u32>(SyncEvent::SyncedAmms(vec![v3(2), v2(1)]));
    match action {
        SyncAction::GetNewAmms { factories: scanned, from_block, to_block, step } => {
            assert_eq!(scanned, factories());
            assert_eq!((from_block, to_block, step), (100, 200, 50));
        }
        _ => panic!("another request"),
    }
    let (sync, action) = sync.next::<u32>(SyncEvent::NewAmms(vec![v2(9)]));
    assert!(matches!(action, SyncAction::ReadClock));
    let (sync, action) = sync.next::<u32>(SyncEvent::Clock(1700000000));
    let written = match action {
        SyncAction::WriteCheckpoint(written) => written,
        _ => panic!("another request"),
    };
    let all = vec![v3(2), v2(1), v2(9)];
    assert_eq!((written.timestamp, written.block_number), (1700000000, 200));
    assert_eq!(written.factories, factories());
    assert_eq!(text(&written.amms), text(&all));
    let (sync, action) = sync.next::<u32>(SyncEvent::Written);
    match action {
        SyncAction::Return(Ok((returned, amms))) => {
            assert_eq!(returned, factories());
            assert_eq!(text(&amms), text(&all));
        }
        _ => panic!("another request"),
    }
    assert!(matches!(sync.state, SyncState::Finished));

    // The next synchronisation goes on from block 200.
    let next = sync_amms_from_checkpoint(50);
    let (next, _) = next.next::<u32>(SyncEvent::BlockNumber(300));
    let (next, action) = next.next::<u32>(SyncEvent::Checkpoint(written));
    match action {
        SyncAction::SyncAmmData { amms, checkpoint_block, to_block } => {
            assert_eq!(text(&amms), text(&all));
            assert_eq!((checkpoint_block, to_block), (200, 300));
        }
        _ => panic!("another request"),
    }
    let (_, action) = next.next::<u32>(SyncEvent::SyncedAmms(Vec::new()));
    match action {
        SyncAction::GetNewAmms { from_block, .. } => assert_eq!(from_block, 200),
        _ => panic!("another request"),
    }
}

#[test]
fn failed_synchronisation_is_over() {
    let sync = sync_amms_from_checkpoint(50);
    let (sync, action) = sync.next::<u32>(SyncEvent::Failed(1));
    assert!(matches!(action, SyncAction::Return(Err(1))));
    let (sync, action) = sync.next::<u32>(SyncEvent::Failed(2));
    assert!(matches!(action, SyncAction::Unexpected(SyncEvent::Failed(2))));
    let (_, action) = sync.next::<u32>(SyncEvent::Clock(3));
    assert!(matches!(action, SyncAction::Unexpected(SyncEvent::Clock(3))));
}

#[test]
fn nothing_is_written_before_everything_was_read() {
    let sync = sync_amms_from_checkpoint(50);
    let (sync, action) = sync.next::<u32>(SyncEvent::Clock(3));
    assert!(matches!(action, SyncAction::Unexpected(SyncEvent::Clock(3))));
    let (sync, _) = sync.next::<u32>(SyncEvent::BlockNumber(200));
    let (_, action) = sync.next::<u32>(SyncEvent::NewAmms(vec![v2(1)]));
    assert!(matches!(action, SyncAction::Unexpected(SyncEvent::NewAmms(_))));
}

/// Brings AMMs up to date with made-up reads, the tasks ending in reverse order.
fn brought_up(amms: Vec<AMM>, checkpoint_block: u64, to_block: u64) -> Vec<AMM> {
    let (refreshes, mut collector) =
        sync_amm_data_from_checkpoint(amms, checkpoint_block, to_block);
    for refresh in refreshes.into_iter().rev() {
        let (mut refresh, mut action) = refresh.next::<u32>(RefreshEvent::Permit);
        let outcome: Outcome<AMM, u32, u8> = loop {
            let event = match action {
                RefreshAction::GetPoolReserves { .. } => RefreshEvent::PoolReserves(7, 8),
                RefreshAction::PopulateTickData { v3_pool, .. } => RefreshEvent::TickData(v3_pool),
                RefreshAction::GetSqrtPrice { .. } => RefreshEvent::SqrtPrice(u256(5)),
                RefreshAction::GetLiquidity { .. } => RefreshEvent::Liquidity(6),
                RefreshAction::GetVaultReserves { .. } => {
                    RefreshEvent::VaultReserves(u256(3), u256(4))
                }
                RefreshAction::Delay => RefreshEvent::DelayOver,
                RefreshAction::Return(result) => break Ok(result),
                RefreshAction::Unexpected(_) => panic!("not asked for"),
            };
            (refresh, action) = refresh.next::<u32>(event);
        };
        collector.absorb_amm(outcome).unwrap();
    }
    collector.finish()
}

/// A synchronisation that reads a checkpoint and discovers some AMMs: what it returns, and
/// what it writes.
fn synchronised(
    checkpoint: Checkpoint,
    latest_block: u64,
    discovered: Vec<AMM>,
) -> (Vec<Factory>, Vec<AMM>, Checkpoint) {
    let mut sync = sync_amms_from_checkpoint(50);
    let mut action = sync.first::<u32>();
    let mut checkpoint = Some(checkpoint);
    let mut discovered = Some(discovered);
    let mut written = None;
    loop {
        let event = match action {
            SyncAction::GetBlockNumber => SyncEvent::BlockNumber(latest_block),
            SyncAction::ReadCheckpoint => SyncEvent::Checkpoint(checkpoint.take().unwrap()),
            SyncAction::SyncAmmData { amms, checkpoint_block, to_block } => {
                SyncEvent::SyncedAmms(brought_up(amms, checkpoint_block, to_block))
            }
            SyncAction::GetNewAmms { .. } => SyncEvent::NewAmms(discovered.take().unwrap()),
            SyncAction::ReadClock => SyncEvent::Clock(1),
            SyncAction::WriteCheckpoint(checkpoint) => {
                assert!(written.is_none());
                written = Some(checkpoint);
                SyncEvent::Written
            }
            SyncAction::Return(result) => {
                let (factories, amms) = result.unwrap();
                return (factories, amms, written.unwrap());
            }
            SyncAction::Unexpected(_) => panic!("not asked for"),
        };
        (sync, action) = sync.next::<u32>(event);
    }
}

fn addresses(amms: &[AMM]) -> Vec<Address> {
    amms.iter()
        .map(|amm| match amm {
            AMM::UniswapV2Pool(pool) => pool.address,
            AMM::UniswapV3Pool(pool) => pool.address,
            AMM::ERC4626Vault(vault) => vault.vault_token,
        })
        .collect()
}

#[test]
fn next_synchronisation_keeps_every_amm() {
    let start = Checkpoint::new(0, 100, factories(), vec![v2(1), v3(2), erc(3)]);
    let (first_factories, first, written) = synchronised(start, 200, vec![v2(4)]);
    assert_eq!(addresses(&first), vec![addr(3), addr(2), addr(1), addr(4)]);
    assert_eq!(written.block_number, 200);
    assert_eq!(text(&written.amms), text(&first));
    let (second_factories, second, written) = synchronised(written, 300, vec![v3(5)]);
    assert_eq!(second_factories, first_factories);
    assert_eq!(second.len(), 5);
    for address in addresses(&first) {
        assert!(addresses(&second).contains(&address));
    }
    assert_eq!(written.block_number, 300);
}
