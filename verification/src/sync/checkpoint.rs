//! Checkpoints: the AMMs that are known as of a block.
use vstd::prelude::*;

use crate::amm::factory::Factory;
use crate::amm::{amm_views, AMMView, AMM};
use crate::lists::{cloned_amms, copied};
use crate::sync::collect::AmmCollector;
use crate::sync::refresh::{
    refresh_next, AmmRefresh, RefreshAction, RefreshEvent, RefreshState,
};
use crate::sync::scan::{FactoryScan, ScanState};
use crate::sync::session::{CheckpointSync, CheckpointSyncView, SyncStateView};

verus! {

/// The AMMs that were known when a block was the latest one, and the factories that they
/// are discovered from.
#[derive(Debug)]
pub struct Checkpoint {
    /// When the checkpoint was made, in seconds of Unix time.
    pub timestamp: usize,
    /// The block as of which the AMMs are up to date.
    pub block_number: u64,
    pub factories: Vec<Factory>,
    pub amms: Vec<AMM>,
}

/// What a [`Checkpoint`] holds.
pub struct CheckpointView {
    pub timestamp: usize,
    pub block_number: u64,
    pub factories: Seq<Factory>,
    pub amms: Seq<AMMView>,
}

impl View for Checkpoint {
    type V = CheckpointView;

    open spec fn view(&self) -> CheckpointView {
        CheckpointView {
            timestamp: self.timestamp,
            block_number: self.block_number,
            factories: self.factories@,
            amms: amm_views(self.amms@),
        }
    }
}

impl Clone for Checkpoint {
    fn clone(&self) -> (r: Checkpoint)
        ensures
            r@ == self@,
    {
        Checkpoint {
            timestamp: self.timestamp,
            block_number: self.block_number,
            factories: copied(self.factories.as_slice()),
            amms: cloned_amms(self.amms.as_slice()),
        }
    }
}

impl Checkpoint {
    /// The checkpoint with the given contents.
    pub fn new(
        timestamp: usize,
        block_number: u64,
        factories: Vec<Factory>,
        amms: Vec<AMM>,
    ) -> (r: Checkpoint)
        ensures
            r.timestamp == timestamp,
            r.block_number == block_number,
            r.factories == factories,
            r.amms == amms,
    {
        Checkpoint { timestamp, block_number, factories, amms }
    }
}

/// Starts to bring a checkpoint up to date. Logs are asked for `step` blocks at a time.
pub fn sync_amms_from_checkpoint(step: u64) -> (r: CheckpointSync)
    ensures
        r@ == (CheckpointSyncView { step, state: SyncStateView::BlockNumber }),
        r.step == step,
        r.state is BlockNumber,
{
    CheckpointSync::new(step)
}

/// Starts to discover the AMMs that factories created in a range of blocks: one scan for each
/// factory, to run side by side, and the collector for what they bring.
pub fn get_new_amms_from_range(
    factories: Vec<Factory>,
    from_block: u64,
    to_block: u64,
    step: u64,
) -> (r: (Vec<FactoryScan>, AmmCollector))
    ensures
        r.0@ == scans_of(factories@, from_block, to_block, step),
        r.1@ == Seq::<AMM>::empty(),
        r.0@.len() == factories@.len(),
        forall|i: int|
            0 <= i < factories@.len() ==> {
                &&& (#[trigger] r.0@[i]).factory == factories@[i]
                &&& r.0@[i].from_block == from_block
                &&& r.0@[i].to_block == to_block
                &&& r.0@[i].step == step
                &&& r.0@[i].state is Pools
            },
{
    (get_new_pools_from_range(factories, from_block, to_block, step), AmmCollector::new())
}

/// Starts to bring the AMMs of a checkpoint up to a block: one refresh for each AMM, to run
/// side by side, and the collector for what they bring.
pub fn sync_amm_data_from_checkpoint(amms: Vec<AMM>, checkpoint_block: u64, to_block: u64) -> (r: (
    Vec<AmmRefresh>,
    AmmCollector,
))
    ensures
        r.0@ == refreshes_of(amms@, checkpoint_block, to_block),
        r.1@ == Seq::<AMM>::empty(),
        r.0@.len() == amms@.len(),
        forall|i: int|
            0 <= i < amms@.len() ==> {
                &&& (#[trigger] r.0@[i]).checkpoint_block == checkpoint_block
                &&& r.0@[i].to_block == to_block
                &&& r.0@[i].state == RefreshState::Permit(amms@[i])
            },
{
    let ghost all = amms@;
    let mut refreshes: Vec<AmmRefresh> = Vec::new();
    for amm in it: amms
        invariant
            it.seq() == all,
            refreshes@ == refreshes_of(all, checkpoint_block, to_block).take(it.index() as int),
    {
        refreshes.push(AmmRefresh::new(amm, checkpoint_block, to_block));
        assert(refreshes@ =~= refreshes_of(all, checkpoint_block, to_block).take(it.index() + 1));
    }
    assert(refreshes@ =~= refreshes_of(all, checkpoint_block, to_block));
    (refreshes, AmmCollector::new())
}

/// One refresh for each of the AMMs, in their order, each at its start.
pub open spec fn refreshes_of(amms: Seq<AMM>, checkpoint_block: u64, to_block: u64) -> Seq<
    AmmRefresh,
> {
    amms.map_values(
        |amm: AMM|
            AmmRefresh { checkpoint_block, to_block, state: RefreshState::Permit(amm) },
    )
}

/// One scan for each of the factories, in their order, each at its start.
pub open spec fn scans_of(
    factories: Seq<Factory>,
    from_block: u64,
    to_block: u64,
    step: u64,
) -> Seq<FactoryScan> {
    factories.map_values(
        |factory: Factory|
            FactoryScan { factory, from_block, to_block, step, state: ScanState::Pools },
    )
}

/// As many refreshes are started as there are AMMs. Each one holds the AMM at its place, which
/// waits for a permit, and goes from the block of the checkpoint to the block that is given.
pub proof fn law_one_refresh_for_each_amm(
    amms: Seq<AMM>,
    checkpoint_block: u64,
    to_block: u64,
    i: int,
)
    ensures
        refreshes_of(amms, checkpoint_block, to_block).len() == amms.len(),
        0 <= i < amms.len() ==> {
            let refresh = refreshes_of(amms, checkpoint_block, to_block)[i];
            &&& refresh.state == RefreshState::Permit(amms[i])
            &&& refresh.checkpoint_block == checkpoint_block
            &&& refresh.to_block == to_block
        },
{
}

/// With its permit, the refresh of a Uniswap v2 pool or of a vault asks for its reserves as of
/// the block that is given, and that of a Uniswap v3 pool for its tick data from the block of the
/// checkpoint on.
pub proof fn law_amms_are_read_as_of_the_block_given<E>(
    amms: Seq<AMM>,
    checkpoint_block: u64,
    to_block: u64,
    i: int,
)
    requires
        0 <= i < amms.len(),
    ensures
        ({
            let refresh = refreshes_of(amms, checkpoint_block, to_block)[i];
            let asked = refresh_next(refresh, RefreshEvent::<E>::Permit).1;
            match amms[i] {
                AMM::UniswapV2Pool(pool) => asked == (RefreshAction::<E>::GetPoolReserves {
                    pool,
                    block: to_block,
                }),
                AMM::UniswapV3Pool(pool) => asked == (RefreshAction::<E>::PopulateTickData {
                    v3_pool: pool,
                    from_block: checkpoint_block,
                }),
                AMM::ERC4626Vault(vault) => asked == (RefreshAction::<E>::GetVaultReserves {
                    vault,
                    block: to_block,
                }),
            }
        }),
{
}

/// As many scans are started as there are factories. Each one is of the factory at its place,
/// over the range and with the step that are given, and waits for the pools of the creation
/// logs.
pub proof fn law_one_scan_for_each_factory(
    factories: Seq<Factory>,
    from_block: u64,
    to_block: u64,
    step: u64,
    i: int,
)
    ensures
        scans_of(factories, from_block, to_block, step).len() == factories.len(),
        0 <= i < factories.len() ==> {
            let scan = scans_of(factories, from_block, to_block, step)[i];
            &&& scan.factory == factories[i]
            &&& scan.from_block == from_block
            &&& scan.to_block == to_block
            &&& scan.step == step
            &&& scan.state is Pools
        },
{
}

/// Starts to discover the AMMs that factories created in a range of blocks: one scan for each
/// factory, to run side by side.
pub fn get_new_pools_from_range(
    factories: Vec<Factory>,
    from_block: u64,
    to_block: u64,
    step: u64,
) -> (r: Vec<FactoryScan>)
    ensures
        r@ == scans_of(factories@, from_block, to_block, step),
        r@.len() == factories@.len(),
        forall|i: int|
            0 <= i < factories@.len() ==> {
                &&& (#[trigger] r@[i]).factory == factories@[i]
                &&& r@[i].from_block == from_block
                &&& r@[i].to_block == to_block
                &&& r@[i].step == step
                &&& r@[i].state is Pools
            },
{
    let mut scans: Vec<FactoryScan> = Vec::new();
    let mut i: usize = 0;
    while i < factories.len()
        invariant
            i <= factories@.len(),
            scans@ == scans_of(factories@, from_block, to_block, step).take(i as int),
        decreases factories@.len() - i,
    {
        scans.push(FactoryScan::new(factories[i], from_block, to_block, step));
        i = i + 1;
        assert(scans@ =~= scans_of(factories@, from_block, to_block, step).take(i as int));
    }
    assert(scans@ =~= scans_of(factories@, from_block, to_block, step));
    scans
}

/// Splits a list of AMMs by their kind: Uniswap v2 pools, Uniswap v3 pools and ERC-4626
/// vaults. Each part keeps the order of the list.
pub fn sort_amms(amms: Vec<AMM>) -> (r: (Vec<AMM>, Vec<AMM>, Vec<AMM>))
    ensures
        r.0@ == amms@.filter(|amm: AMM| amm is UniswapV2Pool),
        r.1@ == amms@.filter(|amm: AMM| amm is UniswapV3Pool),
        r.2@ == amms@.filter(|amm: AMM| amm is ERC4626Vault),
{
    let ghost all = amms@;
    let mut uniswap_v2_pools: Vec<AMM> = Vec::new();
    let mut uniswap_v3_pools: Vec<AMM> = Vec::new();
    let mut erc_4626_vaults: Vec<AMM> = Vec::new();
    proof {
        reveal(Seq::filter);
    }
    for amm in it: amms
        invariant
            it.seq() == all,
            uniswap_v2_pools@ == all.take(it.index() as int).filter(
                |amm: AMM| amm is UniswapV2Pool,
            ),
            uniswap_v3_pools@ == all.take(it.index() as int).filter(
                |amm: AMM| amm is UniswapV3Pool,
            ),
            erc_4626_vaults@ == all.take(it.index() as int).filter(|amm: AMM| amm is ERC4626Vault),
    {
        proof {
            let k = it.index() as int;
            reveal(Seq::filter);
            assert(all.take(k + 1).drop_last() =~= all.take(k));
            assert(all.take(k + 1).last() == amm);
        }
        match amm {
            AMM::UniswapV2Pool(_) => {
                uniswap_v2_pools.push(amm);
            },
            AMM::UniswapV3Pool(_) => {
                uniswap_v3_pools.push(amm);
            },
            AMM::ERC4626Vault(_) => {
                erc_4626_vaults.push(amm);
            },
        }
    }
    assert(all.take(all.len() as int) =~= all);
    (uniswap_v2_pools, uniswap_v3_pools, erc_4626_vaults)
}

/// Splitting a list by kind loses nothing and adds nothing: together the parts hold the AMMs
/// of the list, each as often as the list does.
pub proof fn law_sorting_keeps_every_amm(amms: Seq<AMM>)
    ensures
        amms.filter(|amm: AMM| amm is UniswapV2Pool).to_multiset().add(
            amms.filter(|amm: AMM| amm is UniswapV3Pool).to_multiset(),
        ).add(amms.filter(|amm: AMM| amm is ERC4626Vault).to_multiset()) == amms.to_multiset(),
    decreases amms.len(),
{
    broadcast use vstd::seq_lib::group_to_multiset_ensures;

    reveal(Seq::filter);
    if amms.len() > 0 {
        law_sorting_keeps_every_amm(amms.drop_last());
        assert(amms =~= amms.drop_last().push(amms.last()));
        assert(amms.filter(|amm: AMM| amm is UniswapV2Pool).to_multiset().add(
            amms.filter(|amm: AMM| amm is UniswapV3Pool).to_multiset(),
        ).add(amms.filter(|amm: AMM| amm is ERC4626Vault).to_multiset()) =~= amms.to_multiset());
    } else {
        assert(amms.to_multiset() =~= vstd::multiset::Multiset::empty());
        assert(amms.to_multiset().add(amms.to_multiset()).add(amms.to_multiset())
            =~= amms.to_multiset());
    }
}

/// The checkpoint of AMMs that are up to date as of a block.
pub open spec fn constructed_checkpoint(
    factories: Seq<Factory>,
    amms: Seq<AMMView>,
    latest_block: u64,
    timestamp: usize,
) -> CheckpointView {
    CheckpointView { timestamp, block_number: latest_block, factories, amms }
}

/// The AMMs of a checkpoint and the block as of which they are up to date.
pub open spec fn deconstructed_checkpoint(checkpoint: CheckpointView) -> (Seq<AMMView>, u64) {
    (checkpoint.amms, checkpoint.block_number)
}

/// The checkpoint of AMMs that are up to date as of a block, made at a time that is given in
/// seconds of Unix time.
pub fn construct_checkpoint(
    factories: Vec<Factory>,
    amms: &[AMM],
    latest_block: u64,
    timestamp: usize,
) -> (r: Checkpoint)
    ensures
        r@ == constructed_checkpoint(factories@, amm_views(amms@), latest_block, timestamp),
        r.timestamp == timestamp,
        r.block_number == latest_block,
        r.factories@ == factories@,
        r.amms@.len() == amms@.len(),
        forall|i: int| 0 <= i < amms@.len() ==> (#[trigger] r.amms@[i])@ == amms@[i]@,
{
    Checkpoint::new(timestamp, latest_block, factories, cloned_amms(amms))
}

/// The AMMs of a checkpoint and the block as of which they are up to date.
pub fn deconstruct_checkpoint(checkpoint: Checkpoint) -> (r: (Vec<AMM>, u64))
    ensures
        r.0 == checkpoint.amms,
        r.1 == checkpoint.block_number,
        (amm_views(r.0@), r.1) == deconstructed_checkpoint(checkpoint@),
{
    (checkpoint.amms, checkpoint.block_number)
}

/// The checkpoint of AMMs as of a block holds the block, the time, the factories and the AMMs
/// that it was made of.
pub proof fn law_checkpoint_holds_what_it_was_made_of(
    factories: Seq<Factory>,
    amms: Seq<AMMView>,
    latest_block: u64,
    timestamp: usize,
)
    ensures
        ({
            let checkpoint = constructed_checkpoint(factories, amms, latest_block, timestamp);
            &&& checkpoint.block_number == latest_block
            &&& checkpoint.timestamp == timestamp
            &&& checkpoint.factories == factories
            &&& checkpoint.amms == amms
        }),
{
}

/// What a checkpoint shows is all that it holds.
pub proof fn law_checkpoint_shows_what_it_holds(checkpoint: Checkpoint)
    ensures
        checkpoint@.timestamp == checkpoint.timestamp,
        checkpoint@.block_number == checkpoint.block_number,
        checkpoint@.factories == checkpoint.factories@,
        checkpoint@.amms == amm_views(checkpoint.amms@),
{
}

/// A checkpoint gives back the AMMs and the block that it was made of.
pub proof fn law_checkpoint_gives_back_what_it_was_made_of(
    factories: Seq<Factory>,
    amms: Seq<AMMView>,
    latest_block: u64,
    timestamp: usize,
)
    ensures
        deconstructed_checkpoint(
            constructed_checkpoint(factories, amms, latest_block, timestamp),
        ) == (amms, latest_block),
{
}

} // verus!
