//! Bringing one AMM of a checkpoint up to date.
//!
//! An [`AmmRefresh`] names what to do next and takes in how it went. It first asks for one
//! of a limited number of permits, then for the reads that its kind of AMM needs, then for a
//! pause, and then it is done. A read that fails ends it at once, without the pause.
use vstd::prelude::*;

use crate::amm::erc_4626::ERC4626Vault;
use crate::amm::uniswap_v2::UniswapV2Pool;
use crate::amm::uniswap_v3::UniswapV3Pool;
use crate::amm::{amm_address, AMM};
use crate::primitives::{Address, U256};

verus! {

/// What a refresh waits for.
#[derive(Debug)]
pub enum RefreshState {
    /// A permit to start.
    Permit(AMM),
    /// The reserves of a Uniswap v2 pool.
    PoolReserves(UniswapV2Pool),
    /// A Uniswap v3 pool that was handed out to have its tick data filled in.
    TickData,
    /// The price of a Uniswap v3 pool.
    SqrtPrice(UniswapV3Pool),
    /// The liquidity of a Uniswap v3 pool.
    Liquidity(UniswapV3Pool),
    /// The reserves of a vault.
    VaultReserves(ERC4626Vault),
    /// The end of the pause behind the reads.
    Delay(AMM),
    /// Nothing more.
    Finished,
}

/// The refresh of one AMM.
#[derive(Debug)]
pub struct AmmRefresh {
    /// The block of the checkpoint that the AMM comes from.
    pub checkpoint_block: u64,
    /// The block that the AMM is brought up to.
    pub to_block: u64,
    pub state: RefreshState,
}

/// How the last thing that a refresh asked for went.
#[derive(Debug)]
pub enum RefreshEvent<E> {
    Permit,
    PoolReserves(u128, u128),
    TickData(UniswapV3Pool),
    SqrtPrice(U256),
    Liquidity(u128),
    VaultReserves(U256, U256),
    DelayOver,
    /// A read failed.
    Failed(E),
}

/// What a refresh asks for.
#[derive(Debug)]
pub enum RefreshAction<E> {
    /// Read the reserves of a pool as of a block.
    GetPoolReserves { pool: UniswapV2Pool, block: u64 },
    /// Fill in the tick data of a pool from a block on, and hand the pool back.
    PopulateTickData { v3_pool: UniswapV3Pool, from_block: u64 },
    /// Read the price of the pool at an address.
    GetSqrtPrice { address: Address },
    /// Read the liquidity of the pool at an address.
    GetLiquidity { address: Address },
    /// Read the reserves of a vault as of a block: of the vault token, then of the asset.
    GetVaultReserves { vault: ERC4626Vault, block: u64 },
    /// Pause before the permit is given back.
    Delay,
    /// The refresh is over.
    Return(Result<AMM, E>),
    /// The event does not answer what was asked for; it changed nothing.
    Unexpected(RefreshEvent<E>),
}

/// What a refresh waits for after an event, and what it asks for.
pub open spec fn refresh_next<E>(refresh: AmmRefresh, event: RefreshEvent<E>) -> (
    AmmRefresh,
    RefreshAction<E>,
) {
    match (refresh.state, event) {
        (RefreshState::Permit(AMM::UniswapV2Pool(pool)), RefreshEvent::Permit) => (
            AmmRefresh { state: RefreshState::PoolReserves(pool), ..refresh },
            RefreshAction::GetPoolReserves { pool, block: refresh.to_block },
        ),
        (RefreshState::Permit(AMM::UniswapV3Pool(pool)), RefreshEvent::Permit) => (
            AmmRefresh { state: RefreshState::TickData, ..refresh },
            RefreshAction::PopulateTickData { v3_pool: pool, from_block: refresh.checkpoint_block },
        ),
        (RefreshState::Permit(AMM::ERC4626Vault(vault)), RefreshEvent::Permit) => (
            AmmRefresh { state: RefreshState::VaultReserves(vault), ..refresh },
            RefreshAction::GetVaultReserves { vault, block: refresh.to_block },
        ),
        (RefreshState::PoolReserves(pool), RefreshEvent::PoolReserves(reserve_0, reserve_1)) => (
            AmmRefresh {
                state: RefreshState::Delay(
                    AMM::UniswapV2Pool(UniswapV2Pool { reserve_0, reserve_1, ..pool }),
                ),
                ..refresh
            },
            RefreshAction::Delay,
        ),
        (RefreshState::TickData, RefreshEvent::TickData(pool)) => (
            AmmRefresh { state: RefreshState::SqrtPrice(pool), ..refresh },
            RefreshAction::GetSqrtPrice { address: pool.address },
        ),
        (RefreshState::SqrtPrice(pool), RefreshEvent::SqrtPrice(sqrt_price)) => (
            AmmRefresh {
                state: RefreshState::Liquidity(UniswapV3Pool { sqrt_price, ..pool }),
                ..refresh
            },
            RefreshAction::GetLiquidity { address: pool.address },
        ),
        (RefreshState::Liquidity(pool), RefreshEvent::Liquidity(liquidity)) => (
            AmmRefresh {
                state: RefreshState::Delay(
                    AMM::UniswapV3Pool(UniswapV3Pool { liquidity, ..pool }),
                ),
                ..refresh
            },
            RefreshAction::Delay,
        ),
        (
            RefreshState::VaultReserves(vault),
            RefreshEvent::VaultReserves(vault_reserve, asset_reserve),
        ) => (
            AmmRefresh {
                state: RefreshState::Delay(
                    AMM::ERC4626Vault(ERC4626Vault { vault_reserve, asset_reserve, ..vault }),
                ),
                ..refresh
            },
            RefreshAction::Delay,
        ),
        (RefreshState::Delay(amm), RefreshEvent::DelayOver) => (
            AmmRefresh { state: RefreshState::Finished, ..refresh },
            RefreshAction::Return(Ok(amm)),
        ),
        (
            RefreshState::PoolReserves(_)
            | RefreshState::TickData
            | RefreshState::SqrtPrice(_)
            | RefreshState::Liquidity(_)
            | RefreshState::VaultReserves(_),
            RefreshEvent::Failed(error),
        ) => (
            AmmRefresh { state: RefreshState::Finished, ..refresh },
            RefreshAction::Return(Err(error)),
        ),
        _ => (refresh, RefreshAction::Unexpected(event)),
    }
}

impl AmmRefresh {
    /// The refresh of an AMM, which waits for a permit.
    pub(crate) fn new(amm: AMM, checkpoint_block: u64, to_block: u64) -> (r: AmmRefresh)
        ensures
            r == (AmmRefresh { checkpoint_block, to_block, state: RefreshState::Permit(amm) }),
    {
        AmmRefresh { checkpoint_block, to_block, state: RefreshState::Permit(amm) }
    }

    /// Takes in an event, and says what to do next.
    pub fn next<E>(self, event: RefreshEvent<E>) -> (r: (AmmRefresh, RefreshAction<E>))
        ensures
            r == refresh_next(self, event),
    {
        let checkpoint_block: u64 = self.checkpoint_block;
        let to_block: u64 = self.to_block;
        let (state, action) = match (self.state, event) {
            (RefreshState::Permit(amm), RefreshEvent::Permit) => match amm {
                AMM::UniswapV2Pool(pool) => (
                    RefreshState::PoolReserves(pool),
                    RefreshAction::GetPoolReserves { pool, block: to_block },
                ),
                AMM::UniswapV3Pool(pool) => (
                    RefreshState::TickData,
                    RefreshAction::PopulateTickData { v3_pool: pool, from_block: checkpoint_block },
                ),
                AMM::ERC4626Vault(vault) => (
                    RefreshState::VaultReserves(vault),
                    RefreshAction::GetVaultReserves { vault, block: to_block },
                ),
            },
            (RefreshState::PoolReserves(pool), RefreshEvent::PoolReserves(reserve_0, reserve_1)) => {
                let mut pool = pool;
                pool.reserve_0 = reserve_0;
                pool.reserve_1 = reserve_1;
                (RefreshState::Delay(AMM::UniswapV2Pool(pool)), RefreshAction::Delay)
            },
            (RefreshState::TickData, RefreshEvent::TickData(pool)) => {
                let address = pool.address;
                (RefreshState::SqrtPrice(pool), RefreshAction::GetSqrtPrice { address })
            },
            (RefreshState::SqrtPrice(pool), RefreshEvent::SqrtPrice(sqrt_price)) => {
                let mut pool = pool;
                let address = pool.address;
                pool.sqrt_price = sqrt_price;
                (RefreshState::Liquidity(pool), RefreshAction::GetLiquidity { address })
            },
            (RefreshState::Liquidity(pool), RefreshEvent::Liquidity(liquidity)) => {
                let mut pool = pool;
                pool.liquidity = liquidity;
                (RefreshState::Delay(AMM::UniswapV3Pool(pool)), RefreshAction::Delay)
            },
            (
                RefreshState::VaultReserves(vault),
                RefreshEvent::VaultReserves(vault_reserve, asset_reserve),
            ) => {
                let mut vault = vault;
                vault.vault_reserve = vault_reserve;
                vault.asset_reserve = asset_reserve;
                (RefreshState::Delay(AMM::ERC4626Vault(vault)), RefreshAction::Delay)
            },
            (RefreshState::Delay(amm), RefreshEvent::DelayOver) => (
                RefreshState::Finished,
                RefreshAction::Return(Ok(amm)),
            ),
            (RefreshState::PoolReserves(_), RefreshEvent::Failed(error)) => (
                RefreshState::Finished,
                RefreshAction::Return(Err(error)),
            ),
            (RefreshState::TickData, RefreshEvent::Failed(error)) => (
                RefreshState::Finished,
                RefreshAction::Return(Err(error)),
            ),
            (RefreshState::SqrtPrice(_), RefreshEvent::Failed(error)) => (
                RefreshState::Finished,
                RefreshAction::Return(Err(error)),
            ),
            (RefreshState::Liquidity(_), RefreshEvent::Failed(error)) => (
                RefreshState::Finished,
                RefreshAction::Return(Err(error)),
            ),
            (RefreshState::VaultReserves(_), RefreshEvent::Failed(error)) => (
                RefreshState::Finished,
                RefreshAction::Return(Err(error)),
            ),
            (state, event) => (state, RefreshAction::Unexpected(event)),
        };
        (AmmRefresh { checkpoint_block, to_block, state }, action)
    }
}

/// A refresh after a run of events, and what it asked for behind each of them.
pub open spec fn refresh_run<E>(refresh: AmmRefresh, events: Seq<RefreshEvent<E>>) -> (
    AmmRefresh,
    Seq<RefreshAction<E>>,
)
    decreases events.len(),
{
    if events.len() == 0 {
        (refresh, Seq::empty())
    } else {
        let (before, actions) = refresh_run(refresh, events.drop_last());
        let (after, action) = refresh_next(before, events.last());
        (after, actions.push(action))
    }
}

proof fn lemma_run_one_more<E>(
    refresh: AmmRefresh,
    events: Seq<RefreshEvent<E>>,
    event: RefreshEvent<E>,
)
    ensures
        refresh_run(refresh, events.push(event)).0 == refresh_next(
            refresh_run(refresh, events).0,
            event,
        ).0,
        refresh_run(refresh, events.push(event)).1 == refresh_run(refresh, events).1.push(
            refresh_next(refresh_run(refresh, events).0, event).1,
        ),
{
    assert(events.push(event).drop_last() =~= events);
}

/// A Uniswap v2 pool is given the reserves that it has as of the block that it is brought up
/// to, and nothing else of it changes.
pub proof fn law_uniswap_v2_pool_is_refreshed<E>(
    pool: UniswapV2Pool,
    checkpoint_block: u64,
    to_block: u64,
    reserve_0: u128,
    reserve_1: u128,
)
    ensures
        refresh_run::<E>(
            AmmRefresh {
                checkpoint_block,
                to_block,
                state: RefreshState::Permit(AMM::UniswapV2Pool(pool)),
            },
            seq![
                RefreshEvent::Permit,
                RefreshEvent::PoolReserves(reserve_0, reserve_1),
                RefreshEvent::DelayOver,
            ],
        ).1 == seq![
            RefreshAction::GetPoolReserves { pool, block: to_block },
            RefreshAction::<E>::Delay,
            RefreshAction::Return(
                Ok(AMM::UniswapV2Pool(UniswapV2Pool { reserve_0, reserve_1, ..pool })),
            ),
        ],
{
    let start = AmmRefresh {
        checkpoint_block,
        to_block,
        state: RefreshState::Permit(AMM::UniswapV2Pool(pool)),
    };
    let none = Seq::<RefreshEvent<E>>::empty();
    let one = none.push(RefreshEvent::Permit);
    let two = one.push(RefreshEvent::PoolReserves(reserve_0, reserve_1));
    lemma_run_one_more(start, none, RefreshEvent::Permit);
    lemma_run_one_more(start, one, RefreshEvent::PoolReserves(reserve_0, reserve_1));
    lemma_run_one_more(start, two, RefreshEvent::DelayOver);
    assert(seq![
        RefreshEvent::<E>::Permit,
        RefreshEvent::PoolReserves(reserve_0, reserve_1),
        RefreshEvent::DelayOver,
    ] =~= two.push(RefreshEvent::DelayOver));
}

/// A Uniswap v3 pool has its tick data filled in from the block of the checkpoint on, and is
/// then given its price and its liquidity; nothing else changes of the pool that came back
/// with the tick data.
pub proof fn law_uniswap_v3_pool_is_refreshed<E>(
    pool: UniswapV3Pool,
    checkpoint_block: u64,
    to_block: u64,
    populated: UniswapV3Pool,
    sqrt_price: U256,
    liquidity: u128,
)
    ensures
        refresh_run::<E>(
            AmmRefresh {
                checkpoint_block,
                to_block,
                state: RefreshState::Permit(AMM::UniswapV3Pool(pool)),
            },
            seq![
                RefreshEvent::Permit,
                RefreshEvent::TickData(populated),
                RefreshEvent::SqrtPrice(sqrt_price),
                RefreshEvent::Liquidity(liquidity),
                RefreshEvent::DelayOver,
            ],
        ).1 == seq![
            RefreshAction::PopulateTickData { v3_pool: pool, from_block: checkpoint_block },
            RefreshAction::GetSqrtPrice { address: populated.address },
            RefreshAction::GetLiquidity { address: populated.address },
            RefreshAction::<E>::Delay,
            RefreshAction::Return(
                Ok(AMM::UniswapV3Pool(UniswapV3Pool { sqrt_price, liquidity, ..populated })),
            ),
        ],
{
    let start = AmmRefresh {
        checkpoint_block,
        to_block,
        state: RefreshState::Permit(AMM::UniswapV3Pool(pool)),
    };
    let none = Seq::<RefreshEvent<E>>::empty();
    let one = none.push(RefreshEvent::Permit);
    let two = one.push(RefreshEvent::TickData(populated));
    let three = two.push(RefreshEvent::SqrtPrice(sqrt_price));
    let four = three.push(RefreshEvent::Liquidity(liquidity));
    lemma_run_one_more(start, none, RefreshEvent::Permit);
    lemma_run_one_more(start, one, RefreshEvent::TickData(populated));
    lemma_run_one_more(start, two, RefreshEvent::SqrtPrice(sqrt_price));
    lemma_run_one_more(start, three, RefreshEvent::Liquidity(liquidity));
    lemma_run_one_more(start, four, RefreshEvent::DelayOver);
    assert(seq![
        RefreshEvent::<E>::Permit,
        RefreshEvent::TickData(populated),
        RefreshEvent::SqrtPrice(sqrt_price),
        RefreshEvent::Liquidity(liquidity),
        RefreshEvent::DelayOver,
    ] =~= four.push(RefreshEvent::DelayOver));
}

/// A vault is given the reserves that it has as of the block that it is brought up to, and
/// nothing else of it changes.
pub proof fn law_vault_is_refreshed<E>(
    vault: ERC4626Vault,
    checkpoint_block: u64,
    to_block: u64,
    vault_reserve: U256,
    asset_reserve: U256,
)
    ensures
        refresh_run::<E>(
            AmmRefresh {
                checkpoint_block,
                to_block,
                state: RefreshState::Permit(AMM::ERC4626Vault(vault)),
            },
            seq![
                RefreshEvent::Permit,
                RefreshEvent::VaultReserves(vault_reserve, asset_reserve),
                RefreshEvent::DelayOver,
            ],
        ).1 == seq![
            RefreshAction::GetVaultReserves { vault, block: to_block },
            RefreshAction::<E>::Delay,
            RefreshAction::Return(
                Ok(AMM::ERC4626Vault(ERC4626Vault { vault_reserve, asset_reserve, ..vault })),
            ),
        ],
{
    let start = AmmRefresh {
        checkpoint_block,
        to_block,
        state: RefreshState::Permit(AMM::ERC4626Vault(vault)),
    };
    let none = Seq::<RefreshEvent<E>>::empty();
    let one = none.push(RefreshEvent::Permit);
    let two = one.push(RefreshEvent::VaultReserves(vault_reserve, asset_reserve));
    lemma_run_one_more(start, none, RefreshEvent::Permit);
    lemma_run_one_more(start, one, RefreshEvent::VaultReserves(vault_reserve, asset_reserve));
    lemma_run_one_more(start, two, RefreshEvent::DelayOver);
    assert(seq![
        RefreshEvent::<E>::Permit,
        RefreshEvent::VaultReserves(vault_reserve, asset_reserve),
        RefreshEvent::DelayOver,
    ] =~= two.push(RefreshEvent::DelayOver));
}

/// Step by step, the refresh of a Uniswap v2 pool asks for the reserves as of the block that it
/// is brought up to, stores them and nothing else, pauses, and returns the pool.
pub proof fn law_steps_of_a_uniswap_v2_pool<E>(
    pool: UniswapV2Pool,
    checkpoint_block: u64,
    to_block: u64,
    reserve_0: u128,
    reserve_1: u128,
)
    ensures
        ({
            let start = AmmRefresh {
                checkpoint_block,
                to_block,
                state: RefreshState::Permit(AMM::UniswapV2Pool(pool)),
            };
            let refreshed = AMM::UniswapV2Pool(UniswapV2Pool { reserve_0, reserve_1, ..pool });
            let (reading, read) = refresh_next(start, RefreshEvent::<E>::Permit);
            let (pausing, pause) = refresh_next(
                reading,
                RefreshEvent::<E>::PoolReserves(reserve_0, reserve_1),
            );
            let (end, result) = refresh_next(pausing, RefreshEvent::<E>::DelayOver);
            &&& read == (RefreshAction::<E>::GetPoolReserves { pool, block: to_block })
            &&& pause == RefreshAction::<E>::Delay
            &&& result == RefreshAction::<E>::Return(Ok(refreshed))
            &&& reading == (AmmRefresh { state: RefreshState::PoolReserves(pool), ..start })
            &&& pausing == (AmmRefresh { state: RefreshState::Delay(refreshed), ..start })
            &&& end == (AmmRefresh { state: RefreshState::Finished, ..start })
        }),
{
}

/// Step by step, the refresh of a Uniswap v3 pool asks for the tick data from the block of the
/// checkpoint on, then for the price and the liquidity of the pool that came back, stores these
/// two and nothing else, pauses, and returns the pool.
pub proof fn law_steps_of_a_uniswap_v3_pool<E>(
    pool: UniswapV3Pool,
    checkpoint_block: u64,
    to_block: u64,
    populated: UniswapV3Pool,
    sqrt_price: U256,
    liquidity: u128,
)
    ensures
        ({
            let start = AmmRefresh {
                checkpoint_block,
                to_block,
                state: RefreshState::Permit(AMM::UniswapV3Pool(pool)),
            };
            let priced = UniswapV3Pool { sqrt_price, ..populated };
            let refreshed = AMM::UniswapV3Pool(
                UniswapV3Pool { sqrt_price, liquidity, ..populated },
            );
            let (filling, fill) = refresh_next(start, RefreshEvent::<E>::Permit);
            let (pricing, price) = refresh_next(filling, RefreshEvent::<E>::TickData(populated));
            let (weighing, weigh) = refresh_next(
                pricing,
                RefreshEvent::<E>::SqrtPrice(sqrt_price),
            );
            let (pausing, pause) = refresh_next(weighing, RefreshEvent::<E>::Liquidity(liquidity));
            let (end, result) = refresh_next(pausing, RefreshEvent::<E>::DelayOver);
            &&& fill == (RefreshAction::<E>::PopulateTickData {
                v3_pool: pool,
                from_block: checkpoint_block,
            })
            &&& price == (RefreshAction::<E>::GetSqrtPrice { address: populated.address })
            &&& weigh == (RefreshAction::<E>::GetLiquidity { address: populated.address })
            &&& pause == RefreshAction::<E>::Delay
            &&& result == RefreshAction::<E>::Return(Ok(refreshed))
            &&& filling == (AmmRefresh { state: RefreshState::TickData, ..start })
            &&& pricing == (AmmRefresh { state: RefreshState::SqrtPrice(populated), ..start })
            &&& weighing == (AmmRefresh { state: RefreshState::Liquidity(priced), ..start })
            &&& pausing == (AmmRefresh { state: RefreshState::Delay(refreshed), ..start })
            &&& end == (AmmRefresh { state: RefreshState::Finished, ..start })
        }),
{
}

/// Step by step, the refresh of a vault asks for the reserves as of the block that it is brought
/// up to, stores them and nothing else, pauses, and returns the vault.
pub proof fn law_steps_of_a_vault<E>(
    vault: ERC4626Vault,
    checkpoint_block: u64,
    to_block: u64,
    vault_reserve: U256,
    asset_reserve: U256,
)
    ensures
        ({
            let start = AmmRefresh {
                checkpoint_block,
                to_block,
                state: RefreshState::Permit(AMM::ERC4626Vault(vault)),
            };
            let refreshed = AMM::ERC4626Vault(
                ERC4626Vault { vault_reserve, asset_reserve, ..vault },
            );
            let (reading, read) = refresh_next(start, RefreshEvent::<E>::Permit);
            let (pausing, pause) = refresh_next(
                reading,
                RefreshEvent::<E>::VaultReserves(vault_reserve, asset_reserve),
            );
            let (end, result) = refresh_next(pausing, RefreshEvent::<E>::DelayOver);
            &&& read == (RefreshAction::<E>::GetVaultReserves { vault, block: to_block })
            &&& pause == RefreshAction::<E>::Delay
            &&& result == RefreshAction::<E>::Return(Ok(refreshed))
            &&& reading == (AmmRefresh { state: RefreshState::VaultReserves(vault), ..start })
            &&& pausing == (AmmRefresh { state: RefreshState::Delay(refreshed), ..start })
            &&& end == (AmmRefresh { state: RefreshState::Finished, ..start })
        }),
{
}

/// An event that does not answer what a refresh asked for changes nothing and is handed back.
pub proof fn law_stray_event_leaves_a_refresh_as_it_is<E>(
    refresh: AmmRefresh,
    event: RefreshEvent<E>,
)
    requires
        event is Permit ==> !(refresh.state is Permit),
        event is PoolReserves ==> !(refresh.state is PoolReserves),
        event is TickData ==> !(refresh.state is TickData),
        event is SqrtPrice ==> !(refresh.state is SqrtPrice),
        event is Liquidity ==> !(refresh.state is Liquidity),
        event is VaultReserves ==> !(refresh.state is VaultReserves),
        event is DelayOver ==> !(refresh.state is Delay),
        event is Failed ==> refresh.state is Permit || refresh.state is Delay
            || refresh.state is Finished,
    ensures
        refresh_next(refresh, event) == (refresh, RefreshAction::Unexpected(event)),
{
}

/// Whether two AMMs are of the same kind.
pub open spec fn same_kind(a: AMM, b: AMM) -> bool {
    &&& a is UniswapV2Pool <==> b is UniswapV2Pool
    &&& a is UniswapV3Pool <==> b is UniswapV3Pool
    &&& a is ERC4626Vault <==> b is ERC4626Vault
}

/// The refresh is one of an AMM of the same kind as the given one.
spec fn is_of_kind(state: RefreshState, amm: AMM) -> bool {
    match state {
        RefreshState::Permit(held) => same_kind(held, amm),
        RefreshState::PoolReserves(_) => amm is UniswapV2Pool,
        RefreshState::TickData => amm is UniswapV3Pool,
        RefreshState::SqrtPrice(_) => amm is UniswapV3Pool,
        RefreshState::Liquidity(_) => amm is UniswapV3Pool,
        RefreshState::VaultReserves(_) => amm is ERC4626Vault,
        RefreshState::Delay(held) => same_kind(held, amm),
        RefreshState::Finished => true,
    }
}

proof fn lemma_run_keeps_kind<E>(
    amm: AMM,
    checkpoint_block: u64,
    to_block: u64,
    events: Seq<RefreshEvent<E>>,
)
    ensures
        is_of_kind(
            refresh_run(
                AmmRefresh { checkpoint_block, to_block, state: RefreshState::Permit(amm) },
                events,
            ).0.state,
            amm,
        ),
    decreases events.len(),
{
    if events.len() > 0 {
        lemma_run_keeps_kind(amm, checkpoint_block, to_block, events.drop_last());
    }
}

/// Whatever happens, an AMM that a refresh returns is of the kind that it was given.
pub proof fn law_refresh_keeps_the_kind<E>(
    amm: AMM,
    checkpoint_block: u64,
    to_block: u64,
    events: Seq<RefreshEvent<E>>,
    i: int,
    refreshed: AMM,
)
    requires
        0 <= i < events.len(),
        refresh_run(
            AmmRefresh { checkpoint_block, to_block, state: RefreshState::Permit(amm) },
            events,
        ).1[i] == RefreshAction::<E>::Return(Ok(refreshed)),
    ensures
        same_kind(refreshed, amm),
    decreases events.len(),
{
    let start = AmmRefresh { checkpoint_block, to_block, state: RefreshState::Permit(amm) };
    lemma_run_length(start, events.drop_last());
    if i < events.len() - 1 {
        law_refresh_keeps_the_kind(
            amm,
            checkpoint_block,
            to_block,
            events.drop_last(),
            i,
            refreshed,
        );
    } else {
        lemma_run_keeps_kind(amm, checkpoint_block, to_block, events.drop_last());
    }
}

proof fn lemma_run_length<E>(refresh: AmmRefresh, events: Seq<RefreshEvent<E>>)
    ensures
        refresh_run(refresh, events).1.len() == events.len(),
    decreases events.len(),
{
    if events.len() > 0 {
        lemma_run_length(refresh, events.drop_last());
    }
}

/// A pool with this address came back with its tick data filled in.
pub open spec fn came_back<E>(events: Seq<RefreshEvent<E>>, address: Address) -> bool {
    exists|pool: UniswapV3Pool|
        #[trigger] events.contains(RefreshEvent::TickData(pool)) && pool.address == address
}

/// The refresh is one of an AMM at the address of the given one or, for a Uniswap v3 pool, at
/// that of a pool that came back.
spec fn is_at_address<E>(state: RefreshState, amm: AMM, events: Seq<RefreshEvent<E>>) -> bool {
    match state {
        RefreshState::Permit(held) => held == amm,
        RefreshState::PoolReserves(pool) => {
            &&& amm is UniswapV2Pool
            &&& pool.address == amm_address(amm@)
        },
        RefreshState::TickData => amm is UniswapV3Pool,
        RefreshState::SqrtPrice(pool) => {
            &&& amm is UniswapV3Pool
            &&& came_back(events, pool.address)
        },
        RefreshState::Liquidity(pool) => {
            &&& amm is UniswapV3Pool
            &&& came_back(events, pool.address)
        },
        RefreshState::VaultReserves(vault) => {
            &&& amm is ERC4626Vault
            &&& vault.vault_token == amm_address(amm@)
        },
        RefreshState::Delay(held) => if amm is UniswapV3Pool {
            came_back(events, amm_address(held@))
        } else {
            amm_address(held@) == amm_address(amm@)
        },
        RefreshState::Finished => true,
    }
}

proof fn lemma_came_back_before<E>(
    before: Seq<RefreshEvent<E>>,
    event: RefreshEvent<E>,
    address: Address,
)
    requires
        came_back(before, address) || (event matches RefreshEvent::TickData(pool) && pool.address
            == address),
    ensures
        came_back(before.push(event), address),
{
    let events = before.push(event);
    if came_back(before, address) {
        let pool = choose|pool: UniswapV3Pool|
            #[trigger] before.contains(RefreshEvent::TickData(pool)) && pool.address == address;
        let i = before.index_of(RefreshEvent::TickData(pool));
        assert(events[i] == RefreshEvent::<E>::TickData(pool));
        assert(events.contains(RefreshEvent::TickData(pool)));
    } else {
        assert(events[before.len() as int] == event);
        assert(events.contains(event));
    }
}

proof fn lemma_run_keeps_address<E>(
    amm: AMM,
    checkpoint_block: u64,
    to_block: u64,
    events: Seq<RefreshEvent<E>>,
)
    ensures
        is_at_address(
            refresh_run(
                AmmRefresh { checkpoint_block, to_block, state: RefreshState::Permit(amm) },
                events,
            ).0.state,
            amm,
            events,
        ),
    decreases events.len(),
{
    if events.len() > 0 {
        let start = AmmRefresh { checkpoint_block, to_block, state: RefreshState::Permit(amm) };
        let before = events.drop_last();
        let event = events.last();
        lemma_run_keeps_address(amm, checkpoint_block, to_block, before);
        assert(before.push(event) =~= events);
        match refresh_run(start, before).0.state {
            RefreshState::TickData => {
                if let RefreshEvent::TickData(pool) = event {
                    lemma_came_back_before(before, event, pool.address);
                }
            },
            RefreshState::SqrtPrice(pool) => {
                lemma_came_back_before(before, event, pool.address);
            },
            RefreshState::Liquidity(pool) => {
                lemma_came_back_before(before, event, pool.address);
            },
            RefreshState::Delay(held) => {
                if amm is UniswapV3Pool {
                    lemma_came_back_before(before, event, amm_address(held@));
                }
            },
            _ => {},
        }
    }
}

/// Whatever happens, a Uniswap v2 pool or a vault that a refresh returns is at the address that
/// it had. A Uniswap v3 pool is at that of a pool that came back with its tick data.
pub proof fn law_refresh_keeps_the_address<E>(
    amm: AMM,
    checkpoint_block: u64,
    to_block: u64,
    events: Seq<RefreshEvent<E>>,
    i: int,
    refreshed: AMM,
)
    requires
        0 <= i < events.len(),
        refresh_run(
            AmmRefresh { checkpoint_block, to_block, state: RefreshState::Permit(amm) },
            events,
        ).1[i] == RefreshAction::<E>::Return(Ok(refreshed)),
    ensures
        !(amm is UniswapV3Pool) ==> amm_address(refreshed@) == amm_address(amm@),
        amm is UniswapV3Pool ==> came_back(events.take(i), amm_address(refreshed@)),
    decreases events.len(),
{
    let start = AmmRefresh { checkpoint_block, to_block, state: RefreshState::Permit(amm) };
    let before = events.drop_last();
    lemma_run_length(start, before);
    if i < before.len() {
        law_refresh_keeps_the_address(amm, checkpoint_block, to_block, before, i, refreshed);
        assert(before.take(i) =~= events.take(i));
    } else {
        lemma_run_keeps_address(amm, checkpoint_block, to_block, before);
        assert(before =~= events.take(i));
    }
}

/// A read that fails is what the refresh returns, and there is no pause behind it.
pub proof fn law_failed_read_is_returned<E>(refresh: AmmRefresh, error: E)
    requires
        !(refresh.state is Permit),
        !(refresh.state is Delay),
        !(refresh.state is Finished),
    ensures
        refresh_next(refresh, RefreshEvent::Failed(error)) == (
            AmmRefresh { state: RefreshState::Finished, ..refresh },
            RefreshAction::<E>::Return(Err(error)),
        ),
{
}

/// A refresh that is over asks for nothing more.
pub proof fn law_finished_refresh_stays_finished<E>(refresh: AmmRefresh, event: RefreshEvent<E>)
    requires
        refresh.state is Finished,
    ensures
        refresh_next(refresh, event) == (refresh, RefreshAction::Unexpected(event)),
{
}

} // verus!
