//! What a synchronisation keeps of the one before it.
//!
//! A synchronisation that reads the checkpoint that another one wrote goes on from the block
//! where that one ended, with the same factories, and every AMM of that one is among its own.
use vstd::prelude::*;

use crate::amm::factory::Factory;
use crate::amm::uniswap_v3::UniswapV3Pool;
use crate::amm::{amm_address, amm_addresses, amm_views, AMMView, AMM};
use crate::errors::{outcome_error, Outcome};
use crate::sync::checkpoint::{constructed_checkpoint, refreshes_of, CheckpointView};
use crate::sync::collect::{
    gather_amm, law_as_many_amms_are_gathered_as_tasks_end, law_every_amm_is_gathered,
    lemma_map_of_reordered,
};
use crate::sync::refresh::{
    law_refresh_keeps_the_address, refresh_run, AmmRefresh, RefreshAction, RefreshEvent,
    RefreshState,
};
use crate::sync::session::{
    lemma_push_contains, lemma_run_length, sync_next, sync_run, CheckpointSyncView,
    SyncActionView, SyncEventView, SyncStateView,
};

verus! {

/// A synchronisation at its start.
pub open spec fn sync_start(step: u64) -> CheckpointSyncView {
    CheckpointSyncView { step, state: SyncStateView::BlockNumber }
}

/// What a synchronisation was told on its way.
pub struct SyncStory {
    pub latest_block: u64,
    pub checkpoint: CheckpointView,
    pub synced: Seq<AMMView>,
    pub discovered: Seq<AMMView>,
    pub timestamp: usize,
}

impl SyncStory {
    /// The checkpoint that the synchronisation writes.
    pub open spec fn written(self) -> CheckpointView {
        constructed_checkpoint(
            self.checkpoint.factories,
            self.synced + self.discovered,
            self.latest_block,
            self.timestamp,
        )
    }

    /// It was told the latest block.
    spec fn has_block<E>(self, events: Seq<SyncEventView<E>>) -> bool {
        events.contains(SyncEventView::BlockNumber(self.latest_block))
    }

    /// It was told the checkpoint, and asked for its AMMs to be brought up to date.
    spec fn has_checkpoint<E>(
        self,
        events: Seq<SyncEventView<E>>,
        actions: Seq<SyncActionView<E>>,
    ) -> bool {
        &&& self.has_block(events)
        &&& events.contains(SyncEventView::Checkpoint(self.checkpoint))
        &&& actions.contains(
            SyncActionView::SyncAmmData {
                amms: self.checkpoint.amms,
                checkpoint_block: self.checkpoint.block_number,
                to_block: self.latest_block,
            },
        )
    }

    /// It was told the AMMs that are up to date, and asked for new ones.
    spec fn has_synced<E>(
        self,
        step: u64,
        events: Seq<SyncEventView<E>>,
        actions: Seq<SyncActionView<E>>,
    ) -> bool {
        &&& self.has_checkpoint(events, actions)
        &&& events.contains(SyncEventView::SyncedAmms(self.synced))
        &&& actions.contains(
            SyncActionView::GetNewAmms {
                factories: self.checkpoint.factories,
                from_block: self.checkpoint.block_number,
                to_block: self.latest_block,
                step,
            },
        )
    }

    /// It was told the new AMMs.
    spec fn has_discovered<E>(
        self,
        step: u64,
        events: Seq<SyncEventView<E>>,
        actions: Seq<SyncActionView<E>>,
    ) -> bool {
        &&& self.has_synced(step, events, actions)
        &&& events.contains(SyncEventView::NewAmms(self.discovered))
    }

    /// A synchronisation was told this, asked for what follows from it, and wrote what came of
    /// it.
    pub open spec fn happened<E>(
        self,
        step: u64,
        events: Seq<SyncEventView<E>>,
        actions: Seq<SyncActionView<E>>,
    ) -> bool {
        &&& events.contains(SyncEventView::BlockNumber(self.latest_block))
        &&& events.contains(SyncEventView::Checkpoint(self.checkpoint))
        &&& events.contains(SyncEventView::SyncedAmms(self.synced))
        &&& events.contains(SyncEventView::NewAmms(self.discovered))
        &&& events.contains(SyncEventView::Clock(self.timestamp))
        &&& actions.contains(
            SyncActionView::SyncAmmData {
                amms: self.checkpoint.amms,
                checkpoint_block: self.checkpoint.block_number,
                to_block: self.latest_block,
            },
        )
        &&& actions.contains(
            SyncActionView::GetNewAmms {
                factories: self.checkpoint.factories,
                from_block: self.checkpoint.block_number,
                to_block: self.latest_block,
                step,
            },
        )
        &&& actions.contains(SyncActionView::WriteCheckpoint(self.written()))
    }

    /// The story of a synchronisation as far as it has come.
    spec fn leads_to<E>(
        self,
        state: SyncStateView,
        step: u64,
        events: Seq<SyncEventView<E>>,
        actions: Seq<SyncActionView<E>>,
    ) -> bool {
        let factories = self.checkpoint.factories;
        match state {
            SyncStateView::BlockNumber => true,
            SyncStateView::Checkpoint { to_block } => {
                &&& self.has_block(events)
                &&& to_block == self.latest_block
            },
            SyncStateView::SyncedAmms { factories: held, from_block, to_block } => {
                &&& self.has_checkpoint(events, actions)
                &&& held == factories
                &&& from_block == self.checkpoint.block_number
                &&& to_block == self.latest_block
            },
            SyncStateView::NewAmms { factories: held, amms, to_block } => {
                &&& self.has_synced(step, events, actions)
                &&& held == factories
                &&& amms == self.synced
                &&& to_block == self.latest_block
            },
            SyncStateView::Clock { factories: held, amms, to_block } => {
                &&& self.has_discovered(step, events, actions)
                &&& held == factories
                &&& amms == self.synced + self.discovered
                &&& to_block == self.latest_block
            },
            SyncStateView::Written { factories: held, amms } => {
                &&& self.happened(step, events, actions)
                &&& held == factories
                &&& amms == self.synced + self.discovered
            },
            SyncStateView::Finished => true,
        }
    }
}

proof fn lemma_story<E>(step: u64, events: Seq<SyncEventView<E>>) -> (story: SyncStory)
    ensures
        story.leads_to(
            sync_run(sync_start(step), events).0.state,
            step,
            events,
            sync_run(sync_start(step), events).1,
        ),
    decreases events.len(),
{
    if events.len() == 0 {
        arbitrary()
    } else {
        let before = events.drop_last();
        let event = events.last();
        let (sync, asked) = sync_run(sync_start(step), before);
        let action = sync_next(sync, event).1;
        let story = lemma_story(step, before);
        lemma_step_kept(step, before);
        lemma_push_contains(before, event);
        lemma_push_contains(asked, action);
        assert(before.push(event) =~= events);
        assert(events.contains(event));
        assert(asked.push(action).contains(action));
        match (sync.state, event) {
            (SyncStateView::BlockNumber, SyncEventView::BlockNumber(latest_block)) => {
                SyncStory { latest_block, ..story }
            },
            (SyncStateView::Checkpoint { .. }, SyncEventView::Checkpoint(checkpoint)) => {
                SyncStory { checkpoint, ..story }
            },
            (SyncStateView::SyncedAmms { .. }, SyncEventView::SyncedAmms(synced)) => {
                SyncStory { synced, ..story }
            },
            (SyncStateView::NewAmms { .. }, SyncEventView::NewAmms(discovered)) => {
                SyncStory { discovered, ..story }
            },
            (SyncStateView::Clock { .. }, SyncEventView::Clock(timestamp)) => {
                SyncStory { timestamp, ..story }
            },
            _ => story,
        }
    }
}

proof fn lemma_step_kept<E>(step: u64, events: Seq<SyncEventView<E>>)
    ensures
        sync_run(sync_start(step), events).0.step == step,
    decreases events.len(),
{
    if events.len() > 0 {
        lemma_step_kept(step, events.drop_last());
    }
}

/// What a synchronisation returns are the factories of a checkpoint that it was told, and the
/// AMMs that it was told were brought up to date, followed by those that were discovered. It
/// asked for the AMMs of that checkpoint to be brought up to the latest block and for new ones
/// since the block of the checkpoint, and it wrote what it returns as a checkpoint of the
/// latest block.
pub proof fn law_returned_sync_was_told_and_written<E>(
    step: u64,
    events: Seq<SyncEventView<E>>,
    i: int,
    factories: Seq<Factory>,
    amms: Seq<AMMView>,
)
    requires
        0 <= i < events.len(),
        sync_run(sync_start(step), events).1[i] == SyncActionView::<E>::Return(
            Ok((factories, amms)),
        ),
    ensures
        exists|story: SyncStory|
            #[trigger] story.happened(step, events, sync_run(sync_start(step), events).1)
                && story.checkpoint.factories == factories && story.synced + story.discovered
                == amms,
    decreases events.len(),
{
    let before = events.drop_last();
    let asked = sync_run(sync_start(step), before).1;
    let actions = sync_run(sync_start(step), events).1;
    lemma_run_length(sync_start(step), before);
    lemma_push_contains(before, events.last());
    lemma_push_contains(asked, actions.last());
    assert(before.push(events.last()) =~= events);
    assert(asked.push(actions.last()) =~= actions);
    let story = if i < before.len() {
        law_returned_sync_was_told_and_written(step, before, i, factories, amms);
        choose|story: SyncStory|
            #[trigger] story.happened(step, before, asked) && story.checkpoint.factories
                == factories && story.synced + story.discovered == amms
    } else {
        lemma_story(step, before)
    };
    assert(story.happened(step, before, asked));
    assert(story.happened(step, events, actions));
}

proof fn lemma_written_is_over<E>(step: u64, events: Seq<SyncEventView<E>>, i: int)
    requires
        0 <= i < events.len(),
        sync_run(sync_start(step), events).1[i] is WriteCheckpoint,
    ensures
        sync_run(sync_start(step), events).0.state is Written || sync_run(
            sync_start(step),
            events,
        ).0.state is Finished,
    decreases events.len(),
{
    let before = events.drop_last();
    lemma_run_length(sync_start(step), before);
    if i < before.len() {
        lemma_written_is_over(step, before, i);
    }
}

/// A synchronisation writes no more than one checkpoint.
pub proof fn law_one_checkpoint_is_written<E>(
    step: u64,
    events: Seq<SyncEventView<E>>,
    i: int,
    j: int,
)
    requires
        0 <= i < events.len(),
        0 <= j < events.len(),
        sync_run(sync_start(step), events).1[i] is WriteCheckpoint,
        sync_run(sync_start(step), events).1[j] is WriteCheckpoint,
    ensures
        i == j,
    decreases events.len(),
{
    let before = events.drop_last();
    lemma_run_length(sync_start(step), before);
    if i < before.len() && j < before.len() {
        law_one_checkpoint_is_written(step, before, i, j);
    } else if i < before.len() {
        lemma_written_is_over(step, before, i);
    } else if j < before.len() {
        lemma_written_is_over(step, before, j);
    }
}

/// A pool that is handed out to have its tick data filled in comes back at its own address.
pub open spec fn ticks_keep_the_address<E>(
    refresh: AmmRefresh,
    events: Seq<RefreshEvent<E>>,
) -> bool {
    forall|pool: UniswapV3Pool|
        #![trigger events.contains(RefreshEvent::TickData(pool))]
        events.contains(RefreshEvent::TickData(pool)) ==> (refresh.state matches
            RefreshState::Permit(AMM::UniswapV3Pool(held)) ==> pool.address == held.address)
}

/// A refresh that takes in these events returns an AMM behind one of them.
pub open spec fn refresh_returns<E>(
    refresh: AmmRefresh,
    events: Seq<RefreshEvent<E>>,
    i: int,
    amm: AMM,
) -> bool {
    &&& 0 <= i < events.len()
    &&& refresh_run(refresh, events).1[i] == RefreshAction::<E>::Return(Ok(amm))
    &&& ticks_keep_the_address(refresh, events)
}

/// The outcome is one that the task of a refresh can have: an AMM in it was returned by the
/// refresh.
pub open spec fn can_end_in<E, J>(refresh: AmmRefresh, outcome: Outcome<AMM, E, J>) -> bool {
    outcome matches Ok(Ok(amm)) ==> exists|events: Seq<RefreshEvent<E>>, i: int|
        #[trigger] refresh_returns(refresh, events, i, amm)
}

/// The outcomes are those of the tasks of refreshes, one for each, in the order of the
/// refreshes.
pub open spec fn tasks_end_in<E, J>(
    refreshes: Seq<AmmRefresh>,
    outcomes: Seq<Outcome<AMM, E, J>>,
) -> bool {
    &&& outcomes.len() == refreshes.len()
    &&& forall|i: int|
        0 <= i < refreshes.len() ==> can_end_in(#[trigger] refreshes[i], outcomes[i])
}

/// When the AMMs of a checkpoint are brought up to date and no task comes to a bad end, as many
/// AMMs come out as went in, and at the same addresses, whatever the order in which the tasks
/// end.
pub proof fn law_no_amm_is_lost_on_the_way<E, J>(
    amms: Seq<AMM>,
    checkpoint_block: u64,
    to_block: u64,
    outcomes: Seq<Outcome<AMM, E, J>>,
    ended: Seq<Outcome<AMM, E, J>>,
)
    requires
        tasks_end_in(refreshes_of(amms, checkpoint_block, to_block), outcomes),
        ended.to_multiset() == outcomes.to_multiset(),
        gather_amm(ended) is Ok,
    ensures
        (gather_amm(ended)->Ok_0).len() == amms.len(),
        amm_addresses(amm_views(gather_amm(ended)->Ok_0)).to_multiset() == amm_addresses(
            amm_views(amms),
        ).to_multiset(),
{
    broadcast use vstd::seq_lib::group_to_multiset_ensures;

    let refreshes = refreshes_of(amms, checkpoint_block, to_block);
    let gathered = gather_amm(ended)->Ok_0;
    let f = |outcome: Outcome<AMM, E, J>| outcome->Ok_0->Ok_0;
    let g = |amm: AMM| amm_address(amm@);
    law_as_many_amms_are_gathered_as_tasks_end(ended);
    law_every_amm_is_gathered(ended);
    assert(ended.len() == ended.to_multiset().len() == outcomes.to_multiset().len()
        == outcomes.len());
    assert forall|i: int| 0 <= i < amms.len() implies #[trigger] g(f(outcomes[i])) == g(
        amms[i],
    ) by {
        let outcome = outcomes[i];
        assert(outcomes.contains(outcome));
        assert(outcomes.to_multiset().count(outcome) > 0);
        assert(ended.contains(outcome));
        let k = ended.index_of(outcome);
        assert(outcome_error(ended[k]) is None);
        let refreshed = f(outcome);
        let refresh = refreshes[i];
        assert(can_end_in(refresh, outcome));
        let (events, n) = choose|events: Seq<RefreshEvent<E>>, n: int|
            #[trigger] refresh_returns(refresh, events, n, refreshed);
        lemma_returned_at_its_address(
            amms[i],
            checkpoint_block,
            to_block,
            events,
            n,
            refreshed,
        );
    }
    lemma_map_of_reordered(ended, outcomes, f);
    lemma_map_of_reordered(ended.map_values(f), outcomes.map_values(f), g);
    assert(outcomes.map_values(f).map_values(g) =~= amms.map_values(g));
    assert(amm_addresses(amm_views(gathered)) =~= gathered.map_values(g));
    assert(amm_addresses(amm_views(amms)) =~= amms.map_values(g));
}

proof fn lemma_returned_at_its_address<E>(
    amm: AMM,
    checkpoint_block: u64,
    to_block: u64,
    events: Seq<RefreshEvent<E>>,
    i: int,
    refreshed: AMM,
)
    requires
        refresh_returns(
            AmmRefresh { checkpoint_block, to_block, state: RefreshState::Permit(amm) },
            events,
            i,
            refreshed,
        ),
    ensures
        amm_address(refreshed@) == amm_address(amm@),
{
    law_refresh_keeps_the_address(amm, checkpoint_block, to_block, events, i, refreshed);
    if amm is UniswapV3Pool {
        let address = amm_address(refreshed@);
        let pool = choose|pool: UniswapV3Pool|
            #[trigger] events.take(i).contains(RefreshEvent::TickData(pool)) && pool.address
                == address;
        let k = events.take(i).index_of(RefreshEvent::TickData(pool));
        assert(events[k] == RefreshEvent::<E>::TickData(pool));
        assert(events.contains(RefreshEvent::TickData(pool)));
    }
}

/// A synchronisation that reads what the one before it wrote goes on where that one ended. It
/// returns the same factories. It brings up to date exactly the AMMs that the first one
/// returned, from the block that they were brought up to to a block that it was told is the
/// latest, and looks for new ones between these blocks. Every AMM of the first one is at its
/// address among those that the second one returns, which are at least as many.
///
/// `amms`, `outcomes` and `ended` are how the second one's AMMs are brought up to date: the
/// AMMs that are handed out, how the tasks of their refreshes end, and the same in the order
/// in which they end.
pub proof fn law_next_sync_keeps_every_amm<E, J>(
    first_step: u64,
    first: Seq<SyncEventView<E>>,
    first_end: int,
    first_factories: Seq<Factory>,
    first_amms: Seq<AMMView>,
    written: CheckpointView,
    second_step: u64,
    second: Seq<SyncEventView<E>>,
    second_end: int,
    second_factories: Seq<Factory>,
    second_amms: Seq<AMMView>,
    amms: Seq<AMM>,
    outcomes: Seq<Outcome<AMM, E, J>>,
    ended: Seq<Outcome<AMM, E, J>>,
)
    requires
        0 <= first_end < first.len(),
        sync_run(sync_start(first_step), first).1[first_end] == SyncActionView::<E>::Return(
            Ok((first_factories, first_amms)),
        ),
        sync_run(sync_start(first_step), first).1.contains(
            SyncActionView::WriteCheckpoint(written),
        ),
        0 <= second_end < second.len(),
        sync_run(sync_start(second_step), second).1[second_end] == SyncActionView::<E>::Return(
            Ok((second_factories, second_amms)),
        ),
        forall|checkpoint: CheckpointView| #[trigger]
            second.contains(SyncEventView::Checkpoint(checkpoint)) ==> checkpoint == written,
        forall|asked: Seq<AMMView>, checkpoint_block: u64, to_block: u64| #[trigger]
            sync_run(sync_start(second_step), second).1.contains(
                SyncActionView::SyncAmmData { amms: asked, checkpoint_block, to_block },
            ) ==> {
                &&& amm_views(amms) == asked
                &&& tasks_end_in(refreshes_of(amms, checkpoint_block, to_block), outcomes)
            },
        ended.to_multiset() == outcomes.to_multiset(),
        forall|synced: Seq<AMMView>| #[trigger]
            second.contains(SyncEventView::SyncedAmms(synced)) ==> {
                &&& gather_amm(ended) is Ok
                &&& synced == amm_views(gather_amm(ended)->Ok_0)
            },
    ensures
        first.contains(SyncEventView::BlockNumber(written.block_number)),
        second_factories == first_factories,
        exists|latest_block: u64| #[trigger]
            second.contains(SyncEventView::BlockNumber(latest_block)) && sync_run(
                sync_start(second_step),
                second,
            ).1.contains(
                SyncActionView::SyncAmmData {
                    amms: first_amms,
                    checkpoint_block: written.block_number,
                    to_block: latest_block,
                },
            ) && sync_run(sync_start(second_step), second).1.contains(
                SyncActionView::GetNewAmms {
                    factories: first_factories,
                    from_block: written.block_number,
                    to_block: latest_block,
                    step: second_step,
                },
            ),
        second_amms.len() >= first_amms.len(),
        amm_addresses(second_amms.take(first_amms.len() as int)).to_multiset() == amm_addresses(
            first_amms,
        ).to_multiset(),
        forall|i: int|
            0 <= i < first_amms.len() ==> amm_addresses(second_amms).contains(
                amm_address(#[trigger] first_amms[i]),
            ),
{
    broadcast use vstd::seq_lib::group_to_multiset_ensures;

    let first_actions = sync_run(sync_start(first_step), first).1;
    let second_actions = sync_run(sync_start(second_step), second).1;
    law_returned_sync_was_told_and_written(
        first_step,
        first,
        first_end,
        first_factories,
        first_amms,
    );
    let one = choose|story: SyncStory|
        #[trigger] story.happened(first_step, first, first_actions) && story.checkpoint.factories
            == first_factories && story.synced + story.discovered == first_amms;
    lemma_run_length(sync_start(first_step), first);
    law_one_checkpoint_is_written(
        first_step,
        first,
        first_actions.index_of(SyncActionView::WriteCheckpoint(one.written())),
        first_actions.index_of(SyncActionView::WriteCheckpoint(written)),
    );
    assert(one.written() == written);
    law_returned_sync_was_told_and_written(
        second_step,
        second,
        second_end,
        second_factories,
        second_amms,
    );
    let two = choose|story: SyncStory|
        #[trigger] story.happened(second_step, second, second_actions)
            && story.checkpoint.factories == second_factories && story.synced + story.discovered
            == second_amms;
    assert(two.checkpoint == written);
    assert(second.contains(SyncEventView::BlockNumber(two.latest_block)));
    law_no_amm_is_lost_on_the_way(
        amms,
        written.block_number,
        two.latest_block,
        outcomes,
        ended,
    );
    assert(amm_views(amms) == first_amms);
    assert(second_amms.take(first_amms.len() as int) =~= two.synced);
    assert forall|i: int| 0 <= i < first_amms.len() implies amm_addresses(second_amms).contains(
        amm_address(#[trigger] first_amms[i]),
    ) by {
        let address = amm_address(first_amms[i]);
        assert(amm_addresses(first_amms)[i] == address);
        assert(amm_addresses(first_amms).contains(address));
        assert(amm_addresses(first_amms).to_multiset().count(address) > 0);
        assert(amm_addresses(two.synced).contains(address));
        let k = amm_addresses(two.synced).index_of(address);
        assert(amm_addresses(second_amms)[k] == address);
    }
}

} // verus!
