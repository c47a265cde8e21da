//! Bringing a checkpoint up to date.
//!
//! A [`CheckpointSync`] names what to do next and takes in how it went: the latest block is
//! read, then the checkpoint; the AMMs of the checkpoint are brought up to that block, then
//! those created since the checkpoint are discovered; all of them are written as a new
//! checkpoint, and returned. Whatever fails ends the synchronisation.
use vstd::prelude::*;

use crate::amm::factory::Factory;
use crate::amm::{amm_views, AMMView, AMM};
use crate::lists::copied;
use crate::sync::checkpoint::{
    construct_checkpoint, constructed_checkpoint, Checkpoint, CheckpointView,
};

verus! {

/// What a synchronisation waits for.
#[derive(Debug)]
pub enum SyncState {
    /// The number of the latest block.
    BlockNumber,
    /// The checkpoint.
    Checkpoint { to_block: u64 },
    /// The AMMs of the checkpoint, brought up to date.
    SyncedAmms { factories: Vec<Factory>, from_block: u64, to_block: u64 },
    /// The AMMs that were created since the checkpoint.
    NewAmms { factories: Vec<Factory>, amms: Vec<AMM>, to_block: u64 },
    /// The time.
    Clock { factories: Vec<Factory>, amms: Vec<AMM>, to_block: u64 },
    /// The new checkpoint to be written.
    Written { factories: Vec<Factory>, amms: Vec<AMM> },
    /// Nothing more.
    Finished,
}

/// The synchronisation of a checkpoint.
#[derive(Debug)]
pub struct CheckpointSync {
    /// How many blocks one request for logs covers.
    pub step: u64,
    pub state: SyncState,
}

/// How the last thing that a synchronisation asked for went.
#[derive(Debug)]
pub enum SyncEvent<E> {
    BlockNumber(u64),
    Checkpoint(Checkpoint),
    SyncedAmms(Vec<AMM>),
    NewAmms(Vec<AMM>),
    /// The time, in seconds of Unix time.
    Clock(usize),
    Written,
    Failed(E),
}

/// What a synchronisation asks for.
#[derive(Debug)]
pub enum SyncAction<E> {
    /// Read the number of the latest block.
    GetBlockNumber,
    /// Read the checkpoint.
    ReadCheckpoint,
    /// Bring AMMs that were up to date as of one block up to another.
    SyncAmmData { amms: Vec<AMM>, checkpoint_block: u64, to_block: u64 },
    /// Discover the AMMs that factories created in a range of blocks.
    GetNewAmms { factories: Vec<Factory>, from_block: u64, to_block: u64, step: u64 },
    /// Read the time.
    ReadClock,
    /// Write a checkpoint in place of the one that was read.
    WriteCheckpoint(Checkpoint),
    /// The synchronisation is over.
    Return(Result<(Vec<Factory>, Vec<AMM>), E>),
    /// The event does not answer what was asked for; it changed nothing.
    Unexpected(SyncEvent<E>),
}

/// What a [`SyncState`] holds.
pub enum SyncStateView {
    BlockNumber,
    Checkpoint { to_block: u64 },
    SyncedAmms { factories: Seq<Factory>, from_block: u64, to_block: u64 },
    NewAmms { factories: Seq<Factory>, amms: Seq<AMMView>, to_block: u64 },
    Clock { factories: Seq<Factory>, amms: Seq<AMMView>, to_block: u64 },
    Written { factories: Seq<Factory>, amms: Seq<AMMView> },
    Finished,
}

/// What a [`CheckpointSync`] holds.
pub struct CheckpointSyncView {
    pub step: u64,
    pub state: SyncStateView,
}

/// What a [`SyncEvent`] holds.
pub enum SyncEventView<E> {
    BlockNumber(u64),
    Checkpoint(CheckpointView),
    SyncedAmms(Seq<AMMView>),
    NewAmms(Seq<AMMView>),
    Clock(usize),
    Written,
    Failed(E),
}

/// What a [`SyncAction`] holds.
pub enum SyncActionView<E> {
    GetBlockNumber,
    ReadCheckpoint,
    SyncAmmData { amms: Seq<AMMView>, checkpoint_block: u64, to_block: u64 },
    GetNewAmms { factories: Seq<Factory>, from_block: u64, to_block: u64, step: u64 },
    ReadClock,
    WriteCheckpoint(CheckpointView),
    Return(Result<(Seq<Factory>, Seq<AMMView>), E>),
    Unexpected(SyncEventView<E>),
}

impl View for SyncState {
    type V = SyncStateView;

    open spec fn view(&self) -> SyncStateView {
        match *self {
            SyncState::BlockNumber => SyncStateView::BlockNumber,
            SyncState::Checkpoint { to_block } => SyncStateView::Checkpoint { to_block },
            SyncState::SyncedAmms { factories, from_block, to_block } => {
                SyncStateView::SyncedAmms { factories: factories@, from_block, to_block }
            },
            SyncState::NewAmms { factories, amms, to_block } => {
                SyncStateView::NewAmms {
                    factories: factories@,
                    amms: amm_views(amms@),
                    to_block,
                }
            },
            SyncState::Clock { factories, amms, to_block } => {
                SyncStateView::Clock { factories: factories@, amms: amm_views(amms@), to_block }
            },
            SyncState::Written { factories, amms } => {
                SyncStateView::Written { factories: factories@, amms: amm_views(amms@) }
            },
            SyncState::Finished => SyncStateView::Finished,
        }
    }
}

impl View for CheckpointSync {
    type V = CheckpointSyncView;

    open spec fn view(&self) -> CheckpointSyncView {
        CheckpointSyncView { step: self.step, state: self.state@ }
    }
}

impl<E> View for SyncEvent<E> {
    type V = SyncEventView<E>;

    open spec fn view(&self) -> SyncEventView<E> {
        match *self {
            SyncEvent::BlockNumber(number) => SyncEventView::BlockNumber(number),
            SyncEvent::Checkpoint(checkpoint) => SyncEventView::Checkpoint(checkpoint@),
            SyncEvent::SyncedAmms(amms) => SyncEventView::SyncedAmms(amm_views(amms@)),
            SyncEvent::NewAmms(amms) => SyncEventView::NewAmms(amm_views(amms@)),
            SyncEvent::Clock(timestamp) => SyncEventView::Clock(timestamp),
            SyncEvent::Written => SyncEventView::Written,
            SyncEvent::Failed(error) => SyncEventView::Failed(error),
        }
    }
}

impl<E> View for SyncAction<E> {
    type V = SyncActionView<E>;

    open spec fn view(&self) -> SyncActionView<E> {
        match *self {
            SyncAction::GetBlockNumber => SyncActionView::GetBlockNumber,
            SyncAction::ReadCheckpoint => SyncActionView::ReadCheckpoint,
            SyncAction::SyncAmmData { amms, checkpoint_block, to_block } => {
                SyncActionView::SyncAmmData { amms: amm_views(amms@), checkpoint_block, to_block }
            },
            SyncAction::GetNewAmms { factories, from_block, to_block, step } => {
                SyncActionView::GetNewAmms { factories: factories@, from_block, to_block, step }
            },
            SyncAction::ReadClock => SyncActionView::ReadClock,
            SyncAction::WriteCheckpoint(checkpoint) => {
                SyncActionView::WriteCheckpoint(checkpoint@)
            },
            SyncAction::Return(Ok((factories, amms))) => {
                SyncActionView::Return(Ok((factories@, amm_views(amms@))))
            },
            SyncAction::Return(Err(error)) => SyncActionView::Return(Err(error)),
            SyncAction::Unexpected(event) => SyncActionView::Unexpected(event@),
        }
    }
}

/// What a synchronisation waits for after an event, and what it asks for.
pub open spec fn sync_next<E>(sync: CheckpointSyncView, event: SyncEventView<E>) -> (
    CheckpointSyncView,
    SyncActionView<E>,
) {
    let step = sync.step;
    match (sync.state, event) {
        (SyncStateView::BlockNumber, SyncEventView::BlockNumber(to_block)) => (
            CheckpointSyncView { step, state: SyncStateView::Checkpoint { to_block } },
            SyncActionView::ReadCheckpoint,
        ),
        (SyncStateView::Checkpoint { to_block }, SyncEventView::Checkpoint(checkpoint)) => (
            CheckpointSyncView {
                step,
                state: SyncStateView::SyncedAmms {
                    factories: checkpoint.factories,
                    from_block: checkpoint.block_number,
                    to_block,
                },
            },
            SyncActionView::SyncAmmData {
                amms: checkpoint.amms,
                checkpoint_block: checkpoint.block_number,
                to_block,
            },
        ),
        (
            SyncStateView::SyncedAmms { factories, from_block, to_block },
            SyncEventView::SyncedAmms(amms),
        ) => (
            CheckpointSyncView {
                step,
                state: SyncStateView::NewAmms { factories, amms, to_block },
            },
            SyncActionView::GetNewAmms { factories, from_block, to_block, step },
        ),
        (
            SyncStateView::NewAmms { factories, amms, to_block },
            SyncEventView::NewAmms(new_amms),
        ) => (
            CheckpointSyncView {
                step,
                state: SyncStateView::Clock { factories, amms: amms + new_amms, to_block },
            },
            SyncActionView::ReadClock,
        ),
        (SyncStateView::Clock { factories, amms, to_block }, SyncEventView::Clock(timestamp)) => (
            CheckpointSyncView { step, state: SyncStateView::Written { factories, amms } },
            SyncActionView::WriteCheckpoint(
                constructed_checkpoint(factories, amms, to_block, timestamp),
            ),
        ),
        (SyncStateView::Written { factories, amms }, SyncEventView::Written) => (
            CheckpointSyncView { step, state: SyncStateView::Finished },
            SyncActionView::Return(Ok((factories, amms))),
        ),
        (state, SyncEventView::Failed(error)) => if state is Finished {
            (sync, SyncActionView::Unexpected(event))
        } else {
            (
                CheckpointSyncView { step, state: SyncStateView::Finished },
                SyncActionView::Return(Err(error)),
            )
        },
        _ => (sync, SyncActionView::Unexpected(event)),
    }
}

impl CheckpointSync {
    /// A synchronisation that waits for the number of the latest block.
    pub(crate) fn new(step: u64) -> (r: CheckpointSync)
        ensures
            r@ == (CheckpointSyncView { step, state: SyncStateView::BlockNumber }),
    {
        CheckpointSync { step, state: SyncState::BlockNumber }
    }

    /// What the synchronisation asks for first.
    pub fn first<E>(&self) -> (r: SyncAction<E>)
        ensures
            r@ == SyncActionView::<E>::GetBlockNumber,
    {
        SyncAction::GetBlockNumber
    }

    /// Takes in an event, and says what to do next.
    pub fn next<E>(self, event: SyncEvent<E>) -> (r: (CheckpointSync, SyncAction<E>))
        ensures
            (r.0@, r.1@) == sync_next(self@, event@),
    {
        let step: u64 = self.step;
        let (state, action) = match (self.state, event) {
            (SyncState::BlockNumber, SyncEvent::BlockNumber(to_block)) => (
                SyncState::Checkpoint { to_block },
                SyncAction::ReadCheckpoint,
            ),
            (SyncState::Checkpoint { to_block }, SyncEvent::Checkpoint(checkpoint)) => (
                SyncState::SyncedAmms {
                    factories: checkpoint.factories,
                    from_block: checkpoint.block_number,
                    to_block,
                },
                SyncAction::SyncAmmData {
                    amms: checkpoint.amms,
                    checkpoint_block: checkpoint.block_number,
                    to_block,
                },
            ),
            (
                SyncState::SyncedAmms { factories, from_block, to_block },
                SyncEvent::SyncedAmms(amms),
            ) => {
                let scanned = copied(factories.as_slice());
                (
                    SyncState::NewAmms { factories, amms, to_block },
                    SyncAction::GetNewAmms { factories: scanned, from_block, to_block, step },
                )
            },
            (SyncState::NewAmms { factories, amms, to_block }, SyncEvent::NewAmms(new_amms)) => {
                let ghost before = amms@;
                let ghost more = new_amms@;
                let mut amms = amms;
                let mut new_amms = new_amms;
                amms.append(&mut new_amms);
                assert(amm_views(amms@) =~= amm_views(before) + amm_views(more));
                (SyncState::Clock { factories, amms, to_block }, SyncAction::ReadClock)
            },
            (SyncState::Clock { factories, amms, to_block }, SyncEvent::Clock(timestamp)) => {
                let checkpoint = construct_checkpoint(
                    copied(factories.as_slice()),
                    amms.as_slice(),
                    to_block,
                    timestamp,
                );
                (
                    SyncState::Written { factories, amms },
                    SyncAction::WriteCheckpoint(checkpoint),
                )
            },
            (SyncState::Written { factories, amms }, SyncEvent::Written) => (
                SyncState::Finished,
                SyncAction::Return(Ok((factories, amms))),
            ),
            (SyncState::Finished, event) => (SyncState::Finished, SyncAction::Unexpected(event)),
            (_, SyncEvent::Failed(error)) => (SyncState::Finished, SyncAction::Return(Err(error))),
            (state, event) => (state, SyncAction::Unexpected(event)),
        };
        (CheckpointSync { step, state }, action)
    }
}

/// A synchronisation after a run of events, and what it asked for behind each of them.
pub open spec fn sync_run<E>(sync: CheckpointSyncView, events: Seq<SyncEventView<E>>) -> (
    CheckpointSyncView,
    Seq<SyncActionView<E>>,
)
    decreases events.len(),
{
    if events.len() == 0 {
        (sync, Seq::empty())
    } else {
        let (before, actions) = sync_run(sync, events.drop_last());
        let (after, action) = sync_next(before, events.last());
        (after, actions.push(action))
    }
}

proof fn lemma_run_one_more<E>(
    sync: CheckpointSyncView,
    events: Seq<SyncEventView<E>>,
    event: SyncEventView<E>,
)
    ensures
        sync_run(sync, events.push(event)).0 == sync_next(sync_run(sync, events).0, event).0,
        sync_run(sync, events.push(event)).1 == sync_run(sync, events).1.push(
            sync_next(sync_run(sync, events).0, event).1,
        ),
{
    assert(events.push(event).drop_last() =~= events);
}

pub(crate) proof fn lemma_run_length<E>(sync: CheckpointSyncView, events: Seq<SyncEventView<E>>)
    ensures
        sync_run(sync, events).1.len() == events.len(),
    decreases events.len(),
{
    if events.len() > 0 {
        lemma_run_length(sync, events.drop_last());
    }
}

/// When nothing fails, the AMMs of the checkpoint are brought from its block to the latest
/// one, the AMMs that its factories created between these blocks are discovered, and the
/// former, followed by the latter, are written as a checkpoint of the latest block and
/// returned together with the factories.
pub proof fn law_sync_without_failure<E>(
    step: u64,
    latest_block: u64,
    checkpoint: CheckpointView,
    synced: Seq<AMMView>,
    discovered: Seq<AMMView>,
    timestamp: usize,
)
    ensures
        sync_run::<E>(
            CheckpointSyncView { step, state: SyncStateView::BlockNumber },
            seq![
                SyncEventView::BlockNumber(latest_block),
                SyncEventView::Checkpoint(checkpoint),
                SyncEventView::SyncedAmms(synced),
                SyncEventView::NewAmms(discovered),
                SyncEventView::Clock(timestamp),
                SyncEventView::Written,
            ],
        ).1 == seq![
            SyncActionView::<E>::ReadCheckpoint,
            SyncActionView::SyncAmmData {
                amms: checkpoint.amms,
                checkpoint_block: checkpoint.block_number,
                to_block: latest_block,
            },
            SyncActionView::GetNewAmms {
                factories: checkpoint.factories,
                from_block: checkpoint.block_number,
                to_block: latest_block,
                step,
            },
            SyncActionView::ReadClock,
            SyncActionView::WriteCheckpoint(
                CheckpointView {
                    timestamp,
                    block_number: latest_block,
                    factories: checkpoint.factories,
                    amms: synced + discovered,
                },
            ),
            SyncActionView::Return(Ok((checkpoint.factories, synced + discovered))),
        ],
{
    let start = CheckpointSyncView { step, state: SyncStateView::BlockNumber };
    let none = Seq::<SyncEventView<E>>::empty();
    let one = none.push(SyncEventView::BlockNumber(latest_block));
    let two = one.push(SyncEventView::Checkpoint(checkpoint));
    let three = two.push(SyncEventView::SyncedAmms(synced));
    let four = three.push(SyncEventView::NewAmms(discovered));
    let five = four.push(SyncEventView::Clock(timestamp));
    lemma_run_one_more(start, none, SyncEventView::BlockNumber(latest_block));
    lemma_run_one_more(start, one, SyncEventView::Checkpoint(checkpoint));
    lemma_run_one_more(start, two, SyncEventView::SyncedAmms(synced));
    lemma_run_one_more(start, three, SyncEventView::NewAmms(discovered));
    lemma_run_one_more(start, four, SyncEventView::Clock(timestamp));
    lemma_run_one_more(start, five, SyncEventView::Written);
    assert(seq![
        SyncEventView::<E>::BlockNumber(latest_block),
        SyncEventView::Checkpoint(checkpoint),
        SyncEventView::SyncedAmms(synced),
        SyncEventView::NewAmms(discovered),
        SyncEventView::Clock(timestamp),
        SyncEventView::Written,
    ] =~= five.push(SyncEventView::Written));
}

/// Step by step, a synchronisation that has been told the latest block reads the checkpoint,
/// has its AMMs brought from its block to the latest one, has the AMMs discovered that its
/// factories created between these blocks, reads the clock, writes the former AMMs followed by
/// the latter as a checkpoint of the latest block, and returns them with the factories.
pub proof fn law_steps_of_a_sync<E>(
    step: u64,
    latest_block: u64,
    checkpoint: CheckpointView,
    synced: Seq<AMMView>,
    discovered: Seq<AMMView>,
    timestamp: usize,
)
    ensures
        ({
            let factories = checkpoint.factories;
            let from_block = checkpoint.block_number;
            let amms = synced + discovered;
            let start = CheckpointSyncView { step, state: SyncStateView::BlockNumber };
            let (s1, a1) = sync_next(start, SyncEventView::<E>::BlockNumber(latest_block));
            let (s2, a2) = sync_next(s1, SyncEventView::<E>::Checkpoint(checkpoint));
            let (s3, a3) = sync_next(s2, SyncEventView::<E>::SyncedAmms(synced));
            let (s4, a4) = sync_next(s3, SyncEventView::<E>::NewAmms(discovered));
            let (s5, a5) = sync_next(s4, SyncEventView::<E>::Clock(timestamp));
            let (s6, a6) = sync_next(s5, SyncEventView::<E>::Written);
            &&& a1 == SyncActionView::<E>::ReadCheckpoint
            &&& a2 == (SyncActionView::<E>::SyncAmmData {
                amms: checkpoint.amms,
                checkpoint_block: from_block,
                to_block: latest_block,
            })
            &&& a3 == (SyncActionView::<E>::GetNewAmms {
                factories,
                from_block,
                to_block: latest_block,
                step,
            })
            &&& a4 == SyncActionView::<E>::ReadClock
            &&& a5 == SyncActionView::<E>::WriteCheckpoint(
                CheckpointView { timestamp, block_number: latest_block, factories, amms },
            )
            &&& a6 == SyncActionView::<E>::Return(Ok((factories, amms)))
            &&& s1.state == (SyncStateView::Checkpoint { to_block: latest_block })
            &&& s2.state == (SyncStateView::SyncedAmms {
                factories,
                from_block,
                to_block: latest_block,
            })
            &&& s3.state == (SyncStateView::NewAmms {
                factories,
                amms: synced,
                to_block: latest_block,
            })
            &&& s4.state == (SyncStateView::Clock { factories, amms, to_block: latest_block })
            &&& s5.state == (SyncStateView::Written { factories, amms })
            &&& s6.state is Finished
            &&& s1.step == step && s2.step == step && s3.step == step
            &&& s4.step == step && s5.step == step && s6.step == step
        }),
{
}

/// From wherever it stands, a synchronisation goes on with what it holds: the event that it
/// waits for is answered by what follows from it and from the factories, AMMs and blocks held.
pub proof fn law_sync_goes_on_with_what_it_holds<E>(
    step: u64,
    factories: Seq<Factory>,
    amms: Seq<AMMView>,
    from_block: u64,
    to_block: u64,
    told: Seq<AMMView>,
    timestamp: usize,
)
    ensures
        sync_next(
            CheckpointSyncView {
                step,
                state: SyncStateView::SyncedAmms { factories, from_block, to_block },
            },
            SyncEventView::<E>::SyncedAmms(told),
        ) == (
            CheckpointSyncView {
                step,
                state: SyncStateView::NewAmms { factories, amms: told, to_block },
            },
            SyncActionView::<E>::GetNewAmms { factories, from_block, to_block, step },
        ),
        sync_next(
            CheckpointSyncView {
                step,
                state: SyncStateView::NewAmms { factories, amms, to_block },
            },
            SyncEventView::<E>::NewAmms(told),
        ) == (
            CheckpointSyncView {
                step,
                state: SyncStateView::Clock { factories, amms: amms + told, to_block },
            },
            SyncActionView::<E>::ReadClock,
        ),
        sync_next(
            CheckpointSyncView {
                step,
                state: SyncStateView::Clock { factories, amms, to_block },
            },
            SyncEventView::<E>::Clock(timestamp),
        ) == (
            CheckpointSyncView { step, state: SyncStateView::Written { factories, amms } },
            SyncActionView::<E>::WriteCheckpoint(
                CheckpointView { timestamp, block_number: to_block, factories, amms },
            ),
        ),
        sync_next(
            CheckpointSyncView { step, state: SyncStateView::Written { factories, amms } },
            SyncEventView::<E>::Written,
        ) == (
            CheckpointSyncView { step, state: SyncStateView::Finished },
            SyncActionView::<E>::Return(Ok((factories, amms))),
        ),
{
}

/// An event that does not answer what a synchronisation asked for changes nothing and is handed
/// back.
pub proof fn law_stray_event_leaves_a_sync_as_it_is<E>(
    sync: CheckpointSyncView,
    event: SyncEventView<E>,
)
    requires
        event is BlockNumber ==> !(sync.state is BlockNumber),
        event is Checkpoint ==> !(sync.state is Checkpoint),
        event is SyncedAmms ==> !(sync.state is SyncedAmms),
        event is NewAmms ==> !(sync.state is NewAmms),
        event is Clock ==> !(sync.state is Clock),
        event is Written ==> !(sync.state is Written),
        event is Failed ==> sync.state is Finished,
    ensures
        sync_next(sync, event) == (sync, SyncActionView::Unexpected(event)),
{
}

/// What a synchronisation asks for shows every number, factory and AMM in it.
pub proof fn law_actions_show_what_they_ask_for<E>(action: SyncAction<E>)
    ensures
        match action {
            SyncAction::GetBlockNumber => action@ is GetBlockNumber,
            SyncAction::ReadCheckpoint => action@ is ReadCheckpoint,
            SyncAction::SyncAmmData { amms, checkpoint_block, to_block } => action@ == (
            SyncActionView::<E>::SyncAmmData {
                amms: amm_views(amms@),
                checkpoint_block,
                to_block,
            }),
            SyncAction::GetNewAmms { factories, from_block, to_block, step } => action@ == (
            SyncActionView::<E>::GetNewAmms { factories: factories@, from_block, to_block, step }),
            SyncAction::ReadClock => action@ is ReadClock,
            SyncAction::WriteCheckpoint(checkpoint) => action@
                == SyncActionView::<E>::WriteCheckpoint(checkpoint@),
            SyncAction::Return(Ok((factories, amms))) => action@ == SyncActionView::<E>::Return(
                Ok((factories@, amm_views(amms@))),
            ),
            SyncAction::Return(Err(error)) => action@ == SyncActionView::<E>::Return(Err(error)),
            SyncAction::Unexpected(event) => action@ == SyncActionView::<E>::Unexpected(event@),
        },
{
}

/// What a synchronisation is told shows every number, checkpoint and AMM in it.
pub proof fn law_events_show_what_they_tell<E>(event: SyncEvent<E>)
    ensures
        match event {
            SyncEvent::BlockNumber(number) => event@ == SyncEventView::<E>::BlockNumber(number),
            SyncEvent::Checkpoint(checkpoint) => event@ == SyncEventView::<E>::Checkpoint(
                checkpoint@,
            ),
            SyncEvent::SyncedAmms(amms) => event@ == SyncEventView::<E>::SyncedAmms(
                amm_views(amms@),
            ),
            SyncEvent::NewAmms(amms) => event@ == SyncEventView::<E>::NewAmms(amm_views(amms@)),
            SyncEvent::Clock(timestamp) => event@ == SyncEventView::<E>::Clock(timestamp),
            SyncEvent::Written => event@ is Written,
            SyncEvent::Failed(error) => event@ == SyncEventView::<E>::Failed(error),
        },
{
}

/// What a synchronisation shows is its step and all that it holds while it waits.
pub proof fn law_sync_shows_what_it_holds(sync: CheckpointSync)
    ensures
        sync@.step == sync.step,
        match sync.state {
            SyncState::BlockNumber => sync@.state is BlockNumber,
            SyncState::Checkpoint { to_block } => sync@.state == (SyncStateView::Checkpoint {
                to_block,
            }),
            SyncState::SyncedAmms { factories, from_block, to_block } => sync@.state == (
            SyncStateView::SyncedAmms { factories: factories@, from_block, to_block }),
            SyncState::NewAmms { factories, amms, to_block } => sync@.state == (
            SyncStateView::NewAmms { factories: factories@, amms: amm_views(amms@), to_block }),
            SyncState::Clock { factories, amms, to_block } => sync@.state == (
            SyncStateView::Clock { factories: factories@, amms: amm_views(amms@), to_block }),
            SyncState::Written { factories, amms } => sync@.state == (SyncStateView::Written {
                factories: factories@,
                amms: amm_views(amms@),
            }),
            SyncState::Finished => sync@.state is Finished,
        },
{
}

/// Whatever fails is returned, and the synchronisation is over: nothing is written after it.
pub proof fn law_failed_sync_is_returned<E>(sync: CheckpointSyncView, error: E)
    requires
        !(sync.state is Finished),
    ensures
        sync_next(sync, SyncEventView::Failed(error)) == (
            CheckpointSyncView { state: SyncStateView::Finished, ..sync },
            SyncActionView::<E>::Return(Err(error)),
        ),
{
}

/// A synchronisation that is over asks for nothing more.
pub proof fn law_finished_sync_stays_finished<E>(
    sync: CheckpointSyncView,
    event: SyncEventView<E>,
)
    requires
        sync.state is Finished,
    ensures
        sync_next(sync, event) == (sync, SyncActionView::Unexpected(event)),
{
}

/// The factories are those of a checkpoint that was read.
pub open spec fn factories_were_read<E>(
    events: Seq<SyncEventView<E>>,
    factories: Seq<Factory>,
) -> bool {
    exists|checkpoint: CheckpointView|
        #![trigger events.contains(SyncEventView::Checkpoint(checkpoint))]
        events.contains(SyncEventView::Checkpoint(checkpoint)) && checkpoint.factories == factories
}

/// The AMMs are AMMs that were brought up to date, followed by AMMs that were discovered.
pub open spec fn amms_were_read<E>(events: Seq<SyncEventView<E>>, amms: Seq<AMMView>) -> bool {
    exists|synced: Seq<AMMView>, discovered: Seq<AMMView>|
        #![trigger events.contains(SyncEventView::SyncedAmms(synced)), events.contains(SyncEventView::NewAmms(discovered))]
        events.contains(SyncEventView::SyncedAmms(synced)) && events.contains(
            SyncEventView::NewAmms(discovered),
        ) && amms == synced + discovered
}

/// All that a synchronisation will write was read in the events that it took in.
spec fn state_was_read<E>(state: SyncStateView, events: Seq<SyncEventView<E>>) -> bool {
    match state {
        SyncStateView::Checkpoint { to_block } => events.contains(
            SyncEventView::BlockNumber(to_block),
        ),
        SyncStateView::SyncedAmms { factories, to_block, .. } => {
            &&& events.contains(SyncEventView::BlockNumber(to_block))
            &&& factories_were_read(events, factories)
        },
        SyncStateView::NewAmms { factories, amms, to_block } => {
            &&& events.contains(SyncEventView::BlockNumber(to_block))
            &&& factories_were_read(events, factories)
            &&& events.contains(SyncEventView::SyncedAmms(amms))
        },
        SyncStateView::Clock { factories, amms, to_block } => {
            &&& events.contains(SyncEventView::BlockNumber(to_block))
            &&& factories_were_read(events, factories)
            &&& amms_were_read(events, amms)
        },
        _ => true,
    }
}

pub(crate) proof fn lemma_push_contains<A>(s: Seq<A>, last: A)
    ensures
        forall|a: A| s.contains(a) || a == last ==> #[trigger] s.push(last).contains(a),
{
    assert forall|a: A| s.contains(a) || a == last implies #[trigger] s.push(last).contains(a) by {
        if s.contains(a) {
            assert(s.push(last)[s.index_of(a)] == a);
        } else {
            assert(s.push(last)[s.len() as int] == a);
        }
    }
}

proof fn lemma_read_before<E>(
    before: Seq<SyncEventView<E>>,
    event: SyncEventView<E>,
    factories: Seq<Factory>,
    amms: Seq<AMMView>,
)
    ensures
        forall|e: SyncEventView<E>|
            before.contains(e) || e == event ==> #[trigger] before.push(event).contains(e),
        factories_were_read(before, factories) ==> factories_were_read(
            before.push(event),
            factories,
        ),
        amms_were_read(before, amms) ==> amms_were_read(before.push(event), amms),
{
    let events = before.push(event);
    lemma_push_contains(before, event);
    if factories_were_read(before, factories) {
        let checkpoint = choose|checkpoint: CheckpointView|
            #![trigger before.contains(SyncEventView::Checkpoint(checkpoint))]
            before.contains(SyncEventView::Checkpoint(checkpoint)) && checkpoint.factories
                == factories;
        assert(events.contains(SyncEventView::Checkpoint(checkpoint)));
    }
    if amms_were_read(before, amms) {
        let (synced, discovered) = choose|synced: Seq<AMMView>, discovered: Seq<AMMView>|
            #![trigger before.contains(SyncEventView::SyncedAmms(synced)), before.contains(SyncEventView::NewAmms(discovered))]
            before.contains(SyncEventView::SyncedAmms(synced)) && before.contains(
                SyncEventView::NewAmms(discovered),
            ) && amms == synced + discovered;
        assert(events.contains(SyncEventView::SyncedAmms(synced)));
        assert(events.contains(SyncEventView::NewAmms(discovered)));
    }
}

proof fn lemma_next_was_read<E>(
    sync: CheckpointSyncView,
    before: Seq<SyncEventView<E>>,
    event: SyncEventView<E>,
)
    requires
        state_was_read(sync.state, before),
    ensures
        state_was_read(sync_next(sync, event).0.state, before.push(event)),
{
    let events = before.push(event);
    match sync.state {
        SyncStateView::BlockNumber => {
            lemma_read_before(before, event, Seq::empty(), Seq::empty());
        },
        SyncStateView::Checkpoint { to_block } => {
            lemma_read_before(before, event, Seq::empty(), Seq::empty());
            assert(events.contains(SyncEventView::BlockNumber(to_block)));
            if let SyncEventView::Checkpoint(checkpoint) = event {
                assert(events.contains(SyncEventView::Checkpoint(checkpoint)));
                assert(factories_were_read(events, checkpoint.factories));
            }
        },
        SyncStateView::SyncedAmms { factories, to_block, .. } => {
            lemma_read_before(before, event, factories, Seq::empty());
            assert(events.contains(SyncEventView::BlockNumber(to_block)));
            assert(events.contains(event));
        },
        SyncStateView::NewAmms { factories, amms, to_block } => {
            lemma_read_before(before, event, factories, Seq::empty());
            assert(events.contains(SyncEventView::BlockNumber(to_block)));
            assert(events.contains(SyncEventView::SyncedAmms(amms)));
            if let SyncEventView::NewAmms(discovered) = event {
                assert(events.contains(SyncEventView::NewAmms(discovered)));
                assert(amms_were_read(events, amms + discovered));
            }
        },
        SyncStateView::Clock { factories, amms, to_block } => {
            lemma_read_before(before, event, factories, amms);
            assert(events.contains(SyncEventView::BlockNumber(to_block)));
        },
        _ => {},
    }
}

proof fn lemma_state_was_read<E>(step: u64, events: Seq<SyncEventView<E>>)
    ensures
        state_was_read(
            sync_run(
                CheckpointSyncView { step, state: SyncStateView::BlockNumber },
                events,
            ).0.state,
            events,
        ),
    decreases events.len(),
{
    if events.len() > 0 {
        let start = CheckpointSyncView { step, state: SyncStateView::BlockNumber };
        let before = events.drop_last();
        lemma_state_was_read(step, before);
        lemma_next_was_read(sync_run(start, before).0, before, events.last());
        assert(before.push(events.last()) =~= events);
    }
}

/// A checkpoint is written only when everything in it was read: its block is one that was
/// reported as the latest, its factories are those of a checkpoint, its AMMs are AMMs that
/// were brought up to date, followed by AMMs that were discovered, and its time is the one
/// that the clock showed.
pub proof fn law_only_what_was_read_is_written<E>(
    step: u64,
    events: Seq<SyncEventView<E>>,
    i: int,
    written: CheckpointView,
)
    requires
        0 <= i < events.len(),
        sync_run(
            CheckpointSyncView { step, state: SyncStateView::BlockNumber },
            events,
        ).1[i] == SyncActionView::<E>::WriteCheckpoint(written),
    ensures
        events[i] == SyncEventView::<E>::Clock(written.timestamp),
        events.take(i).contains(SyncEventView::BlockNumber(written.block_number)),
        factories_were_read(events.take(i), written.factories),
        amms_were_read(events.take(i), written.amms),
    decreases events.len(),
{
    let start = CheckpointSyncView { step, state: SyncStateView::BlockNumber };
    let before = events.drop_last();
    lemma_run_length(start, before);
    if i < before.len() {
        law_only_what_was_read_is_written(step, before, i, written);
        assert(before.take(i) =~= events.take(i));
    } else {
        lemma_state_was_read(step, before);
        assert(before =~= events.take(i));
    }
}

/// A synchronisation goes on where the one before it ended: when it reads the checkpoint that
/// the other one wrote, it brings the AMMs of that one on from the block that they were
/// brought up to, and discovers new ones from that block on, with the same factories.
pub proof fn law_next_sync_goes_on_where_this_one_ended<E>(
    step: u64,
    factories: Seq<Factory>,
    amms: Seq<AMMView>,
    end_block: u64,
    timestamp: usize,
    next_block: u64,
    synced: Seq<AMMView>,
)
    ensures
        ({
            let this = CheckpointSyncView {
                step,
                state: SyncStateView::Clock { factories, amms, to_block: end_block },
            };
            let next = CheckpointSyncView {
                step,
                state: SyncStateView::Checkpoint { to_block: next_block },
            };
            sync_next(this, SyncEventView::<E>::Clock(timestamp)).1
                matches SyncActionView::WriteCheckpoint(written) && {
                let (reading, sync_action) = sync_next(
                    next,
                    SyncEventView::<E>::Checkpoint(written),
                );
                let new_action = sync_next(reading, SyncEventView::<E>::SyncedAmms(synced)).1;
                &&& sync_action == (SyncActionView::<E>::SyncAmmData {
                    amms,
                    checkpoint_block: end_block,
                    to_block: next_block,
                })
                &&& new_action == (SyncActionView::<E>::GetNewAmms {
                    factories,
                    from_block: end_block,
                    to_block: next_block,
                    step,
                })
            }
        }),
{
}

} // verus!
