//! Discovering the AMMs that one factory created in a range of blocks.
//!
//! A [`FactoryScan`] names what to do next and takes in how it went: the pools are found in
//! the creation logs, their data is read, and those that are empty are taken out.
use vstd::prelude::*;

use crate::amm::factory::Factory;
use crate::amm::AMM;

verus! {

/// What a scan waits for.
#[derive(Clone, Copy, Debug, PartialEq, Eq)]
pub enum ScanState {
    /// The pools of the creation logs.
    Pools,
    /// The pools, with their data filled in.
    Populated,
    /// The pools, without the empty ones.
    Filtered,
    /// Nothing more.
    Finished,
}

/// The scan of one factory.
#[derive(Clone, Copy, Debug, PartialEq, Eq)]
pub struct FactoryScan {
    pub factory: Factory,
    pub from_block: u64,
    pub to_block: u64,
    /// How many blocks one request for logs covers.
    pub step: u64,
    pub state: ScanState,
}

/// How the last thing that a scan asked for went.
#[derive(Debug)]
pub enum ScanEvent<E> {
    Pools(Vec<AMM>),
    Populated(Vec<AMM>),
    Filtered(Vec<AMM>),
    /// A read failed.
    Failed(E),
}

/// What a scan asks for.
#[derive(Debug)]
pub enum ScanAction<E> {
    /// Find the pools in the creation logs of a factory.
    GetAllPoolsFromLogs { factory: Factory, from_block: u64, to_block: u64, step: u64 },
    /// Fill in the data of pools that a factory created, as of a block, and hand them back.
    PopulateAmmData { factory: Factory, amms: Vec<AMM>, block_number: Option<u64> },
    /// Take out the empty pools, and hand the others back.
    FilterEmptyAmms(Vec<AMM>),
    /// The scan is over.
    Return(Result<Vec<AMM>, E>),
    /// The event does not answer what was asked for; it changed nothing.
    Unexpected(ScanEvent<E>),
}

/// What a scan waits for after an event, and what it asks for.
pub open spec fn scan_next<E>(scan: FactoryScan, event: ScanEvent<E>) -> (
    FactoryScan,
    ScanAction<E>,
) {
    match (scan.state, event) {
        (ScanState::Pools, ScanEvent::Pools(amms)) => (
            FactoryScan { state: ScanState::Populated, ..scan },
            ScanAction::PopulateAmmData {
                factory: scan.factory,
                amms,
                block_number: Some(scan.to_block),
            },
        ),
        (ScanState::Populated, ScanEvent::Populated(amms)) => (
            FactoryScan { state: ScanState::Filtered, ..scan },
            ScanAction::FilterEmptyAmms(amms),
        ),
        (ScanState::Filtered, ScanEvent::Filtered(amms)) => (
            FactoryScan { state: ScanState::Finished, ..scan },
            ScanAction::Return(Ok(amms)),
        ),
        (ScanState::Pools | ScanState::Populated, ScanEvent::Failed(error)) => (
            FactoryScan { state: ScanState::Finished, ..scan },
            ScanAction::Return(Err(error)),
        ),
        _ => (scan, ScanAction::Unexpected(event)),
    }
}

impl FactoryScan {
    /// The scan of a factory, which waits for the pools of the creation logs.
    pub(crate) fn new(factory: Factory, from_block: u64, to_block: u64, step: u64) -> (r:
        FactoryScan)
        ensures
            r == (FactoryScan { factory, from_block, to_block, step, state: ScanState::Pools }),
    {
        FactoryScan { factory, from_block, to_block, step, state: ScanState::Pools }
    }

    /// What the scan asks for first.
    pub fn first<E>(&self) -> (r: ScanAction<E>)
        ensures
            r == (ScanAction::<E>::GetAllPoolsFromLogs {
                factory: self.factory,
                from_block: self.from_block,
                to_block: self.to_block,
                step: self.step,
            }),
    {
        ScanAction::GetAllPoolsFromLogs {
            factory: self.factory,
            from_block: self.from_block,
            to_block: self.to_block,
            step: self.step,
        }
    }

    /// Takes in an event, and says what to do next.
    pub fn next<E>(self, event: ScanEvent<E>) -> (r: (FactoryScan, ScanAction<E>))
        ensures
            r == scan_next(self, event),
    {
        let mut scan = self;
        let action = match (self.state, event) {
            (ScanState::Pools, ScanEvent::Pools(amms)) => {
                scan.state = ScanState::Populated;
                ScanAction::PopulateAmmData {
                    factory: self.factory,
                    amms,
                    block_number: Some(self.to_block),
                }
            },
            (ScanState::Populated, ScanEvent::Populated(amms)) => {
                scan.state = ScanState::Filtered;
                ScanAction::FilterEmptyAmms(amms)
            },
            (ScanState::Filtered, ScanEvent::Filtered(amms)) => {
                scan.state = ScanState::Finished;
                ScanAction::Return(Ok(amms))
            },
            (ScanState::Pools | ScanState::Populated, ScanEvent::Failed(error)) => {
                scan.state = ScanState::Finished;
                ScanAction::Return(Err(error))
            },
            (_, event) => ScanAction::Unexpected(event),
        };
        (scan, action)
    }
}

/// A scan returns the pools that are left of those that were found and read, and it goes
/// through the steps in this order: finding them, reading their data as of the last block,
/// taking out the empty ones.
pub proof fn law_scan_returns_the_pools_that_are_left<E>(
    scan: FactoryScan,
    found: Vec<AMM>,
    populated: Vec<AMM>,
    filtered: Vec<AMM>,
)
    requires
        scan.state is Pools,
    ensures
        ({
            let (second, populate) = scan_next(scan, ScanEvent::<E>::Pools(found));
            let (third, filter) = scan_next(second, ScanEvent::<E>::Populated(populated));
            let (end, result) = scan_next(third, ScanEvent::<E>::Filtered(filtered));
            &&& second == (FactoryScan { state: ScanState::Populated, ..scan })
            &&& third == (FactoryScan { state: ScanState::Filtered, ..scan })
            &&& populate == (ScanAction::<E>::PopulateAmmData {
                factory: scan.factory,
                amms: found,
                block_number: Some(scan.to_block),
            })
            &&& filter == ScanAction::<E>::FilterEmptyAmms(populated)
            &&& result == ScanAction::<E>::Return(Ok(filtered))
            &&& end == (FactoryScan { state: ScanState::Finished, ..scan })
        }),
{
}

/// A read that fails is what the scan returns.
pub proof fn law_failed_scan_is_returned<E>(scan: FactoryScan, error: E)
    requires
        scan.state is Pools || scan.state is Populated,
    ensures
        scan_next(scan, ScanEvent::Failed(error)) == (
            FactoryScan { state: ScanState::Finished, ..scan },
            ScanAction::<E>::Return(Err(error)),
        ),
{
}

/// An event that does not answer what a scan asked for changes nothing and is handed back.
pub proof fn law_stray_event_leaves_a_scan_as_it_is<E>(scan: FactoryScan, event: ScanEvent<E>)
    requires
        event is Pools ==> !(scan.state is Pools),
        event is Populated ==> !(scan.state is Populated),
        event is Filtered ==> !(scan.state is Filtered),
        event is Failed ==> scan.state is Filtered || scan.state is Finished,
    ensures
        scan_next(scan, event) == (scan, ScanAction::Unexpected(event)),
{
}

/// A scan that is over asks for nothing more.
pub proof fn law_finished_scan_stays_finished<E>(scan: FactoryScan, event: ScanEvent<E>)
    requires
        scan.state is Finished,
    ensures
        scan_next(scan, event) == (scan, ScanAction::Unexpected(event)),
{
}

} // verus!
