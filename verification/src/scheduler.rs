//! The polling loop's decisions: what one tick does with what the network
//! brought back.  The surrounding application performs the fetch, the sleep
//! and the publishing; every decision in between is made here.

use vstd::prelude::*;
use crate::aggregate::{aggregate, aggregate_models, StationUpdate, StationUpdateModel};
use crate::catalog::{CatalogEntry, ScheduleCatalog};
use crate::feed::{vehicle_records, vehicle_records_spec, FeedEntityRecord, FetchError};
use crate::filter::{filter, filter_spec};

verus! {

/// What one poll attempt brought back, as the application reports it: a
/// decoded feed, a body that would not decode, or no usable response.
pub enum FetchOutcome {
    Decoded(Vec<FeedEntityRecord>),
    DecodeFailure,
    NetworkFailure,
}

/// What one cycle yields for a fetch outcome: the boards of the affected
/// stations, or the cycle-local error that skips the cycle.  Each cycle
/// depends on its own outcome alone; no state crosses cycles.
pub open spec fn cycle_spec(
    outcome: FetchOutcome,
    routes_table: Seq<CatalogEntry>,
    route_ids: Seq<String>,
    station_ids: Seq<String>,
) -> Result<Seq<StationUpdateModel>, FetchError> {
    match outcome {
        FetchOutcome::NetworkFailure => Err(FetchError::Network),
        FetchOutcome::DecodeFailure => Err(FetchError::Decode),
        FetchOutcome::Decoded(entities) => Ok(
            aggregate_models(
                filter_spec(vehicle_records_spec(entities@), route_ids, station_ids),
                routes_table,
            ),
        ),
    }
}

/// Run one cycle's computation: extract the vehicle records, filter them
/// against the whitelists, and aggregate the rest into station boards.
/// A failed fetch or decode skips the whole cycle with its error and
/// touches nothing else.
pub fn process_cycle(
    outcome: &FetchOutcome,
    catalog: &ScheduleCatalog,
    route_ids: &Vec<String>,
    station_ids: &Vec<String>,
) -> (result: Result<Vec<StationUpdate>, FetchError>)
    ensures
        result is Ok <==> outcome is Decoded,
        result matches Ok(updates) ==> Ok::<_, FetchError>(
            updates@.map_values(|u: StationUpdate| u@),
        ) == cycle_spec(*outcome, catalog.routes@, route_ids@, station_ids@),
        result matches Err(e) ==> cycle_spec(*outcome, catalog.routes@, route_ids@, station_ids@)
            == Err::<Seq<StationUpdateModel>, FetchError>(e),
{
    match outcome {
        FetchOutcome::NetworkFailure => Err(FetchError::Network),
        FetchOutcome::DecodeFailure => Err(FetchError::Decode),
        FetchOutcome::Decoded(entities) => {
            let records = vehicle_records(entities);
            let kept = filter(&records, route_ids, station_ids);
            let updates = aggregate(&kept, catalog);
            Ok(updates)
        },
    }
}

/// The loop's two states: waiting for the next tick, or mid-cycle with a
/// fetch in flight.
pub enum SchedulerPhase {
    Idle,
    Polling,
}

/// What the loop reacts to: the fixed-interval tick, or the completion of
/// the fetch it started.
pub enum SchedulerEvent {
    Tick,
    FetchCompleted(FetchOutcome),
}

/// What the application must do after one transition: start a fetch,
/// publish the cycle's boards one by one, or log the error and wait for
/// the next tick.
pub enum SchedulerAction {
    StartFetch,
    Publish(Vec<StationUpdate>),
    SkipCycle(FetchError),
}

/// The loop's driver.  It never terminates of its own accord: every
/// transition leaves it ready for the next event, whatever the outcome.
pub struct Scheduler {
    pub phase: SchedulerPhase,
}

impl Scheduler {
    /// A scheduler at rest, before the first tick.
    pub fn new() -> (scheduler: Scheduler)
        ensures
            scheduler.phase is Idle,
    {
        Scheduler { phase: SchedulerPhase::Idle }
    }

    /// One transition: a tick starts a fetch; a completed fetch runs the
    /// cycle and hands back what to publish, or the error to log.  Either
    /// way the scheduler is ready for the next event.
    pub fn step(
        &mut self,
        event: SchedulerEvent,
        catalog: &ScheduleCatalog,
        route_ids: &Vec<String>,
        station_ids: &Vec<String>,
    ) -> (action: SchedulerAction)
        requires
            old(self).phase is Idle <==> event is Tick,
        ensures
            event is Tick ==> final(self).phase is Polling && action is StartFetch,
            event matches SchedulerEvent::FetchCompleted(outcome) ==> final(self).phase is Idle
                && (match cycle_spec(outcome, catalog.routes@, route_ids@, station_ids@) {
                Ok(models) => action matches SchedulerAction::Publish(updates) && updates@.map_values(
                    |u: StationUpdate| u@,
                ) == models,
                Err(e) => action == SchedulerAction::SkipCycle(e),
            }),
    {
        match event {
            SchedulerEvent::Tick => {
                self.phase = SchedulerPhase::Polling;
                SchedulerAction::StartFetch
            },
            SchedulerEvent::FetchCompleted(outcome) => {
                self.phase = SchedulerPhase::Idle;
                match process_cycle(&outcome, catalog, route_ids, station_ids) {
                    Ok(updates) => SchedulerAction::Publish(updates),
                    Err(e) => SchedulerAction::SkipCycle(e),
                }
            },
        }
    }
}

/// The outputs of a run of cycles, one per tick, each read off its own
/// fetch outcome alone.
pub open spec fn cycle_outputs(
    outcomes: Seq<FetchOutcome>,
    routes_table: Seq<CatalogEntry>,
    route_ids: Seq<String>,
    station_ids: Seq<String>,
) -> Seq<Result<Seq<StationUpdateModel>, FetchError>> {
    Seq::new(
        outcomes.len(),
        |k: int| cycle_spec(outcomes[k], routes_table, route_ids, station_ids),
    )
}

/// Cycle isolation: if the fetch of one cycle fails, that cycle publishes
/// nothing and reports a network error, while every other cycle's output —
/// the ones already published and the ones still to run — is exactly what
/// it would have been anyway.
pub proof fn lemma_cycle_isolation(
    outcomes: Seq<FetchOutcome>,
    k: int,
    routes_table: Seq<CatalogEntry>,
    route_ids: Seq<String>,
    station_ids: Seq<String>,
)
    requires
        0 <= k < outcomes.len(),
    ensures
        cycle_outputs(
            outcomes.update(k, FetchOutcome::NetworkFailure),
            routes_table,
            route_ids,
            station_ids,
        ).len() == outcomes.len(),
        forall|j: int|
            0 <= j < outcomes.len() && j != k ==> cycle_outputs(
                outcomes.update(k, FetchOutcome::NetworkFailure),
                routes_table,
                route_ids,
                station_ids,
            )[j] == cycle_outputs(outcomes, routes_table, route_ids, station_ids)[j],
        cycle_outputs(
            outcomes.update(k, FetchOutcome::NetworkFailure),
            routes_table,
            route_ids,
            station_ids,
        )[k] == Err::<Seq<StationUpdateModel>, FetchError>(FetchError::Network),
{
}

} // verus!
