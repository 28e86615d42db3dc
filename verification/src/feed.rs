//! Decoded realtime-feed entities and the records the pipeline reads from them.

use vstd::prelude::*;

verus! {

/// A vehicle's stop-relative status, as the feed's status field encodes it.
#[derive(Clone, Copy, PartialEq, Eq, Structural, Debug)]
pub enum VehicleStatus {
    IncomingAt,
    StoppedAt,
    InTransitTo,
}

/// One vehicle observation, reduced to the fields the pipeline consults.
/// The motion bearing is kept only as its presence: the filter asks no more
/// of it, and its numeric value never reaches a decision.
pub struct VehiclePositionRecord {
    pub route_id: Option<String>,
    pub stop_id: Option<String>,
    pub has_bearing: bool,
    pub status: VehicleStatus,
}

/// One decoded feed entity: its vehicle payload, where it carries one.
/// Entities without a vehicle payload are normal feed content and are
/// dropped silently when records are extracted.
pub struct FeedEntityRecord {
    pub vehicle: Option<VehiclePositionRecord>,
}

impl VehiclePositionRecord {
    /// An equal copy of the record.
    pub fn duplicate(&self) -> (copied: VehiclePositionRecord)
        ensures
            copied == *self,
    {
        VehiclePositionRecord {
            route_id: clone_opt_string(&self.route_id),
            stop_id: clone_opt_string(&self.stop_id),
            has_bearing: self.has_bearing,
            status: self.status,
        }
    }
}

/// Why one poll cycle yielded no updates; both cases are cycle-local and
/// recoverable by the next tick.
#[derive(Clone, Copy, PartialEq, Eq, Structural, Debug)]
pub enum FetchError {
    Network,
    Decode,
}

/// The vehicle payloads of `entities`, one per vehicle-carrying entity,
/// in feed order.
pub open spec fn vehicle_records_spec(entities: Seq<FeedEntityRecord>) -> Seq<
    VehiclePositionRecord,
>
    decreases entities.len(),
{
    if entities.len() == 0 {
        Seq::empty()
    } else {
        let rest = vehicle_records_spec(entities.drop_last());
        match entities.last().vehicle {
            Some(v) => rest.push(v),
            None => rest,
        }
    }
}

/// How many of `entities` carry a vehicle payload.
pub open spec fn vehicle_entity_count(entities: Seq<FeedEntityRecord>) -> nat
    decreases entities.len(),
{
    if entities.len() == 0 {
        0
    } else {
        vehicle_entity_count(entities.drop_last()) + (if entities.last().vehicle is Some {
            1nat
        } else {
            0nat
        })
    }
}

/// Extracting records from a well-formed decoded feed yields exactly one
/// record per vehicle-carrying entity: entities without a vehicle payload
/// are dropped, and nothing else is.
pub proof fn lemma_vehicle_record_count(entities: Seq<FeedEntityRecord>)
    ensures
        vehicle_records_spec(entities).len() == vehicle_entity_count(entities),
    decreases entities.len(),
{
    if entities.len() > 0 {
        lemma_vehicle_record_count(entities.drop_last());
    }
}

/// An equal copy of an optional string.
pub(crate) fn clone_opt_string(o: &Option<String>) -> (r: Option<String>)
    ensures
        r == *o,
{
    match o {
        Some(s) => Some(s.clone()),
        None => None,
    }
}

/// Map a decoded feed to its vehicle-position records, in feed order.
pub fn vehicle_records(entities: &Vec<FeedEntityRecord>) -> (records: Vec<VehiclePositionRecord>)
    ensures
        records@ == vehicle_records_spec(entities@),
{
    let mut records: Vec<VehiclePositionRecord> = Vec::new();
    for i in 0..entities.len()
        invariant
            records@ == vehicle_records_spec(entities@.take(i as int)),
    {
        match &entities[i].vehicle {
            Some(v) => records.push(v.duplicate()),
            None => {},
        }
        proof {
            assert(entities@.take(i + 1).drop_last() =~= entities@.take(i as int));
            assert(entities@.take(i + 1).last() == entities@[i as int]);
        }
    }
    proof {
        assert(entities@.take(entities@.len() as int) =~= entities@);
    }
    records
}

} // verus!
