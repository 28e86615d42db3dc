//! Narrowing the decoded records to the configured routes and stations.

use vstd::prelude::*;
use crate::catalog::{contains_string, opt_view, or_empty, seq_contains_str};
use crate::feed::VehiclePositionRecord;

verus! {

/// The route id a record is judged by, an absent one reading as empty.
pub open spec fn route_key(record: VehiclePositionRecord) -> Seq<char> {
    or_empty(opt_view(record.route_id))
}

/// The stop id a record is judged by, an absent one reading as empty.
pub open spec fn stop_key(record: VehiclePositionRecord) -> Seq<char> {
    or_empty(opt_view(record.stop_id))
}

/// Whether a record passes the interest filter: its route id stands in the
/// route whitelist, it reports a motion bearing, and its stop id stands in
/// the station whitelist.  All three must hold.
pub open spec fn keep_record(
    record: VehiclePositionRecord,
    route_ids: Seq<String>,
    station_ids: Seq<String>,
) -> bool {
    &&& seq_contains_str(route_ids, route_key(record))
    &&& record.has_bearing
    &&& seq_contains_str(station_ids, stop_key(record))
}

/// The records of `records` that pass the interest filter, in input order.
pub open spec fn filter_spec(
    records: Seq<VehiclePositionRecord>,
    route_ids: Seq<String>,
    station_ids: Seq<String>,
) -> Seq<VehiclePositionRecord>
    decreases records.len(),
{
    if records.len() == 0 {
        Seq::empty()
    } else {
        let rest = filter_spec(records.drop_last(), route_ids, station_ids);
        if keep_record(records.last(), route_ids, station_ids) {
            rest.push(records.last())
        } else {
            rest
        }
    }
}

/// Whether `names` holds the key an optional id is judged by.
fn contains_opt_id(names: &Vec<String>, id: &Option<String>) -> (r: bool)
    ensures
        r == seq_contains_str(names@, or_empty(opt_view(*id))),
{
    match id {
        Some(s) => contains_string(names, s),
        None => {
            let empty = String::new();
            contains_string(names, &empty)
        },
    }
}

/// Keep only the records that belong to an interesting route, report a
/// bearing, and reference an interesting station.
pub fn filter(
    records: &Vec<VehiclePositionRecord>,
    route_ids: &Vec<String>,
    station_ids: &Vec<String>,
) -> (kept: Vec<VehiclePositionRecord>)
    ensures
        kept@ == filter_spec(records@, route_ids@, station_ids@),
{
    let mut kept: Vec<VehiclePositionRecord> = Vec::new();
    for i in 0..records.len()
        invariant
            kept@ == filter_spec(records@.take(i as int), route_ids@, station_ids@),
    {
        let record: &VehiclePositionRecord = &records[i];
        if contains_opt_id(route_ids, &record.route_id) && record.has_bearing && contains_opt_id(
            station_ids,
            &record.stop_id,
        ) {
            kept.push(record.duplicate());
        }
        proof {
            assert(records@.take(i + 1).drop_last() =~= records@.take(i as int));
            assert(records@.take(i + 1).last() == records@[i as int]);
        }
    }
    proof {
        assert(records@.take(records@.len() as int) =~= records@);
    }
    kept
}

/// Every record the filter lets through passes all three tests.
pub proof fn lemma_filter_sound(
    records: Seq<VehiclePositionRecord>,
    route_ids: Seq<String>,
    station_ids: Seq<String>,
)
    ensures
        forall|r: VehiclePositionRecord| #[trigger]
            filter_spec(records, route_ids, station_ids).contains(r) ==> keep_record(
                r,
                route_ids,
                station_ids,
            ),
    decreases records.len(),
{
    if records.len() > 0 {
        lemma_filter_sound(records.drop_last(), route_ids, station_ids);
        let rest = filter_spec(records.drop_last(), route_ids, station_ids);
        let whole = filter_spec(records, route_ids, station_ids);
        assert forall|r: VehiclePositionRecord| #[trigger] whole.contains(r) implies keep_record(
            r,
            route_ids,
            station_ids,
        ) by {
            if keep_record(records.last(), route_ids, station_ids) {
                let i = choose|i: int| 0 <= i < whole.len() && whole[i] == r;
                if i < rest.len() {
                    assert(rest.contains(r));
                }
            }
        }
    }
}

/// A record that reports no bearing never passes the filter, whatever its
/// route and station say.
pub proof fn lemma_filter_excludes_missing_bearing(
    records: Seq<VehiclePositionRecord>,
    route_ids: Seq<String>,
    station_ids: Seq<String>,
)
    ensures
        forall|r: VehiclePositionRecord|
            !r.has_bearing ==> !(#[trigger] filter_spec(records, route_ids, station_ids).contains(
                r,
            )),
{
    lemma_filter_sound(records, route_ids, station_ids);
}

/// A record whose route id does not stand in the resolved whitelist never
/// passes the filter.
pub proof fn lemma_filter_excludes_unlisted_route(
    records: Seq<VehiclePositionRecord>,
    route_ids: Seq<String>,
    station_ids: Seq<String>,
)
    ensures
        forall|r: VehiclePositionRecord|
            !seq_contains_str(route_ids, route_key(r)) ==> !(#[trigger] filter_spec(
                records,
                route_ids,
                station_ids,
            ).contains(r)),
{
    lemma_filter_sound(records, route_ids, station_ids);
}

} // verus!
