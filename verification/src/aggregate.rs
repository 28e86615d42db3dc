//! Folding the filtered records into per-station updates.

use vstd::prelude::*;
use crate::catalog::{opt_view, train_label_spec, CatalogEntry, ScheduleCatalog};
use crate::feed::{VehiclePositionRecord, VehicleStatus};
use crate::filter::stop_key;

verus! {

/// One train's line on a station's board: the resolved display name and
/// whether the train is incoming or stopped.
#[derive(Debug)]
pub struct StationStateForTrain {
    pub train: String,
    pub state: String,
}

/// One station's board for the most recent completed poll cycle: the trains
/// observed at it, in the order the feed reported them.  It carries no
/// memory of earlier cycles.
#[derive(Debug)]
pub struct StationUpdate {
    pub station: String,
    pub state: Vec<StationStateForTrain>,
}

/// The mathematical reading of one train line.
pub ghost struct TrainEntryModel {
    pub train: Seq<char>,
    pub state: Seq<char>,
}

/// The mathematical reading of one station update.
pub ghost struct StationUpdateModel {
    pub station: Seq<char>,
    pub trains: Seq<TrainEntryModel>,
}

impl View for StationStateForTrain {
    type V = TrainEntryModel;

    open spec fn view(&self) -> TrainEntryModel {
        TrainEntryModel { train: self.train@, state: self.state@ }
    }
}

impl View for StationUpdate {
    type V = StationUpdateModel;

    open spec fn view(&self) -> StationUpdateModel {
        StationUpdateModel {
            station: self.station@,
            trains: self.state@.map_values(|e: StationStateForTrain| e@),
        }
    }
}

/// The user-facing wording of a vehicle's status: a vehicle stopped at a
/// station reads `Stopped`, one in transit to or incoming at it reads
/// `Incoming`.
pub open spec fn state_text(status: VehicleStatus) -> Seq<char> {
    if status is StoppedAt {
        "Stopped"@
    } else {
        "Incoming"@
    }
}

/// The line one record contributes: its label resolved through the route
/// table, and its status wording.
pub open spec fn entry_model(routes: Seq<CatalogEntry>, record: VehiclePositionRecord) -> TrainEntryModel {
    TrainEntryModel {
        train: train_label_spec(routes, opt_view(record.route_id)),
        state: state_text(record.status),
    }
}

/// The stations of `records` in order of first appearance, each once.
pub open spec fn station_order(records: Seq<VehiclePositionRecord>) -> Seq<Seq<char>>
    decreases records.len(),
{
    if records.len() == 0 {
        Seq::empty()
    } else {
        let rest = station_order(records.drop_last());
        if rest.contains(stop_key(records.last())) {
            rest
        } else {
            rest.push(stop_key(records.last()))
        }
    }
}

/// The lines contributed to one station by `records`, in input order.
pub open spec fn station_entries(
    records: Seq<VehiclePositionRecord>,
    station: Seq<char>,
    routes: Seq<CatalogEntry>,
) -> Seq<TrainEntryModel>
    decreases records.len(),
{
    if records.len() == 0 {
        Seq::empty()
    } else {
        let rest = station_entries(records.drop_last(), station, routes);
        if stop_key(records.last()) == station {
            rest.push(entry_model(routes, records.last()))
        } else {
            rest
        }
    }
}

/// The boards of all stations that had at least one record, in order of
/// first appearance.
pub open spec fn aggregate_models(
    records: Seq<VehiclePositionRecord>,
    routes: Seq<CatalogEntry>,
) -> Seq<StationUpdateModel> {
    Seq::new(
        station_order(records).len(),
        |k: int|
            StationUpdateModel {
                station: station_order(records)[k],
                trains: station_entries(records, station_order(records)[k], routes),
            },
    )
}

/// No station appears twice in the first-appearance order.
pub proof fn lemma_station_order_distinct(records: Seq<VehiclePositionRecord>)
    ensures
        forall|i: int, j: int|
            0 <= i < j < station_order(records).len() ==> station_order(records)[i]
                != station_order(records)[j],
    decreases records.len(),
{
    if records.len() > 0 {
        lemma_station_order_distinct(records.drop_last());
        let rest = station_order(records.drop_last());
        let key = stop_key(records.last());
        if !rest.contains(key) {
            assert(forall|i: int| 0 <= i < rest.len() ==> rest[i] != key);
        }
    }
}

/// A station that never appears contributes no lines.
pub proof fn lemma_absent_station_no_entries(
    records: Seq<VehiclePositionRecord>,
    station: Seq<char>,
    routes: Seq<CatalogEntry>,
)
    requires
        !station_order(records).contains(station),
    ensures
        station_entries(records, station, routes) == Seq::<TrainEntryModel>::empty(),
    decreases records.len(),
{
    if records.len() > 0 {
        let rest = station_order(records.drop_last());
        let key = stop_key(records.last());
        let whole = station_order(records);
        if rest.contains(key) {
            assert(whole == rest);
            assert(station != key);
        } else {
            assert(whole == rest.push(key));
            assert(whole[whole.len() - 1] == key);
            assert(whole.contains(key));
            assert(station != key);
            assert(forall|i: int| 0 <= i < rest.len() ==> rest[i] == whole[i]);
            assert(!rest.contains(station));
        }
        lemma_absent_station_no_entries(records.drop_last(), station, routes);
    }
}

/// The status wording as an owned string.
pub fn state_string(status: VehicleStatus) -> (s: String)
    ensures
        s@ == state_text(status),
{
    match status {
        VehicleStatus::StoppedAt => "Stopped".to_owned(),
        VehicleStatus::IncomingAt => "Incoming".to_owned(),
        VehicleStatus::InTransitTo => "Incoming".to_owned(),
    }
}

/// The index of the update already opened for `station`, if any.
fn find_station(updates: &Vec<StationUpdate>, station: &String) -> (r: Option<usize>)
    ensures
        r is None ==> forall|t: int| 0 <= t < updates@.len() ==> (#[trigger] updates@[t])@.station
            != station@,
        r matches Some(f) ==> f < updates@.len() && updates@[f as int]@.station == station@,
{
    for j in 0..updates.len()
        invariant
            forall|t: int| 0 <= t < j ==> (#[trigger] updates@[t])@.station != station@,
    {
        let candidate: &StationUpdate = &updates[j];
        if candidate.station.eq(station) {
            return Some(j);
        }
    }
    None
}

/// Fold the filtered records, in input order, into one update per station
/// that had at least one record: stations appear in order of first
/// appearance, and each board lists its trains in input order, labels
/// resolved through the catalog's route table.
pub fn aggregate(records: &Vec<VehiclePositionRecord>, catalog: &ScheduleCatalog) -> (updates: Vec<
    StationUpdate,
>)
    ensures
        updates@.map_values(|u: StationUpdate| u@) == aggregate_models(records@, catalog.routes@),
        updates@.len() == station_order(records@).len(),
        forall|k: int| 0 <= k < updates@.len() ==> (#[trigger] updates@[k])@.station
            == station_order(records@)[k] && updates@[k]@.trains == station_entries(
            records@,
            station_order(records@)[k],
            catalog.routes@,
        ),
{
    let mut updates: Vec<StationUpdate> = Vec::new();
    for i in 0..records.len()
        invariant
            updates@.len() == station_order(records@.take(i as int)).len(),
            forall|k: int| 0 <= k < updates@.len() ==> (#[trigger] updates@[k])@.station
                == station_order(records@.take(i as int))[k] && updates@[k]@.trains
                == station_entries(
                records@.take(i as int),
                station_order(records@.take(i as int))[k],
                catalog.routes@,
            ),
    {
        let record: &VehiclePositionRecord = &records[i];
        let key: String = match &record.stop_id {
            Some(s) => s.clone(),
            None => String::new(),
        };
        let label = catalog.train_label(&record.route_id);
        let entry = StationStateForTrain { train: label, state: state_string(record.status) };
        let ghost pre = records@.take(i as int);
        let ghost post = records@.take(i + 1);
        proof {
            assert(post.drop_last() =~= pre);
            assert(post.last() == records@[i as int]);
            assert(key@ == stop_key(records@[i as int]));
            assert(entry@ == entry_model(catalog.routes@, records@[i as int]));
            lemma_station_order_distinct(pre);
        }
        match find_station(&updates, &key) {
            Some(j) => {
                let ghost old_updates = updates@;
                let mut opened = updates.remove(j);
                opened.state.push(entry);
                let ghost opened_trains = opened.state@.map_values(
                    |e: StationStateForTrain| e@,
                );
                updates.insert(j, opened);
                proof {
                    assert(station_order(pre).contains(key@)) by {
                        assert(station_order(pre)[j as int] == key@);
                    }
                    assert(station_order(post) == station_order(pre));
                    assert(updates@ =~= old_updates.update(
                        j as int,
                        (StationUpdate {
                            station: old_updates[j as int].station,
                            state: updates@[j as int].state,
                        }),
                    ));
                    assert(opened_trains =~= old_updates[j as int]@.trains.push(entry@));
                    assert forall|k: int| 0 <= k < updates@.len() implies (
                    #[trigger] updates@[k])@.station == station_order(post)[k]
                        && updates@[k]@.trains == station_entries(
                        post,
                        station_order(post)[k],
                        catalog.routes@,
                    ) by {
                        if k != j {
                            assert(updates@[k] == old_updates[k]);
                            assert(station_order(pre)[k] != key@);
                        }
                    }
                }
            },
            None => {
                let mut board: Vec<StationStateForTrain> = Vec::new();
                board.push(entry);
                let ghost old_updates = updates@;
                updates.push(StationUpdate { station: key, state: board });
                proof {
                    assert(!station_order(pre).contains(key@)) by {
                        if station_order(pre).contains(key@) {
                            let t = choose|t: int|
                                0 <= t < station_order(pre).len() && station_order(pre)[t]
                                    == key@;
                            assert(old_updates[t]@.station == key@);
                        }
                    }
                    assert(station_order(post) == station_order(pre).push(key@));
                    lemma_absent_station_no_entries(pre, key@, catalog.routes@);
                    let last = updates@.len() - 1;
                    assert(updates@[last]@.trains =~= station_entries(
                        post,
                        key@,
                        catalog.routes@,
                    ));
                    assert forall|k: int| 0 <= k < updates@.len() implies (
                    #[trigger] updates@[k])@.station == station_order(post)[k]
                        && updates@[k]@.trains == station_entries(
                        post,
                        station_order(post)[k],
                        catalog.routes@,
                    ) by {
                        if k < last {
                            assert(updates@[k] == old_updates[k]);
                            assert(station_order(pre)[k] != key@) by {
                                if station_order(pre)[k] == key@ {
                                    assert(station_order(pre).contains(key@));
                                }
                            }
                        }
                    }
                }
            },
        }
    }
    proof {
        assert(records@.take(records@.len() as int) =~= records@);
        assert(updates@.map_values(|u: StationUpdate| u@) =~= aggregate_models(
            records@,
            catalog.routes@,
        ));
    }
    updates
}

/// Aggregation preserves order: records at stations `a`, `a`, `b` yield the
/// board of `a` first, with both its lines in input order, then the board
/// of `b`.
pub proof fn lemma_aggregate_order_preserving(
    r1: VehiclePositionRecord,
    r2: VehiclePositionRecord,
    r3: VehiclePositionRecord,
    routes: Seq<CatalogEntry>,
    a: Seq<char>,
    b: Seq<char>,
)
    requires
        stop_key(r1) == a,
        stop_key(r2) == a,
        stop_key(r3) == b,
        a != b,
    ensures
        station_order(seq![r1, r2, r3]) == seq![a, b],
        station_entries(seq![r1, r2, r3], a, routes) == seq![
            entry_model(routes, r1),
            entry_model(routes, r2),
        ],
        station_entries(seq![r1, r2, r3], b, routes) == seq![entry_model(routes, r3)],
{
    let s3 = seq![r1, r2, r3];
    let s2 = seq![r1, r2];
    let s1 = seq![r1];
    let s0 = Seq::<VehiclePositionRecord>::empty();
    assert(s3.drop_last() =~= s2);
    assert(s2.drop_last() =~= s1);
    assert(s1.drop_last() =~= s0);
    assert(station_order(s0) =~= Seq::<Seq<char>>::empty());
    assert(s1.last() == r1 && s2.last() == r2 && s3.last() == r3);
    assert(station_order(s1) =~= seq![a]);
    assert(station_order(s1).contains(a)) by {
        assert(station_order(s1)[0] == a);
    }
    assert(station_order(s2) =~= seq![a]);
    assert(!station_order(s2).contains(b)) by {
        assert(forall|i: int| 0 <= i < station_order(s2).len() ==> station_order(s2)[i] == a);
    }
    assert(station_order(s3) =~= seq![a, b]);
    assert(station_entries(s0, a, routes) =~= Seq::<TrainEntryModel>::empty());
    assert(station_entries(s1, a, routes) =~= seq![entry_model(routes, r1)]);
    assert(station_entries(s2, a, routes) =~= seq![
        entry_model(routes, r1),
        entry_model(routes, r2),
    ]);
    assert(station_entries(s3, a, routes) =~= seq![
        entry_model(routes, r1),
        entry_model(routes, r2),
    ]);
    assert(station_entries(s0, b, routes) =~= Seq::<TrainEntryModel>::empty());
    assert(station_entries(s1, b, routes) =~= Seq::<TrainEntryModel>::empty());
    assert(station_entries(s2, b, routes) =~= Seq::<TrainEntryModel>::empty());
    assert(station_entries(s3, b, routes) =~= seq![entry_model(routes, r3)]);
}

} // verus!
