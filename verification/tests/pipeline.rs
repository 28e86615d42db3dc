use railview::aggregate::{aggregate, StationUpdate};
use railview::catalog::ScheduleCatalog;
use railview::feed::{
    vehicle_records, FeedEntityRecord, FetchError, VehiclePositionRecord, VehicleStatus,
};
use railview::filter::filter;
use railview::scheduler::{process_cycle, FetchOutcome, Scheduler, SchedulerAction, SchedulerEvent};

fn catalog_with_midwest_routes() -> ScheduleCatalog {
    let mut catalog = ScheduleCatalog::new();
    catalog.add_route("EB1".to_string(), Some("Empire Builder".to_string()));
    catalog.add_route("BOR".to_string(), Some("Borealis".to_string()));
    catalog.add_route("HIA".to_string(), None);
    catalog.add_stop("MKE".to_string(), Some("Milwaukee".to_string()));
    catalog.add_stop("CHI".to_string(), None);
    catalog
}

fn record(
    route_id: Option<&str>,
    stop_id: Option<&str>,
    has_bearing: bool,
    status: VehicleStatus,
) -> VehiclePositionRecord {
    VehiclePositionRecord {
        route_id: route_id.map(|s| s.to_string()),
        stop_id: stop_id.map(|s| s.to_string()),
        has_bearing,
        status,
    }
}

fn entity(vehicle: Option<VehiclePositionRecord>) -> FeedEntityRecord {
    FeedEntityRecord { vehicle }
}

#[test]
fn train_label_resolves_display_name() {
    let catalog = catalog_with_midwest_routes();
    let label = catalog.train_label(&Some("EB1".to_string()));
    assert_eq!(label, "Empire Builder");
}

#[test]
fn train_label_missing_route_id() {
    let catalog = catalog_with_midwest_routes();
    assert_eq!(catalog.train_label(&None), "<no route id>");
}

#[test]
fn train_label_unknown_route() {
    let catalog = catalog_with_midwest_routes();
    let label = catalog.train_label(&Some("ZZ9".to_string()));
    assert_eq!(label, "<no route found>");
    assert!(!label.is_empty());
}

#[test]
fn train_label_empty_display_name_falls_back() {
    let mut catalog = ScheduleCatalog::new();
    catalog.add_route("EB1".to_string(), Some(String::new()));
    let label = catalog.train_label(&Some("EB1".to_string()));
    assert_eq!(label, "<no route name>");
    assert!(!label.is_empty());
}

#[test]
fn aggregated_train_label_never_empty() {
    let mut catalog = ScheduleCatalog::new();
    catalog.add_route("EB1".to_string(), Some(String::new()));
    let records = vec![record(Some("EB1"), Some("MKE"), true, VehicleStatus::StoppedAt)];
    let updates = aggregate(&records, &catalog);
    assert_eq!(updates.len(), 1);
    assert_eq!(updates[0].state[0].train, "<no route name>");
}

#[test]
fn train_label_route_without_name() {
    let catalog = catalog_with_midwest_routes();
    assert_eq!(catalog.train_label(&Some("HIA".to_string())), "<no route name>");
}

#[test]
fn stop_name_fallbacks() {
    let catalog = catalog_with_midwest_routes();
    assert_eq!(catalog.stop_name(&Some("MKE".to_string())), "Milwaukee");
    assert_eq!(catalog.stop_name(&Some("CHI".to_string())), "");
    assert_eq!(catalog.stop_name(&Some("XXX".to_string())), "");
    assert_eq!(catalog.stop_name(&None), "");
}

#[test]
fn route_ids_matching_keeps_known_names_only() {
    let catalog = catalog_with_midwest_routes();
    let names = vec![
        "Empire Builder".to_string(),
        "Borealis".to_string(),
        "Hiawatha Service".to_string(),
    ];
    let ids = catalog.route_ids_matching(&names);
    assert_eq!(ids, vec!["EB1".to_string(), "BOR".to_string()]);
}

#[test]
fn route_ids_matching_empty_whitelist() {
    let catalog = catalog_with_midwest_routes();
    let ids = catalog.route_ids_matching(&Vec::new());
    assert!(ids.is_empty());
}

#[test]
fn vehicle_records_drops_entities_without_vehicles() {
    let first = record(Some("EB1"), Some("MKE"), true, VehicleStatus::StoppedAt);
    let second = record(None, Some("CHI"), false, VehicleStatus::InTransitTo);
    let entities = vec![entity(Some(first)), entity(None), entity(Some(second))];
    let records = vehicle_records(&entities);
    assert_eq!(records.len(), 2);
    assert_eq!(records[0].stop_id.as_deref(), Some("MKE"));
    assert_eq!(records[1].stop_id.as_deref(), Some("CHI"));
}

#[test]
fn filter_excludes_record_without_bearing() {
    let routes = vec!["EB1".to_string()];
    let stations = vec!["MKE".to_string()];
    let records = vec![record(Some("EB1"), Some("MKE"), false, VehicleStatus::StoppedAt)];
    let kept = filter(&records, &routes, &stations);
    assert!(kept.is_empty());
}

#[test]
fn filter_excludes_unlisted_route_and_station() {
    let routes = vec!["EB1".to_string()];
    let stations = vec!["MKE".to_string()];
    let records = vec![
        record(Some("BOR"), Some("MKE"), true, VehicleStatus::StoppedAt),
        record(Some("EB1"), Some("CHI"), true, VehicleStatus::StoppedAt),
        record(Some("EB1"), Some("MKE"), true, VehicleStatus::IncomingAt),
    ];
    let kept = filter(&records, &routes, &stations);
    assert_eq!(kept.len(), 1);
    assert_eq!(kept[0].route_id.as_deref(), Some("EB1"));
    assert_eq!(kept[0].stop_id.as_deref(), Some("MKE"));
}

#[test]
fn filter_keeps_input_order() {
    let routes = vec!["EB1".to_string(), "BOR".to_string()];
    let stations = vec!["MKE".to_string(), "CHI".to_string()];
    let records = vec![
        record(Some("BOR"), Some("CHI"), true, VehicleStatus::InTransitTo),
        record(Some("EB1"), Some("MKE"), true, VehicleStatus::StoppedAt),
    ];
    let kept = filter(&records, &routes, &stations);
    assert_eq!(kept.len(), 2);
    assert_eq!(kept[0].route_id.as_deref(), Some("BOR"));
    assert_eq!(kept[1].route_id.as_deref(), Some("EB1"));
}

#[test]
fn aggregate_groups_in_first_appearance_order() {
    let catalog = catalog_with_midwest_routes();
    let records = vec![
        record(Some("EB1"), Some("MKE"), true, VehicleStatus::StoppedAt),
        record(Some("BOR"), Some("MKE"), true, VehicleStatus::InTransitTo),
        record(Some("EB1"), Some("CHI"), true, VehicleStatus::IncomingAt),
    ];
    let updates = aggregate(&records, &catalog);
    assert_eq!(updates.len(), 2);
    assert_eq!(updates[0].station, "MKE");
    assert_eq!(updates[0].state.len(), 2);
    assert_eq!(updates[0].state[0].train, "Empire Builder");
    assert_eq!(updates[0].state[0].state, "Stopped");
    assert_eq!(updates[0].state[1].train, "Borealis");
    assert_eq!(updates[0].state[1].state, "Incoming");
    assert_eq!(updates[1].station, "CHI");
    assert_eq!(updates[1].state.len(), 1);
    assert_eq!(updates[1].state[0].state, "Incoming");
}

#[test]
fn aggregate_empty_input_emits_nothing() {
    let catalog = catalog_with_midwest_routes();
    let updates = aggregate(&Vec::new(), &catalog);
    assert!(updates.is_empty());
}

fn single_update(updates: &[StationUpdate]) -> &StationUpdate {
    assert_eq!(updates.len(), 1);
    &updates[0]
}

#[test]
fn cycle_stopped_empire_builder_at_milwaukee() {
    let catalog = catalog_with_midwest_routes();
    let route_names = vec!["Empire Builder".to_string()];
    let route_ids = catalog.route_ids_matching(&route_names);
    assert_eq!(route_ids, vec!["EB1".to_string()]);
    let stations = vec!["MKE".to_string()];
    let entities = vec![entity(Some(record(
        Some("EB1"),
        Some("MKE"),
        true,
        VehicleStatus::StoppedAt,
    )))];
    let result = process_cycle(&FetchOutcome::Decoded(entities), &catalog, &route_ids, &stations);
    let updates = result.expect("a decoded feed yields updates");
    let update = single_update(&updates);
    assert_eq!(update.station, "MKE");
    assert_eq!(update.state.len(), 1);
    assert_eq!(update.state[0].train, "Empire Builder");
    assert_eq!(update.state[0].state, "Stopped");
}

#[test]
fn cycle_without_bearing_emits_no_update() {
    let catalog = catalog_with_midwest_routes();
    let route_ids = catalog.route_ids_matching(&vec!["Empire Builder".to_string()]);
    let stations = vec!["MKE".to_string()];
    let entities = vec![entity(Some(record(
        Some("EB1"),
        Some("MKE"),
        false,
        VehicleStatus::StoppedAt,
    )))];
    let result = process_cycle(&FetchOutcome::Decoded(entities), &catalog, &route_ids, &stations);
    let updates = result.expect("a decoded feed yields a result");
    assert!(updates.is_empty());
}

#[test]
fn cycle_with_missing_route_id() {
    let catalog = catalog_with_midwest_routes();
    let stations = vec!["MKE".to_string()];
    let entities = vec![entity(Some(record(
        None,
        Some("MKE"),
        true,
        VehicleStatus::InTransitTo,
    )))];

    // Against a non-empty whitelist the empty-string fallback fails the
    // membership test, so the record is excluded.
    let strict = process_cycle(
        &FetchOutcome::Decoded(vec![entity(Some(record(
            None,
            Some("MKE"),
            true,
            VehicleStatus::InTransitTo,
        )))]),
        &catalog,
        &vec!["EB1".to_string()],
        &stations,
    );
    assert!(strict.expect("decoded").is_empty());

    // A whitelist that admits the empty id lets the record through, and its
    // label resolves to the missing-route-id marker.
    let admitted = process_cycle(
        &FetchOutcome::Decoded(entities),
        &catalog,
        &vec![String::new()],
        &stations,
    );
    let updates = admitted.expect("decoded");
    let update = single_update(&updates);
    assert_eq!(update.station, "MKE");
    assert_eq!(update.state[0].train, "<no route id>");
    assert_eq!(update.state[0].state, "Incoming");
}

#[test]
fn cycle_network_failure_is_cycle_local() {
    let catalog = catalog_with_midwest_routes();
    let route_ids = vec!["EB1".to_string()];
    let stations = vec!["MKE".to_string()];
    let failed = process_cycle(&FetchOutcome::NetworkFailure, &catalog, &route_ids, &stations);
    assert_eq!(failed.expect_err("no response"), FetchError::Network);
    let decode_failed =
        process_cycle(&FetchOutcome::DecodeFailure, &catalog, &route_ids, &stations);
    assert_eq!(decode_failed.expect_err("bad body"), FetchError::Decode);

    // The next cycle runs as if the failure had never happened.
    let entities = vec![entity(Some(record(
        Some("EB1"),
        Some("MKE"),
        true,
        VehicleStatus::StoppedAt,
    )))];
    let result = process_cycle(&FetchOutcome::Decoded(entities), &catalog, &route_ids, &stations);
    assert_eq!(result.expect("decoded").len(), 1);
}

#[test]
fn aggregate_missing_stop_id_groups_under_empty_station() {
    let catalog = catalog_with_midwest_routes();
    let records = vec![
        record(Some("EB1"), None, true, VehicleStatus::StoppedAt),
        record(Some("BOR"), None, true, VehicleStatus::InTransitTo),
    ];
    let updates = aggregate(&records, &catalog);
    assert_eq!(updates.len(), 1);
    assert_eq!(updates[0].station, "");
    assert_eq!(updates[0].state.len(), 2);
}

#[test]
fn duplicate_catalog_id_answers_with_first_entry() {
    let mut catalog = ScheduleCatalog::new();
    catalog.add_route("EB1".to_string(), Some("Empire Builder".to_string()));
    catalog.add_route("EB1".to_string(), Some("Something Else".to_string()));
    assert_eq!(catalog.train_label(&Some("EB1".to_string())), "Empire Builder");
}

#[test]
fn scheduler_alternates_and_publishes() {
    let catalog = catalog_with_midwest_routes();
    let route_ids = vec!["EB1".to_string()];
    let stations = vec!["MKE".to_string()];
    let mut scheduler = Scheduler::new();

    let action = scheduler.step(SchedulerEvent::Tick, &catalog, &route_ids, &stations);
    assert!(matches!(action, SchedulerAction::StartFetch));

    let entities = vec![entity(Some(record(
        Some("EB1"),
        Some("MKE"),
        true,
        VehicleStatus::StoppedAt,
    )))];
    let action = scheduler.step(
        SchedulerEvent::FetchCompleted(FetchOutcome::Decoded(entities)),
        &catalog,
        &route_ids,
        &stations,
    );
    match action {
        SchedulerAction::Publish(updates) => {
            assert_eq!(updates.len(), 1);
            assert_eq!(updates[0].station, "MKE");
        }
        _ => panic!("a decoded feed is published"),
    }

    let action = scheduler.step(SchedulerEvent::Tick, &catalog, &route_ids, &stations);
    assert!(matches!(action, SchedulerAction::StartFetch));
    let action = scheduler.step(
        SchedulerEvent::FetchCompleted(FetchOutcome::NetworkFailure),
        &catalog,
        &route_ids,
        &stations,
    );
    assert!(matches!(action, SchedulerAction::SkipCycle(FetchError::Network)));
}
