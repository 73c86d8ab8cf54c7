use service_vendor::controller::{
    add_extension_failure, delete_extension_reply, extensions_filter, get_extension_failure, interface_extensions,
};
use service_vendor::database::{get_db_connection, AppDatabase};
use service_vendor::extension::{
    balance_write_target, in_use_target, merge_actual_balances, ActiveExtensionServiceResponseDTO, BalanceUpdate,
    EsimRecord, GetExtensionsRequestDTO, GetExtensionsResponseDTO,
};
use service_vendor::extension_add::{
    package_size_bytes, AddExtensionServiceRequestDTO, ExtensionAdd, ExtensionAddAction, ExtensionAddEvent,
    ResolvedPackage,
};
use service_vendor::extension_delete::{
    DeleteExtensionServiceRequestDTO, ExtensionDelete, ExtensionDeleteAction, ExtensionDeleteEvent,
};
use service_vendor::extension_query::{ExtensionQuery, ExtensionQueryAction, ExtensionQueryEvent};
use service_vendor::routes::{first_unsupported_route, plan_common_routes, vendor_handler, RouteMethod, VendorHandler, VendorRoute};

fn record(id: i32, id_extension_inst: i32, n_value: i64) -> GetExtensionsResponseDTO {
    GetExtensionsResponseDTO {
        id,
        id_extension_inst,
        iccid: "8944".to_owned(),
        package_id: "EU-30-5".to_owned(),
        id_extension: 3,
        n_value_move: 5_000,
        n_value,
        dt_start: 1_700_000_000,
        dt_stop: Some(1_702_592_000),
        v_status: "ACTIVE".to_owned(),
        in_use: false,
        add_timestamp: None,
    }
}

fn active(id_extension_inst: i32, n_value: i64) -> ActiveExtensionServiceResponseDTO {
    ActiveExtensionServiceResponseDTO {
        id_extension_inst,
        id_extension: 3,
        n_value,
        dt_start: 1_700_000_000,
        dt_stop: None,
        v_status: "ACTIVE".to_owned(),
    }
}

fn esim() -> EsimRecord {
    EsimRecord { id_service_inst: 11, id_contract_inst: 22, v_iccid: "8944".to_owned() }
}

fn balances(records: &Vec<GetExtensionsResponseDTO>) -> Vec<(i32, i64)> {
    records.iter().map(|r| (r.id_extension_inst, r.n_value)).collect()
}

#[test]
fn merge_lowers_only() {
    let mut records = vec![record(1, 100, 5_000), record(2, 200, 3_000), record(3, 100, 1_000)];
    let reported = vec![active(100, 4_000), active(200, 3_500), active(100, 2_000)];
    let writes = merge_actual_balances(&mut records, &reported);
    assert_eq!(balances(&records), vec![(100, 2_000), (200, 3_000), (100, 1_000)]);
    assert_eq!(
        writes,
        vec![
            BalanceUpdate { id_extension_inst: 100, n_value: 4_000 },
            BalanceUpdate { id_extension_inst: 100, n_value: 2_000 },
        ]
    );
    assert_eq!(records[0].iccid, "8944");
    assert_eq!(records[0].n_value_move, 5_000);
    // A second time changes and writes nothing.
    let again = merge_actual_balances(&mut records, &reported);
    assert!(again.is_empty());
    assert_eq!(balances(&records), vec![(100, 2_000), (200, 3_000), (100, 1_000)]);
}

#[test]
fn balance_write_needs_one_record_and_a_lower_balance() {
    assert_eq!(balance_write_target(&vec![record(7, 100, 5_000)], 4_000), Some(7));
    assert_eq!(balance_write_target(&vec![record(7, 100, 5_000)], 5_000), None);
    assert_eq!(balance_write_target(&vec![], 1), None);
    assert_eq!(balance_write_target(&vec![record(7, 100, 5_000), record(8, 100, 5_000)], 1), None);
}

#[test]
fn in_use_needs_one_free_record() {
    assert_eq!(in_use_target(&vec![record(7, 100, 5_000)]), Ok(7));
    let mut used = record(7, 100, 5_000);
    used.in_use = true;
    assert_eq!(in_use_target(&vec![used]), Err("Error".to_owned()));
    assert_eq!(in_use_target(&vec![]), Err("Error".to_owned()));
}

fn with_actual(iccid: Option<&str>, actual_balance: Option<bool>) -> GetExtensionsRequestDTO {
    extensions_filter(iccid.map(|s| s.to_owned()), actual_balance, None)
}

#[test]
fn listing_without_actual_balance_answers_the_records() {
    let (state, action) = ExtensionQuery::start(with_actual(Some("8944"), None));
    assert!(matches!(action, ExtensionQueryAction::QueryRecords(_)));
    let event = ExtensionQueryEvent::Records(Ok(vec![record(1, 100, 5_000)]));
    assert!(state.waits_for(&event));
    let (state, action) = state.step(event);
    assert!(matches!(state, ExtensionQuery::Done));
    match action {
        ExtensionQueryAction::Reply { balance_writes, result } => {
            assert!(balance_writes.is_empty());
            assert_eq!(balances(&result.unwrap()), vec![(100, 5_000)]);
        },
        _ => panic!("expected a reply"),
    }
}

#[test]
fn listing_error_is_passed_on() {
    let (state, _) = ExtensionQuery::start(GetExtensionsRequestDTO::default());
    let (_, action) = state.step(ExtensionQueryEvent::Records(Err("db down".to_owned())));
    match action {
        ExtensionQueryAction::Reply { result, .. } => assert_eq!(result.err(), Some("db down".to_owned())),
        _ => panic!("expected a reply"),
    }
}

#[test]
fn listing_with_actual_balance_from_the_provider() {
    let (state, _) = ExtensionQuery::start(with_actual(Some("8944"), Some(true)));
    let (state, action) = state.step(ExtensionQueryEvent::Records(Ok(vec![record(1, 100, 5_000)])));
    match &action {
        ExtensionQueryAction::FindEsims { iccid } => assert_eq!(iccid, "8944"),
        _ => panic!("expected an eSIM lookup"),
    }
    let (state, action) = state.step(ExtensionQueryEvent::Esims(vec![esim()]));
    match &action {
        ExtensionQueryAction::ReadCache { key } => assert_eq!(key, "extension-8944"),
        _ => panic!("expected a cache read"),
    }
    let wrong = ExtensionQueryEvent::CacheWritten;
    assert!(!state.waits_for(&wrong));
    let (state, action) = state.step(ExtensionQueryEvent::Cached(vec![]));
    match &action {
        ExtensionQueryAction::FetchActive { id_service_inst } => assert_eq!(*id_service_inst, 11),
        _ => panic!("expected a provider call"),
    }
    let (state, action) = state.step(ExtensionQueryEvent::Active(vec![active(100, 4_000)]));
    match &action {
        ExtensionQueryAction::WriteCache { key, extensions } => {
            assert_eq!(key, "extension-8944");
            assert_eq!(extensions.len(), 1);
        },
        _ => panic!("expected a cache write"),
    }
    let (state, action) = state.step(ExtensionQueryEvent::CacheWritten);
    assert!(matches!(state, ExtensionQuery::Done));
    match action {
        ExtensionQueryAction::Reply { balance_writes, result } => {
            assert_eq!(balance_writes, vec![BalanceUpdate { id_extension_inst: 100, n_value: 4_000 }]);
            assert_eq!(balances(&result.unwrap()), vec![(100, 4_000)]);
        },
        _ => panic!("expected a reply"),
    }
}

#[test]
fn listing_with_actual_balance_from_the_cache() {
    let (state, _) = ExtensionQuery::start(with_actual(Some("8944"), Some(true)));
    let (state, _) = state.step(ExtensionQueryEvent::Records(Ok(vec![record(1, 100, 5_000)])));
    let (state, _) = state.step(ExtensionQueryEvent::Esims(vec![esim()]));
    let (state, action) = state.step(ExtensionQueryEvent::Cached(vec![active(100, 6_000), active(100, 4_500)]));
    assert!(matches!(state, ExtensionQuery::Done));
    match action {
        ExtensionQueryAction::Reply { balance_writes, result } => {
            assert_eq!(balance_writes, vec![BalanceUpdate { id_extension_inst: 100, n_value: 4_500 }]);
            assert_eq!(balances(&result.unwrap()), vec![(100, 4_500)]);
        },
        _ => panic!("expected a reply"),
    }
}

#[test]
fn listing_with_actual_balance_but_no_iccid_or_esim() {
    let (state, _) = ExtensionQuery::start(with_actual(Some(""), Some(true)));
    let (state, action) = state.step(ExtensionQueryEvent::Records(Ok(vec![record(1, 100, 5_000)])));
    assert!(matches!(state, ExtensionQuery::Done));
    assert!(matches!(action, ExtensionQueryAction::Reply { .. }));
    let (state, _) = ExtensionQuery::start(with_actual(Some("8944"), Some(true)));
    let (state, _) = state.step(ExtensionQueryEvent::Records(Ok(vec![])));
    let (state, action) = state.step(ExtensionQueryEvent::Esims(vec![esim(), esim()]));
    assert!(matches!(state, ExtensionQuery::Done));
    assert!(matches!(action, ExtensionQueryAction::Reply { .. }));
}

fn delete_reply(action: ExtensionDeleteAction) -> Result<String, String> {
    match action {
        ExtensionDeleteAction::Reply(r) => r,
        _ => panic!("expected a reply"),
    }
}

#[test]
fn delete_runs_provider_then_records() {
    let (state, action) = ExtensionDelete::start("8944".to_owned(), 7);
    assert!(matches!(action, ExtensionDeleteAction::FindEsims { .. }));
    let (state, action) = state.step(ExtensionDeleteEvent::Esims(vec![esim()]));
    match &action {
        ExtensionDeleteAction::FindRecords(filter) => assert_eq!(filter.id, Some(7)),
        _ => panic!("expected a record search"),
    }
    let (state, action) = state.step(ExtensionDeleteEvent::Records(vec![record(7, 100, 5_000)]));
    match &action {
        ExtensionDeleteAction::DeleteAtProvider(request) => assert_eq!(
            *request,
            DeleteExtensionServiceRequestDTO { id_contract_inst: 22, id_service_inst: 11, id_extension_inst: 100 }
        ),
        _ => panic!("expected a provider call"),
    }
    let (state, action) = state.step(ExtensionDeleteEvent::DeletedAtProvider(true));
    assert!(matches!(action, ExtensionDeleteAction::DeleteRecord { id: 7 }));
    let (state, action) = state.step(ExtensionDeleteEvent::RecordDeleted(true));
    assert!(matches!(state, ExtensionDelete::Done));
    assert_eq!(delete_reply(action), Ok("Success".to_owned()));
}

#[test]
fn delete_failures() {
    let (state, _) = ExtensionDelete::start("8944".to_owned(), 7);
    let (_, action) = state.step(ExtensionDeleteEvent::Esims(vec![]));
    assert_eq!(delete_reply(action), Err("Not found esim data for iccid".to_owned()));

    let (state, _) = ExtensionDelete::start("8944".to_owned(), 7);
    let (state, _) = state.step(ExtensionDeleteEvent::Esims(vec![esim()]));
    let (_, action) = state.step(ExtensionDeleteEvent::Records(vec![]));
    assert_eq!(delete_reply(action), Err("Not found extension".to_owned()));

    let (state, _) = ExtensionDelete::start("8944".to_owned(), 7);
    let (state, _) = state.step(ExtensionDeleteEvent::Esims(vec![esim()]));
    let (state, _) = state.step(ExtensionDeleteEvent::Records(vec![record(7, 100, 5_000)]));
    let (_, action) = state.step(ExtensionDeleteEvent::DeletedAtProvider(false));
    assert_eq!(delete_reply(action), Err("Error while delete extension on Service side".to_owned()));

    let (state, _) = ExtensionDelete::start("8944".to_owned(), 7);
    let (state, _) = state.step(ExtensionDeleteEvent::Esims(vec![esim()]));
    let (state, _) = state.step(ExtensionDeleteEvent::Records(vec![record(7, 100, 5_000)]));
    let (state, _) = state.step(ExtensionDeleteEvent::DeletedAtProvider(true));
    let (_, action) = state.step(ExtensionDeleteEvent::RecordDeleted(false));
    assert_eq!(delete_reply(action), Err("Error while delete extension on Service side".to_owned()));
}

fn add_error(action: ExtensionAddAction) -> String {
    match action {
        ExtensionAddAction::Reply(Err(e)) => e,
        _ => panic!("expected an error"),
    }
}

#[test]
fn add_runs_provider_then_records() {
    let (state, action) = ExtensionAdd::start("8944".to_owned(), "EU-30-1.5".to_owned(), None);
    assert!(matches!(action, ExtensionAddAction::FindEsims { .. }));
    let (state, action) = state.step(ExtensionAddEvent::Esims(Ok(vec![esim()])));
    match &action {
        ExtensionAddAction::ResolvePackage { slug } => assert_eq!(slug, "EU-30-1.5"),
        _ => panic!("expected the slug"),
    }
    let bytes = package_size_bytes(15, 1).unwrap();
    let package = ResolvedPackage { days: 30, value_bytes: bytes, id_extension: 3 };
    let (state, action) = state.step(ExtensionAddEvent::PackageResolved(Ok(package)));
    match &action {
        ExtensionAddAction::AddAtProvider(request) => assert_eq!(
            *request,
            AddExtensionServiceRequestDTO {
                id_service_inst: 11,
                value: 1_610_612_736,
                period_count: 30,
                id_extension: 3,
                period_length_type: 0,
            }
        ),
        _ => panic!("expected a provider call"),
    }
    let (state, action) = state.step(ExtensionAddEvent::AddedAtProvider(Ok(100)));
    assert!(matches!(action, ExtensionAddAction::FetchAdded { id_service_inst: 11, id_extension_inst: 100 }));
    let mut added = active(100, 1_610_612_736);
    added.dt_stop = None;
    added.v_status = "ACTIVE".to_owned();
    let (state, action) = state.step(ExtensionAddEvent::Added(vec![added]));
    match &action {
        ExtensionAddAction::SaveRecord(r) => {
            assert_eq!((r.id_extension_inst, r.iccid.as_str(), r.package_id.as_str()), (100, "8944", "EU-30-1.5"));
            assert_eq!((r.n_value_move, r.n_value, r.in_use), (1_610_612_736, 1_610_612_736, false));
        },
        _ => panic!("expected a record"),
    }
    let (state, action) = state.step(ExtensionAddEvent::Saved(Ok(55)));
    assert!(matches!(state, ExtensionAdd::Done));
    match action {
        ExtensionAddAction::Reply(Ok(r)) => {
            assert_eq!((r.id, r.package_id.as_str(), r.iccid.as_str()), (55, "EU-30-1.5", "8944"));
            assert_eq!((r.date_start, r.date_stop), (1_700_000_000, Some(0)));
            assert_eq!(r.status_json, "\"ACTIVE\"");
        },
        _ => panic!("expected the extension"),
    }
}

#[test]
fn add_with_known_service_skips_the_esim() {
    let (state, action) = ExtensionAdd::start("8944".to_owned(), "slug".to_owned(), Some(5));
    assert!(matches!(action, ExtensionAddAction::ResolvePackage { .. }));
    let (_, action) = state.step(ExtensionAddEvent::PackageResolved(Err(())));
    assert_eq!(add_error(action), "Error slug");
}

#[test]
fn add_failures() {
    let (state, _) = ExtensionAdd::start("8944".to_owned(), "slug".to_owned(), None);
    let (_, action) = state.step(ExtensionAddEvent::Esims(Err(())));
    assert_eq!(add_error(action), "Error serching esim");

    let (state, _) = ExtensionAdd::start("8944".to_owned(), "slug".to_owned(), None);
    let (_, action) = state.step(ExtensionAddEvent::Esims(Ok(vec![])));
    assert_eq!(add_error(action), "Cannot find esim by iccid 8944");

    let package = ResolvedPackage { days: 30, value_bytes: 1, id_extension: 3 };
    let (state, _) = ExtensionAdd::start("8944".to_owned(), "slug".to_owned(), Some(5));
    let (state, _) = state.step(ExtensionAddEvent::PackageResolved(Ok(package)));
    let (_, action) = state.step(ExtensionAddEvent::AddedAtProvider(Err(())));
    assert_eq!(add_error(action), "Error on Service side");

    let (state, _) = ExtensionAdd::start("8944".to_owned(), "slug".to_owned(), Some(5));
    let (state, _) = state.step(ExtensionAddEvent::PackageResolved(Ok(package)));
    let (state, _) = state.step(ExtensionAddEvent::AddedAtProvider(Ok(1)));
    let (_, action) = state.step(ExtensionAddEvent::Added(vec![]));
    assert_eq!(add_error(action), "Error serching new added  extention");

    let (state, _) = ExtensionAdd::start("8944".to_owned(), "slug".to_owned(), Some(5));
    let (state, _) = state.step(ExtensionAddEvent::PackageResolved(Ok(package)));
    let (state, _) = state.step(ExtensionAddEvent::AddedAtProvider(Ok(1)));
    let (state, _) = state.step(ExtensionAddEvent::Added(vec![active(1, 10)]));
    let (_, action) = state.step(ExtensionAddEvent::Saved(Err("Exec(\"duplicate\")".to_owned())));
    assert_eq!(add_error(action), "Error while saving data to extension table: Exec(\"duplicate\")");
}

#[test]
fn package_sizes_in_bytes() {
    assert_eq!(package_size_bytes(1, 0), Some(1_073_741_824));
    assert_eq!(package_size_bytes(15, 1), Some(1_610_612_736));
    assert_eq!(package_size_bytes(1, 1), Some(107_374_182));
    assert_eq!(package_size_bytes(0, 0), Some(0));
    assert_eq!(package_size_bytes(-15, 1), Some(-1_610_612_736));
    assert_eq!(package_size_bytes(1, 28), Some(0));
    assert_eq!(package_size_bytes(1, 29), None);
    assert_eq!(package_size_bytes(10_000_000_000, 0), None);
}

#[test]
fn controller_replies() {
    let r = add_extension_failure("Error slug");
    assert_eq!((r.status, r.body.as_str()), (500, "Error while add extension: Error slug"));
    let r = get_extension_failure("db down");
    assert_eq!((r.status, r.body.as_str()), (500, "Error: db down"));
    let ok = delete_extension_reply(Ok("Success".to_owned())).unwrap();
    assert_eq!((ok.status, ok.body.as_str()), (204, "Success"));
    let err = delete_extension_reply(Err("Not found extension".to_owned())).unwrap_err();
    assert_eq!((err.status, err.body.as_str()), (500, "Not found extension"));
}

#[test]
fn records_as_the_interface_shows_them() {
    let mut r = record(1, 100, 4_000);
    r.dt_stop = None;
    let shown = interface_extensions(&vec![r, record(2, 200, 3_000)]);
    assert_eq!(shown.len(), 2);
    assert_eq!((shown[0].id, shown[0].value_bytes_start, shown[0].value_bytes_current), (1, 5_000, 4_000));
    assert_eq!((shown[0].date_start, shown[0].date_stop), (1_700_000_000, None));
    assert_eq!(shown[1].date_stop, Some(1_702_592_000));
    assert_eq!(shown[1].status_json, "ACTIVE");
}

#[test]
fn filters_for_listing() {
    let f = extensions_filter(Some("8944".to_owned()), Some(true), Some("u".to_owned()));
    assert_eq!((f.id, f.id_extension_inst, f.actual_balance), (None, None, Some(true)));
    assert_eq!(f.iccid.as_deref(), Some("8944"));
    assert_eq!(f.user_uuid.as_deref(), Some("u"));
    let d = GetExtensionsRequestDTO::default();
    assert!(d.id.is_none() && d.iccid.is_none() && d.user_uuid.is_none() && d.id_extension_inst.is_none());
}

#[test]
fn common_routes() {
    assert_eq!(vendor_handler(RouteMethod::GET, "/esim"), Some(VendorHandler::GetEsim));
    assert_eq!(vendor_handler(RouteMethod::POST, "/esim"), Some(VendorHandler::CreateEsim));
    assert_eq!(
        vendor_handler(RouteMethod::DELETE, "/extension/:iccid/:extension_id"),
        Some(VendorHandler::DeleteExtension)
    );
    assert_eq!(vendor_handler(RouteMethod::PUT, "/esim"), None);
    let routes = vec![
        VendorRoute { method: RouteMethod::GET, path: "/get-quote".to_owned() },
        VendorRoute { method: RouteMethod::PATCH, path: "/package/:id".to_owned() },
    ];
    assert_eq!(first_unsupported_route(&routes), None);
    assert_eq!(plan_common_routes(&routes), vec![VendorHandler::GetQuote, VendorHandler::UpdatePackage]);
    let routes = vec![
        VendorRoute { method: RouteMethod::GET, path: "/get-quote".to_owned() },
        VendorRoute { method: RouteMethod::GET, path: "/unknown".to_owned() },
    ];
    assert_eq!(first_unsupported_route(&routes), Some(1));
}

#[test]
fn database_handle() {
    let app = AppDatabase::from_connection(sea_orm::DatabaseConnection::Disconnected);
    assert!(matches!(app.get_db(), sea_orm::DatabaseConnection::Disconnected));
    assert!(matches!(get_db_connection(Some(&app)), sea_orm::DatabaseConnection::Disconnected));
}

#[test]
fn balance_writes_keep_the_minimum() {
    let mut stored = vec![record(7, 100, 5_000)];
    for reported in [4_000i64, 4_500] {
        if balance_write_target(&stored, reported).is_some() {
            stored[0].n_value = reported;
        }
    }
    assert_eq!(stored[0].n_value, 4_000);
}

#[test]
fn in_use_is_set_once() {
    let mut stored = vec![record(7, 100, 5_000)];
    assert_eq!(in_use_target(&stored), Ok(7));
    stored[0].in_use = true;
    assert_eq!(in_use_target(&stored), Err("Error".to_owned()));
}
