//! Import/export behaviour: batch atomicity, port validation, the export
//! projection and the round trip.

use wfp_manager::Engine;
use wfp_manager::EngineStore;
use wfp_manager::FilterConfig;
use wfp_manager::WfpAction;
use wfp_manager::WfpError;
use wfp_manager::entry::FilterEntry;
use wfp_manager::ids::layer_ale_auth_connect_v4;
use wfp_manager::ids::provider_key;
use wfp_manager::ids::sublayer_key;

fn cfg(name: &str, port: u16, action: WfpAction) -> FilterConfig {
    FilterConfig { name: String::from(name), remote_port: port, action }
}

#[test]
fn import_applies_whole_batch() {
    let mut engine = Engine::open(EngineStore::new()).unwrap();
    let configs = vec![
        cfg("dns", 53, WfpAction::Permit),
        cfg("smb", 445, WfpAction::Block),
        cfg("rdp", 3389, WfpAction::Callout),
    ];
    engine.import_filters(&configs).unwrap();
    let snap = engine.snapshot().unwrap();
    let owned: Vec<_> = snap.filters.iter().filter(|f| f.owned_by_app).collect();
    assert_eq!(owned.len(), 3);
    assert_eq!(owned[0].name, "dns");
    assert_eq!(owned[1].remote_port, Some(445));
    assert_eq!(owned[2].action, WfpAction::Callout);
}

#[test]
fn import_is_all_or_nothing() {
    let mut engine = Engine::open(EngineStore::new()).unwrap();
    let configs = vec![
        cfg("ok one", 80, WfpAction::Permit),
        cfg("ok two", 443, WfpAction::Block),
        cfg("broken", 0, WfpAction::Block),
        cfg("never reached", 22, WfpAction::Block),
    ];
    let err = engine.import_filters(&configs).unwrap_err();
    assert_eq!(err, WfpError::PortInvalid);
    let snap = engine.snapshot().unwrap();
    assert_eq!(snap.filters.len(), 0);
}

#[test]
fn import_of_empty_batch_changes_nothing() {
    let mut engine = Engine::open(EngineStore::new()).unwrap();
    engine.import_filters(&Vec::new()).unwrap();
    assert_eq!(engine.snapshot().unwrap().filters.len(), 0);
}

#[test]
fn export_projects_only_owned_rules_with_ports() {
    let mut store = EngineStore::new();
    // a foreign rule: never exported
    store.filter_add(FilterEntry {
        id: 0,
        name: Some(String::from("system rule")),
        layer_key: layer_ale_auth_connect_v4(),
        sublayer_key: wfp_manager::Guid { hi: 9, lo: 9 },
        provider_key: None,
        action_code: 0x1001,
        conditions: Vec::new(),
        weight: 1,
        flags: 0,
    });
    // carries the tool's identity but pins no port: skipped by export
    store.filter_add(FilterEntry {
        id: 0,
        name: Some(String::from("portless")),
        layer_key: layer_ale_auth_connect_v4(),
        sublayer_key: sublayer_key(),
        provider_key: Some(provider_key()),
        action_code: 0x1001,
        conditions: Vec::new(),
        weight: 10,
        flags: 0,
    });
    let mut engine = Engine::open(store).unwrap();
    engine.add_simple_tcp_filter_v4("ssh", 22, WfpAction::Block).unwrap();
    let exported = engine.export_owned_filters().unwrap();
    assert_eq!(exported.len(), 1);
    assert_eq!(exported[0].name, "ssh");
    assert_eq!(exported[0].remote_port, 22);
    assert_eq!(exported[0].action, WfpAction::Block);
}

#[test]
fn export_then_import_round_trips() {
    let mut engine = Engine::open(EngineStore::new()).unwrap();
    engine.add_simple_tcp_filter_v4("dns", 53, WfpAction::Permit).unwrap();
    engine.add_simple_tcp_filter_v4("smb", 445, WfpAction::Block).unwrap();
    engine.add_simple_tcp_filter_v4("alt http", 8080, WfpAction::Block).unwrap();
    let exported = engine.export_owned_filters().unwrap();
    let old_ids: Vec<u64> =
        engine.snapshot().unwrap().filters.iter().map(|f| f.id).collect();
    engine.close();

    // a freshly opened engine with no prior owned rules
    let mut fresh = Engine::open(EngineStore::new()).unwrap();
    fresh.import_filters(&exported).unwrap();
    let reexported = fresh.export_owned_filters().unwrap();

    assert_eq!(reexported.len(), exported.len());
    let mut before: Vec<(String, u16, &'static str)> =
        exported.iter().map(|c| (c.name.clone(), c.remote_port, c.action.as_str())).collect();
    let mut after: Vec<(String, u16, &'static str)> =
        reexported.iter().map(|c| (c.name.clone(), c.remote_port, c.action.as_str())).collect();
    before.sort();
    after.sort();
    assert_eq!(before, after);

    // identifiers are assigned anew and are not part of the exchange format
    let new_ids: Vec<u64> =
        fresh.snapshot().unwrap().filters.iter().map(|f| f.id).collect();
    assert_eq!(new_ids.len(), old_ids.len());
}

#[test]
fn export_of_fresh_engine_is_empty() {
    let engine = Engine::open(EngineStore::new()).unwrap();
    assert_eq!(engine.export_owned_filters().unwrap().len(), 0);
}

#[test]
fn import_under_open_transaction_fails() {
    let mut store = EngineStore::new();
    store.transaction_begin().unwrap();
    let mut engine = Engine::open(store).unwrap();
    let err = engine.import_filters(&vec![cfg("x", 80, WfpAction::Block)]).unwrap_err();
    assert_eq!(err, WfpError::TransactionError);
}

#[test]
fn reimport_duplicates_rules_rather_than_merging() {
    let mut engine = Engine::open(EngineStore::new()).unwrap();
    engine.add_simple_tcp_filter_v4("dns", 53, WfpAction::Permit).unwrap();
    let exported = engine.export_owned_filters().unwrap();
    engine.import_filters(&exported).unwrap();
    assert_eq!(engine.export_owned_filters().unwrap().len(), 2);
}
