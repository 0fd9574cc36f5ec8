//! Enumeration completeness across page boundaries, snapshot name
//! resolution and its fallbacks, and the identity registration.

use std::collections::HashSet;

use wfp_manager::Engine;
use wfp_manager::EngineStore;
use wfp_manager::Guid;
use wfp_manager::WfpAction;
use wfp_manager::entry::FilterEntry;
use wfp_manager::entry::NamedEntity;
use wfp_manager::ids::guid_to_text;
use wfp_manager::ids::provider_key;
use wfp_manager::ids::sublayer_key;

fn engine_with_n_rules(n: u16) -> Engine {
    let mut engine = Engine::open(EngineStore::new()).unwrap();
    for i in 1..=n {
        engine
            .add_simple_tcp_filter_v4(&format!("rule {i}"), i, WfpAction::Block)
            .unwrap();
    }
    engine
}

fn assert_complete(n: u16) {
    let engine = engine_with_n_rules(n);
    let snap = engine.snapshot().unwrap();
    assert_eq!(snap.filters.len(), n as usize);
    let ids: HashSet<u64> = snap.filters.iter().map(|f| f.id).collect();
    assert_eq!(ids.len(), n as usize, "every entry exactly once");
    let ports: HashSet<u16> = snap.filters.iter().map(|f| f.remote_port.unwrap()).collect();
    assert_eq!(ports.len(), n as usize);
}

#[test]
fn enumeration_below_page_boundary() {
    assert_complete(127);
}

#[test]
fn enumeration_at_page_boundary() {
    assert_complete(128);
}

#[test]
fn enumeration_just_past_page_boundary() {
    assert_complete(129);
}

#[test]
fn enumeration_over_two_pages() {
    assert_complete(300);
}

#[test]
fn open_registers_provider_and_sublayer_once() {
    let engine = Engine::open(EngineStore::new()).unwrap();
    let store = engine.close();

    // a second open finds the identity already registered and adds nothing
    let engine = Engine::open(store).unwrap();
    let snap = engine.snapshot().unwrap();
    let provs: Vec<_> =
        snap.providers.iter().filter(|p| p.key == provider_key()).collect();
    assert_eq!(provs.len(), 1);
    assert_eq!(provs[0].name, "SLS WFP Manager Provider");
    let subs: Vec<_> =
        snap.sublayers.iter().filter(|s| s.key == sublayer_key()).collect();
    assert_eq!(subs.len(), 1);
    assert_eq!(subs[0].name, "SLS WFP Manager SubLayer");
}

#[test]
fn snapshot_resolves_names_through_catalogs() {
    let mut engine = Engine::open(EngineStore::new()).unwrap();
    engine.add_simple_tcp_filter_v4("named", 99, WfpAction::Permit).unwrap();
    let snap = engine.snapshot().unwrap();
    let f = &snap.filters[0];
    assert_eq!(f.provider, "SLS WFP Manager Provider");
    assert_eq!(f.sublayer, "SLS WFP Manager SubLayer");
    assert_eq!(f.provider_key, Some(provider_key()));
    assert_eq!(f.sublayer_key, sublayer_key());
}

#[test]
fn snapshot_falls_back_for_unresolved_references() {
    let mut store = EngineStore::new();
    let strange = Guid { hi: 0x0123_4567_89ab_cdef, lo: 0xfedc_ba98_7654_3210 };
    let id = store.filter_add(FilterEntry {
        id: 0,
        name: None,
        layer_key: strange,
        sublayer_key: strange,
        provider_key: None,
        action_code: 0x9999,
        conditions: Vec::new(),
        weight: 0,
        flags: 0,
    });
    let engine = Engine::open(store).unwrap();
    let snap = engine.snapshot().unwrap();
    let f = snap.filters.iter().find(|f| f.id == id).unwrap();
    assert_eq!(f.name, "<no name>");
    assert_eq!(f.layer, "01234567-89ab-cdef-fedc-ba9876543210");
    assert_eq!(f.sublayer, "01234567-89ab-cdef-fedc-ba9876543210");
    assert_eq!(f.provider, "<unknown provider>");
    // a rule with an unrecognized action code reads as a callout action
    assert_eq!(f.action, WfpAction::Callout);
    assert_eq!(f.remote_port, None);
    assert!(!f.owned_by_app);
}

#[test]
fn snapshot_names_unnamed_entities() {
    let mut store = EngineStore::new();
    store
        .provider_add(NamedEntity { key: Guid { hi: 5, lo: 6 }, name: None, description: None })
        .unwrap();
    let engine = Engine::open(store).unwrap();
    let snap = engine.snapshot().unwrap();
    let p = snap.providers.iter().find(|p| p.key == (Guid { hi: 5, lo: 6 })).unwrap();
    assert_eq!(p.name, "<unnamed>");
    // the built-in layer of the fresh store carries no display name
    assert_eq!(snap.layers.len(), 1);
    assert_eq!(snap.layers[0].name, "<unnamed>");
}

#[test]
fn guid_text_is_dashed_lowercase_hex() {
    assert_eq!(
        guid_to_text(provider_key()),
        "d9f1c5f7-13be-4f2b-b501-e4f07bdb6d93"
    );
    assert_eq!(
        guid_to_text(sublayer_key()),
        "5d2b9e18-ea68-4a38-93c7-83f3f14f0a01"
    );
    assert_eq!(
        guid_to_text(Guid { hi: 0, lo: 0 }),
        "00000000-0000-0000-0000-000000000000"
    );
}

#[test]
fn action_labels() {
    assert_eq!(WfpAction::Permit.as_str(), "Permit");
    assert_eq!(WfpAction::Block.as_str(), "Block");
    assert_eq!(WfpAction::Callout.as_str(), "Callout");
}
