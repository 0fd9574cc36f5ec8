//! Session-level behaviour: the add/update/delete flow and the ownership
//! gate.

use wfp_manager::Engine;
use wfp_manager::EngineStore;
use wfp_manager::WfpAction;
use wfp_manager::WfpError;
use wfp_manager::entry::CondValue;
use wfp_manager::entry::Condition;
use wfp_manager::entry::FilterEntry;
use wfp_manager::ids::Guid;
use wfp_manager::ids::condition_ip_remote_port;
use wfp_manager::ids::layer_ale_auth_connect_v4;
use wfp_manager::ids::provider_key;
use wfp_manager::ids::sublayer_key;

fn foreign_filter(sublayer: Guid, provider: Option<Guid>, port: u16) -> FilterEntry {
    FilterEntry {
        id: 0,
        name: Some(String::from("someone else's rule")),
        layer_key: layer_ale_auth_connect_v4(),
        sublayer_key: sublayer,
        provider_key: provider,
        action_code: 0x1002,
        conditions: vec![
            Condition { field_key: condition_ip_remote_port(), value: CondValue::Uint16(port) },
        ],
        weight: 3,
        flags: 0,
    }
}

#[test]
fn scenario_block_smb() {
    let store = EngineStore::new();
    let mut engine = Engine::open(store).unwrap();

    let id = engine.add_simple_tcp_filter_v4("Block SMB", 445, WfpAction::Block).unwrap();

    let snap = engine.snapshot().unwrap();
    let owned: Vec<_> = snap.filters.iter().filter(|f| f.owned_by_app).collect();
    assert_eq!(owned.len(), 1);
    assert_eq!(owned[0].id, id);
    assert_eq!(owned[0].name, "Block SMB");
    assert_eq!(owned[0].remote_port, Some(445));
    assert_eq!(owned[0].action, WfpAction::Block);
    assert!(owned[0].owned_by_app);

    engine.delete_filter_by_id(id).unwrap();
    let snap = engine.snapshot().unwrap();
    assert_eq!(snap.filters.iter().filter(|f| f.owned_by_app).count(), 0);
}

#[test]
fn add_assigns_fresh_ids() {
    let mut engine = Engine::open(EngineStore::new()).unwrap();
    let a = engine.add_simple_tcp_filter_v4("a", 80, WfpAction::Permit).unwrap();
    let b = engine.add_simple_tcp_filter_v4("b", 443, WfpAction::Block).unwrap();
    assert_ne!(a, b);
    let snap = engine.snapshot().unwrap();
    assert_eq!(snap.filters.len(), 2);
}

#[test]
fn add_rejects_port_zero() {
    let mut engine = Engine::open(EngineStore::new()).unwrap();
    let err = engine.add_simple_tcp_filter_v4("bad", 0, WfpAction::Block).unwrap_err();
    assert_eq!(err, WfpError::PortInvalid);
    let snap = engine.snapshot().unwrap();
    assert_eq!(snap.filters.len(), 0);
}

#[test]
fn update_rewrites_owned_rule() {
    let mut engine = Engine::open(EngineStore::new()).unwrap();
    let id = engine.add_simple_tcp_filter_v4("web", 80, WfpAction::Permit).unwrap();
    engine.update_simple_tcp_filter_v4(id, "web tls", 443, WfpAction::Block).unwrap();
    let snap = engine.snapshot().unwrap();
    assert_eq!(snap.filters.len(), 1);
    let f = &snap.filters[0];
    assert_eq!(f.id, id);
    assert_eq!(f.name, "web tls");
    assert_eq!(f.remote_port, Some(443));
    assert_eq!(f.action, WfpAction::Block);
    assert!(f.owned_by_app);
}

#[test]
fn update_missing_rule_is_not_found() {
    let mut engine = Engine::open(EngineStore::new()).unwrap();
    let err = engine.update_simple_tcp_filter_v4(99, "x", 80, WfpAction::Permit).unwrap_err();
    assert_eq!(err, WfpError::NotFound { id: 99 });
}

#[test]
fn update_rejects_port_zero() {
    let mut engine = Engine::open(EngineStore::new()).unwrap();
    let id = engine.add_simple_tcp_filter_v4("web", 80, WfpAction::Permit).unwrap();
    let err = engine.update_simple_tcp_filter_v4(id, "web", 0, WfpAction::Permit).unwrap_err();
    assert_eq!(err, WfpError::PortInvalid);
    let snap = engine.snapshot().unwrap();
    assert_eq!(snap.filters[0].remote_port, Some(80));
}

#[test]
fn delete_missing_rule_reads_as_not_owned() {
    let mut engine = Engine::open(EngineStore::new()).unwrap();
    let err = engine.delete_filter_by_id(7).unwrap_err();
    assert_eq!(err, WfpError::NotOwned { id: 7 });
}

#[test]
fn ownership_gate_blocks_update_of_foreign_rule() {
    let mut store = EngineStore::new();
    let other = Guid { hi: 0x1111_2222_3333_4444, lo: 0x5555_6666_7777_8888 };
    let id = store.filter_add(foreign_filter(other, Some(other), 22));
    let mut engine = Engine::open(store).unwrap();
    let err = engine.update_simple_tcp_filter_v4(id, "mine now", 23, WfpAction::Block).unwrap_err();
    assert_eq!(err, WfpError::NotOwned { id });
    let snap = engine.snapshot().unwrap();
    let f = snap.filters.iter().find(|f| f.id == id).unwrap();
    assert_eq!(f.name, "someone else's rule");
    assert_eq!(f.remote_port, Some(22));
    assert!(!f.owned_by_app);
}

#[test]
fn ownership_gate_blocks_delete_of_foreign_rule() {
    let mut store = EngineStore::new();
    let other = Guid { hi: 0xdead_0000_0000_0000, lo: 1 };
    let id = store.filter_add(foreign_filter(other, Some(other), 25));
    let mut engine = Engine::open(store).unwrap();
    let err = engine.delete_filter_by_id(id).unwrap_err();
    assert_eq!(err, WfpError::NotOwned { id });
    let snap = engine.snapshot().unwrap();
    assert!(snap.filters.iter().any(|f| f.id == id));
}

#[test]
fn sublayer_match_alone_is_not_ownership() {
    // right sublayer, absent provider: not owned
    let mut store = EngineStore::new();
    let id = store.filter_add(foreign_filter(sublayer_key(), None, 53));
    let mut engine = Engine::open(store).unwrap();
    let err = engine.delete_filter_by_id(id).unwrap_err();
    assert_eq!(err, WfpError::NotOwned { id });
    let snap = engine.snapshot().unwrap();
    assert!(!snap.filters.iter().find(|f| f.id == id).unwrap().owned_by_app);
}

#[test]
fn provider_match_alone_is_not_ownership() {
    // right provider, wrong sublayer: not owned
    let mut store = EngineStore::new();
    let other = Guid { hi: 42, lo: 43 };
    let id = store.filter_add(foreign_filter(other, Some(provider_key()), 53));
    let mut engine = Engine::open(store).unwrap();
    let err = engine.update_simple_tcp_filter_v4(id, "take over", 54, WfpAction::Permit).unwrap_err();
    assert_eq!(err, WfpError::NotOwned { id });
}

#[test]
fn open_transaction_blocks_mutations() {
    let mut store = EngineStore::new();
    store.transaction_begin().unwrap();
    let mut engine = Engine::open(store).unwrap();
    let err = engine.add_simple_tcp_filter_v4("x", 80, WfpAction::Block).unwrap_err();
    assert_eq!(err, WfpError::TransactionError);
    let err = engine.delete_filter_by_id(1).unwrap_err();
    assert_eq!(err, WfpError::TransactionError);
}

#[test]
fn update_preserves_layer_weight_and_flags() {
    let mut store = EngineStore::new();
    let other_layer = Guid { hi: 77, lo: 78 };
    // an owned rule that sits at a different layer with its own weight
    let id = store.filter_add(FilterEntry {
        id: 0,
        name: Some(String::from("old name")),
        layer_key: other_layer,
        sublayer_key: sublayer_key(),
        provider_key: Some(provider_key()),
        action_code: 0x1002,
        conditions: vec![
            Condition { field_key: condition_ip_remote_port(), value: CondValue::Uint16(21) },
        ],
        weight: 77,
        flags: 5,
    });
    let mut engine = Engine::open(store).unwrap();
    engine.update_simple_tcp_filter_v4(id, "new name", 2121, WfpAction::Block).unwrap();
    let store = engine.close();
    let db = store.cur_ref();
    let f = db.filters.iter().find(|f| f.id == id).unwrap();
    assert_eq!(f.name.as_deref(), Some("new name"));
    assert_eq!(f.layer_key, other_layer);
    assert_eq!(f.sublayer_key, sublayer_key());
    assert_eq!(f.weight, 77);
    assert_eq!(f.flags, 5);
    // the update re-associates the provider key: ownership is never dropped
    assert_eq!(f.provider_key, Some(provider_key()));
}

#[test]
fn close_returns_the_engine() {
    let store = EngineStore::new();
    let mut engine = Engine::open(store).unwrap();
    engine.add_simple_tcp_filter_v4("keep", 8080, WfpAction::Permit).unwrap();
    let store = engine.close();
    let engine = Engine::open(store).unwrap();
    let snap = engine.snapshot().unwrap();
    assert_eq!(snap.filters.len(), 1);
    assert_eq!(snap.filters[0].name, "keep");
}
