//! The engine session: opens the engine, performs idempotent
//! self-registration of the tool's provider and sublayer, and carries every
//! rule mutation inside a begin/commit-or-abort transaction pair.
//!
//! The contracts here are the library's main statements: what each
//! operation does to the engine database on success, which error each input
//! draws, and that a failed mutation leaves the committed state untouched.

use vstd::prelude::*;
use crate::action::WfpAction;
use crate::catalog::collect_filters;
use crate::catalog::collect_layers;
use crate::catalog::collect_providers;
use crate::catalog::collect_sublayers;
use crate::config::ConfigV;
use crate::config::FilterConfig;
use crate::config::configs_view;
use crate::config::export_configs;
use crate::config::project_exported;
use crate::entry::EntityV;
use crate::entry::FilterEntry;
use crate::entry::FilterV;
use crate::entry::NamedEntity;
use crate::entry::spec_tcp_conditions;
use crate::entry::tcp_conditions;
use crate::error::WfpError;
use crate::ids::is_owned_by_tool;
use crate::ids::layer_ale_auth_connect_v4;
use crate::ids::provider_key;
use crate::ids::spec_is_owned;
use crate::ids::spec_layer_ale_auth_connect_v4;
use crate::ids::spec_provider_key;
use crate::ids::spec_sublayer_key;
use crate::ids::sublayer_key;
use crate::snapshot::FilterSummary;
use crate::snapshot::NamedGuid;
use crate::snapshot::Snapshot;
use crate::snapshot::entities_to_named;
use crate::snapshot::named_of_entity;
use crate::snapshot::named_view;
use crate::snapshot::snapshot_of;
use crate::snapshot::summaries_view;
use crate::snapshot::summary_of;
use crate::store::DbV;
use crate::store::EngineStore;
use crate::store::StoreV;
use crate::store::first_match;
use crate::store::has_entity;
use crate::store::lemma_cur_of_with_cur;
use crate::store::lemma_first_match_unique;
use crate::store::lemma_with_cur_compose;
use crate::store::lemma_with_cur_id;
use crate::store::no_filter_with_id;
use crate::store::with_cur;

verus! {

/// The fixed low-precedence weight of every rule this tool creates,
/// keeping tool rules below system defaults.
pub const RULE_WEIGHT: u64 = 10;

/// The tool's provider catalog entry, as registered.
pub open spec fn spec_provider_entity() -> EntityV {
    EntityV {
        key: spec_provider_key(),
        name: Some("SLS WFP Manager Provider"@),
        description: None,
    }
}

/// The tool's sublayer catalog entry, as registered.
pub open spec fn spec_sublayer_entity() -> EntityV {
    EntityV {
        key: spec_sublayer_key(),
        name: Some("SLS WFP Manager SubLayer"@),
        description: None,
    }
}

/// The database after idempotent self-registration: the tool's provider and
/// sublayer are appended where absent, and nothing else changes.
pub open spec fn with_registration(db: DbV) -> DbV {
    let db1 = if has_entity(db.providers, spec_provider_key()) {
        db
    } else {
        DbV { providers: db.providers.push(spec_provider_entity()), ..db }
    };
    if has_entity(db1.sublayers, spec_sublayer_key()) {
        db1
    } else {
        DbV { sublayers: db1.sublayers.push(spec_sublayer_entity()), ..db1 }
    }
}

/// Registration touches only the provider and sublayer catalogs.
pub proof fn lemma_with_registration_fields(db: DbV)
    ensures
        with_registration(db).layers == db.layers,
        with_registration(db).filters == db.filters,
        with_registration(db).next_filter_id == db.next_filter_id,
{
}

/// The rule this tool writes for (`name`, `port`, `action`) under
/// identifier `id`: two conditions, the fixed outbound-connect layer, the
/// tool's sublayer and provider, the fixed weight.
pub open spec fn spec_tcp_filter(id: u64, name: Seq<char>, port: u16, action: WfpAction) -> FilterV {
    FilterV {
        id,
        name: Some(name),
        layer_key: spec_layer_ale_auth_connect_v4(),
        sublayer_key: spec_sublayer_key(),
        provider_key: Some(spec_provider_key()),
        action_code: action.spec_to_fwpm(),
        conditions: spec_tcp_conditions(port),
        weight: RULE_WEIGHT,
        flags: 0,
    }
}

/// The database after one rule add under the next free identifier.
pub open spec fn db_with_rule(db: DbV, name: Seq<char>, port: u16, action: WfpAction) -> DbV {
    DbV {
        filters: db.filters.push(spec_tcp_filter(db.next_filter_id, name, port, action)),
        next_filter_id: (db.next_filter_id + 1) as u64,
        ..db
    }
}

/// The database after registration and one rule add.
pub open spec fn db_after_add(db: DbV, name: Seq<char>, port: u16, action: WfpAction) -> DbV {
    db_with_rule(with_registration(db), name, port, action)
}

/// The database after importing a batch of configs, in order.
pub open spec fn import_into(db: DbV, cfgs: Seq<ConfigV>) -> DbV
    decreases cfgs.len(),
{
    if cfgs.len() == 0 {
        db
    } else {
        let prev = import_into(db, cfgs.drop_last());
        let c = cfgs.last();
        db_with_rule(prev, c.name, c.remote_port, c.action)
    }
}

/// An import only appends rules: catalogs stay, the identifier counter
/// advances one per config.
pub proof fn lemma_import_into_shape(db: DbV, cfgs: Seq<ConfigV>)
    requires
        db.next_filter_id + cfgs.len() <= u64::MAX,
    ensures
        import_into(db, cfgs).next_filter_id == db.next_filter_id + cfgs.len(),
        import_into(db, cfgs).providers == db.providers,
        import_into(db, cfgs).sublayers == db.sublayers,
        import_into(db, cfgs).layers == db.layers,
        import_into(db, cfgs).filters.len() == db.filters.len() + cfgs.len(),
    decreases cfgs.len(),
{
    if cfgs.len() > 0 {
        lemma_import_into_shape(db, cfgs.drop_last());
    }
}

/// The updated form of an owned rule: name, port and action replaced;
/// layer, sublayer, weight and flags preserved; the provider re-associated
/// so an update can never drop the ownership tag.
pub open spec fn updated_rule(f: FilterV, name: Seq<char>, port: u16, action: WfpAction) -> FilterV {
    FilterV {
        id: f.id,
        name: Some(name),
        layer_key: f.layer_key,
        sublayer_key: f.sublayer_key,
        provider_key: Some(spec_provider_key()),
        action_code: action.spec_to_fwpm(),
        conditions: spec_tcp_conditions(port),
        weight: f.weight,
        flags: f.flags,
    }
}

/// The tool's provider catalog entry.
fn provider_entity() -> (e: NamedEntity)
    ensures
        e@ == spec_provider_entity(),
{
    let e = NamedEntity {
        key: provider_key(),
        name: Some(String::from_str("SLS WFP Manager Provider")),
        description: None,
    };
    proof {
        assert(e@ =~= spec_provider_entity());
    }
    e
}

/// The tool's sublayer catalog entry.
fn sublayer_entity() -> (e: NamedEntity)
    ensures
        e@ == spec_sublayer_entity(),
{
    let e = NamedEntity {
        key: sublayer_key(),
        name: Some(String::from_str("SLS WFP Manager SubLayer")),
        description: None,
    };
    proof {
        assert(e@ =~= spec_sublayer_entity());
    }
    e
}

/// Begins an atomic unit of work on the engine.
fn begin_transaction(store: &mut EngineStore) -> (r: Result<(), WfpError>)
    ensures
        match r {
            Ok(()) => old(store)@.pending is None && final(store)@ == (StoreV {
                committed: old(store)@.committed,
                pending: Some(old(store)@.committed),
            }),
            Err(e) => {
                &&& e == WfpError::TransactionError
                &&& old(store)@.pending is Some
                &&& final(store)@ == old(store)@
            },
        },
{
    match store.transaction_begin() {
        Ok(()) => Ok(()),
        Err(_) => Err(WfpError::TransactionError),
    }
}

/// Discards the open unit of work. Best-effort: an abort failure never
/// masks the error that led here, so this reports nothing.
fn abort_transaction(store: &mut EngineStore)
    ensures
        final(store)@ == (StoreV { committed: old(store)@.committed, pending: None }),
{
    store.transaction_abort();
}

/// Commits the unit of work if the wrapped operation succeeded, or aborts
/// and propagates the operation's own error.
fn finish_transaction<T>(store: &mut EngineStore, result: Result<T, WfpError>) -> (r: Result<
    T,
    WfpError,
>)
    ensures
        match result {
            Ok(v) => match r {
                Ok(v2) => {
                    &&& v2 == v
                    &&& old(store)@.pending is Some
                    &&& final(store)@ == (StoreV {
                        committed: old(store)@.pending.unwrap(),
                        pending: None,
                    })
                },
                Err(e) => {
                    &&& e == WfpError::TransactionError
                    &&& old(store)@.pending is None
                    &&& final(store)@ == old(store)@
                },
            },
            Err(e) => {
                &&& r == Err::<T, WfpError>(e)
                &&& final(store)@ == (StoreV { committed: old(store)@.committed, pending: None })
            },
        },
{
    match result {
        Ok(v) => match store.transaction_commit() {
            Ok(()) => Ok(v),
            Err(_) => Err(WfpError::TransactionError),
        },
        Err(e) => {
            abort_transaction(store);
            Err(e)
        },
    }
}

/// A live session against the engine. It owns the engine connection for its
/// lifetime and is closed exactly once, by [`Engine::close`].
pub struct Engine {
    pub store: EngineStore,
}

impl View for Engine {
    type V = StoreV;

    open spec fn view(&self) -> StoreV {
        self.store@
    }
}

impl Engine {
    /// Opens a session against the engine and immediately performs the
    /// idempotent self-registration of the tool's provider and sublayer:
    /// an already-registered pair is not an error, so a second open never
    /// fails on registration.
    pub fn open(store: EngineStore) -> (r: Result<Engine, WfpError>)
        ensures
            match r {
                Ok(eng) => eng@ == with_cur(store@, with_registration(store@.cur())),
                Err(_) => false,
            },
    {
        let mut eng = Engine { store };
        match eng.ensure_provider_setup() {
            Ok(()) => Ok(eng),
            Err(e) => Err(e),
        }
    }

    /// Closes the session, handing the engine back.
    pub fn close(self) -> (s: EngineStore)
        ensures
            s@ == self@,
    {
        self.store
    }

    /// Registers the tool's provider and sublayer, treating an
    /// already-existing entry as success.
    fn ensure_provider_setup(&mut self) -> (r: Result<(), WfpError>)
        ensures
            r is Ok,
            final(self)@ == with_cur(old(self)@, with_registration(old(self)@.cur())),
    {
        let ghost s0 = self@;
        let r1 = self.store.provider_add(provider_entity());
        let ghost s1 = self@;
        let r2 = self.store.sublayer_add(sublayer_entity());
        proof {
            let db0 = s0.cur();
            let db1 = if has_entity(db0.providers, spec_provider_key()) {
                db0
            } else {
                DbV { providers: db0.providers.push(spec_provider_entity()), ..db0 }
            };
            match r1 {
                Ok(()) => {
                    lemma_cur_of_with_cur(s0, db1);
                    assert(s1 == with_cur(s0, db1));
                },
                Err(_) => {
                    lemma_with_cur_id(s0);
                    assert(s1 == with_cur(s0, db1));
                },
            }
            assert(s1.cur() == db1) by {
                lemma_cur_of_with_cur(s0, db1);
            }
            let db2 = with_registration(db0);
            match r2 {
                Ok(()) => {
                    assert(self@ == with_cur(s1, db2)) by {
                        assert((DbV { sublayers: db1.sublayers.push(spec_sublayer_entity()), ..db1 })
                            =~= db2);
                    }
                },
                Err(_) => {
                    lemma_with_cur_id(s1);
                    assert(db1 =~= db2);
                    assert(self@ == with_cur(s1, db2));
                },
            }
            lemma_with_cur_compose(s0, db1, db2);
        }
        Ok(())
    }

    /// Creates a TCP remote-port rule under the tool's identity and returns
    /// the engine-assigned identifier. A zero port is rejected before
    /// anything is touched; the write happens inside a transaction.
    pub fn add_simple_tcp_filter_v4(&mut self, name: &str, remote_port: u16, action: WfpAction) -> (r:
        Result<u64, WfpError>)
        requires
            old(self)@.cur().next_filter_id < u64::MAX,
        ensures
            match r {
                Ok(id) => {
                    &&& remote_port != 0
                    &&& old(self)@.pending is None
                    &&& id == old(self)@.committed.next_filter_id
                    &&& final(self)@ == (StoreV {
                        committed: db_after_add(old(self)@.committed, name@, remote_port, action),
                        pending: None,
                    })
                },
                Err(WfpError::PortInvalid) => remote_port == 0 && final(self)@ == old(self)@,
                Err(WfpError::TransactionError) => {
                    &&& remote_port != 0
                    &&& old(self)@.pending is Some
                    &&& final(self)@ == with_cur(old(self)@, with_registration(old(self)@.cur()))
                },
                Err(_) => false,
            },
    {
        if remote_port == 0 {
            return Err(WfpError::PortInvalid);
        }
        let ghost s0 = self@;
        let ghost reg = with_registration(s0.cur());
        match self.ensure_provider_setup() {
            Ok(()) => {},
            Err(e) => {
                return Err(e);
            },
        }
        proof {
            lemma_with_registration_fields(s0.cur());
            lemma_cur_of_with_cur(s0, reg);
        }
        match begin_transaction(&mut self.store) {
            Ok(()) => {},
            Err(e) => {
                return Err(e);
            },
        }
        proof {
            // registration ran on the committed state: the session had no
            // open transaction, so the current database was the committed one
            assert(with_cur(s0, reg) == (StoreV { committed: reg, pending: None }));
        }
        let result = self.add_simple_tcp_filter_v4_inner(name, remote_port, action);
        let r = finish_transaction(&mut self.store, result);
        proof {
            assert(match r {
                Ok(id) => self@ == (StoreV {
                    committed: db_after_add(s0.committed, name@, remote_port, action),
                    pending: None,
                }),
                Err(_) => false,
            });
        }
        r
    }

    /// Builds and submits the rule definition; runs inside the caller's
    /// transaction.
    fn add_simple_tcp_filter_v4_inner(&mut self, name: &str, remote_port: u16, action: WfpAction) -> (r:
        Result<u64, WfpError>)
        requires
            old(self)@.cur().next_filter_id < u64::MAX,
        ensures
            match r {
                Ok(id) => {
                    &&& id == old(self)@.cur().next_filter_id
                    &&& final(self)@ == with_cur(
                        old(self)@,
                        db_with_rule(old(self)@.cur(), name@, remote_port, action),
                    )
                },
                Err(_) => false,
            },
    {
        let entry = FilterEntry {
            id: 0,
            name: Some(String::from_str(name)),
            layer_key: layer_ale_auth_connect_v4(),
            sublayer_key: sublayer_key(),
            provider_key: Some(provider_key()),
            action_code: action.to_fwpm(),
            conditions: tcp_conditions(remote_port),
            weight: RULE_WEIGHT,
            flags: 0,
        };
        let ghost ev = entry@;
        let id = self.store.filter_add(entry);
        proof {
            assert((FilterV { id, ..ev }) =~= spec_tcp_filter(id, name@, remote_port, action));
            assert((DbV {
                filters: old(self)@.cur().filters.push(FilterV { id, ..ev }),
                next_filter_id: (old(self)@.cur().next_filter_id + 1) as u64,
                ..old(self)@.cur()
            }) =~= db_with_rule(old(self)@.cur(), name@, remote_port, action));
        }
        Ok(id)
    }

    /// Rewrites an owned rule in place: new name, port and action; layer,
    /// sublayer, weight and flags kept; the provider key re-associated.
    /// The ownership check is a hard authorization gate: a rule this tool
    /// does not own is never touched and the call fails with `NotOwned`.
    pub fn update_simple_tcp_filter_v4(
        &mut self,
        id: u64,
        name: &str,
        remote_port: u16,
        action: WfpAction,
    ) -> (r: Result<(), WfpError>)
        ensures
            ({
                let reg = with_registration(old(self)@.cur());
                match r {
                    Ok(()) => {
                        &&& remote_port != 0
                        &&& old(self)@.pending is None
                        &&& exists|i: int|
                            #![auto]
                            {
                                &&& first_match(reg.filters, id, i)
                                &&& spec_is_owned(
                                    reg.filters[i].sublayer_key,
                                    reg.filters[i].provider_key,
                                )
                                &&& final(self)@ == (StoreV {
                                    committed: (DbV {
                                        filters: reg.filters.update(
                                            i,
                                            updated_rule(reg.filters[i], name@, remote_port, action),
                                        ),
                                        ..reg
                                    }),
                                    pending: None,
                                })
                            }
                    },
                    Err(WfpError::PortInvalid) => remote_port == 0 && final(self)@ == old(self)@,
                    Err(WfpError::TransactionError) => {
                        &&& remote_port != 0
                        &&& old(self)@.pending is Some
                        &&& final(self)@ == with_cur(old(self)@, reg)
                    },
                    Err(WfpError::NotFound { id: nid }) => {
                        &&& nid == id
                        &&& remote_port != 0
                        &&& old(self)@.pending is None
                        &&& no_filter_with_id(reg.filters, id)
                        &&& final(self)@ == (StoreV { committed: reg, pending: None })
                    },
                    Err(WfpError::NotOwned { id: nid }) => {
                        &&& nid == id
                        &&& remote_port != 0
                        &&& old(self)@.pending is None
                        &&& exists|i: int|
                            #![auto]
                            first_match(reg.filters, id, i) && !spec_is_owned(
                                reg.filters[i].sublayer_key,
                                reg.filters[i].provider_key,
                            )
                        &&& final(self)@ == (StoreV { committed: reg, pending: None })
                    },
                    Err(_) => false,
                }
            }),
    {
        if remote_port == 0 {
            return Err(WfpError::PortInvalid);
        }
        let ghost s0 = self@;
        let ghost reg = with_registration(s0.cur());
        match self.ensure_provider_setup() {
            Ok(()) => {},
            Err(e) => {
                return Err(e);
            },
        }
        match begin_transaction(&mut self.store) {
            Ok(()) => {},
            Err(e) => {
                return Err(e);
            },
        }
        proof {
            assert(with_cur(s0, reg) == (StoreV { committed: reg, pending: None }));
            assert(self@ == (StoreV { committed: reg, pending: Some(reg) }));
        }
        let found = match self.store.filter_get(id) {
            Some(f) => f,
            None => {
                abort_transaction(&mut self.store);
                return Err(WfpError::NotFound { id });
            },
        };
        let ghost fi = choose|i: int|
            #![auto]
            first_match(reg.filters, id, i) && found@ == reg.filters[i];
        let owned = is_owned_by_tool(found.sublayer_key, found.provider_key);
        if !owned {
            abort_transaction(&mut self.store);
            proof {
                assert(first_match(reg.filters, id, fi) && !spec_is_owned(
                    reg.filters[fi].sublayer_key,
                    reg.filters[fi].provider_key,
                ));
            }
            return Err(WfpError::NotOwned { id });
        }
        let updated = FilterEntry {
            id,
            name: Some(String::from_str(name)),
            layer_key: found.layer_key,
            sublayer_key: found.sublayer_key,
            provider_key: Some(provider_key()),
            action_code: action.to_fwpm(),
            conditions: tcp_conditions(remote_port),
            weight: found.weight,
            flags: found.flags,
        };
        let ghost uv = updated@;
        match self.store.filter_update(id, updated) {
            Ok(()) => {},
            Err(_) => {
                // a rule fetched under this transaction cannot have vanished
                proof {
                    assert(false);
                }
                abort_transaction(&mut self.store);
                return Err(WfpError::NotFound { id });
            },
        }
        proof {
            let j = choose|j: int|
                #![auto]
                first_match(reg.filters, id, j) && self@ == with_cur(
                    (StoreV { committed: reg, pending: Some(reg) }),
                    (DbV { filters: reg.filters.update(j, FilterV { id, ..uv }), ..reg }),
                );
            lemma_first_match_unique(reg.filters, id, fi, j);
            assert((FilterV { id, ..uv }) =~= updated_rule(reg.filters[fi], name@, remote_port, action));
        }
        let r = finish_transaction(&mut self.store, Ok(()));
        proof {
            assert(r is Ok);
            assert(first_match(reg.filters, id, fi) && spec_is_owned(
                reg.filters[fi].sublayer_key,
                reg.filters[fi].provider_key,
            ) && self@ == (StoreV {
                committed: (DbV {
                    filters: reg.filters.update(
                        fi,
                        updated_rule(reg.filters[fi], name@, remote_port, action),
                    ),
                    ..reg
                }),
                pending: None,
            }));
        }
        r
    }

    /// Deletes a rule by identifier, inside a transaction, after the same
    /// ownership gate as an update. A missing rule deliberately reads the
    /// same as a foreign one: `NotOwned`, so the caller cannot distinguish
    /// "doesn't exist" from "not mine".
    pub fn delete_filter_by_id(&mut self, id: u64) -> (r: Result<(), WfpError>)
        ensures
            match r {
                Ok(()) => {
                    &&& old(self)@.pending is None
                    &&& exists|i: int|
                        #![auto]
                        {
                            &&& first_match(old(self)@.committed.filters, id, i)
                            &&& spec_is_owned(
                                old(self)@.committed.filters[i].sublayer_key,
                                old(self)@.committed.filters[i].provider_key,
                            )
                            &&& final(self)@ == (StoreV {
                                committed: (DbV {
                                    filters: old(self)@.committed.filters.remove(i),
                                    ..old(self)@.committed
                                }),
                                pending: None,
                            })
                        }
                },
                Err(WfpError::TransactionError) => old(self)@.pending is Some && final(self)@
                    == old(self)@,
                Err(WfpError::NotOwned { id: nid }) => {
                    &&& nid == id
                    &&& old(self)@.pending is None
                    &&& final(self)@ == old(self)@
                    &&& (no_filter_with_id(old(self)@.committed.filters, id) || exists|i: int|
                        #![auto]
                        first_match(old(self)@.committed.filters, id, i) && !spec_is_owned(
                            old(self)@.committed.filters[i].sublayer_key,
                            old(self)@.committed.filters[i].provider_key,
                        ))
                },
                Err(_) => false,
            },
    {
        let ghost s0 = self@;
        match begin_transaction(&mut self.store) {
            Ok(()) => {},
            Err(e) => {
                return Err(e);
            },
        }
        let found = match self.store.filter_get(id) {
            Some(f) => Some(f),
            None => None,
        };
        let owned = match &found {
            Some(f) => is_owned_by_tool(f.sublayer_key, f.provider_key),
            None => false,
        };
        if !owned {
            abort_transaction(&mut self.store);
            proof {
                assert(self@ =~= s0);
            }
            return Err(WfpError::NotOwned { id });
        }
        let ghost fi = choose|i: int|
            #![auto]
            first_match(s0.committed.filters, id, i) && found.unwrap()@ == s0.committed.filters[i];
        match self.store.filter_delete(id) {
            Ok(()) => {},
            Err(_) => {
                // a rule fetched under this transaction cannot have vanished
                proof {
                    assert(false);
                }
                abort_transaction(&mut self.store);
                return Err(WfpError::NotOwned { id });
            },
        }
        proof {
            let j = choose|j: int|
                #![auto]
                first_match(s0.committed.filters, id, j) && self@ == with_cur(
                    (StoreV { committed: s0.committed, pending: Some(s0.committed) }),
                    (DbV { filters: s0.committed.filters.remove(j), ..s0.committed }),
                );
            lemma_first_match_unique(s0.committed.filters, id, fi, j);
        }
        let r = finish_transaction(&mut self.store, Ok(()));
        proof {
            assert(r is Ok);
            assert(first_match(s0.committed.filters, id, fi) && spec_is_owned(
                s0.committed.filters[fi].sublayer_key,
                s0.committed.filters[fi].provider_key,
            ) && self@ == (StoreV {
                committed: (DbV { filters: s0.committed.filters.remove(fi), ..s0.committed }),
                pending: None,
            }));
        }
        r
    }

    /// Applies every config of a batch inside one shared transaction: the
    /// first zero port aborts the whole batch, and on any failure the
    /// committed rule set holds none of the batch.
    pub fn import_filters(&mut self, configs: &Vec<FilterConfig>) -> (r: Result<(), WfpError>)
        requires
            old(self)@.cur().next_filter_id + configs@.len() <= u64::MAX,
        ensures
            ({
                let reg = with_registration(old(self)@.cur());
                let cfgs = configs_view(configs@);
                match r {
                    Ok(()) => {
                        &&& forall|k: int| 0 <= k < cfgs.len() ==> cfgs[k].remote_port != 0
                        &&& old(self)@.pending is None
                        &&& final(self)@ == (StoreV {
                            committed: import_into(reg, cfgs),
                            pending: None,
                        })
                    },
                    Err(WfpError::TransactionError) => {
                        &&& old(self)@.pending is Some
                        &&& final(self)@ == with_cur(old(self)@, reg)
                    },
                    Err(WfpError::PortInvalid) => {
                        &&& exists|k: int| 0 <= k < cfgs.len() && cfgs[k].remote_port == 0
                        &&& old(self)@.pending is None
                        &&& final(self)@ == (StoreV { committed: reg, pending: None })
                    },
                    Err(_) => false,
                }
            }),
    {
        let ghost s0 = self@;
        let ghost reg = with_registration(s0.cur());
        let ghost cfgs = configs_view(configs@);
        match self.ensure_provider_setup() {
            Ok(()) => {},
            Err(e) => {
                return Err(e);
            },
        }
        match begin_transaction(&mut self.store) {
            Ok(()) => {},
            Err(e) => {
                return Err(e);
            },
        }
        proof {
            assert(with_cur(s0, reg) == (StoreV { committed: reg, pending: None }));
            assert(self@ == (StoreV { committed: reg, pending: Some(reg) }));
            assert(cfgs.subrange(0, 0) =~= Seq::<ConfigV>::empty());
            lemma_with_registration_fields(s0.cur());
        }
        let mut idx: usize = 0;
        while idx < configs.len()
            invariant
                idx <= configs.len(),
                s0 == old(self)@,
                s0.pending is None,
                cfgs == configs_view(configs@),
                cfgs.len() == configs@.len(),
                reg == with_registration(s0.cur()),
                reg.next_filter_id + cfgs.len() <= u64::MAX,
                forall|k: int| 0 <= k < idx ==> cfgs[k].remote_port != 0,
                self@ == (StoreV {
                    committed: reg,
                    pending: Some(import_into(reg, cfgs.subrange(0, idx as int))),
                }),
            decreases configs.len() - idx,
        {
            let ghost pre = cfgs.subrange(0, idx as int);
            proof {
                lemma_import_into_shape(reg, pre);
            }
            let cfg = &configs[idx];
            if cfg.remote_port == 0 {
                abort_transaction(&mut self.store);
                proof {
                    assert(cfgs[idx as int] == configs@[idx as int]@);
                    assert(0 <= idx < cfgs.len() && cfgs[idx as int].remote_port == 0);
                    assert(self@ =~= (StoreV { committed: reg, pending: None }));
                }
                return Err(WfpError::PortInvalid);
            }
            let result = self.add_simple_tcp_filter_v4_inner(
                cfg.name.as_str(),
                cfg.remote_port,
                cfg.action,
            );
            match result {
                Ok(_) => {},
                Err(e) => {
                    // the submit step promises success once the port is checked
                    proof {
                        assert(false);
                    }
                    abort_transaction(&mut self.store);
                    return Err(e);
                },
            }
            proof {
                let post = cfgs.subrange(0, idx + 1);
                assert(post.drop_last() =~= pre);
                assert(post.last() == cfgs[idx as int]);
                assert(import_into(reg, post) == db_with_rule(
                    import_into(reg, pre),
                    cfgs[idx as int].name,
                    cfgs[idx as int].remote_port,
                    cfgs[idx as int].action,
                ));
            }
            idx = idx + 1;
        }
        proof {
            assert(cfgs.subrange(0, cfgs.len() as int) =~= cfgs);
        }
        finish_transaction(&mut self.store, Ok(()))
    }

    /// Collects the provider catalog with display names resolved.
    fn enumerate_providers(&self) -> (r: Result<Vec<NamedGuid>, WfpError>)
        ensures
            match r {
                Ok(v) => named_view(v@) == self@.cur().providers.map_values(
                    |e: EntityV| named_of_entity(e),
                ),
                Err(_) => false,
            },
    {
        let raw = collect_providers(&self.store);
        Ok(entities_to_named(&raw))
    }

    /// Collects the sublayer catalog with display names resolved.
    fn enumerate_sublayers(&self) -> (r: Result<Vec<NamedGuid>, WfpError>)
        ensures
            match r {
                Ok(v) => named_view(v@) == self@.cur().sublayers.map_values(
                    |e: EntityV| named_of_entity(e),
                ),
                Err(_) => false,
            },
    {
        let raw = collect_sublayers(&self.store);
        Ok(entities_to_named(&raw))
    }

    /// Collects the layer catalog with display names resolved.
    fn enumerate_layers(&self) -> (r: Result<Vec<NamedGuid>, WfpError>)
        ensures
            match r {
                Ok(v) => named_view(v@) == self@.cur().layers.map_values(
                    |e: EntityV| named_of_entity(e),
                ),
                Err(_) => false,
            },
    {
        let raw = collect_layers(&self.store);
        Ok(entities_to_named(&raw))
    }

    /// Collects every rule and resolves it against the three catalogs.
    fn list_filters(
        &self,
        layers: &Vec<NamedGuid>,
        sublayers: &Vec<NamedGuid>,
        providers: &Vec<NamedGuid>,
    ) -> (r: Result<Vec<FilterSummary>, WfpError>)
        ensures
            match r {
                Ok(v) => summaries_view(v@) == self@.cur().filters.map_values(
                    |f: FilterV|
                        summary_of(
                            f,
                            named_view(providers@),
                            named_view(sublayers@),
                            named_view(layers@),
                        ),
                ),
                Err(_) => false,
            },
    {
        let raw = collect_filters(&self.store);
        let out = crate::snapshot::assemble_summaries(&raw, providers, sublayers, layers);
        proof {
            assert(summaries_view(out@) =~= self@.cur().filters.map_values(
                |f: FilterV|
                    summary_of(
                        f,
                        named_view(providers@),
                        named_view(sublayers@),
                        named_view(layers@),
                    ),
            ));
        }
        Ok(out)
    }

    /// Builds a fresh, fully resolved snapshot of the whole database.
    pub fn snapshot(&self) -> (r: Result<Snapshot, WfpError>)
        ensures
            match r {
                Ok(s) => s@ == snapshot_of(self@.cur()),
                Err(_) => false,
            },
    {
        let providers = match self.enumerate_providers() {
            Ok(v) => v,
            Err(e) => {
                return Err(e);
            },
        };
        let sublayers = match self.enumerate_sublayers() {
            Ok(v) => v,
            Err(e) => {
                return Err(e);
            },
        };
        let layers = match self.enumerate_layers() {
            Ok(v) => v,
            Err(e) => {
                return Err(e);
            },
        };
        let filters = match self.list_filters(&layers, &sublayers, &providers) {
            Ok(v) => v,
            Err(e) => {
                return Err(e);
            },
        };
        let snap = Snapshot { filters, providers, sublayers, layers };
        proof {
            assert(snap@ =~= snapshot_of(self@.cur()));
        }
        Ok(snap)
    }

    /// Projects the owned rules that pin a remote port to the exchange
    /// format, in enumeration order.
    pub fn export_owned_filters(&self) -> (r: Result<Vec<FilterConfig>, WfpError>)
        ensures
            match r {
                Ok(v) => configs_view(v@) == export_configs(snapshot_of(self@.cur()).filters),
                Err(_) => false,
            },
    {
        let snap = match self.snapshot() {
            Ok(s) => s,
            Err(e) => {
                return Err(e);
            },
        };
        Ok(project_exported(&snap.filters))
    }
}

} // verus!
