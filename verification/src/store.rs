//! The in-memory model of the filtering engine's database.
//!
//! [`EngineStore`] holds the slice of engine state this tool reads and
//! writes: the provider, sublayer and layer catalogs, the rule set, and at
//! most one open transaction. A transaction is a full copy of the database;
//! writes land in the copy, a commit publishes it, an abort discards it, so
//! no partial write is ever visible outside a transaction boundary.
//!
//! The primitives here mirror the calls the tool makes against the platform
//! engine: add/get/update/delete of rules, idempotency-signalling adds of
//! providers and sublayers, transaction begin/commit/abort, and bounded
//! catalog pages read through a cursor.

use vstd::prelude::*;
use crate::entry::FilterEntry;
use crate::entry::FilterV;
use crate::entry::NamedEntity;
use crate::entry::EntityV;
use crate::entry::clone_filter_entry;
use crate::entry::clone_named_entity;
use crate::ids::Guid;
use crate::ids::layer_ale_auth_connect_v4;

verus! {

/// Status a store primitive reports, standing for the engine's raw codes.
#[derive(Clone, Copy, Debug, PartialEq, Eq, Structural)]
pub enum StoreError {
    /// The entity being added already exists (idempotent registration path).
    AlreadyExists,
    /// No entry with the given identifier exists.
    NotFound,
    /// A transaction is already open on this session.
    TransactionBusy,
    /// No transaction is open.
    NoTransaction,
}

/// The engine database: three named catalogs and the rule set.
pub struct Db {
    pub providers: Vec<NamedEntity>,
    pub sublayers: Vec<NamedEntity>,
    pub layers: Vec<NamedEntity>,
    pub filters: Vec<FilterEntry>,
    pub next_filter_id: u64,
}

/// Mathematical image of the database.
#[verifier::ext_equal]
pub struct DbV {
    pub providers: Seq<EntityV>,
    pub sublayers: Seq<EntityV>,
    pub layers: Seq<EntityV>,
    pub filters: Seq<FilterV>,
    pub next_filter_id: u64,
}

/// The images of a catalog's entries.
pub open spec fn entities_view(s: Seq<NamedEntity>) -> Seq<EntityV> {
    s.map_values(|e: NamedEntity| e@)
}

/// The images of the stored rules.
pub open spec fn filters_view(s: Seq<FilterEntry>) -> Seq<FilterV> {
    s.map_values(|e: FilterEntry| e@)
}

impl View for Db {
    type V = DbV;

    open spec fn view(&self) -> DbV {
        DbV {
            providers: entities_view(self.providers@),
            sublayers: entities_view(self.sublayers@),
            layers: entities_view(self.layers@),
            filters: filters_view(self.filters@),
            next_filter_id: self.next_filter_id,
        }
    }
}

/// Whether a catalog holds an entity under `key`.
pub open spec fn has_entity(s: Seq<EntityV>, key: Guid) -> bool {
    exists|i: int| 0 <= i < s.len() && s[i].key == key
}

/// Whether the rule set holds a rule with identifier `id`.
pub open spec fn no_filter_with_id(s: Seq<FilterV>, id: u64) -> bool {
    forall|j: int| 0 <= j < s.len() ==> s[j].id != id
}

/// `i` is the position of the first rule with identifier `id`.
pub open spec fn first_match(s: Seq<FilterV>, id: u64, i: int) -> bool {
    &&& 0 <= i < s.len()
    &&& s[i].id == id
    &&& forall|j: int| 0 <= j < i ==> s[j].id != id
}

impl Db {
    /// Position of the first rule with identifier `id`, if any.
    fn find_filter_pos(&self, id: u64) -> (r: Option<usize>)
        ensures
            match r {
                Some(i) => first_match(self@.filters, id, i as int),
                None => no_filter_with_id(self@.filters, id),
            },
    {
        let mut i: usize = 0;
        while i < self.filters.len()
            invariant
                i <= self.filters.len(),
                forall|j: int| 0 <= j < i ==> self@.filters[j].id != id,
            decreases self.filters.len() - i,
        {
            if self.filters[i].id == id {
                return Some(i);
            }
            i = i + 1;
        }
        None
    }

    /// Whether a catalog vector holds an entity under `key`.
    fn catalog_has_key(catalog: &Vec<NamedEntity>, key: Guid) -> (r: bool)
        ensures
            r == has_entity(entities_view(catalog@), key),
    {
        let mut i: usize = 0;
        while i < catalog.len()
            invariant
                i <= catalog.len(),
                forall|j: int| 0 <= j < i ==> entities_view(catalog@)[j].key != key,
            decreases catalog.len() - i,
        {
            if catalog[i].key == key {
                assert(entities_view(catalog@)[i as int].key == key);
                return true;
            }
            i = i + 1;
        }
        false
    }

    /// Registers a provider; reports `AlreadyExists` if the key is taken.
    pub fn provider_add(&mut self, e: NamedEntity) -> (r: Result<(), StoreError>)
        ensures
            match r {
                Ok(()) => !has_entity(old(self)@.providers, e@.key) && final(self)@ == (DbV {
                    providers: old(self)@.providers.push(e@),
                    ..old(self)@
                }),
                Err(err) => {
                    &&& err == StoreError::AlreadyExists
                    &&& has_entity(old(self)@.providers, e@.key)
                    &&& final(self)@ == old(self)@
                },
            },
    {
        if Self::catalog_has_key(&self.providers, e.key) {
            Err(StoreError::AlreadyExists)
        } else {
            self.providers.push(e);
            proof {
                assert(self@ =~= (DbV { providers: old(self)@.providers.push(e@), ..old(self)@ }));
            }
            Ok(())
        }
    }

    /// Registers a sublayer; reports `AlreadyExists` if the key is taken.
    pub fn sublayer_add(&mut self, e: NamedEntity) -> (r: Result<(), StoreError>)
        ensures
            match r {
                Ok(()) => !has_entity(old(self)@.sublayers, e@.key) && final(self)@ == (DbV {
                    sublayers: old(self)@.sublayers.push(e@),
                    ..old(self)@
                }),
                Err(err) => {
                    &&& err == StoreError::AlreadyExists
                    &&& has_entity(old(self)@.sublayers, e@.key)
                    &&& final(self)@ == old(self)@
                },
            },
    {
        if Self::catalog_has_key(&self.sublayers, e.key) {
            Err(StoreError::AlreadyExists)
        } else {
            self.sublayers.push(e);
            proof {
                assert(self@ =~= (DbV { sublayers: old(self)@.sublayers.push(e@), ..old(self)@ }));
            }
            Ok(())
        }
    }

    /// Stores a rule under a fresh engine-assigned identifier and returns it.
    pub fn filter_add(&mut self, e: FilterEntry) -> (id: u64)
        requires
            old(self).next_filter_id < u64::MAX,
        ensures
            id == old(self)@.next_filter_id,
            final(self)@ == (DbV {
                filters: old(self)@.filters.push(FilterV { id, ..e@ }),
                next_filter_id: (old(self)@.next_filter_id + 1) as u64,
                ..old(self)@
            }),
    {
        let id = self.next_filter_id;
        self.next_filter_id = id + 1;
        let mut stored = e;
        stored.id = id;
        self.filters.push(stored);
        proof {
            assert(self@ =~= (DbV {
                filters: old(self)@.filters.push(FilterV { id, ..e@ }),
                next_filter_id: (old(self)@.next_filter_id + 1) as u64,
                ..old(self)@
            }));
        }
        id
    }

    /// Fetches a copy of the rule with identifier `id`, if it exists.
    pub fn filter_get(&self, id: u64) -> (r: Option<FilterEntry>)
        ensures
            match r {
                Some(e) => exists|i: int|
                    #![auto]
                    first_match(self@.filters, id, i) && e@ == self@.filters[i],
                None => no_filter_with_id(self@.filters, id),
            },
    {
        match self.find_filter_pos(id) {
            Some(i) => {
                let e = clone_filter_entry(&self.filters[i]);
                proof {
                    assert(first_match(self@.filters, id, i as int) && e@ == self@.filters[i as int]);
                }
                Some(e)
            },
            None => None,
        }
    }

    /// Replaces the rule with identifier `id`, keeping that identifier.
    pub fn filter_update(&mut self, id: u64, e: FilterEntry) -> (r: Result<(), StoreError>)
        ensures
            match r {
                Ok(()) => exists|i: int|
                    #![auto]
                    first_match(old(self)@.filters, id, i) && final(self)@ == (DbV {
                        filters: old(self)@.filters.update(i, FilterV { id, ..e@ }),
                        ..old(self)@
                    }),
                Err(err) => {
                    &&& err == StoreError::NotFound
                    &&& no_filter_with_id(old(self)@.filters, id)
                    &&& final(self)@ == old(self)@
                },
            },
    {
        match self.find_filter_pos(id) {
            Some(i) => {
                let mut stored = e;
                stored.id = id;
                self.filters.set(i, stored);
                proof {
                    assert(self@ =~= (DbV {
                        filters: old(self)@.filters.update(i as int, FilterV { id, ..e@ }),
                        ..old(self)@
                    }));
                }
                Ok(())
            },
            None => Err(StoreError::NotFound),
        }
    }

    /// Removes the rule with identifier `id`.
    pub fn filter_delete(&mut self, id: u64) -> (r: Result<(), StoreError>)
        ensures
            match r {
                Ok(()) => exists|i: int|
                    #![auto]
                    first_match(old(self)@.filters, id, i) && final(self)@ == (DbV {
                        filters: old(self)@.filters.remove(i),
                        ..old(self)@
                    }),
                Err(err) => {
                    &&& err == StoreError::NotFound
                    &&& no_filter_with_id(old(self)@.filters, id)
                    &&& final(self)@ == old(self)@
                },
            },
    {
        match self.find_filter_pos(id) {
            Some(i) => {
                self.filters.remove(i);
                proof {
                    assert(self@ =~= (DbV {
                        filters: old(self)@.filters.remove(i as int),
                        ..old(self)@
                    }));
                }
                Ok(())
            },
            None => Err(StoreError::NotFound),
        }
    }
}

/// Copies a catalog vector, keeping the image of every entry.
fn clone_entities(v: &Vec<NamedEntity>) -> (r: Vec<NamedEntity>)
    ensures
        entities_view(r@) == entities_view(v@),
{
    let mut r: Vec<NamedEntity> = Vec::new();
    let mut i: usize = 0;
    while i < v.len()
        invariant
            i <= v.len(),
            r@.len() == i,
            forall|j: int| 0 <= j < i ==> r@[j]@ == v@[j]@,
        decreases v.len() - i,
    {
        r.push(clone_named_entity(&v[i]));
        i = i + 1;
    }
    proof {
        assert(entities_view(r@) =~= entities_view(v@));
    }
    r
}

/// Copies the rule vector, keeping the image of every rule.
fn clone_filters(v: &Vec<FilterEntry>) -> (r: Vec<FilterEntry>)
    ensures
        filters_view(r@) == filters_view(v@),
{
    let mut r: Vec<FilterEntry> = Vec::new();
    let mut i: usize = 0;
    while i < v.len()
        invariant
            i <= v.len(),
            r@.len() == i,
            forall|j: int| 0 <= j < i ==> r@[j]@ == v@[j]@,
        decreases v.len() - i,
    {
        r.push(clone_filter_entry(&v[i]));
        i = i + 1;
    }
    proof {
        assert(filters_view(r@) =~= filters_view(v@));
    }
    r
}

/// Copies a database, keeping its image.
pub fn clone_db(db: &Db) -> (r: Db)
    ensures
        r@ == db@,
{
    let r = Db {
        providers: clone_entities(&db.providers),
        sublayers: clone_entities(&db.sublayers),
        layers: clone_entities(&db.layers),
        filters: clone_filters(&db.filters),
        next_filter_id: db.next_filter_id,
    };
    proof {
        assert(r@ =~= db@);
    }
    r
}

/// The engine: a committed database and at most one open transaction.
pub struct EngineStore {
    pub committed: Db,
    pub pending: Option<Db>,
}

/// Mathematical image of the engine.
#[verifier::ext_equal]
pub struct StoreV {
    pub committed: DbV,
    pub pending: Option<DbV>,
}

impl StoreV {
    /// The database this session's reads and writes currently land on: the
    /// open transaction's copy if there is one, else the committed state.
    pub open spec fn cur(self) -> DbV {
        match self.pending {
            Some(p) => p,
            None => self.committed,
        }
    }
}

impl View for EngineStore {
    type V = StoreV;

    open spec fn view(&self) -> StoreV {
        StoreV {
            committed: self.committed@,
            pending: match self.pending {
                Some(ref db) => Some(db@),
                None => None,
            },
        }
    }
}

/// The engine image with the current database replaced by `db`.
pub open spec fn with_cur(s: StoreV, db: DbV) -> StoreV {
    match s.pending {
        Some(_) => StoreV { committed: s.committed, pending: Some(db) },
        None => StoreV { committed: db, pending: None },
    }
}

/// A cursor over one catalog, created per enumeration and dropped with it.
pub struct EnumCursor {
    pub pos: usize,
}

impl EngineStore {
    /// A fresh engine: empty catalogs but for the one built-in layer this
    /// tool places rules at, no rules, no open transaction.
    pub fn new() -> (s: EngineStore)
        ensures
            s@.pending is None,
            s@.committed.providers.len() == 0,
            s@.committed.sublayers.len() == 0,
            s@.committed.filters.len() == 0,
            s@.committed.next_filter_id == 1,
            s@.committed.layers == entities_view(Seq::<NamedEntity>::empty().push(
                NamedEntity {
                    key: layer_ale_auth_connect_v4(),
                    name: None,
                    description: None,
                },
            )),
            s@.committed.layers.len() == 1,
            s@.committed.layers[0].key == layer_ale_auth_connect_v4(),
            s@.committed.layers[0].name is None,
    {
        let mut layers: Vec<NamedEntity> = Vec::new();
        layers.push(NamedEntity { key: layer_ale_auth_connect_v4(), name: None, description: None });
        EngineStore {
            committed: Db {
                providers: Vec::new(),
                sublayers: Vec::new(),
                layers,
                filters: Vec::new(),
                next_filter_id: 1,
            },
            pending: None,
        }
    }

    /// A read-only handle on the current database.
    pub fn cur_ref(&self) -> (db: &Db)
        ensures
            db@ == self@.cur(),
    {
        match &self.pending {
            Some(db) => db,
            None => &self.committed,
        }
    }

    /// A writable handle on the current database.
    fn cur_mut(&mut self) -> (db: &mut Db)
        ensures
            db@ == old(self)@.cur(),
            final(self)@ == with_cur(old(self)@, final(db)@),
    {
        match &mut self.pending {
            Some(db) => db,
            None => &mut self.committed,
        }
    }

    /// Begins a transaction: fails if one is already open, otherwise copies
    /// the committed database for the writes to land on.
    pub fn transaction_begin(&mut self) -> (r: Result<(), StoreError>)
        ensures
            match r {
                Ok(()) => {
                    &&& old(self)@.pending is None
                    &&& final(self)@ == (StoreV {
                        committed: old(self)@.committed,
                        pending: Some(old(self)@.committed),
                    })
                },
                Err(err) => {
                    &&& err == StoreError::TransactionBusy
                    &&& old(self)@.pending is Some
                    &&& final(self)@ == old(self)@
                },
            },
    {
        match &self.pending {
            Some(_) => Err(StoreError::TransactionBusy),
            None => {
                let copy = clone_db(&self.committed);
                self.pending = Some(copy);
                proof {
                    assert(self@ =~= (StoreV {
                        committed: old(self)@.committed,
                        pending: Some(old(self)@.committed),
                    }));
                }
                Ok(())
            },
        }
    }

    /// Commits the open transaction, publishing its database.
    pub fn transaction_commit(&mut self) -> (r: Result<(), StoreError>)
        ensures
            match r {
                Ok(()) => {
                    &&& old(self)@.pending is Some
                    &&& final(self)@ == (StoreV {
                        committed: old(self)@.pending.unwrap(),
                        pending: None,
                    })
                },
                Err(err) => {
                    &&& err == StoreError::NoTransaction
                    &&& old(self)@.pending is None
                    &&& final(self)@ == old(self)@
                },
            },
    {
        match self.pending.take() {
            Some(db) => {
                self.committed = db;
                proof {
                    assert(self@ =~= (StoreV {
                        committed: old(self)@.pending.unwrap(),
                        pending: None,
                    }));
                }
                Ok(())
            },
            None => {
                proof {
                    assert(self@ =~= old(self)@);
                }
                Err(StoreError::NoTransaction)
            },
        }
    }

    /// Discards the open transaction, if any. Best-effort: never fails.
    pub fn transaction_abort(&mut self)
        ensures
            final(self)@ == (StoreV { committed: old(self)@.committed, pending: None }),
    {
        self.pending = None;
        proof {
            assert(self@ =~= (StoreV { committed: old(self)@.committed, pending: None }));
        }
    }

    /// Registers a provider in the current database.
    pub fn provider_add(&mut self, e: NamedEntity) -> (r: Result<(), StoreError>)
        ensures
            match r {
                Ok(()) => !has_entity(old(self)@.cur().providers, e@.key) && final(self)@
                    == with_cur(
                    old(self)@,
                    (DbV { providers: old(self)@.cur().providers.push(e@), ..old(self)@.cur() }),
                ),
                Err(err) => {
                    &&& err == StoreError::AlreadyExists
                    &&& has_entity(old(self)@.cur().providers, e@.key)
                    &&& final(self)@ == old(self)@
                },
            },
    {
        let db = self.cur_mut();
        let r = db.provider_add(e);
        proof {
            lemma_with_cur_id(old(self)@);
        }
        r
    }

    /// Registers a sublayer in the current database.
    pub fn sublayer_add(&mut self, e: NamedEntity) -> (r: Result<(), StoreError>)
        ensures
            match r {
                Ok(()) => !has_entity(old(self)@.cur().sublayers, e@.key) && final(self)@
                    == with_cur(
                    old(self)@,
                    (DbV { sublayers: old(self)@.cur().sublayers.push(e@), ..old(self)@.cur() }),
                ),
                Err(err) => {
                    &&& err == StoreError::AlreadyExists
                    &&& has_entity(old(self)@.cur().sublayers, e@.key)
                    &&& final(self)@ == old(self)@
                },
            },
    {
        let db = self.cur_mut();
        let r = db.sublayer_add(e);
        proof {
            lemma_with_cur_id(old(self)@);
        }
        r
    }

    /// Stores a rule in the current database under a fresh identifier.
    pub fn filter_add(&mut self, e: FilterEntry) -> (id: u64)
        requires
            old(self)@.cur().next_filter_id < u64::MAX,
        ensures
            id == old(self)@.cur().next_filter_id,
            final(self)@ == with_cur(
                old(self)@,
                (DbV {
                    filters: old(self)@.cur().filters.push(FilterV { id, ..e@ }),
                    next_filter_id: (old(self)@.cur().next_filter_id + 1) as u64,
                    ..old(self)@.cur()
                }),
            ),
    {
        let db = self.cur_mut();
        db.filter_add(e)
    }

    /// Fetches a copy of the rule with identifier `id` from the current
    /// database, if it exists.
    pub fn filter_get(&self, id: u64) -> (r: Option<FilterEntry>)
        ensures
            match r {
                Some(e) => exists|i: int|
                    #![auto]
                    first_match(self@.cur().filters, id, i) && e@ == self@.cur().filters[i],
                None => no_filter_with_id(self@.cur().filters, id),
            },
    {
        self.cur_ref().filter_get(id)
    }

    /// Replaces the rule with identifier `id` in the current database.
    pub fn filter_update(&mut self, id: u64, e: FilterEntry) -> (r: Result<(), StoreError>)
        ensures
            match r {
                Ok(()) => exists|i: int|
                    #![auto]
                    first_match(old(self)@.cur().filters, id, i) && final(self)@ == with_cur(
                        old(self)@,
                        (DbV {
                            filters: old(self)@.cur().filters.update(i, FilterV { id, ..e@ }),
                            ..old(self)@.cur()
                        }),
                    ),
                Err(err) => {
                    &&& err == StoreError::NotFound
                    &&& no_filter_with_id(old(self)@.cur().filters, id)
                    &&& final(self)@ == old(self)@
                },
            },
    {
        let db = self.cur_mut();
        let r = db.filter_update(id, e);
        proof {
            lemma_with_cur_id(old(self)@);
        }
        r
    }

    /// Removes the rule with identifier `id` from the current database.
    pub fn filter_delete(&mut self, id: u64) -> (r: Result<(), StoreError>)
        ensures
            match r {
                Ok(()) => exists|i: int|
                    #![auto]
                    first_match(old(self)@.cur().filters, id, i) && final(self)@ == with_cur(
                        old(self)@,
                        (DbV { filters: old(self)@.cur().filters.remove(i), ..old(self)@.cur() }),
                    ),
                Err(err) => {
                    &&& err == StoreError::NotFound
                    &&& no_filter_with_id(old(self)@.cur().filters, id)
                    &&& final(self)@ == old(self)@
                },
            },
    {
        let db = self.cur_mut();
        let r = db.filter_delete(id);
        proof {
            lemma_with_cur_id(old(self)@);
        }
        r
    }

    /// Creates a cursor over the provider catalog.
    pub fn provider_enum_begin(&self) -> (c: EnumCursor)
        ensures
            c.pos == 0,
    {
        EnumCursor { pos: 0 }
    }

    /// Creates a cursor over the sublayer catalog.
    pub fn sublayer_enum_begin(&self) -> (c: EnumCursor)
        ensures
            c.pos == 0,
    {
        EnumCursor { pos: 0 }
    }

    /// Creates a cursor over the layer catalog.
    pub fn layer_enum_begin(&self) -> (c: EnumCursor)
        ensures
            c.pos == 0,
    {
        EnumCursor { pos: 0 }
    }

    /// Creates a cursor over the rule set.
    pub fn filter_enum_begin(&self) -> (c: EnumCursor)
        ensures
            c.pos == 0,
    {
        EnumCursor { pos: 0 }
    }

    /// Reads the next page, at most `max` entries, of the provider catalog.
    pub fn provider_page(&self, cursor: &mut EnumCursor, max: usize) -> (page: Vec<NamedEntity>)
        ensures
            page_post(
                self@.cur().providers.len(),
                old(cursor).pos,
                max,
                final(cursor).pos,
                page@.len(),
            ),
            entities_view(page@) == self@.cur().providers.subrange(
                page_start(self@.cur().providers.len(), old(cursor).pos),
                final(cursor).pos as int,
            ),
    {
        entity_page(&self.cur_ref().providers, cursor, max)
    }

    /// Reads the next page, at most `max` entries, of the sublayer catalog.
    pub fn sublayer_page(&self, cursor: &mut EnumCursor, max: usize) -> (page: Vec<NamedEntity>)
        ensures
            page_post(
                self@.cur().sublayers.len(),
                old(cursor).pos,
                max,
                final(cursor).pos,
                page@.len(),
            ),
            entities_view(page@) == self@.cur().sublayers.subrange(
                page_start(self@.cur().sublayers.len(), old(cursor).pos),
                final(cursor).pos as int,
            ),
    {
        entity_page(&self.cur_ref().sublayers, cursor, max)
    }

    /// Reads the next page, at most `max` entries, of the layer catalog.
    pub fn layer_page(&self, cursor: &mut EnumCursor, max: usize) -> (page: Vec<NamedEntity>)
        ensures
            page_post(
                self@.cur().layers.len(),
                old(cursor).pos,
                max,
                final(cursor).pos,
                page@.len(),
            ),
            entities_view(page@) == self@.cur().layers.subrange(
                page_start(self@.cur().layers.len(), old(cursor).pos),
                final(cursor).pos as int,
            ),
    {
        entity_page(&self.cur_ref().layers, cursor, max)
    }

    /// Reads the next page, at most `max` entries, of the rule set.
    pub fn filter_page(&self, cursor: &mut EnumCursor, max: usize) -> (page: Vec<FilterEntry>)
        ensures
            page_post(
                self@.cur().filters.len(),
                old(cursor).pos,
                max,
                final(cursor).pos,
                page@.len(),
            ),
            filters_view(page@) == self@.cur().filters.subrange(
                page_start(self@.cur().filters.len(), old(cursor).pos),
                final(cursor).pos as int,
            ),
    {
        filter_entry_page(&self.cur_ref().filters, cursor, max)
    }
}

/// The position a page actually starts at: a cursor past the end is clipped.
pub open spec fn page_start(len: nat, pos: usize) -> int {
    vstd::math::min(pos as int, len as int)
}

/// How a page read moves the cursor: it returns entries from the clipped
/// start position, as many as remain up to `max`, and advances the cursor
/// past them.
pub open spec fn page_post(len: nat, pos: usize, max: usize, new_pos: usize, n: nat) -> bool {
    let start = page_start(len, pos);
    &&& n == vstd::math::min(max as int, len - start)
    &&& new_pos == start + n
}

/// Reads one bounded page out of a catalog vector.
fn entity_page(catalog: &Vec<NamedEntity>, cursor: &mut EnumCursor, max: usize) -> (page: Vec<
    NamedEntity,
>)
    ensures
        page_post(catalog@.len(), old(cursor).pos, max, final(cursor).pos, page@.len()),
        entities_view(page@) == entities_view(catalog@).subrange(
            page_start(catalog@.len(), old(cursor).pos),
            final(cursor).pos as int,
        ),
{
    let len = catalog.len();
    let mut pos: usize = cursor.pos;
    if pos > len {
        pos = len;
    }
    let ghost start = pos as int;
    let mut page: Vec<NamedEntity> = Vec::new();
    while page.len() < max && pos < len
        invariant
            start <= pos <= len,
            len == catalog@.len(),
            page@.len() == pos - start,
            page@.len() <= max,
            forall|j: int| 0 <= j < page@.len() ==> page@[j]@ == catalog@[start + j]@,
        decreases len - pos,
    {
        page.push(clone_named_entity(&catalog[pos]));
        pos = pos + 1;
    }
    cursor.pos = pos;
    proof {
        assert(entities_view(page@) =~= entities_view(catalog@).subrange(start, pos as int));
    }
    page
}

/// Reads one bounded page out of the rule vector.
fn filter_entry_page(filters: &Vec<FilterEntry>, cursor: &mut EnumCursor, max: usize) -> (page: Vec<
    FilterEntry,
>)
    ensures
        page_post(filters@.len(), old(cursor).pos, max, final(cursor).pos, page@.len()),
        filters_view(page@) == filters_view(filters@).subrange(
            page_start(filters@.len(), old(cursor).pos),
            final(cursor).pos as int,
        ),
{
    let len = filters.len();
    let mut pos: usize = cursor.pos;
    if pos > len {
        pos = len;
    }
    let ghost start = pos as int;
    let mut page: Vec<FilterEntry> = Vec::new();
    while page.len() < max && pos < len
        invariant
            start <= pos <= len,
            len == filters@.len(),
            page@.len() == pos - start,
            page@.len() <= max,
            forall|j: int| 0 <= j < page@.len() ==> page@[j]@ == filters@[start + j]@,
        decreases len - pos,
    {
        page.push(clone_filter_entry(&filters[pos]));
        pos = pos + 1;
    }
    cursor.pos = pos;
    proof {
        assert(filters_view(page@) =~= filters_view(filters@).subrange(start, pos as int));
    }
    page
}

/// Catalog images distribute over concatenation.
pub proof fn lemma_entities_view_concat(a: Seq<NamedEntity>, b: Seq<NamedEntity>)
    ensures
        entities_view(a + b) == entities_view(a) + entities_view(b),
{
    assert(entities_view(a + b) =~= entities_view(a) + entities_view(b));
}

/// Rule images distribute over concatenation.
pub proof fn lemma_filters_view_concat(a: Seq<FilterEntry>, b: Seq<FilterEntry>)
    ensures
        filters_view(a + b) == filters_view(a) + filters_view(b),
{
    assert(filters_view(a + b) =~= filters_view(a) + filters_view(b));
}

/// Replacing the current database by itself changes nothing.
pub proof fn lemma_with_cur_id(s: StoreV)
    ensures
        with_cur(s, s.cur()) == s,
{
    match s.pending {
        Some(p) => {
            assert(with_cur(s, s.cur()) =~= s);
        },
        None => {
            assert(with_cur(s, s.cur()) =~= s);
        },
    }
}

/// The current database after replacing it is what it was replaced with.
pub proof fn lemma_cur_of_with_cur(s: StoreV, d: DbV)
    ensures
        with_cur(s, d).cur() == d,
{
}

/// Replacing the current database twice keeps only the second replacement.
pub proof fn lemma_with_cur_compose(s: StoreV, d1: DbV, d2: DbV)
    ensures
        with_cur(with_cur(s, d1), d2) == with_cur(s, d2),
{
    match s.pending {
        Some(_) => {
            assert(with_cur(with_cur(s, d1), d2) =~= with_cur(s, d2));
        },
        None => {
            assert(with_cur(with_cur(s, d1), d2) =~= with_cur(s, d2));
        },
    }
}

/// Two first-match positions for the same identifier coincide.
pub proof fn lemma_first_match_unique(s: Seq<FilterV>, id: u64, i: int, j: int)
    requires
        first_match(s, id, i),
        first_match(s, id, j),
    ensures
        i == j,
{
    if i < j {
        assert(s[i].id == id);
    } else if j < i {
        assert(s[j].id == id);
    }
}

} // verus!
