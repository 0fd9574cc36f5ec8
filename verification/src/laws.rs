//! Laws that relate several operations, stated over the same spec
//! functions the operations' contracts use and proved once for all inputs.

use vstd::prelude::*;
use crate::action::lemma_action_code_round_trip;
use crate::config::ConfigV;
use crate::config::config_of_summary;
use crate::config::export_configs;
use crate::entry::lemma_tcp_conditions_port;
use crate::ids::spec_is_owned;
use crate::ids::spec_provider_key;
use crate::ids::spec_sublayer_key;
use crate::session::db_with_rule;
use crate::session::import_into;
use crate::session::spec_provider_entity;
use crate::session::spec_tcp_filter;
use crate::session::with_registration;
use crate::snapshot::SummaryV;
use crate::snapshot::snapshot_of;
use crate::snapshot::summary_of;
use crate::store::DbV;
use crate::store::StoreV;
use crate::store::has_entity;
use crate::store::lemma_cur_of_with_cur;
use crate::store::lemma_with_cur_id;
use crate::store::with_cur;

verus! {

/// Registering the tool's identity twice is the same as registering it
/// once: the second pass finds both entries present and adds nothing.
pub proof fn lemma_registration_idempotent(db: DbV)
    ensures
        with_registration(with_registration(db)) == with_registration(db),
{
    let r1 = with_registration(db);
    assert(has_entity(r1.providers, spec_provider_key())) by {
        if !has_entity(db.providers, spec_provider_key()) {
            let p = db.providers.push(spec_provider_entity());
            assert(p[p.len() - 1].key == spec_provider_key());
        }
    }
    assert(has_entity(r1.sublayers, spec_sublayer_key())) by {
        if has_entity(db.sublayers, spec_sublayer_key()) {
            let i = choose|i: int| 0 <= i < db.sublayers.len() && db.sublayers[i].key
                == spec_sublayer_key();
            assert(r1.sublayers[i].key == spec_sublayer_key());
        } else {
            assert(r1.sublayers[r1.sublayers.len() - 1].key == spec_sublayer_key());
        }
    }
    assert(with_registration(r1) =~= r1);
}

/// The engine image a session open settles on: the current database gains
/// the tool's registration, nothing else moves.
pub open spec fn opened(s: StoreV) -> StoreV {
    with_cur(s, with_registration(s.cur()))
}

/// Opening a session against an engine that an earlier open already
/// registered changes nothing: the second open finds the identity in place.
pub proof fn lemma_open_idempotent(s: StoreV)
    ensures
        opened(opened(s)) == opened(s),
{
    let s1 = opened(s);
    lemma_cur_of_with_cur(s, with_registration(s.cur()));
    lemma_registration_idempotent(s.cur());
    lemma_with_cur_id(s1);
}

/// A rule set with no owned rules exports nothing.
pub proof fn lemma_export_no_owned(fs: Seq<SummaryV>)
    requires
        forall|i: int| 0 <= i < fs.len() ==> !fs[i].owned_by_app,
    ensures
        export_configs(fs) == Seq::<ConfigV>::empty(),
    decreases fs.len(),
{
    if fs.len() > 0 {
        lemma_export_no_owned(fs.drop_last());
    }
}

/// Importing a batch into an engine that holds no owned rules and then
/// exporting gives back exactly the batch, row for row: every imported rule
/// is owned, pins its port, and projects to the config it came from.
pub proof fn lemma_import_then_export(db: DbV, cfgs: Seq<ConfigV>)
    requires
        forall|i: int|
            0 <= i < db.filters.len() ==> !spec_is_owned(
                db.filters[i].sublayer_key,
                db.filters[i].provider_key,
            ),
    ensures
        export_configs(snapshot_of(import_into(db, cfgs)).filters) == cfgs,
    decreases cfgs.len(),
{
    if cfgs.len() == 0 {
        let snap = snapshot_of(db).filters;
        assert forall|i: int| 0 <= i < snap.len() implies !snap[i].owned_by_app by {
            assert(snap[i] == summary_of(
                db.filters[i],
                snapshot_of(db).providers,
                snapshot_of(db).sublayers,
                snapshot_of(db).layers,
            ));
        }
        lemma_export_no_owned(snap);
        assert(export_configs(snapshot_of(import_into(db, cfgs)).filters) =~= cfgs);
    } else {
        let rest = cfgs.drop_last();
        let c = cfgs.last();
        lemma_import_then_export(db, rest);
        let prev = import_into(db, rest);
        let full = import_into(db, cfgs);
        let rule = spec_tcp_filter(prev.next_filter_id, c.name, c.remote_port, c.action);
        assert(full == db_with_rule(prev, c.name, c.remote_port, c.action));
        // catalogs are untouched by rule adds, so both snapshots resolve
        // against the same name maps
        let provs = snapshot_of(prev).providers;
        let subs = snapshot_of(prev).sublayers;
        let lays = snapshot_of(prev).layers;
        assert(snapshot_of(full).providers == provs);
        assert(snapshot_of(full).sublayers == subs);
        assert(snapshot_of(full).layers == lays);
        let snap_prev = snapshot_of(prev).filters;
        let snap_full = snapshot_of(full).filters;
        assert(snap_full =~= snap_prev.push(summary_of(rule, provs, subs, lays)));
        let s = summary_of(rule, provs, subs, lays);
        lemma_tcp_conditions_port(c.remote_port);
        lemma_action_code_round_trip(c.action);
        assert(s.owned_by_app && s.remote_port is Some);
        assert(config_of_summary(s) =~= c);
        assert(snap_full.drop_last() =~= snap_prev);
        assert(export_configs(snap_full) =~= cfgs);
    }
}

/// Round trip: exporting one engine's owned rules and importing them into
/// an engine that holds no owned rules yields owned rules that export to
/// exactly the same (name, port, action) rows again.
pub proof fn lemma_export_import_round_trip(source: DbV, fresh: DbV)
    requires
        forall|i: int|
            0 <= i < fresh.filters.len() ==> !spec_is_owned(
                fresh.filters[i].sublayer_key,
                fresh.filters[i].provider_key,
            ),
    ensures
        export_configs(
            snapshot_of(
                import_into(fresh, export_configs(snapshot_of(source).filters)),
            ).filters,
        ) == export_configs(snapshot_of(source).filters),
{
    lemma_import_then_export(fresh, export_configs(snapshot_of(source).filters));
}

} // verus!
