//! Snapshot assembler: joins the enumerated rule set against the provider,
//! sublayer and layer catalogs to produce a fully resolved, human-readable
//! view, and derives the ownership flag of every rule.
//!
//! Resolution never fails: an identifier no catalog entry names falls back
//! to its dashed hexadecimal text (or, for a missing provider, to a fixed
//! placeholder), so a rule with an unrecognized reference still displays.

use vstd::prelude::*;
use crate::action::WfpAction;
use crate::action::action_of_code;
use crate::action::spec_action_of_code;
use crate::entry::EntityV;
use crate::entry::FilterEntry;
use crate::entry::FilterV;
use crate::entry::NamedEntity;
use crate::entry::clone_opt_string;
use crate::entry::opt_text;
use crate::entry::remote_port_of;
use crate::entry::scan_remote_port;
use crate::ids::Guid;
use crate::ids::guid_text;
use crate::ids::guid_to_text;
use crate::ids::is_owned_by_tool;
use crate::ids::spec_is_owned;
use crate::store::DbV;
use crate::store::entities_view;

verus! {

/// A catalog entry with its display name resolved.
pub struct NamedGuid {
    pub key: Guid,
    pub name: String,
    pub description: Option<String>,
}

/// Mathematical image of a resolved catalog entry.
#[verifier::ext_equal]
pub struct NamedGuidV {
    pub key: Guid,
    pub name: Seq<char>,
    pub description: Option<Seq<char>>,
}

impl View for NamedGuid {
    type V = NamedGuidV;

    open spec fn view(&self) -> NamedGuidV {
        NamedGuidV { key: self.key, name: self.name@, description: opt_text(self.description) }
    }
}

/// One rule of the snapshot, fully resolved.
pub struct FilterSummary {
    pub id: u64,
    pub name: String,
    pub layer: String,
    pub layer_key: Guid,
    pub sublayer: String,
    pub sublayer_key: Guid,
    pub provider: String,
    pub provider_key: Option<Guid>,
    pub action: WfpAction,
    pub remote_port: Option<u16>,
    pub owned_by_app: bool,
}

/// Mathematical image of a resolved rule.
#[verifier::ext_equal]
pub struct SummaryV {
    pub id: u64,
    pub name: Seq<char>,
    pub layer: Seq<char>,
    pub layer_key: Guid,
    pub sublayer: Seq<char>,
    pub sublayer_key: Guid,
    pub provider: Seq<char>,
    pub provider_key: Option<Guid>,
    pub action: WfpAction,
    pub remote_port: Option<u16>,
    pub owned_by_app: bool,
}

impl View for FilterSummary {
    type V = SummaryV;

    open spec fn view(&self) -> SummaryV {
        SummaryV {
            id: self.id,
            name: self.name@,
            layer: self.layer@,
            layer_key: self.layer_key,
            sublayer: self.sublayer@,
            sublayer_key: self.sublayer_key,
            provider: self.provider@,
            provider_key: self.provider_key,
            action: self.action,
            remote_port: self.remote_port,
            owned_by_app: self.owned_by_app,
        }
    }
}

/// A point-in-time aggregate of the whole rule database, built fresh on
/// every read and never incrementally updated.
pub struct Snapshot {
    pub filters: Vec<FilterSummary>,
    pub providers: Vec<NamedGuid>,
    pub sublayers: Vec<NamedGuid>,
    pub layers: Vec<NamedGuid>,
}

/// Mathematical image of a snapshot.
#[verifier::ext_equal]
pub struct SnapshotV {
    pub filters: Seq<SummaryV>,
    pub providers: Seq<NamedGuidV>,
    pub sublayers: Seq<NamedGuidV>,
    pub layers: Seq<NamedGuidV>,
}

impl View for Snapshot {
    type V = SnapshotV;

    open spec fn view(&self) -> SnapshotV {
        SnapshotV {
            filters: summaries_view(self.filters@),
            providers: named_view(self.providers@),
            sublayers: named_view(self.sublayers@),
            layers: named_view(self.layers@),
        }
    }
}

/// The images of a list of resolved catalog entries.
pub open spec fn named_view(s: Seq<NamedGuid>) -> Seq<NamedGuidV> {
    s.map_values(|e: NamedGuid| e@)
}

/// The images of a list of resolved rules.
pub open spec fn summaries_view(s: Seq<FilterSummary>) -> Seq<SummaryV> {
    s.map_values(|e: FilterSummary| e@)
}

/// Display text of an optionally named catalog entity.
pub open spec fn spec_display_name(name: Option<Seq<char>>) -> Seq<char> {
    match name {
        Some(n) => n,
        None => "<unnamed>"@,
    }
}

/// Resolves an entity's display name, with the catalog fallback.
pub fn display_name(name: &Option<String>) -> (r: String)
    ensures
        r@ == spec_display_name(opt_text(*name)),
{
    match name {
        Some(s) => s.clone(),
        None => String::from_str("<unnamed>"),
    }
}

/// Copies an entity's optional description.
pub fn display_description(description: &Option<String>) -> (r: Option<String>)
    ensures
        opt_text(r) == opt_text(*description),
{
    clone_opt_string(description)
}

/// Display text of an optionally named rule.
pub open spec fn spec_filter_display_name(name: Option<Seq<char>>) -> Seq<char> {
    match name {
        Some(n) => n,
        None => "<no name>"@,
    }
}

/// Resolves a rule's display name, with the rule fallback.
pub fn filter_display_name(name: &Option<String>) -> (r: String)
    ensures
        r@ == spec_filter_display_name(opt_text(*name)),
{
    match name {
        Some(s) => s.clone(),
        None => String::from_str("<no name>"),
    }
}

/// The resolved form of a raw catalog entity.
pub open spec fn named_of_entity(e: EntityV) -> NamedGuidV {
    NamedGuidV { key: e.key, name: spec_display_name(e.name), description: e.description }
}

/// Resolves one raw catalog entity.
pub fn to_named_guid(e: &NamedEntity) -> (r: NamedGuid)
    ensures
        r@ == named_of_entity(e@),
{
    let r = NamedGuid {
        key: e.key,
        name: display_name(&e.name),
        description: display_description(&e.description),
    };
    proof {
        assert(r@ =~= named_of_entity(e@));
    }
    r
}

/// Resolves a whole raw catalog.
pub fn entities_to_named(v: &Vec<NamedEntity>) -> (out: Vec<NamedGuid>)
    ensures
        named_view(out@) == entities_view(v@).map_values(|e: EntityV| named_of_entity(e)),
{
    let mut out: Vec<NamedGuid> = Vec::new();
    let mut i: usize = 0;
    while i < v.len()
        invariant
            i <= v.len(),
            out@.len() == i,
            forall|j: int| 0 <= j < i ==> out@[j]@ == named_of_entity(v@[j]@),
        decreases v.len() - i,
    {
        out.push(to_named_guid(&v[i]));
        i = i + 1;
    }
    proof {
        assert(named_view(out@) =~= entities_view(v@).map_values(|e: EntityV| named_of_entity(e)));
    }
    out
}

/// The name the first entry under `key` carries, if any entry does.
pub open spec fn lookup_name(list: Seq<NamedGuidV>, key: Guid) -> Option<Seq<char>>
    decreases list.len(),
{
    if list.len() == 0 {
        None
    } else if list[0].key == key {
        Some(list[0].name)
    } else {
        lookup_name(list.drop_first(), key)
    }
}

/// Finds the display name registered under `key`.
pub fn find_name(list: &Vec<NamedGuid>, key: Guid) -> (r: Option<String>)
    ensures
        opt_text(r) == lookup_name(named_view(list@), key),
{
    let ghost full = named_view(list@);
    proof {
        assert(full.subrange(0, full.len() as int) =~= full);
    }
    let mut i: usize = 0;
    while i < list.len()
        invariant
            i <= list.len(),
            full == named_view(list@),
            lookup_name(full, key) == lookup_name(full.subrange(i as int, full.len() as int), key),
        decreases list.len() - i,
    {
        let ghost suffix = full.subrange(i as int, full.len() as int);
        if list[i].key == key {
            let r = Some(list[i].name.clone());
            proof {
                assert(suffix[0] == full[i as int]);
                assert(lookup_name(suffix, key) == Some(full[i as int].name));
            }
            return r;
        }
        proof {
            assert(suffix[0] == full[i as int]);
            assert(suffix.drop_first() =~= full.subrange(i + 1, full.len() as int));
        }
        i = i + 1;
    }
    proof {
        assert(full.subrange(full.len() as int, full.len() as int).len() == 0);
    }
    None
}

/// A reference resolved against a catalog, falling back to the raw key text.
pub open spec fn resolve_or_key_text(list: Seq<NamedGuidV>, key: Guid) -> Seq<char> {
    match lookup_name(list, key) {
        Some(n) => n,
        None => guid_text(key),
    }
}

/// Resolves a layer or sublayer reference for display.
pub fn resolve_name_or_key(list: &Vec<NamedGuid>, key: Guid) -> (r: String)
    ensures
        r@ == resolve_or_key_text(named_view(list@), key),
{
    match find_name(list, key) {
        Some(n) => n,
        None => guid_to_text(key),
    }
}

/// A provider reference resolved against the provider catalog; an absent or
/// unknown provider reads as a fixed placeholder.
pub open spec fn resolve_provider_name(list: Seq<NamedGuidV>, provider: Option<Guid>) -> Seq<char> {
    match provider {
        Some(k) => match lookup_name(list, k) {
            Some(n) => n,
            None => "<unknown provider>"@,
        },
        None => "<unknown provider>"@,
    }
}

/// Resolves a rule's provider reference for display.
pub fn resolve_provider(list: &Vec<NamedGuid>, provider: Option<Guid>) -> (r: String)
    ensures
        r@ == resolve_provider_name(named_view(list@), provider),
{
    match provider {
        Some(k) => match find_name(list, k) {
            Some(n) => n,
            None => String::from_str("<unknown provider>"),
        },
        None => String::from_str("<unknown provider>"),
    }
}

/// The fully resolved view of one stored rule: names joined against the
/// three catalogs, the action decoded, the pinned remote port extracted,
/// and the ownership flag derived from the ownership predicate.
pub open spec fn summary_of(
    f: FilterV,
    provs: Seq<NamedGuidV>,
    subs: Seq<NamedGuidV>,
    lays: Seq<NamedGuidV>,
) -> SummaryV {
    SummaryV {
        id: f.id,
        name: spec_filter_display_name(f.name),
        layer: resolve_or_key_text(lays, f.layer_key),
        layer_key: f.layer_key,
        sublayer: resolve_or_key_text(subs, f.sublayer_key),
        sublayer_key: f.sublayer_key,
        provider: resolve_provider_name(provs, f.provider_key),
        provider_key: f.provider_key,
        action: spec_action_of_code(f.action_code),
        remote_port: remote_port_of(f.conditions),
        owned_by_app: spec_is_owned(f.sublayer_key, f.provider_key),
    }
}

/// Resolves one stored rule against the three catalogs.
pub fn summarize(
    f: &FilterEntry,
    providers: &Vec<NamedGuid>,
    sublayers: &Vec<NamedGuid>,
    layers: &Vec<NamedGuid>,
) -> (s: FilterSummary)
    ensures
        s@ == summary_of(f@, named_view(providers@), named_view(sublayers@), named_view(layers@)),
{
    let s = FilterSummary {
        id: f.id,
        name: filter_display_name(&f.name),
        layer: resolve_name_or_key(layers, f.layer_key),
        layer_key: f.layer_key,
        sublayer: resolve_name_or_key(sublayers, f.sublayer_key),
        sublayer_key: f.sublayer_key,
        provider: resolve_provider(providers, f.provider_key),
        provider_key: f.provider_key,
        action: action_of_code(f.action_code),
        remote_port: scan_remote_port(&f.conditions),
        owned_by_app: is_owned_by_tool(f.sublayer_key, f.provider_key),
    };
    proof {
        assert(s@ =~= summary_of(
            f@,
            named_view(providers@),
            named_view(sublayers@),
            named_view(layers@),
        ));
    }
    s
}

/// Resolves the whole rule set against the three catalogs.
pub fn assemble_summaries(
    filters: &Vec<FilterEntry>,
    providers: &Vec<NamedGuid>,
    sublayers: &Vec<NamedGuid>,
    layers: &Vec<NamedGuid>,
) -> (out: Vec<FilterSummary>)
    ensures
        summaries_view(out@) == crate::store::filters_view(filters@).map_values(
            |f: FilterV|
                summary_of(
                    f,
                    named_view(providers@),
                    named_view(sublayers@),
                    named_view(layers@),
                ),
        ),
{
    let mut out: Vec<FilterSummary> = Vec::new();
    let mut i: usize = 0;
    while i < filters.len()
        invariant
            i <= filters.len(),
            out@.len() == i,
            forall|j: int|
                0 <= j < i ==> out@[j]@ == summary_of(
                    filters@[j]@,
                    named_view(providers@),
                    named_view(sublayers@),
                    named_view(layers@),
                ),
        decreases filters.len() - i,
    {
        out.push(summarize(&filters[i], providers, sublayers, layers));
        i = i + 1;
    }
    proof {
        assert(summaries_view(out@) =~= crate::store::filters_view(filters@).map_values(
            |f: FilterV|
                summary_of(
                    f,
                    named_view(providers@),
                    named_view(sublayers@),
                    named_view(layers@),
                ),
        ));
    }
    out
}

/// The snapshot a database resolves to.
pub open spec fn snapshot_of(db: DbV) -> SnapshotV {
    let provs = db.providers.map_values(|e: EntityV| named_of_entity(e));
    let subs = db.sublayers.map_values(|e: EntityV| named_of_entity(e));
    let lays = db.layers.map_values(|e: EntityV| named_of_entity(e));
    SnapshotV {
        filters: db.filters.map_values(|f: FilterV| summary_of(f, provs, subs, lays)),
        providers: provs,
        sublayers: subs,
        layers: lays,
    }
}

} // verus!
