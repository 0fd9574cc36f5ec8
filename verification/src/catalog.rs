//! Catalog enumerator: pages through the engine's provider, sublayer, layer
//! and rule collections.
//!
//! Each enumeration follows one protocol: create a cursor, repeatedly read a
//! bounded page until a page comes back empty, and let the cursor go with
//! the scope. The contracts state completeness: the collected sequence is
//! the whole catalog, every entry exactly once, wherever the page boundaries
//! fall.

use vstd::prelude::*;
use crate::entry::FilterEntry;
use crate::entry::NamedEntity;
use crate::store::EngineStore;
use crate::store::entities_view;
use crate::store::filters_view;

verus! {

/// How many entries one page request asks the engine for.
pub const PAGE_SIZE: usize = 128;

/// Collects the whole provider catalog, page by page.
pub fn collect_providers(store: &EngineStore) -> (out: Vec<NamedEntity>)
    ensures
        entities_view(out@) == store@.cur().providers,
{
    let ghost s = store@.cur().providers;
    let mut cursor = store.provider_enum_begin();
    let mut out: Vec<NamedEntity> = Vec::new();
    loop
        invariant_except_break
            cursor.pos <= s.len(),
            out@.len() == cursor.pos,
            entities_view(out@) == s.subrange(0, cursor.pos as int),
            s == store@.cur().providers,
        ensures
            entities_view(out@) == s,
        decreases s.len() - cursor.pos,
    {
        let mut page = store.provider_page(&mut cursor, PAGE_SIZE);
        if page.len() == 0 {
            proof {
                assert(s.subrange(0, s.len() as int) =~= s);
            }
            break ;
        }
        let ghost out_pre = out@;
        let ghost page_pre = page@;
        out.append(&mut page);
        proof {
            crate::store::lemma_entities_view_concat(out_pre, page_pre);
            assert(s.subrange(0, out_pre.len() as int) + s.subrange(
                out_pre.len() as int,
                cursor.pos as int,
            ) =~= s.subrange(0, cursor.pos as int));
            assert(entities_view(out@) == s.subrange(0, cursor.pos as int));
        }
    }
    out
}

/// Collects the whole sublayer catalog, page by page.
pub fn collect_sublayers(store: &EngineStore) -> (out: Vec<NamedEntity>)
    ensures
        entities_view(out@) == store@.cur().sublayers,
{
    let ghost s = store@.cur().sublayers;
    let mut cursor = store.sublayer_enum_begin();
    let mut out: Vec<NamedEntity> = Vec::new();
    loop
        invariant_except_break
            cursor.pos <= s.len(),
            out@.len() == cursor.pos,
            entities_view(out@) == s.subrange(0, cursor.pos as int),
            s == store@.cur().sublayers,
        ensures
            entities_view(out@) == s,
        decreases s.len() - cursor.pos,
    {
        let mut page = store.sublayer_page(&mut cursor, PAGE_SIZE);
        if page.len() == 0 {
            proof {
                assert(s.subrange(0, s.len() as int) =~= s);
            }
            break ;
        }
        let ghost out_pre = out@;
        let ghost page_pre = page@;
        out.append(&mut page);
        proof {
            crate::store::lemma_entities_view_concat(out_pre, page_pre);
            assert(s.subrange(0, out_pre.len() as int) + s.subrange(
                out_pre.len() as int,
                cursor.pos as int,
            ) =~= s.subrange(0, cursor.pos as int));
            assert(entities_view(out@) == s.subrange(0, cursor.pos as int));
        }
    }
    out
}

/// Collects the whole layer catalog, page by page.
pub fn collect_layers(store: &EngineStore) -> (out: Vec<NamedEntity>)
    ensures
        entities_view(out@) == store@.cur().layers,
{
    let ghost s = store@.cur().layers;
    let mut cursor = store.layer_enum_begin();
    let mut out: Vec<NamedEntity> = Vec::new();
    loop
        invariant_except_break
            cursor.pos <= s.len(),
            out@.len() == cursor.pos,
            entities_view(out@) == s.subrange(0, cursor.pos as int),
            s == store@.cur().layers,
        ensures
            entities_view(out@) == s,
        decreases s.len() - cursor.pos,
    {
        let mut page = store.layer_page(&mut cursor, PAGE_SIZE);
        if page.len() == 0 {
            proof {
                assert(s.subrange(0, s.len() as int) =~= s);
            }
            break ;
        }
        let ghost out_pre = out@;
        let ghost page_pre = page@;
        out.append(&mut page);
        proof {
            crate::store::lemma_entities_view_concat(out_pre, page_pre);
            assert(s.subrange(0, out_pre.len() as int) + s.subrange(
                out_pre.len() as int,
                cursor.pos as int,
            ) =~= s.subrange(0, cursor.pos as int));
            assert(entities_view(out@) == s.subrange(0, cursor.pos as int));
        }
    }
    out
}

/// Collects the whole rule set, page by page.
pub fn collect_filters(store: &EngineStore) -> (out: Vec<FilterEntry>)
    ensures
        filters_view(out@) == store@.cur().filters,
{
    let ghost s = store@.cur().filters;
    let mut cursor = store.filter_enum_begin();
    let mut out: Vec<FilterEntry> = Vec::new();
    loop
        invariant_except_break
            cursor.pos <= s.len(),
            out@.len() == cursor.pos,
            filters_view(out@) == s.subrange(0, cursor.pos as int),
            s == store@.cur().filters,
        ensures
            filters_view(out@) == s,
        decreases s.len() - cursor.pos,
    {
        let mut page = store.filter_page(&mut cursor, PAGE_SIZE);
        if page.len() == 0 {
            proof {
                assert(s.subrange(0, s.len() as int) =~= s);
            }
            break ;
        }
        let ghost out_pre = out@;
        let ghost page_pre = page@;
        out.append(&mut page);
        proof {
            crate::store::lemma_filters_view_concat(out_pre, page_pre);
            assert(s.subrange(0, out_pre.len() as int) + s.subrange(
                out_pre.len() as int,
                cursor.pos as int,
            ) =~= s.subrange(0, cursor.pos as int));
            assert(filters_view(out@) == s.subrange(0, cursor.pos as int));
        }
    }
    out
}

} // verus!
