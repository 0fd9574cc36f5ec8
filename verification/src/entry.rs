//! The engine's stored data: rules, their match conditions, and the named
//! catalog entities (providers, sublayers, layers).

use vstd::prelude::*;
use crate::ids::Guid;
use crate::ids::spec_condition_ip_protocol;
use crate::ids::spec_condition_ip_remote_port;
use crate::ids::condition_ip_protocol;
use crate::ids::condition_ip_remote_port;

verus! {

/// A typed match value, as the engine stores it.
#[derive(Clone, Copy, Debug, PartialEq, Eq, Structural)]
pub enum CondValue {
    Uint8(u8),
    Uint16(u16),
}

/// One match condition of a stored rule: a field key and the value the
/// field must equal.
#[derive(Clone, Copy, Debug, PartialEq, Eq, Structural)]
pub struct Condition {
    pub field_key: Guid,
    pub value: CondValue,
}

/// A rule as the engine stores it.
pub struct FilterEntry {
    pub id: u64,
    pub name: Option<String>,
    pub layer_key: Guid,
    pub sublayer_key: Guid,
    pub provider_key: Option<Guid>,
    pub action_code: u32,
    pub conditions: Vec<Condition>,
    pub weight: u64,
    pub flags: u32,
}

/// Mathematical image of a stored rule.
#[verifier::ext_equal]
pub struct FilterV {
    pub id: u64,
    pub name: Option<Seq<char>>,
    pub layer_key: Guid,
    pub sublayer_key: Guid,
    pub provider_key: Option<Guid>,
    pub action_code: u32,
    pub conditions: Seq<Condition>,
    pub weight: u64,
    pub flags: u32,
}

/// A named catalog entity: a provider, sublayer or layer descriptor.
pub struct NamedEntity {
    pub key: Guid,
    pub name: Option<String>,
    pub description: Option<String>,
}

/// Mathematical image of a named catalog entity.
#[verifier::ext_equal]
pub struct EntityV {
    pub key: Guid,
    pub name: Option<Seq<char>>,
    pub description: Option<Seq<char>>,
}

/// The text of an optional string.
pub open spec fn opt_text(o: Option<String>) -> Option<Seq<char>> {
    match o {
        Some(s) => Some(s@),
        None => None,
    }
}

impl View for FilterEntry {
    type V = FilterV;

    open spec fn view(&self) -> FilterV {
        FilterV {
            id: self.id,
            name: opt_text(self.name),
            layer_key: self.layer_key,
            sublayer_key: self.sublayer_key,
            provider_key: self.provider_key,
            action_code: self.action_code,
            conditions: self.conditions@,
            weight: self.weight,
            flags: self.flags,
        }
    }
}

impl View for NamedEntity {
    type V = EntityV;

    open spec fn view(&self) -> EntityV {
        EntityV { key: self.key, name: opt_text(self.name), description: opt_text(self.description) }
    }
}

/// Copies an optional string, keeping its text.
pub fn clone_opt_string(o: &Option<String>) -> (r: Option<String>)
    ensures
        opt_text(r) == opt_text(*o),
{
    match o {
        Some(s) => Some(s.clone()),
        None => None,
    }
}

/// Copies a condition list, keeping its contents.
pub fn clone_conditions(conds: &Vec<Condition>) -> (r: Vec<Condition>)
    ensures
        r@ == conds@,
{
    let mut r: Vec<Condition> = Vec::new();
    let mut i: usize = 0;
    while i < conds.len()
        invariant
            i <= conds.len(),
            r@ == conds@.subrange(0, i as int),
        decreases conds.len() - i,
    {
        r.push(conds[i]);
        proof {
            assert(r@ =~= conds@.subrange(0, i + 1));
        }
        i = i + 1;
    }
    proof {
        assert(r@ =~= conds@);
    }
    r
}

/// Copies a stored rule, keeping its image.
pub fn clone_filter_entry(e: &FilterEntry) -> (r: FilterEntry)
    ensures
        r@ == e@,
{
    let r = FilterEntry {
        id: e.id,
        name: clone_opt_string(&e.name),
        layer_key: e.layer_key,
        sublayer_key: e.sublayer_key,
        provider_key: e.provider_key,
        action_code: e.action_code,
        conditions: clone_conditions(&e.conditions),
        weight: e.weight,
        flags: e.flags,
    };
    proof {
        assert(r@ =~= e@);
    }
    r
}

/// Copies a named entity, keeping its image.
pub fn clone_named_entity(e: &NamedEntity) -> (r: NamedEntity)
    ensures
        r@ == e@,
{
    let r = NamedEntity {
        key: e.key,
        name: clone_opt_string(&e.name),
        description: clone_opt_string(&e.description),
    };
    proof {
        assert(r@ =~= e@);
    }
    r
}

/// The two match conditions of every rule this tool writes:
/// protocol equals TCP (6), remote port equals `port`.
pub open spec fn spec_tcp_conditions(port: u16) -> Seq<Condition> {
    seq![
        Condition { field_key: spec_condition_ip_protocol(), value: CondValue::Uint8(6) },
        Condition { field_key: spec_condition_ip_remote_port(), value: CondValue::Uint16(port) },
    ]
}

/// Builds the two-condition list for a TCP remote-port rule.
pub fn tcp_conditions(port: u16) -> (v: Vec<Condition>)
    ensures
        v@ == spec_tcp_conditions(port),
{
    let mut v: Vec<Condition> = Vec::new();
    v.push(Condition { field_key: condition_ip_protocol(), value: CondValue::Uint8(6) });
    v.push(Condition { field_key: condition_ip_remote_port(), value: CondValue::Uint16(port) });
    proof {
        assert(v@ =~= spec_tcp_conditions(port));
    }
    v
}

/// The remote port a condition list pins, if any: the value of the last
/// remote-port condition that carries a 16-bit value.
pub open spec fn remote_port_of(conds: Seq<Condition>) -> Option<u16>
    decreases conds.len(),
{
    if conds.len() == 0 {
        None
    } else {
        let last = conds.last();
        if last.field_key == spec_condition_ip_remote_port() && last.value is Uint16 {
            Some(last.value->Uint16_0)
        } else {
            remote_port_of(conds.drop_last())
        }
    }
}

/// Scans a condition list for the remote port it pins, later conditions
/// taking precedence, as the engine applies them.
pub fn scan_remote_port(conds: &Vec<Condition>) -> (port: Option<u16>)
    ensures
        port == remote_port_of(conds@),
{
    let mut port: Option<u16> = None;
    let mut i: usize = 0;
    while i < conds.len()
        invariant
            i <= conds.len(),
            port == remote_port_of(conds@.subrange(0, i as int)),
        decreases conds.len() - i,
    {
        let c = conds[i];
        if c.field_key == condition_ip_remote_port() {
            match c.value {
                CondValue::Uint16(p) => {
                    port = Some(p);
                },
                _ => {},
            }
        }
        proof {
            let pre = conds@.subrange(0, i as int);
            let post = conds@.subrange(0, i + 1);
            assert(post.drop_last() =~= pre);
            assert(post.last() == conds@[i as int]);
        }
        i = i + 1;
    }
    proof {
        assert(conds@.subrange(0, conds@.len() as int) =~= conds@);
    }
    port
}

/// The rules this tool writes pin exactly the port they were given.
pub proof fn lemma_tcp_conditions_port(port: u16)
    ensures
        remote_port_of(spec_tcp_conditions(port)) == Some(port),
{
    let conds = spec_tcp_conditions(port);
    assert(conds.last() == Condition {
        field_key: spec_condition_ip_remote_port(),
        value: CondValue::Uint16(port),
    });
}

} // verus!
