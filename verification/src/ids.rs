//! Identity registry: the 128-bit identifiers that name this tool to the
//! filtering engine, the well-known keys of the layer and match fields the
//! tool works with, and the ownership predicate that every edit/delete gate
//! and every snapshot flag goes through.

use vstd::prelude::*;

verus! {

/// A 128-bit engine identifier, split into a high and a low half.
///
/// The high half packs the leading 32-bit word and the two 16-bit words of
/// the conventional dashed form; the low half packs the trailing 8 bytes.
#[derive(Clone, Copy, Debug, PartialEq, Eq, Hash, Structural)]
pub struct Guid {
    pub hi: u64,
    pub lo: u64,
}

/// Key under which this tool registers itself as a provider.
pub open spec fn spec_provider_key() -> Guid {
    Guid { hi: 0xd9f1c5f7_13be_4f2b, lo: 0xb501_e4f0_7bdb_6d93 }
}

/// Key of the sublayer that groups every rule this tool creates.
pub open spec fn spec_sublayer_key() -> Guid {
    Guid { hi: 0x5d2b9e18_ea68_4a38, lo: 0x93c7_83f3_f14f_0a01 }
}

#[verifier::when_used_as_spec(spec_provider_key)]
pub fn provider_key() -> (k: Guid)
    ensures
        k == spec_provider_key(),
{
    Guid { hi: 0xd9f1c5f7_13be_4f2b, lo: 0xb501_e4f0_7bdb_6d93 }
}

#[verifier::when_used_as_spec(spec_sublayer_key)]
pub fn sublayer_key() -> (k: Guid)
    ensures
        k == spec_sublayer_key(),
{
    Guid { hi: 0x5d2b9e18_ea68_4a38, lo: 0x93c7_83f3_f14f_0a01 }
}

/// A rule is owned by this tool exactly when its sublayer is the tool's
/// sublayer *and* its provider is the tool's provider. Either field alone is
/// not enough, and a rule with no provider at all is never owned.
pub open spec fn spec_is_owned(sublayer: Guid, provider: Option<Guid>) -> bool {
    sublayer == spec_sublayer_key() && provider == Some(spec_provider_key())
}

/// Single executable source of truth for the ownership gate.
pub fn is_owned_by_tool(sublayer: Guid, provider: Option<Guid>) -> (owned: bool)
    ensures
        owned == spec_is_owned(sublayer, provider),
{
    match provider {
        Some(p) => sublayer == sublayer_key() && p == provider_key(),
        None => false,
    }
}

/// Key of the outbound IPv4 connect-authorization layer, the one decision
/// point this tool places rules at.
pub open spec fn spec_layer_ale_auth_connect_v4() -> Guid {
    Guid { hi: 0xc38d57d1_05a7_4c33, lo: 0x904f_7fbc_eee6_0e82 }
}

#[verifier::when_used_as_spec(spec_layer_ale_auth_connect_v4)]
pub fn layer_ale_auth_connect_v4() -> (k: Guid)
    ensures
        k == spec_layer_ale_auth_connect_v4(),
{
    Guid { hi: 0xc38d57d1_05a7_4c33, lo: 0x904f_7fbc_eee6_0e82 }
}

/// Key of the IP-protocol match field.
pub open spec fn spec_condition_ip_protocol() -> Guid {
    Guid { hi: 0x3971ef2b_623e_4f9a, lo: 0x8cb1_6e79_b806_b9a7 }
}

#[verifier::when_used_as_spec(spec_condition_ip_protocol)]
pub fn condition_ip_protocol() -> (k: Guid)
    ensures
        k == spec_condition_ip_protocol(),
{
    Guid { hi: 0x3971ef2b_623e_4f9a, lo: 0x8cb1_6e79_b806_b9a7 }
}

/// Key of the remote-port match field.
pub open spec fn spec_condition_ip_remote_port() -> Guid {
    Guid { hi: 0xc35a604d_d22b_4e1a, lo: 0x91b4_68f6_74ee_674b }
}

#[verifier::when_used_as_spec(spec_condition_ip_remote_port)]
pub fn condition_ip_remote_port() -> (k: Guid)
    ensures
        k == spec_condition_ip_remote_port(),
{
    Guid { hi: 0xc35a604d_d22b_4e1a, lo: 0x91b4_68f6_74ee_674b }
}

/// The hexadecimal digit character for a value in `0..16`.
pub open spec fn hex_digit(n: int) -> char {
    if n == 0 {
        '0'
    } else if n == 1 {
        '1'
    } else if n == 2 {
        '2'
    } else if n == 3 {
        '3'
    } else if n == 4 {
        '4'
    } else if n == 5 {
        '5'
    } else if n == 6 {
        '6'
    } else if n == 7 {
        '7'
    } else if n == 8 {
        '8'
    } else if n == 9 {
        '9'
    } else if n == 10 {
        'a'
    } else if n == 11 {
        'b'
    } else if n == 12 {
        'c'
    } else if n == 13 {
        'd'
    } else if n == 14 {
        'e'
    } else {
        'f'
    }
}

/// The last `digits` hexadecimal digits of `v`, most significant first.
pub open spec fn u64_hex(v: u64, digits: nat) -> Seq<char>
    decreases digits,
{
    if digits == 0 {
        Seq::empty()
    } else {
        u64_hex(v / 16, (digits - 1) as nat).push(hex_digit(v as int % 16))
    }
}

/// The dashed lower-case hexadecimal rendering of a key, used as the
/// fallback display text for identifiers no catalog entry names.
pub open spec fn guid_text(g: Guid) -> Seq<char> {
    u64_hex(g.hi / 0x1_0000_0000, 8) + seq!['-'] + u64_hex((g.hi / 0x10000) % 0x10000, 4)
        + seq!['-'] + u64_hex(g.hi % 0x10000, 4) + seq!['-'] + u64_hex(g.lo / 0x1_0000_0000_0000, 4)
        + seq!['-'] + u64_hex(g.lo % 0x1_0000_0000_0000, 12)
}

/// Appends the last `digits` hex digits of `v` to `out`.
fn append_u64_hex(out: &mut String, v: u64, digits: usize)
    ensures
        final(out)@ == old(out)@ + u64_hex(v, digits as nat),
    decreases digits,
{
    if digits == 0 {
        proof {
            assert(old(out)@ + u64_hex(v, 0) =~= old(out)@);
        }
    } else {
        append_u64_hex(out, v / 16, digits - 1);
        let d: usize = (v % 16) as usize;
        let table: &str = "0123456789abcdef";
        proof {
            reveal_strlit("0123456789abcdef");
        }
        let ds: &str = table.substring_ascii(d, d + 1);
        out.append(ds);
        proof {
            assert(ds@ =~= seq![hex_digit(d as int)]);
            assert(old(out)@ + u64_hex(v / 16, (digits - 1) as nat) + ds@ =~= old(out)@ + u64_hex(
                v,
                digits as nat,
            ));
        }
    }
}

/// Renders a key in its dashed hexadecimal form.
pub fn guid_to_text(g: Guid) -> (s: String)
    ensures
        s@ == guid_text(g),
{
    let mut s = String::new();
    append_u64_hex(&mut s, g.hi / 0x1_0000_0000, 8);
    s.append("-");
    append_u64_hex(&mut s, (g.hi / 0x10000) % 0x10000, 4);
    s.append("-");
    append_u64_hex(&mut s, g.hi % 0x10000, 4);
    s.append("-");
    append_u64_hex(&mut s, g.lo / 0x1_0000_0000_0000, 4);
    s.append("-");
    append_u64_hex(&mut s, g.lo % 0x1_0000_0000_0000, 12);
    proof {
        reveal_strlit("-");
        assert(s@ =~= guid_text(g));
    }
    s
}

} // verus!
