//! The exported rule config: the reduced projection of an owned rule that
//! the export/import exchange carries. Identifiers are deliberately not part
//! of it; an import assigns fresh ones.

use vstd::prelude::*;
use crate::action::WfpAction;
use crate::snapshot::FilterSummary;
use crate::snapshot::SummaryV;
use crate::snapshot::summaries_view;

verus! {

/// One rule of the exchange format: name, remote port, action.
pub struct FilterConfig {
    pub name: String,
    pub remote_port: u16,
    pub action: WfpAction,
}

/// Mathematical image of an exported rule config.
#[verifier::ext_equal]
pub struct ConfigV {
    pub name: Seq<char>,
    pub remote_port: u16,
    pub action: WfpAction,
}

impl View for FilterConfig {
    type V = ConfigV;

    open spec fn view(&self) -> ConfigV {
        ConfigV { name: self.name@, remote_port: self.remote_port, action: self.action }
    }
}

/// The images of a config list.
pub open spec fn configs_view(s: Seq<FilterConfig>) -> Seq<ConfigV> {
    s.map_values(|c: FilterConfig| c@)
}

/// Copies a config, keeping its image.
pub fn clone_config(c: &FilterConfig) -> (r: FilterConfig)
    ensures
        r@ == c@,
{
    FilterConfig { name: c.name.clone(), remote_port: c.remote_port, action: c.action }
}

/// The exported projection of one resolved rule (meaningful when the rule
/// pins a remote port).
pub open spec fn config_of_summary(s: SummaryV) -> ConfigV {
    ConfigV { name: s.name, remote_port: s.remote_port.unwrap(), action: s.action }
}

/// What an export carries: the owned rules that pin a remote port, in
/// enumeration order, projected to the exchange format.
pub open spec fn export_configs(fs: Seq<SummaryV>) -> Seq<ConfigV>
    decreases fs.len(),
{
    if fs.len() == 0 {
        Seq::empty()
    } else {
        let rest = export_configs(fs.drop_last());
        let s = fs.last();
        if s.owned_by_app && s.remote_port is Some {
            rest.push(config_of_summary(s))
        } else {
            rest
        }
    }
}

/// Projects a snapshot's rules to the exchange format.
pub fn project_exported(filters: &Vec<FilterSummary>) -> (out: Vec<FilterConfig>)
    ensures
        configs_view(out@) == export_configs(summaries_view(filters@)),
{
    let ghost all = summaries_view(filters@);
    let mut out: Vec<FilterConfig> = Vec::new();
    let mut i: usize = 0;
    while i < filters.len()
        invariant
            i <= filters.len(),
            all == summaries_view(filters@),
            configs_view(out@) == export_configs(all.subrange(0, i as int)),
        decreases filters.len() - i,
    {
        let f = &filters[i];
        let ghost pre = all.subrange(0, i as int);
        let ghost post = all.subrange(0, i + 1);
        proof {
            assert(post.drop_last() =~= pre);
            assert(post.last() == all[i as int]);
        }
        if f.owned_by_app {
            match f.remote_port {
                Some(p) => {
                    out.push(
                        FilterConfig { name: f.name.clone(), remote_port: p, action: f.action },
                    );
                    proof {
                        assert(configs_view(out@) =~= export_configs(post));
                    }
                },
                None => {},
            }
        }
        i = i + 1;
    }
    proof {
        assert(all.subrange(0, all.len() as int) =~= all);
    }
    out
}

} // verus!
