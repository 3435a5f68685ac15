//! What a config's self-check reports.
use vstd::prelude::*;
use crate::config::{ConfigModel, ConfigVersion, cs_lookup};
use crate::display::{DisplayModel, ViewModel};
use crate::file_rules::FileRuleModel;
use crate::look::LookModel;
use crate::seqs::filter_map;
use crate::yaml::decimal;

verus! {

/// The report on a role whose color space does not exist.
pub open spec fn role_msg(m: ConfigModel) -> spec_fn((Seq<char>, Seq<char>)) -> Option<Seq<char>> {
    |p: (Seq<char>, Seq<char>)|
        if cs_lookup(m, p.1) is None {
            Some("Role '"@ + p.0 + "' references non-existent color space '"@ + p.1 + "'"@)
        } else {
            None
        }
}

/// The report on a view of display `d` whose color space does not exist.
pub open spec fn view_msg(m: ConfigModel, d: Seq<char>) -> spec_fn(ViewModel) -> Option<Seq<char>> {
    |v: ViewModel|
        if cs_lookup(m, v.colorspace) is None {
            Some("View '"@ + v.name + "' in display '"@ + d + "' references non-existent color space '"@ + v.colorspace + "'"@)
        } else {
            None
        }
}

/// The reports on the views of the displays `ds`, display by display.
pub open spec fn display_msgs(m: ConfigModel, ds: Seq<DisplayModel>) -> Seq<Seq<char>>
    decreases ds.len(),
{
    if ds.len() == 0 {
        Seq::empty()
    } else {
        display_msgs(m, ds.drop_last()) + filter_map(ds.last().views, view_msg(m, ds.last().name))
    }
}

/// The report on a look whose (non-empty) process space does not exist.
pub open spec fn look_msg(m: ConfigModel) -> spec_fn(LookModel) -> Option<Seq<char>> {
    |l: LookModel|
        match l.process_space {
            Some(ps) => if ps.len() > 0 && cs_lookup(m, ps) is None {
                Some("Look '"@ + l.name + "' references non-existent process space '"@ + ps + "'"@)
            } else {
                None
            },
            None => None,
        }
}

/// The number of default rules.
pub open spec fn default_count(rules: Seq<FileRuleModel>) -> nat
    decreases rules.len(),
{
    if rules.len() == 0 {
        0
    } else {
        default_count(rules.drop_last()) + if rules.last().kind is Default {
            1nat
        } else {
            0nat
        }
    }
}

/// The report on a file rule whose color space is neither a color space nor a role.
pub open spec fn rule_cs_msg(m: ConfigModel) -> spec_fn(FileRuleModel) -> Option<Seq<char>> {
    |r: FileRuleModel|
        if cs_lookup(m, r.colorspace) is None && !m.roles.contains_key(r.colorspace) {
            Some("File rule '"@ + r.name + "' references non-existent color space or role '"@ + r.colorspace + "'"@)
        } else {
            None
        }
}

/// The reports on the default rule's count.
pub open spec fn default_count_msgs(n: nat) -> Seq<Seq<char>> {
    if n == 0 {
        seq!["File rules must include a Default rule (OCIO v2 requirement)"@]
    } else if n > 1 {
        seq!["File rules must have exactly one Default rule, found "@ + decimal(n as int)]
    } else {
        Seq::empty()
    }
}

/// The reports on the file rules, made for version 2 configs that have file
/// rules: exactly one default rule, which comes last, and color spaces or
/// roles that exist.
pub open spec fn file_rule_msgs(m: ConfigModel) -> Seq<Seq<char>> {
    if m.version == ConfigVersion::V2 && m.file_rules.len() > 0 {
        let n = default_count(m.file_rules);
        default_count_msgs(n) + (if !(m.file_rules.last().kind is Default) && n > 0 {
            seq!["Default rule must be the last file rule"@]
        } else {
            Seq::empty()
        }) + filter_map(m.file_rules, rule_cs_msg(m))
    } else {
        Seq::empty()
    }
}

/// Everything a config's self-check reports, in order: no color spaces, no
/// reference role, roles, views and looks that name missing color spaces,
/// and the file rules' problems.
pub open spec fn validation_messages(m: ConfigModel) -> Seq<Seq<char>> {
    (if m.colorspaces.len() == 0 {
        seq!["Config has no color spaces defined"@]
    } else {
        Seq::empty()
    }) + (if !m.roles.contains_key(crate::role::names::REFERENCE@) {
        seq!["Config is missing the 'reference' role"@]
    } else {
        Seq::empty()
    }) + filter_map(m.role_order, role_msg(m)) + display_msgs(m, m.displays.displays) + filter_map(
        m.looks,
        look_msg(m),
    ) + file_rule_msgs(m)
}

} // verus!
