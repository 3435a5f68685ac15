//! Properties of configs that relate several operations.
use vstd::prelude::*;
use crate::colorspace::{ColorSpaceModel, cs_matches};
use crate::config::{ConfigModel, cs_lookup, cs_named, SharedViewModel, view_applicable};
use crate::config_builder::{build_error, dangling_role};
use crate::config_check::{role_msg, validation_messages};
use crate::config_parse::{config_of, file_rules_in, is_default_rule, strict_of};
use crate::file_rules::{FileRuleModel, RuleOutcome, colorspace_for_path, file_ext_of, lemma_rules_skip, normalized, rule_outcome};
use crate::seqs::{filter_map, first_index, lemma_filter_map_empty, lemma_first_index, lemma_first_index_facts};
use crate::yaml::{YamlValue, get};

verus! {

/// After role `r` is mapped to `c`, the color space that `r` refers to is
/// the one that `c` names.
pub proof fn law_set_role_then_lookup(m: ConfigModel, r: Seq<char>, c: Seq<char>)
    ensures
        cs_lookup(ConfigModel { roles: m.roles.insert(r, c), ..m }, r) == first_index(m.colorspaces, cs_named(c)),
{
}

/// After a color space is added, a name of it that is no role and that no
/// earlier color space answers to refers to the new color space.
pub proof fn law_add_then_lookup(m: ConfigModel, cs: ColorSpaceModel, name: Seq<char>)
    requires
        cs_matches(cs, name),
        !m.roles.contains_key(name),
        first_index(m.colorspaces, cs_named(name)) is None,
    ensures
        cs_lookup(ConfigModel { colorspaces: m.colorspaces.push(cs), ..m }, name) == Some(m.colorspaces.len() as int),
{
    let s = m.colorspaces.push(cs);
    lemma_first_index_facts(m.colorspaces, cs_named(name));
    assert forall|j: int| 0 <= j < m.colorspaces.len() implies !cs_named(name)(#[trigger] s[j]) by {
        assert(s[j] == m.colorspaces[j]);
    }
    lemma_first_index(s, cs_named(name), m.colorspaces.len() as int);
}

/// A config that passes its self-check has a color space, a reference role,
/// and roles that all refer to existing color spaces.
pub proof fn law_valid_config(m: ConfigModel)
    requires
        validation_messages(m).len() == 0,
    ensures
        m.colorspaces.len() > 0,
        m.roles.contains_key(crate::role::names::REFERENCE@),
        forall|k: int| 0 <= k < m.role_order.len() ==> cs_lookup(m, #[trigger] m.role_order[k].1) is Some,
{
    lemma_filter_map_empty(m.role_order, role_msg(m));
    assert forall|k: int| 0 <= k < m.role_order.len() implies cs_lookup(m, #[trigger] m.role_order[k].1) is Some by {
        assert(role_msg(m)(m.role_order[k]) is None);
    }
}

/// A config read in strict mode from a document that has file rules has a
/// default rule, and its first default rule is its last rule.
pub proof fn law_strict_rules_end_with_default(root: YamlValue, wd: Seq<char>)
    requires
        config_of(root, wd) is Ok,
        strict_of(root),
        get(root, "file_rules"@) is Some,
    ensures
        config_of(root, wd)->Ok_0.file_rules.len() > 0,
        config_of(root, wd)->Ok_0.file_rules.last().kind is Default,
        first_index(config_of(root, wd)->Ok_0.file_rules, is_default_rule())
            == Some(config_of(root, wd)->Ok_0.file_rules.len() - 1),
{
    let rs = config_of(root, wd)->Ok_0.file_rules;
    lemma_first_index_facts(rs, is_default_rule());
}

/// With no file rules no file gets a color space; a default rule gives its
/// color space to every file that no rule before it gives one to or aborts on.
pub proof fn law_default_rule_catches_all(rules: Seq<FileRuleModel>, filepath: Seq<char>, k: int)
    requires
        0 <= k < rules.len(),
        rules[k].kind is Default,
        forall|j: int|
            0 <= j < k ==> rule_outcome(#[trigger] rules[j].kind, normalized(filepath), file_ext_of(normalized(filepath)))
                == RuleOutcome::Skip,
    ensures
        colorspace_for_path(Seq::empty(), filepath) is None,
        colorspace_for_path(rules, filepath) == Some(rules[k].colorspace),
{
    let p = normalized(filepath);
    let e = file_ext_of(p);
    lemma_rules_skip(rules, p, e, k);
    assert(rules.skip(k)[0] == rules[k]);
}

/// A config that the builder builds has a color space and a reference role,
/// and each of its roles names an existing color space.
pub proof fn law_built_config_roles_resolve(m: ConfigModel)
    requires
        build_error(m) is None,
    ensures
        m.colorspaces.len() > 0,
        m.roles.contains_key(crate::role::names::REFERENCE@),
        forall|k: int|
            0 <= k < m.role_order.len() ==> first_index(m.colorspaces, cs_named(#[trigger] m.role_order[k].1)) is Some,
{
    lemma_first_index_facts(m.role_order, dangling_role(m));
    assert forall|k: int| 0 <= k < m.role_order.len() implies first_index(
        m.colorspaces,
        cs_named(#[trigger] m.role_order[k].1),
    ) is Some by {
        assert(!dangling_role(m)(m.role_order[k]));
    }
}

/// A shared view without a viewing rule applies to every color space.
pub proof fn law_view_without_rule_applies(m: ConfigModel, v: SharedViewModel, name: Seq<char>)
    requires
        v.rule is None,
    ensures
        view_applicable(m, v, name),
{
}

} // verus!
