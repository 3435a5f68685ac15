//! The YAML text that a config is written as.
use vstd::prelude::*;
use crate::colorspace::{ColorSpaceModel, encoding_str, family_str};
use crate::config::{ConfigModel, ConfigVersion};
use crate::display::{DisplayModel, ViewModel};
use crate::file_rules::{FileRuleKindModel, FileRuleModel};
use crate::look::LookModel;

verus! {

/// The texts of `s` in order, each produced by `f`.
pub open spec fn concat_map<T>(s: Seq<T>, f: spec_fn(T) -> Seq<char>) -> Seq<char>
    decreases s.len(),
{
    if s.len() == 0 {
        Seq::empty()
    } else {
        concat_map(s.drop_last(), f) + f(s.last())
    }
}

/// The parts joined with `sep` between them.
pub open spec fn join(parts: Seq<Seq<char>>, sep: Seq<char>) -> Seq<char>
    decreases parts.len(),
{
    if parts.len() == 0 {
        Seq::empty()
    } else if parts.len() == 1 {
        parts[0]
    } else {
        join(parts.drop_last(), sep) + sep + parts.last()
    }
}

/// `t` when `b` holds, else nothing.
pub open spec fn text_if(b: bool, t: Seq<char>) -> Seq<char> {
    if b {
        t
    } else {
        Seq::empty()
    }
}

/// The line of a role.
pub open spec fn role_line() -> spec_fn((Seq<char>, Seq<char>)) -> Seq<char> {
    |p: (Seq<char>, Seq<char>)| "  "@ + p.0 + ": "@ + p.1 + "\n"@
}

/// What a rule's kind adds to its line.
pub open spec fn rule_kind_text(k: FileRuleKindModel) -> Seq<char> {
    match k {
        FileRuleKindModel::Default => Seq::empty(),
        FileRuleKindModel::Basic(p, ext) => text_if(p.len() > 0, ", pattern: \""@ + p + "\""@) + match ext {
            Some(e) => ", extension: "@ + e,
            None => Seq::empty(),
        },
        FileRuleKindModel::Regex(re) => ", regex: \""@ + re + "\""@,
    }
}

/// The line of a file rule.
pub open spec fn rule_line() -> spec_fn(FileRuleModel) -> Seq<char> {
    |r: FileRuleModel| "  - !<Rule> {name: "@ + r.name + rule_kind_text(r.kind) + ", colorspace: "@ + r.colorspace + "}\n"@
}

/// The line of a view.
pub open spec fn view_line() -> spec_fn(ViewModel) -> Seq<char> {
    |v: ViewModel|
        "    - !<View> {name: "@ + v.name + ", colorspace: "@ + v.colorspace + match v.looks {
            Some(l) => text_if(l.len() > 0, ", looks: "@ + l),
            None => Seq::empty(),
        } + "}\n"@
}

/// The lines of a display.
pub open spec fn display_text() -> spec_fn(DisplayModel) -> Seq<char> {
    |d: DisplayModel| "  "@ + d.name + ":\n"@ + concat_map(d.views, view_line())
}

/// The lines of a look.
pub open spec fn look_text() -> spec_fn(LookModel) -> Seq<char> {
    |l: LookModel|
        "  - !<Look>\n"@ + "    name: "@ + l.name + "\n"@ + match l.process_space {
            Some(ps) => text_if(ps.len() > 0, "    process_space: "@ + ps + "\n"@),
            None => Seq::empty(),
        } + text_if(l.description.len() > 0, "    description: "@ + l.description + "\n"@)
}

/// The first lines of a color space: its name and description.
pub open spec fn cs_head_text(c: ColorSpaceModel) -> Seq<char> {
    "  - !<ColorSpace>\n"@ + "    name: "@ + c.name + "\n"@ + text_if(
        c.description.len() > 0,
        "    description: "@ + c.description + "\n"@,
    )
}

/// The lines of a color space's family, encoding and data flag.
pub open spec fn cs_kind_text(c: ColorSpaceModel) -> Seq<char> {
    text_if(family_str(c.family).len() > 0, "    family: "@ + family_str(c.family) + "\n"@) + text_if(
        encoding_str(c.encoding).len() > 0,
        "    encoding: "@ + encoding_str(c.encoding) + "\n"@,
    ) + text_if(c.is_data, "    isdata: true\n"@)
}

/// The line of a color space's aliases.
pub open spec fn cs_alias_text(c: ColorSpaceModel) -> Seq<char> {
    text_if(c.aliases.len() > 0, "    aliases: ["@ + join(c.aliases, ", "@) + "]\n"@)
}

/// The lines of a color space.
pub open spec fn colorspace_text() -> spec_fn(ColorSpaceModel) -> Seq<char> {
    |c: ColorSpaceModel| cs_head_text(c) + cs_kind_text(c) + cs_alias_text(c)
}

/// The header: version, name and search path.
pub open spec fn header_text(m: ConfigModel) -> Seq<char> {
    "ocio_profile_version: "@ + (if m.version == ConfigVersion::V1 {
        "1"@
    } else {
        "2.0"@
    }) + "\n\n"@ + text_if(m.name.len() > 0, "name: "@ + m.name + "\n"@) + text_if(
        m.search_paths.len() > 0,
        "search_path: "@ + join(m.search_paths, ":"@) + "\n"@,
    ) + "\n"@
}

/// The roles block.
pub open spec fn roles_text(m: ConfigModel) -> Seq<char> {
    text_if(m.role_order.len() > 0, "roles:\n"@ + concat_map(m.role_order, role_line()) + "\n"@)
}

/// The file rules block, written for version 2 configs.
pub open spec fn rules_text(m: ConfigModel) -> Seq<char> {
    text_if(
        m.version == ConfigVersion::V2 && m.file_rules.len() > 0,
        "file_rules:\n"@ + concat_map(m.file_rules, rule_line()) + "\n"@,
    )
}

/// The displays block.
pub open spec fn display_block_text(m: ConfigModel) -> Seq<char> {
    text_if(m.displays.displays.len() > 0, "displays:\n"@ + concat_map(m.displays.displays, display_text()) + "\n"@)
}

/// The lines of the active displays and views.
pub open spec fn active_text(m: ConfigModel) -> Seq<char> {
    text_if(m.active_displays.len() > 0, "active_displays: ["@ + join(m.active_displays, ", "@) + "]\n"@)
        + text_if(m.active_views.len() > 0, "active_views: ["@ + join(m.active_views, ", "@) + "]\n"@)
}

/// The displays block and the active displays and views.
pub open spec fn displays_text(m: ConfigModel) -> Seq<char> {
    display_block_text(m) + active_text(m) + "\n"@
}

/// The looks block.
pub open spec fn looks_text(m: ConfigModel) -> Seq<char> {
    text_if(m.looks.len() > 0, "looks:\n"@ + concat_map(m.looks, look_text()) + "\n"@)
}

/// The YAML text of a config (transform definitions are not written).
pub open spec fn config_text(m: ConfigModel) -> Seq<char> {
    header_text(m) + roles_text(m) + rules_text(m) + displays_text(m) + looks_text(m) + "colorspaces:\n"@
        + concat_map(m.colorspaces, colorspace_text())
}

/// One more element of the prefix adds its text.
pub proof fn lemma_concat_map_step<T>(s: Seq<T>, f: spec_fn(T) -> Seq<char>, i: int)
    requires
        0 <= i < s.len(),
    ensures
        concat_map(s.take(i + 1), f) == concat_map(s.take(i), f) + f(s[i]),
{
    assert(s.take(i + 1).drop_last() =~= s.take(i));
    assert(s.take(i + 1).last() == s[i]);
}

/// One more part of the prefix adds a separator (unless it is the first) and the part.
pub proof fn lemma_join_step(parts: Seq<Seq<char>>, sep: Seq<char>, i: int)
    requires
        0 <= i < parts.len(),
    ensures
        join(parts.take(i + 1), sep) == if i == 0 {
            parts[0]
        } else {
            join(parts.take(i), sep) + sep + parts[i]
        },
{
    assert(parts.take(i + 1).drop_last() =~= parts.take(i));
    assert(parts.take(i + 1).last() == parts[i]);
    if i == 0 {
        assert(parts.take(1)[0] == parts[0]);
    }
}

} // verus!
