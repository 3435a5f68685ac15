//! Reading a config from a YAML document: what each section of the document
//! gives, and the functions that read it.
use vstd::prelude::*;
use vstd::view::View as _;
use crate::config::{ConfigModel, ConfigVersion, NamedTransform, NamedTransformModel, SharedView, SharedViewModel, ViewingRule, ViewingRuleModel};
use crate::colorspace::{BitDepth, ColorSpace, ColorSpaceModel, Encoding, Family, encoding_of, family_of};
use crate::text::ascii_lower;
use crate::display::{Display, DisplayModel, DisplayManager, DisplayManagerModel, View, ViewModel, ViewTransform, ViewTransformModel};
use crate::look::{Look, LookManager, LookModel};
use crate::file_rules::{FileRule, FileRuleKind, FileRuleKindModel, FileRuleModel, has_glob, has_glob_chars};
use crate::patterns::{glob_check, glob_error, regex_check, regex_error};
use crate::seqs::{first_index, lemma_first_index};
use crate::text::{eq_ascii_ci, eq_ignore_ascii_case};
use crate::colorspace::strings_view;
use crate::display::{opt_str, opt_string};
use crate::error::{ErrorModel, OcioError};
use crate::look::{split_char, split_seq};
use crate::role::Roles;
use crate::seqs::{filter_map, lemma_filter_map_step, lemma_take_all, models, opt_model};
use crate::strmap::{map_of, upsert_all};
use crate::text::{chars_of, push_str, string_of, str_eq};
use crate::yaml::{
    YamlNode, YamlValue, as_str, get, get_str, get_str_list, items_value, entries_value,
    lemma_items_value, lemma_entries_value, scalar_text, untag, yaml_as_str, yaml_get, yaml_str,
    yaml_str_list, yaml_to_string, unwrap_tagged, get_bool, get_items, transform_ok, transform_parses,
    yaml_bool, yaml_items, opt_node_value,
};

verus! {

/// The text, or the empty text.
pub open spec fn or_empty(o: Option<Seq<char>>) -> Seq<char> {
    match o {
        Some(s) => s,
        None => Seq::empty(),
    }
}

/// An owned copy of an optional string slice.
pub fn opt_owned(o: Option<&str>) -> (r: Option<String>)
    ensures
        opt_string(r) == opt_str(o),
{
    match o {
        Some(s) => Some(string_of(s)),
        None => None,
    }
}

/// An owned copy of an optional string slice, or the empty string.
pub fn owned_or_empty(o: Option<&str>) -> (r: String)
    ensures
        r@ == or_empty(opt_str(o)),
{
    match o {
        Some(s) => string_of(s),
        None => String::new(),
    }
}

/// The config version that `ocio_profile_version` gives: a version text
/// starting with `2` is version 2, one starting with `1` version 1.
pub open spec fn version_of(root: YamlValue) -> Result<ConfigVersion, ErrorModel> {
    match get(root, "ocio_profile_version"@) {
        Some(v) => match scalar_text(v) {
            Some(t) => if t.len() > 0 && t[0] == '2' {
                Ok(ConfigVersion::V2)
            } else if t.len() > 0 && t[0] == '1' {
                Ok(ConfigVersion::V1)
            } else {
                Err(ErrorModel::UnsupportedVersion(t))
            },
            None => Err(ErrorModel::Yaml("missing ocio_profile_version"@)),
        },
        None => Err(ErrorModel::Yaml("missing ocio_profile_version"@)),
    }
}

/// Reads the config version.
pub fn parse_version(root: &YamlNode) -> (r: Result<ConfigVersion, OcioError>)
    ensures
        match r {
            Ok(v) => version_of(root@) == Ok::<ConfigVersion, ErrorModel>(v),
            Err(e) => version_of(root@) == Err::<ConfigVersion, ErrorModel>(e@),
        },
{
    match yaml_get(root, "ocio_profile_version") {
        Some(v) => match yaml_to_string(v) {
            Some(t) => {
                let cs = chars_of(t.as_str());
                if cs.len() > 0 && cs[0] == '2' {
                    Ok(ConfigVersion::V2)
                } else if cs.len() > 0 && cs[0] == '1' {
                    Ok(ConfigVersion::V1)
                } else {
                    Err(OcioError::UnsupportedVersion { version: t })
                }
            },
            None => Err(OcioError::Yaml(string_of("missing ocio_profile_version"))),
        },
        None => Err(OcioError::Yaml(string_of("missing ocio_profile_version"))),
    }
}

/// `p` taken relative to `base` with `/` as separator: an absolute `p`
/// (starting with `/`) stands alone, else a separator is put between a
/// non-empty `base` that does not end in one and `p` (`Path::join` on Unix).
pub open spec fn path_join(base: Seq<char>, p: Seq<char>) -> Seq<char> {
    if p.len() > 0 && p[0] == '/' {
        p
    } else if base.len() > 0 && base.last() != '/' {
        base + seq!['/'] + p
    } else {
        base + p
    }
}

/// Joins `p` to `base` (see `path_join`).
pub fn join_path(base: &str, p: &str) -> (r: String)
    ensures
        r@ == path_join(base@, p@),
{
    let pc = chars_of(p);
    if pc.len() > 0 && pc[0] == '/' {
        return string_of(p);
    }
    let bc = chars_of(base);
    let mut out = string_of(base);
    if bc.len() > 0 && bc[bc.len() - 1] != '/' {
        push_str(&mut out, "/");
        proof {
            reveal_strlit("/");
        }
    }
    push_str(&mut out, p);
    out
}

/// A non-empty search-path piece, joined to the working directory.
pub open spec fn search_entry(wd: Seq<char>) -> spec_fn(Seq<char>) -> Option<Seq<char>> {
    |p: Seq<char>| if p.len() == 0 { None } else { Some(path_join(wd, p)) }
}

/// The search paths: the `:`-separated non-empty pieces of `search_path`,
/// each joined to the working directory.
pub open spec fn search_paths_of(root: YamlValue, wd: Seq<char>) -> Seq<Seq<char>> {
    match get_str(root, "search_path"@) {
        Some(s) => filter_map(split_seq(s, ':'), search_entry(wd)),
        None => Seq::empty(),
    }
}

/// Reads the search paths.
pub fn parse_search_paths(root: &YamlNode, wd: &str) -> (r: Vec<String>)
    ensures
        strings_view(r@) == search_paths_of(root@, wd@),
{
    let mut out: Vec<String> = Vec::new();
    match yaml_str(root, "search_path") {
        Some(s) => {
            let pieces = split_char(s, ':');
            let ghost all = strings_view(pieces@);
            let mut i: usize = 0;
            while i < pieces.len()
                invariant
                    all == strings_view(pieces@),
                    all == split_seq(s@, ':'),
                    0 <= i <= pieces@.len(),
                    strings_view(out@) == filter_map(all.take(i as int), search_entry(wd@)),
                decreases pieces@.len() - i,
            {
                proof {
                    lemma_filter_map_step(all, search_entry(wd@), i as int);
                }
                assert(all[i as int] == pieces@[i as int]@);
                if !pieces[i].as_str().is_empty() {
                    let ghost before = out@;
                    let j = join_path(wd, pieces[i].as_str());
                    out.push(j);
                    assert(strings_view(out@) =~= strings_view(before).push(j@));
                }
                i = i + 1;
            }
            proof {
                lemma_take_all(all);
            }
        },
        None => {
            assert(strings_view(out@) =~= Seq::<Seq<char>>::empty());
        },
    }
    out
}

/// The items of the sequence under `key`, when the value there is a sequence
/// as it stands (no tag).
pub open spec fn plain_items(root: YamlValue, key: Seq<char>) -> Seq<YamlValue> {
    match get(root, key) {
        Some(YamlValue::Sequence(items)) => items,
        _ => Seq::empty(),
    }
}

/// The shared view an item defines: it needs a name; its display color
/// space is `colorspace`, else `display_colorspace`, else empty.
pub open spec fn shared_view_of(item: YamlValue) -> Option<SharedViewModel> {
    let it = untag(item);
    match get_str(it, "name"@) {
        Some(n) => Some(
            SharedViewModel {
                name: n,
                view_transform: get_str(it, "view_transform"@),
                display_colorspace: match get_str(it, "colorspace"@) {
                    Some(c) => c,
                    None => or_empty(get_str(it, "display_colorspace"@)),
                },
                looks: get_str(it, "looks"@),
                rule: get_str(it, "rule"@),
                description: get_str(it, "description"@),
            },
        ),
        None => None,
    }
}

/// `shared_view_of` as a function value.
pub open spec fn shared_view_fn() -> spec_fn(YamlValue) -> Option<SharedViewModel> {
    |y: YamlValue| shared_view_of(y)
}

/// The shared views of a document.
pub open spec fn shared_views_of(root: YamlValue) -> Seq<SharedViewModel> {
    filter_map(plain_items(root, "shared_views"@), shared_view_fn())
}

fn parse_shared_view(item: &YamlNode) -> (r: Option<SharedView>)
    ensures
        opt_model(r) == shared_view_of(item@),
{
    let it = unwrap_tagged(item);
    match yaml_str(it, "name") {
        Some(n) => {
            let display_colorspace = match yaml_str(it, "colorspace") {
                Some(c) => string_of(c),
                None => owned_or_empty(yaml_str(it, "display_colorspace")),
            };
            Some(
                SharedView {
                    name: string_of(n),
                    view_transform: opt_owned(yaml_str(it, "view_transform")),
                    display_colorspace,
                    looks: opt_owned(yaml_str(it, "looks")),
                    rule: opt_owned(yaml_str(it, "rule")),
                    description: opt_owned(yaml_str(it, "description")),
                },
            )
        },
        None => None,
    }
}

/// Reads the shared views.
pub fn parse_shared_views(root: &YamlNode) -> (r: Vec<SharedView>)
    ensures
        models(r@) == shared_views_of(root@),
{
    let mut out: Vec<SharedView> = Vec::new();
    assert(models(out@) =~= Seq::<SharedViewModel>::empty());
    match yaml_get(root, "shared_views") {
        Some(node) => match node {
            YamlNode::Sequence(items) => {
                assert(node@ == YamlValue::Sequence(items_value(items@)));
                proof {
                    lemma_items_value(items@);
                }
                let ghost all = items_value(items@);
                let mut i: usize = 0;
                while i < items.len()
                    invariant
                        all == items_value(items@),
                        all.len() == items@.len(),
                        forall|j: int| 0 <= j < items@.len() ==> #[trigger] all[j] == items@[j]@,
                        0 <= i <= items@.len(),
                        models(out@) == filter_map(all.take(i as int), shared_view_fn()),
                    decreases items@.len() - i,
                {
                    proof {
                        lemma_filter_map_step(all, shared_view_fn(), i as int);
                    }
                    assert(all[i as int] == items@[i as int]@);
                    match parse_shared_view(&items[i]) {
                        Some(v) => {
                            let ghost before = out@;
                            out.push(v);
                            assert(models(out@) =~= models(before).push(v@));
                        },
                        None => {},
                    }
                    i = i + 1;
                }
                proof {
                    lemma_take_all(all);
                }
            },
            _ => {
                assert(!(node@ is Sequence));
            },
        },
        None => {},
    }
    out
}

/// A key/value pair of a viewing rule other than its name, color spaces and encodings.
pub open spec fn custom_key_of(e: (YamlValue, YamlValue)) -> Option<(Seq<char>, Seq<char>)> {
    match as_str(e.0) {
        Some(k) => if k != "name"@ && k != "colorspaces"@ && k != "encodings"@ {
            match as_str(e.1) {
                Some(v) => Some((k, v)),
                None => None,
            }
        } else {
            None
        },
        None => None,
    }
}

/// `custom_key_of` as a function value.
pub open spec fn custom_key_fn() -> spec_fn((YamlValue, YamlValue)) -> Option<(Seq<char>, Seq<char>)> {
    |e: (YamlValue, YamlValue)| custom_key_of(e)
}

/// The viewing rule an item defines: it needs a name.
pub open spec fn viewing_rule_of(item: YamlValue) -> Option<ViewingRuleModel> {
    let it = untag(item);
    match get_str(it, "name"@) {
        Some(n) => Some(
            ViewingRuleModel {
                name: n,
                colorspaces: get_str_list(it, "colorspaces"@),
                encodings: get_str_list(it, "encodings"@),
                custom_keys: match it {
                    YamlValue::Mapping(e) => filter_map(e, custom_key_fn()),
                    _ => Seq::empty(),
                },
            },
        ),
        None => None,
    }
}

/// `viewing_rule_of` as a function value.
pub open spec fn viewing_rule_fn() -> spec_fn(YamlValue) -> Option<ViewingRuleModel> {
    |y: YamlValue| viewing_rule_of(y)
}

/// The viewing rules of a document.
pub open spec fn viewing_rules_of(root: YamlValue) -> Seq<ViewingRuleModel> {
    filter_map(plain_items(root, "viewing_rules"@), viewing_rule_fn())
}

fn parse_custom_keys(e: &Vec<(YamlNode, YamlNode)>) -> (r: Vec<(String, String)>)
    ensures
        crate::strmap::pairs_view(r@) == filter_map(entries_value(e@), custom_key_fn()),
{
    proof {
        lemma_entries_value(e@);
    }
    let ghost all = entries_value(e@);
    let mut out: Vec<(String, String)> = Vec::new();
    assert(crate::strmap::pairs_view(out@) =~= Seq::<(Seq<char>, Seq<char>)>::empty());
    let mut i: usize = 0;
    while i < e.len()
        invariant
            all == entries_value(e@),
            all.len() == e@.len(),
            forall|j: int| 0 <= j < e@.len() ==> #[trigger] all[j] == (e@[j].0@, e@[j].1@),
            0 <= i <= e@.len(),
            crate::strmap::pairs_view(out@) == filter_map(all.take(i as int), custom_key_fn()),
        decreases e@.len() - i,
    {
        proof {
            lemma_filter_map_step(all, custom_key_fn(), i as int);
        }
        assert(all[i as int] == (e@[i as int].0@, e@[i as int].1@));
        match yaml_as_str(&e[i].0) {
            Some(k) => {
                if !str_eq(k, "name") && !str_eq(k, "colorspaces") && !str_eq(k, "encodings") {
                    match yaml_as_str(&e[i].1) {
                        Some(v) => {
                            let ghost before = out@;
                            out.push((string_of(k), string_of(v)));
                            assert(crate::strmap::pairs_view(out@) =~= crate::strmap::pairs_view(before).push((k@, v@)));
                        },
                        None => {},
                    }
                }
            },
            None => {},
        }
        i = i + 1;
    }
    proof {
        lemma_take_all(all);
    }
    out
}

fn parse_viewing_rule(item: &YamlNode) -> (r: Option<ViewingRule>)
    ensures
        opt_model(r) == viewing_rule_of(item@),
{
    let it = unwrap_tagged(item);
    match yaml_str(it, "name") {
        Some(n) => {
            let custom_keys = match it {
                YamlNode::Mapping(e) => {
                    assert(it@ == YamlValue::Mapping(entries_value(e@)));
                    parse_custom_keys(e)
                },
                _ => {
                    assert(!(it@ is Mapping));
                    let v: Vec<(String, String)> = Vec::new();
                    assert(crate::strmap::pairs_view(v@) =~= Seq::<(Seq<char>, Seq<char>)>::empty());
                    v
                },
            };
            Some(
                ViewingRule {
                    name: string_of(n),
                    colorspaces: yaml_str_list(it, "colorspaces"),
                    encodings: yaml_str_list(it, "encodings"),
                    custom_keys,
                },
            )
        },
        None => None,
    }
}

/// Reads the viewing rules.
pub fn parse_viewing_rules(root: &YamlNode) -> (r: Vec<ViewingRule>)
    ensures
        models(r@) == viewing_rules_of(root@),
{
    let mut out: Vec<ViewingRule> = Vec::new();
    assert(models(out@) =~= Seq::<ViewingRuleModel>::empty());
    match yaml_get(root, "viewing_rules") {
        Some(node) => match node {
            YamlNode::Sequence(items) => {
                assert(node@ == YamlValue::Sequence(items_value(items@)));
                proof {
                    lemma_items_value(items@);
                }
                let ghost all = items_value(items@);
                let mut i: usize = 0;
                while i < items.len()
                    invariant
                        all == items_value(items@),
                        all.len() == items@.len(),
                        forall|j: int| 0 <= j < items@.len() ==> #[trigger] all[j] == items@[j]@,
                        0 <= i <= items@.len(),
                        models(out@) == filter_map(all.take(i as int), viewing_rule_fn()),
                    decreases items@.len() - i,
                {
                    proof {
                        lemma_filter_map_step(all, viewing_rule_fn(), i as int);
                    }
                    assert(all[i as int] == items@[i as int]@);
                    match parse_viewing_rule(&items[i]) {
                        Some(v) => {
                            let ghost before = out@;
                            out.push(v);
                            assert(models(out@) =~= models(before).push(v@));
                        },
                        None => {},
                    }
                    i = i + 1;
                }
                proof {
                    lemma_take_all(all);
                }
            },
            _ => {
                assert(!(node@ is Sequence));
            },
        },
        None => {},
    }
    out
}

/// A role definition: a mapping entry whose key and value are strings.
pub open spec fn role_def_of(e: (YamlValue, YamlValue)) -> Option<(Seq<char>, Seq<char>)> {
    match (as_str(e.0), as_str(e.1)) {
        (Some(r), Some(c)) => Some((r, c)),
        _ => None,
    }
}

/// `role_def_of` as a function value.
pub open spec fn role_def_fn() -> spec_fn((YamlValue, YamlValue)) -> Option<(Seq<char>, Seq<char>)> {
    |e: (YamlValue, YamlValue)| role_def_of(e)
}

/// The role definitions of a document, in order.
pub open spec fn role_defs_of(root: YamlValue) -> Seq<(Seq<char>, Seq<char>)> {
    filter_map(crate::yaml::get_entries(root, "roles"@), role_def_fn())
}

/// Reads the roles: each definition in turn, a later one replacing an
/// earlier one of the same role.
pub fn parse_roles(root: &YamlNode) -> (r: Roles)
    ensures
        r@ == map_of(role_defs_of(root@)),
        r.ordered() == upsert_all(Seq::empty(), role_defs_of(root@)),
{
    let mut roles = Roles::new();
    let e = crate::yaml::yaml_entries(root, "roles");
    proof {
        lemma_entries_value(e@);
    }
    let ghost all = entries_value(e@);
    let mut i: usize = 0;
    assert(all.take(0) =~= Seq::<(YamlValue, YamlValue)>::empty());
    assert(roles@ =~= map_of(Seq::empty()));
    while i < e.len()
        invariant
            all == entries_value(e@),
            all == crate::yaml::get_entries(root@, "roles"@),
            all.len() == e@.len(),
            forall|j: int| 0 <= j < e@.len() ==> #[trigger] all[j] == (e@[j].0@, e@[j].1@),
            0 <= i <= e@.len(),
            roles@ == map_of(filter_map(all.take(i as int), role_def_fn())),
            roles.ordered() == upsert_all(Seq::empty(), filter_map(all.take(i as int), role_def_fn())),
        decreases e@.len() - i,
    {
        proof {
            lemma_filter_map_step(all, role_def_fn(), i as int);
        }
        assert(all[i as int] == (e@[i as int].0@, e@[i as int].1@));
        match (yaml_as_str(&e[i].0), yaml_as_str(&e[i].1)) {
            (Some(role), Some(cs)) => {
                let ghost defs = filter_map(all.take(i as int), role_def_fn());
                roles.define(role, cs);
                assert(defs.push((role@, cs@)).drop_last() =~= defs);
            },
            _ => {},
        }
        i = i + 1;
    }
    proof {
        lemma_take_all(all);
    }
    roles
}

/// The transform definition under `key`, when the value there is one.
pub open spec fn pick_transform(it: YamlValue, key: Seq<char>) -> Option<YamlValue> {
    match get(it, key) {
        Some(t) => if transform_ok(t) {
            Some(t)
        } else {
            None
        },
        None => None,
    }
}

/// The transform definition under `second` when there is one, else the one under `first`.
pub open spec fn pick_either(it: YamlValue, first: Seq<char>, second: Seq<char>) -> Option<YamlValue> {
    match pick_transform(it, second) {
        Some(t) => Some(t),
        None => pick_transform(it, first),
    }
}

/// A copy of the transform definition under `key`, when the value there is one.
fn read_transform(it: &YamlNode, key: &str) -> (r: Option<YamlNode>)
    ensures
        opt_node_value(r) == pick_transform(it@, key@),
{
    match yaml_get(it, key) {
        Some(t) => if transform_parses(t) {
            Some(t.copy())
        } else {
            None
        },
        None => None,
    }
}

/// The color space an item defines: it needs a name. The keyword of
/// `family` and `encoding` is read ignoring ASCII case; the `data` encoding
/// or `isdata: true` marks the space as data; `to_scene_reference` and
/// `from_scene_reference` take precedence over `to_reference` and `from_reference`.
pub open spec fn colorspace_of(item: YamlValue) -> Option<ColorSpaceModel> {
    let it = untag(item);
    match get_str(it, "name"@) {
        Some(n) => {
            let enc = match get_str(it, "encoding"@) {
                Some(e) => encoding_of(ascii_lower(e)),
                None => Encoding::Unknown,
            };
            Some(
                ColorSpaceModel {
                    name: n,
                    aliases: get_str_list(it, "aliases"@),
                    description: or_empty(get_str(it, "description"@)),
                    family: match get_str(it, "family"@) {
                        Some(f) => family_of(ascii_lower(f)),
                        None => Family::Other,
                    },
                    encoding: enc,
                    bit_depth: BitDepth::F32,
                    is_data: enc == Encoding::Data || get_bool(it, "isdata"@) == Some(true),
                    to_reference: pick_either(it, "to_reference"@, "to_scene_reference"@),
                    from_reference: pick_either(it, "from_reference"@, "from_scene_reference"@),
                    to_display_reference: pick_transform(it, "to_display_reference"@),
                    from_display_reference: pick_transform(it, "from_display_reference"@),
                },
            )
        },
        None => None,
    }
}

/// `colorspace_of` as a function value.
pub open spec fn colorspace_fn() -> spec_fn(YamlValue) -> Option<ColorSpaceModel> {
    |y: YamlValue| colorspace_of(y)
}

/// The color spaces of a document. In strict mode an item without a name
/// is an error; otherwise such items are skipped.
pub open spec fn colorspaces_of(root: YamlValue, strict: bool) -> Result<Seq<ColorSpaceModel>, ErrorModel> {
    let items = get_items(root, "colorspaces"@);
    if strict && exists|i: int| 0 <= i < items.len() && colorspace_of(#[trigger] items[i]) is None {
        Err(ErrorModel::Yaml("colorspace missing name"@))
    } else {
        Ok(filter_map(items, colorspace_fn()))
    }
}

/// Reads the color space an item defines.
pub fn parse_colorspace(item: &YamlNode) -> (r: Option<ColorSpace>)
    ensures
        opt_model(r) == colorspace_of(item@),
{
    let it = unwrap_tagged(item);
    let name = match yaml_str(it, "name") {
        Some(n) => n,
        None => {
            return None;
        },
    };
    let mut b = ColorSpace::builder(name);
    match yaml_str(it, "description") {
        Some(d) => {
            b = b.description(d);
        },
        None => {},
    }
    match yaml_str(it, "family") {
        Some(f) => {
            b = b.family(Family::parse(f));
        },
        None => {},
    }
    match yaml_str(it, "encoding") {
        Some(e) => {
            b = b.encoding(Encoding::parse(e));
        },
        None => {},
    }
    if yaml_bool(it, "isdata") == Some(true) {
        b = b.is_data(true);
    }
    let aliases = yaml_str_list(it, "aliases");
    let ghost al = strings_view(aliases@);
    let ghost base = b@;
    let mut i: usize = 0;
    assert(base.aliases =~= al.take(0));
    while i < aliases.len()
        invariant
            al == strings_view(aliases@),
            0 <= i <= aliases@.len(),
            b@ == (ColorSpaceModel { aliases: al.take(i as int), ..base }),
        decreases aliases@.len() - i,
    {
        b = b.alias(aliases[i].as_str());
        assert(al.take(i + 1) =~= al.take(i as int).push(aliases@[i as int]@));
        i = i + 1;
    }
    assert(al.take(i as int) =~= al);
    match read_transform(it, "to_reference") {
        Some(t) => {
            b = b.to_reference(t);
        },
        None => {},
    }
    match read_transform(it, "to_scene_reference") {
        Some(t) => {
            b = b.to_reference(t);
        },
        None => {},
    }
    match read_transform(it, "from_reference") {
        Some(t) => {
            b = b.from_reference(t);
        },
        None => {},
    }
    match read_transform(it, "from_scene_reference") {
        Some(t) => {
            b = b.from_reference(t);
        },
        None => {},
    }
    match read_transform(it, "to_display_reference") {
        Some(t) => {
            b = b.to_display_reference(t);
        },
        None => {},
    }
    match read_transform(it, "from_display_reference") {
        Some(t) => {
            b = b.from_display_reference(t);
        },
        None => {},
    }
    Some(b.build())
}

/// Reads the color spaces (see `colorspaces_of`).
pub fn parse_colorspaces(root: &YamlNode, strict: bool) -> (r: Result<Vec<ColorSpace>, OcioError>)
    ensures
        match r {
            Ok(v) => colorspaces_of(root@, strict) == Ok::<Seq<ColorSpaceModel>, ErrorModel>(models(v@)),
            Err(e) => colorspaces_of(root@, strict) == Err::<Seq<ColorSpaceModel>, ErrorModel>(e@),
        },
{
    let items = yaml_items(root, "colorspaces");
    proof {
        lemma_items_value(items@);
    }
    let ghost all = items_value(items@);
    let mut out: Vec<ColorSpace> = Vec::new();
    assert(models(out@) =~= Seq::<ColorSpaceModel>::empty());
    let mut i: usize = 0;
    while i < items.len()
        invariant
            all == items_value(items@),
            all == get_items(root@, "colorspaces"@),
            all.len() == items@.len(),
            forall|j: int| 0 <= j < items@.len() ==> #[trigger] all[j] == items@[j]@,
            0 <= i <= items@.len(),
            models(out@) == filter_map(all.take(i as int), colorspace_fn()),
            strict ==> forall|j: int| 0 <= j < i ==> colorspace_of(#[trigger] all[j]) is Some,
        decreases items@.len() - i,
    {
        proof {
            lemma_filter_map_step(all, colorspace_fn(), i as int);
        }
        assert(all[i as int] == items@[i as int]@);
        match parse_colorspace(&items[i]) {
            Some(c) => {
                let ghost before = out@;
                out.push(c);
                assert(models(out@) =~= models(before).push(c@));
            },
            None => {
                if strict {
                    assert(colorspace_of(all[i as int]) is None);
                    return Err(OcioError::Yaml(string_of("colorspace missing name")));
                }
            },
        }
        i = i + 1;
    }
    proof {
        lemma_take_all(all);
    }
    Ok(out)
}

/// The transform under `first` when there is a value there (a definition
/// or not), else the one under `second`.
pub open spec fn first_transform(it: YamlValue, first: Seq<char>, second: Seq<char>) -> Option<YamlValue> {
    match get(it, first) {
        Some(t) => if transform_ok(t) {
            Some(t)
        } else {
            None
        },
        None => pick_transform(it, second),
    }
}

/// The named transform an item defines: it needs a name; its forward
/// transform is under `transform`, or under `forward_transform` when there
/// is no `transform` key.
pub open spec fn named_transform_of(item: YamlValue) -> Option<NamedTransformModel> {
    let it = untag(item);
    match get_str(it, "name"@) {
        Some(n) => Some(
            NamedTransformModel {
                name: n,
                family: get_str(it, "family"@),
                description: get_str(it, "description"@),
                forward: first_transform(it, "transform"@, "forward_transform"@),
                inverse: pick_transform(it, "inverse_transform"@),
            },
        ),
        None => None,
    }
}

/// `named_transform_of` as a function value.
pub open spec fn named_transform_fn() -> spec_fn(YamlValue) -> Option<NamedTransformModel> {
    |y: YamlValue| named_transform_of(y)
}

/// The named transforms of a document.
pub open spec fn named_transforms_of(root: YamlValue) -> Seq<NamedTransformModel> {
    filter_map(get_items(root, "named_transforms"@), named_transform_fn())
}

fn parse_named_transform(item: &YamlNode) -> (r: Option<NamedTransform>)
    ensures
        opt_model(r) == named_transform_of(item@),
{
    let it = unwrap_tagged(item);
    match yaml_str(it, "name") {
        Some(n) => {
            let forward = match yaml_get(it, "transform") {
                Some(t) => if transform_parses(t) {
                    Some(t.copy())
                } else {
                    None
                },
                None => read_transform(it, "forward_transform"),
            };
            Some(
                NamedTransform {
                    name: string_of(n),
                    family: opt_owned(yaml_str(it, "family")),
                    description: opt_owned(yaml_str(it, "description")),
                    forward,
                    inverse: read_transform(it, "inverse_transform"),
                },
            )
        },
        None => None,
    }
}

/// Reads the named transforms.
pub fn parse_named_transforms(root: &YamlNode) -> (r: Vec<NamedTransform>)
    ensures
        models(r@) == named_transforms_of(root@),
{
    let items = yaml_items(root, "named_transforms");
    proof {
        lemma_items_value(items@);
    }
    let ghost all = items_value(items@);
    let mut out: Vec<NamedTransform> = Vec::new();
    assert(models(out@) =~= Seq::<NamedTransformModel>::empty());
    let mut i: usize = 0;
    while i < items.len()
        invariant
            all == items_value(items@),
            all.len() == items@.len(),
            forall|j: int| 0 <= j < items@.len() ==> #[trigger] all[j] == items@[j]@,
            0 <= i <= items@.len(),
            models(out@) == filter_map(all.take(i as int), named_transform_fn()),
        decreases items@.len() - i,
    {
        proof {
            lemma_filter_map_step(all, named_transform_fn(), i as int);
        }
        assert(all[i as int] == items@[i as int]@);
        match parse_named_transform(&items[i]) {
            Some(v) => {
                let ghost before = out@;
                out.push(v);
                assert(models(out@) =~= models(before).push(v@));
            },
            None => {},
        }
        i = i + 1;
    }
    proof {
        lemma_take_all(all);
    }
    out
}

/// The view an item of a display defines: it needs a name and a color
/// space; its looks are `looks` or the empty text.
pub open spec fn view_of(item: YamlValue) -> Option<ViewModel> {
    let v = untag(item);
    match (get_str(v, "name"@), get_str(v, "colorspace"@)) {
        (Some(n), Some(c)) => Some(
            ViewModel {
                name: n,
                colorspace: c,
                looks: Some(or_empty(get_str(v, "looks"@))),
                view_transform: None,
                rule: None,
                description: Seq::empty(),
            },
        ),
        _ => None,
    }
}

/// `view_of` as a function value.
pub open spec fn view_fn() -> spec_fn(YamlValue) -> Option<ViewModel> {
    |y: YamlValue| view_of(y)
}

/// The views that the value of a display entry defines.
pub open spec fn views_in(node: YamlValue) -> Seq<ViewModel> {
    match untag(node) {
        YamlValue::Sequence(items) => filter_map(items, view_fn()),
        _ => Seq::empty(),
    }
}

/// The name of the first view, if any.
pub open spec fn first_view_name(vs: Seq<ViewModel>) -> Option<Seq<char>> {
    if vs.len() > 0 {
        Some(vs[0].name)
    } else {
        None
    }
}

/// The display an entry of `displays` defines: its key is the name; the
/// first view is the default one.
pub open spec fn display_of(e: (YamlValue, YamlValue)) -> Option<DisplayModel> {
    match as_str(e.0) {
        Some(n) => Some(
            DisplayModel { name: n, views: views_in(e.1), default_view: first_view_name(views_in(e.1)) },
        ),
        None => None,
    }
}

/// `display_of` as a function value.
pub open spec fn display_fn() -> spec_fn((YamlValue, YamlValue)) -> Option<DisplayModel> {
    |e: (YamlValue, YamlValue)| display_of(e)
}

/// The displays of a document.
pub open spec fn displays_of(root: YamlValue) -> Seq<DisplayModel> {
    filter_map(crate::yaml::get_entries(root, "displays"@), display_fn())
}

/// The name of the first display, if any.
pub open spec fn first_display_name(ds: Seq<DisplayModel>) -> Option<Seq<char>> {
    if ds.len() > 0 {
        Some(ds[0].name)
    } else {
        None
    }
}

fn parse_view(item: &YamlNode) -> (r: Option<View>)
    ensures
        opt_model(r) == view_of(item@),
{
    let v = unwrap_tagged(item);
    match (yaml_str(v, "name"), yaml_str(v, "colorspace")) {
        (Some(n), Some(c)) => {
            let looks = owned_or_empty(yaml_str(v, "looks"));
            Some(View::new(n, c).with_look(looks.as_str()))
        },
        _ => None,
    }
}

fn parse_display(name: &str, views: &YamlNode) -> (r: Display)
    ensures
        r.model() == (DisplayModel { name: name@, views: views_in(views@), default_view: first_view_name(views_in(views@)) }),
{
    let mut d = Display::new(name);
    match unwrap_tagged(views) {
        YamlNode::Sequence(items) => {
            assert(untag(views@) == YamlValue::Sequence(items_value(items@)));
            proof {
                lemma_items_value(items@);
            }
            let ghost all = items_value(items@);
            let mut i: usize = 0;
            while i < items.len()
                invariant
                    all == items_value(items@),
                    all.len() == items@.len(),
                    forall|j: int| 0 <= j < items@.len() ==> #[trigger] all[j] == items@[j]@,
                    0 <= i <= items@.len(),
                    d.model() == (DisplayModel {
                        name: name@,
                        views: filter_map(all.take(i as int), view_fn()),
                        default_view: first_view_name(filter_map(all.take(i as int), view_fn())),
                    }),
                decreases items@.len() - i,
            {
                proof {
                    lemma_filter_map_step(all, view_fn(), i as int);
                }
                assert(all[i as int] == items@[i as int]@);
                match parse_view(&items[i]) {
                    Some(v) => {
                        d.add_view(v);
                    },
                    None => {},
                }
                i = i + 1;
            }
            proof {
                lemma_take_all(all);
            }
        },
        _ => {
            assert(!(untag(views@) is Sequence));
        },
    }
    d
}

/// Reads the displays into a display manager; the first display is the default one.
pub fn parse_displays(root: &YamlNode) -> (r: DisplayManager)
    ensures
        r@ == (DisplayManagerModel {
            displays: displays_of(root@),
            default_display: first_display_name(displays_of(root@)),
            view_transforms: Seq::empty(),
        }),
{
    let mut dm = DisplayManager::new();
    let e = crate::yaml::yaml_entries(root, "displays");
    proof {
        lemma_entries_value(e@);
    }
    let ghost all = entries_value(e@);
    let mut i: usize = 0;
    while i < e.len()
        invariant
            all == entries_value(e@),
            all == crate::yaml::get_entries(root@, "displays"@),
            all.len() == e@.len(),
            forall|j: int| 0 <= j < e@.len() ==> #[trigger] all[j] == (e@[j].0@, e@[j].1@),
            0 <= i <= e@.len(),
            dm@ == (DisplayManagerModel {
                displays: filter_map(all.take(i as int), display_fn()),
                default_display: first_display_name(filter_map(all.take(i as int), display_fn())),
                view_transforms: Seq::empty(),
            }),
        decreases e@.len() - i,
    {
        proof {
            lemma_filter_map_step(all, display_fn(), i as int);
        }
        assert(all[i as int] == (e@[i as int].0@, e@[i as int].1@));
        match yaml_as_str(&e[i].0) {
            Some(name) => {
                let d = parse_display(name, &e[i].1);
                dm.add_display(d);
            },
            None => {},
        }
        i = i + 1;
    }
    proof {
        lemma_take_all(all);
    }
    dm
}

/// The look an item defines: it needs a name; its process space and
/// description are the texts given or empty.
pub open spec fn look_of(item: YamlValue) -> Option<LookModel> {
    let l = untag(item);
    match get_str(l, "name"@) {
        Some(n) => Some(
            LookModel {
                name: n,
                process_space: Some(or_empty(get_str(l, "process_space"@))),
                description: or_empty(get_str(l, "description"@)),
                transform: pick_transform(l, "transform"@),
                inverse_transform: pick_transform(l, "inverse_transform"@),
            },
        ),
        None => None,
    }
}

/// `look_of` as a function value.
pub open spec fn look_fn() -> spec_fn(YamlValue) -> Option<LookModel> {
    |y: YamlValue| look_of(y)
}

/// The looks of a document.
pub open spec fn looks_of(root: YamlValue) -> Seq<LookModel> {
    filter_map(get_items(root, "looks"@), look_fn())
}

fn parse_look(item: &YamlNode) -> (r: Option<Look>)
    ensures
        opt_model(r) == look_of(item@),
{
    let l = unwrap_tagged(item);
    match yaml_str(l, "name") {
        Some(n) => {
            let ps = owned_or_empty(yaml_str(l, "process_space"));
            let desc = owned_or_empty(yaml_str(l, "description"));
            let mut look = Look::new(n).process_space(ps.as_str()).description(desc.as_str());
            match read_transform(l, "transform") {
                Some(t) => {
                    look = look.transform(t);
                },
                None => {},
            }
            match read_transform(l, "inverse_transform") {
                Some(t) => {
                    look = look.inverse_transform(t);
                },
                None => {},
            }
            Some(look)
        },
        None => None,
    }
}

/// Reads the looks.
pub fn parse_looks_section(root: &YamlNode) -> (r: LookManager)
    ensures
        r@ == looks_of(root@),
{
    let items = yaml_items(root, "looks");
    proof {
        lemma_items_value(items@);
    }
    let ghost all = items_value(items@);
    let mut lm = LookManager::new();
    let mut i: usize = 0;
    assert(lm@ =~= filter_map(all.take(0), look_fn()));
    while i < items.len()
        invariant
            all == items_value(items@),
            all.len() == items@.len(),
            forall|j: int| 0 <= j < items@.len() ==> #[trigger] all[j] == items@[j]@,
            0 <= i <= items@.len(),
            lm@ == filter_map(all.take(i as int), look_fn()),
        decreases items@.len() - i,
    {
        proof {
            lemma_filter_map_step(all, look_fn(), i as int);
        }
        assert(all[i as int] == items@[i as int]@);
        match parse_look(&items[i]) {
            Some(l) => {
                lm.add(l);
            },
            None => {},
        }
        i = i + 1;
    }
    proof {
        lemma_take_all(all);
    }
    lm
}

/// The view transform an item defines: it needs a name; its family and
/// description are the texts given or empty.
pub open spec fn view_transform_of(item: YamlValue) -> Option<ViewTransformModel> {
    let v = untag(item);
    match get_str(v, "name"@) {
        Some(n) => Some(
            ViewTransformModel {
                name: n,
                family: or_empty(get_str(v, "family"@)),
                description: or_empty(get_str(v, "description"@)),
                from_scene_reference: pick_transform(v, "from_scene_reference"@),
                to_scene_reference: pick_transform(v, "to_scene_reference"@),
                from_display_reference: pick_transform(v, "from_display_reference"@),
                to_display_reference: pick_transform(v, "to_display_reference"@),
            },
        ),
        None => None,
    }
}

/// `view_transform_of` as a function value.
pub open spec fn view_transform_fn() -> spec_fn(YamlValue) -> Option<ViewTransformModel> {
    |y: YamlValue| view_transform_of(y)
}

/// The view transforms of a document.
pub open spec fn view_transforms_of(root: YamlValue) -> Seq<ViewTransformModel> {
    filter_map(get_items(root, "view_transforms"@), view_transform_fn())
}

fn parse_view_transform(item: &YamlNode) -> (r: Option<ViewTransform>)
    ensures
        opt_model(r) == view_transform_of(item@),
{
    let v = unwrap_tagged(item);
    match yaml_str(v, "name") {
        Some(n) => {
            let desc = owned_or_empty(yaml_str(v, "description"));
            let mut vt = ViewTransform::new(n).with_description(desc.as_str());
            match yaml_str(v, "family") {
                Some(f) => {
                    vt = vt.with_family(f);
                },
                None => {},
            }
            match read_transform(v, "from_scene_reference") {
                Some(t) => {
                    vt = vt.with_from_scene_reference(t);
                },
                None => {},
            }
            match read_transform(v, "to_scene_reference") {
                Some(t) => {
                    vt = vt.with_to_scene_reference(t);
                },
                None => {},
            }
            match read_transform(v, "from_display_reference") {
                Some(t) => {
                    vt = vt.with_from_display_reference(t);
                },
                None => {},
            }
            match read_transform(v, "to_display_reference") {
                Some(t) => {
                    vt = vt.with_to_display_reference(t);
                },
                None => {},
            }
            Some(vt)
        },
        None => None,
    }
}

/// Reads the view transforms into `dm`, after its view transforms.
pub fn parse_view_transforms(root: &YamlNode, dm: &mut DisplayManager)
    ensures
        final(dm)@ == (DisplayManagerModel {
            view_transforms: old(dm)@.view_transforms + view_transforms_of(root@),
            ..old(dm)@
        }),
{
    let items = yaml_items(root, "view_transforms");
    proof {
        lemma_items_value(items@);
    }
    let ghost all = items_value(items@);
    let ghost start = dm@;
    let mut i: usize = 0;
    assert(start.view_transforms =~= start.view_transforms + filter_map(all.take(0), view_transform_fn()));
    while i < items.len()
        invariant
            all == items_value(items@),
            all.len() == items@.len(),
            forall|j: int| 0 <= j < items@.len() ==> #[trigger] all[j] == items@[j]@,
            0 <= i <= items@.len(),
            dm@ == (DisplayManagerModel {
                view_transforms: start.view_transforms + filter_map(all.take(i as int), view_transform_fn()),
                ..start
            }),
        decreases items@.len() - i,
    {
        proof {
            lemma_filter_map_step(all, view_transform_fn(), i as int);
        }
        assert(all[i as int] == items@[i as int]@);
        match parse_view_transform(&items[i]) {
            Some(vt) => {
                let ghost before = dm@.view_transforms;
                dm.add_view_transform(vt);
                assert(before.push(vt@) =~= start.view_transforms + filter_map(all.take(i as int), view_transform_fn()).push(vt@));
            },
            None => {},
        }
        i = i + 1;
    }
    proof {
        lemma_take_all(all);
    }
}

/// The message of a refused rule pattern: `what`, the rule's name in quotes, and the error.
pub open spec fn rule_error(what: Seq<char>, name: Seq<char>, e: Seq<char>) -> ErrorModel {
    ErrorModel::Validation(what + "'"@ + name + "': "@ + e)
}

fn rule_error_exec(what: &str, name: &str, e: &str) -> (r: OcioError)
    ensures
        r@ == rule_error(what@, name@, e@),
{
    let mut m = string_of(what);
    push_str(&mut m, "'");
    push_str(&mut m, name);
    push_str(&mut m, "': ");
    push_str(&mut m, e);
    OcioError::Validation(m)
}

/// What an item of `file_rules` gives: nothing when it lacks a name or a
/// color space; else a rule, or an error when one of its patterns does not
/// compile. A rule named `Default` (ignoring ASCII case) is the default
/// rule; one with `regex` a regex rule; any other a basic rule with its
/// `pattern` (or the empty text) and its optional `extension`, which is
/// checked as a glob only when it holds a glob metacharacter.
pub open spec fn file_rule_of(item: YamlValue) -> Option<Result<FileRuleModel, ErrorModel>> {
    let r = untag(item);
    match (get_str(r, "name"@), get_str(r, "colorspace"@)) {
        (Some(n), Some(c)) => Some(
            if eq_ascii_ci(n, "Default"@) {
                Ok(FileRuleModel { name: n, colorspace: c, kind: FileRuleKindModel::Default })
            } else {
                match get_str(r, "regex"@) {
                    Some(re) => match regex_error(re) {
                        Some(e) => Err(rule_error("invalid regex rule "@, n, e)),
                        None => Ok(FileRuleModel { name: n, colorspace: c, kind: FileRuleKindModel::Regex(re) }),
                    },
                    None => {
                        let p = or_empty(get_str(r, "pattern"@));
                        let ext = get_str(r, "extension"@);
                        if p.len() > 0 && glob_error(p) is Some {
                            Err(rule_error("invalid glob pattern "@, n, glob_error(p).unwrap()))
                        } else if ext is Some && has_glob(ext.unwrap()) && glob_error(ext.unwrap()) is Some {
                            Err(rule_error("invalid extension glob "@, n, glob_error(ext.unwrap()).unwrap()))
                        } else {
                            Ok(FileRuleModel { name: n, colorspace: c, kind: FileRuleKindModel::Basic(p, ext) })
                        }
                    },
                }
            },
        ),
        _ => None,
    }
}

/// The rules of a sequence of items, or the first error among them.
pub open spec fn file_rules_in(items: Seq<YamlValue>) -> Result<Seq<FileRuleModel>, ErrorModel>
    decreases items.len(),
{
    if items.len() == 0 {
        Ok(Seq::empty())
    } else {
        match file_rules_in(items.drop_last()) {
            Err(e) => Err(e),
            Ok(rs) => match file_rule_of(items.last()) {
                None => Ok(rs),
                Some(Ok(rule)) => Ok(rs.push(rule)),
                Some(Err(e)) => Err(e),
            },
        }
    }
}

/// Whether a rule is the default rule.
pub open spec fn is_default_rule() -> spec_fn(FileRuleModel) -> bool {
    |r: FileRuleModel| r.kind is Default
}

/// The file rules of a document. When the document has `file_rules` and
/// parsing is strict, the rules must include a default rule, and the
/// first default rule must be the last rule.
pub open spec fn file_rules_of(root: YamlValue, strict: bool) -> Result<Seq<FileRuleModel>, ErrorModel> {
    match get(root, "file_rules"@) {
        None => Ok(Seq::empty()),
        Some(v) => {
            let items = match untag(v) {
                YamlValue::Sequence(items) => items,
                _ => Seq::empty(),
            };
            match file_rules_in(items) {
                Err(e) => Err(e),
                Ok(rs) => if !strict {
                    Ok(rs)
                } else {
                    match first_index(rs, is_default_rule()) {
                        None => Err(ErrorModel::Validation("file_rules must include a Default rule"@)),
                        Some(i) => if i + 1 != rs.len() {
                            Err(ErrorModel::Validation("Default rule must be the last file rule"@))
                        } else {
                            Ok(rs)
                        },
                    }
                },
            }
        },
    }
}

/// An error among the first items stays the result for all of them.
proof fn lemma_rules_err(items: Seq<YamlValue>, i: int, e: ErrorModel)
    requires
        0 <= i <= items.len(),
        file_rules_in(items.take(i)) == Err::<Seq<FileRuleModel>, ErrorModel>(e),
    ensures
        file_rules_in(items) == Err::<Seq<FileRuleModel>, ErrorModel>(e),
    decreases items.len(),
{
    if i == items.len() {
        assert(items.take(i) =~= items);
    } else {
        let d = items.drop_last();
        assert(d.take(i) =~= items.take(i));
        lemma_rules_err(d, i, e);
    }
}

fn parse_file_rule(item: &YamlNode) -> (r: Option<Result<FileRule, OcioError>>)
    ensures
        match r {
            None => file_rule_of(item@) is None,
            Some(Ok(rule)) => file_rule_of(item@) == Some(Ok::<FileRuleModel, ErrorModel>(rule@)),
            Some(Err(e)) => file_rule_of(item@) == Some(Err::<FileRuleModel, ErrorModel>(e@)),
        },
{
    let ri = unwrap_tagged(item);
    let (name, colorspace) = match (yaml_str(ri, "name"), yaml_str(ri, "colorspace")) {
        (Some(n), Some(c)) => (n, c),
        _ => {
            return None;
        },
    };
    if eq_ignore_ascii_case(name, "Default") {
        return Some(Ok(FileRule { name: string_of(name), colorspace: string_of(colorspace), kind: FileRuleKind::Default }));
    }
    match yaml_str(ri, "regex") {
        Some(re) => match regex_check(re) {
            Some(e) => Some(Err(rule_error_exec("invalid regex rule ", name, e.as_str()))),
            None => Some(
                Ok(FileRule {
                    name: string_of(name),
                    colorspace: string_of(colorspace),
                    kind: FileRuleKind::Regex { regex: string_of(re) },
                }),
            ),
        },
        None => {
            let pattern = owned_or_empty(yaml_str(ri, "pattern"));
            if !pattern.as_str().is_empty() {
                match glob_check(pattern.as_str()) {
                    Some(e) => {
                        return Some(Err(rule_error_exec("invalid glob pattern ", name, e.as_str())));
                    },
                    None => {},
                }
            }
            let extension = opt_owned(yaml_str(ri, "extension"));
            match &extension {
                Some(ext) => {
                    if has_glob_chars(ext.as_str()) {
                        match glob_check(ext.as_str()) {
                            Some(e) => {
                                return Some(Err(rule_error_exec("invalid extension glob ", name, e.as_str())));
                            },
                            None => {},
                        }
                    }
                },
                None => {},
            }
            Some(
                Ok(FileRule {
                    name: string_of(name),
                    colorspace: string_of(colorspace),
                    kind: FileRuleKind::Basic { pattern, extension },
                }),
            )
        },
    }
}

/// Position of the first default rule.
fn default_rule_position(rules: &Vec<FileRule>) -> (r: Option<usize>)
    ensures
        r matches Some(i) ==> first_index(models(rules@), is_default_rule()) == Some(i as int) && i < rules@.len(),
        r is None ==> first_index(models(rules@), is_default_rule()) is None,
{
    let ghost ms = models(rules@);
    let mut i: usize = 0;
    while i < rules.len()
        invariant
            ms == models(rules@),
            0 <= i <= rules@.len(),
            forall|j: int| 0 <= j < i ==> !is_default_rule()(#[trigger] ms[j]),
        decreases rules@.len() - i,
    {
        assert(ms[i as int] == rules@[i as int]@);
        let d = match &rules[i].kind {
            FileRuleKind::Default => true,
            _ => false,
        };
        if d {
            proof {
                lemma_first_index(ms, is_default_rule(), i as int);
            }
            return Some(i);
        }
        i = i + 1;
    }
    proof {
        lemma_first_index(ms, is_default_rule(), i as int);
    }
    None
}

/// Reads the file rules (see `file_rules_of`).
pub fn parse_file_rules(root: &YamlNode, strict: bool) -> (r: Result<Vec<FileRule>, OcioError>)
    ensures
        match r {
            Ok(v) => file_rules_of(root@, strict) == Ok::<Seq<FileRuleModel>, ErrorModel>(models(v@)),
            Err(e) => file_rules_of(root@, strict) == Err::<Seq<FileRuleModel>, ErrorModel>(e@),
        },
{
    let mut out: Vec<FileRule> = Vec::new();
    assert(models(out@) =~= Seq::<FileRuleModel>::empty());
    let v = match yaml_get(root, "file_rules") {
        Some(v) => v,
        None => {
            return Ok(out);
        },
    };
    let items: &[YamlNode] = match unwrap_tagged(v) {
        YamlNode::Sequence(items) => {
            assert(untag(v@) == YamlValue::Sequence(items_value(items@)));
            items.as_slice()
        },
        _ => {
            assert(!(untag(v@) is Sequence));
            let e: &[YamlNode] = &[];
            assert(items_value(e@) =~= Seq::<YamlValue>::empty());
            e
        },
    };
    proof {
        lemma_items_value(items@);
    }
    let ghost all = items_value(items@);
    let mut i: usize = 0;
    assert(all.take(0) =~= Seq::<YamlValue>::empty());
    while i < items.len()
        invariant
            get(root@, "file_rules"@) == Some(v@),
            all == items_value(items@),
            all == match untag(v@) {
                YamlValue::Sequence(items) => items,
                _ => Seq::empty(),
            },
            all.len() == items@.len(),
            forall|j: int| 0 <= j < items@.len() ==> #[trigger] all[j] == items@[j]@,
            0 <= i <= items@.len(),
            file_rules_in(all.take(i as int)) == Ok::<Seq<FileRuleModel>, ErrorModel>(models(out@)),
        decreases items@.len() - i,
    {
        assert(all.take(i + 1).drop_last() =~= all.take(i as int));
        assert(all.take(i + 1).last() == all[i as int]);
        assert(all[i as int] == items@[i as int]@);
        match parse_file_rule(&items[i]) {
            Some(Ok(rule)) => {
                let ghost before = out@;
                out.push(rule);
                assert(models(out@) =~= models(before).push(rule@));
            },
            Some(Err(e)) => {
                assert(file_rules_in(all.take(i + 1)) == Err::<Seq<FileRuleModel>, ErrorModel>(e@));
                proof {
                    lemma_rules_err(all, i + 1, e@);
                }
                return Err(e);
            },
            None => {},
        }
        i = i + 1;
    }
    assert(all.take(i as int) =~= all);
    if strict {
        match default_rule_position(&out) {
            None => {
                return Err(OcioError::Validation(string_of("file_rules must include a Default rule")));
            },
            Some(idx) => {
                if idx != out.len() - 1 {
                    return Err(OcioError::Validation(string_of("Default rule must be the last file rule")));
                }
            },
        }
    }
    Ok(out)
}

/// Whether parsing is strict: `strictparsing`, or strict when it is absent.
pub open spec fn strict_of(root: YamlValue) -> bool {
    match get_bool(root, "strictparsing"@) {
        Some(b) => b,
        None => true,
    }
}

/// The config that a document gives, read with `wd` as working directory,
/// or the first error: a missing or unsupported version, then (in strict
/// mode) a color space without a name, then a refused file rule.
pub open spec fn config_of(root: YamlValue, wd: Seq<char>) -> Result<ConfigModel, ErrorModel> {
    match version_of(root) {
        Err(e) => Err(e),
        Ok(version) => {
            let strict = strict_of(root);
            match colorspaces_of(root, strict) {
                Err(e) => Err(e),
                Ok(css) => match file_rules_of(root, strict) {
                    Err(e) => Err(e),
                    Ok(rules) => Ok(
                        ConfigModel {
                            name: or_empty(get_str(root, "name"@)),
                            description: Seq::empty(),
                            version,
                            search_paths: search_paths_of(root, wd),
                            working_dir: wd,
                            colorspaces: css,
                            roles: map_of(role_defs_of(root)),
                            role_order: upsert_all(Seq::empty(), role_defs_of(root)),
                            displays: DisplayManagerModel {
                                displays: displays_of(root),
                                default_display: first_display_name(displays_of(root)),
                                view_transforms: view_transforms_of(root),
                            },
                            looks: looks_of(root),
                            active_displays: get_str_list(root, "active_displays"@),
                            active_views: get_str_list(root, "active_views"@),
                            shared_views: shared_views_of(root),
                            viewing_rules: viewing_rules_of(root),
                            named_transforms: named_transforms_of(root),
                            inactive_colorspaces: get_str_list(root, "inactive_colorspaces"@),
                            file_rules: rules,
                            context_vars: Map::empty(),
                            context_var_order: Seq::empty(),
                            context_env: Map::empty(),
                            context_uses_env: true,
                            strict_parsing: strict,
                        },
                    ),
                },
            }
        },
    }
}

/// The config that a YAML text gives: its first document read by
/// `config_of`; an error when the text does not load or has no document.
pub open spec fn config_from_text(text: Seq<char>, wd: Seq<char>) -> Result<ConfigModel, ErrorModel> {
    match crate::yaml_load::yaml_documents(text) {
        Err(m) => Err(ErrorModel::Yaml(m)),
        Ok(docs) => if docs.len() == 0 {
            Err(ErrorModel::Yaml("empty YAML document"@))
        } else {
            config_of(docs[0], wd)
        },
    }
}

} // verus!
