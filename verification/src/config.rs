//! The configuration: color spaces, roles, displays, looks, rules, and the
//! lookups and checks over them.
use vstd::prelude::*;
use crate::colorspace::{ColorSpace, ColorSpaceModel, Encoding, Family, cs_matches, encoding_str, strings_view};
use crate::context::Context;
use crate::display::{Display, DisplayManager, DisplayManagerModel, ViewTransformModel, opt_str, opt_string, first_named, display_names_of};
use crate::look::{Look, LookManager, LookModel};
use crate::role::{Roles, role_target};
use crate::seqs::{first_index, lemma_first_index, lemma_first_index_facts, models};
use crate::config_parse::{config_of, config_from_text, owned_or_empty, parse_colorspaces, parse_displays, parse_file_rules, parse_looks_section, parse_named_transforms, parse_roles, parse_search_paths, parse_shared_views, parse_version, parse_view_transforms, parse_viewing_rules};
use crate::error::{ErrorModel, OcioError};
use crate::yaml::{yaml_bool, yaml_str, yaml_str_list, usize_decimal};
use crate::config_check::{default_count, default_count_msgs, display_msgs, file_rule_msgs, look_msg, role_msg, rule_cs_msg, validation_messages, view_msg};
use crate::seqs::{filter_map, lemma_filter_map_step, lemma_take_all};
use crate::display::{View, ViewModel, ViewTransform, views_view, displays_view, DisplayModel};
use crate::look::looks_models;
use crate::text::push_str;
use crate::config_text::{active_text, display_block_text, cs_alias_text, cs_head_text, cs_kind_text, colorspace_text, concat_map, config_text, display_text, header_text, join, lemma_concat_map_step, lemma_join_step, look_text, looks_text, displays_text, role_line, roles_text, rule_kind_text, rule_line, rules_text, view_line, text_if};
use vstd::view::View as _;
use crate::text::{eq_ascii_ci, eq_ignore_ascii_case, str_eq, string_of};
use crate::yaml::{YamlNode, YamlValue, opt_node_value};
pub use crate::file_rules::{FileRule, FileRuleKind};
use crate::file_rules::{FileRuleModel, FileRuleKindModel, RuleOutcome, colorspace_for_path, file_ext_of, lemma_rules_skip, lowercase_extension, normalize_path, normalized, rule_outcome};

verus! {

/// Config format version.
#[derive(Debug, Clone, Copy, PartialEq, Eq, Structural)]
pub enum ConfigVersion {
    /// OCIO v1.x.
    V1,
    /// OCIO v2.x.
    V2,
}

/// Named transform definition.
#[derive(Debug)]
pub struct NamedTransform {
    /// Transform name.
    pub name: String,
    /// Family grouping.
    pub family: Option<String>,
    /// Description.
    pub description: Option<String>,
    /// Forward transform definition.
    pub forward: Option<YamlNode>,
    /// Inverse transform definition.
    pub inverse: Option<YamlNode>,
}

/// What a named transform holds.
pub struct NamedTransformModel {
    pub name: Seq<char>,
    pub family: Option<Seq<char>>,
    pub description: Option<Seq<char>>,
    pub forward: Option<YamlValue>,
    pub inverse: Option<YamlValue>,
}

impl vstd::view::View for NamedTransform {
    type V = NamedTransformModel;

    open spec fn view(&self) -> NamedTransformModel {
        NamedTransformModel {
            name: self.name@,
            family: opt_string(self.family),
            description: opt_string(self.description),
            forward: opt_node_value(self.forward),
            inverse: opt_node_value(self.inverse),
        }
    }
}

/// Shared view definition: a view that several displays can refer to.
#[derive(Debug)]
pub struct SharedView {
    /// View name.
    pub name: String,
    /// View transform (optional).
    pub view_transform: Option<String>,
    /// Display color space.
    pub display_colorspace: String,
    /// Looks (optional).
    pub looks: Option<String>,
    /// Viewing rule name (optional).
    pub rule: Option<String>,
    /// Description (optional).
    pub description: Option<String>,
}

/// What a shared view holds.
pub struct SharedViewModel {
    pub name: Seq<char>,
    pub view_transform: Option<Seq<char>>,
    pub display_colorspace: Seq<char>,
    pub looks: Option<Seq<char>>,
    pub rule: Option<Seq<char>>,
    pub description: Option<Seq<char>>,
}

impl vstd::view::View for SharedView {
    type V = SharedViewModel;

    open spec fn view(&self) -> SharedViewModel {
        SharedViewModel {
            name: self.name@,
            view_transform: opt_string(self.view_transform),
            display_colorspace: self.display_colorspace@,
            looks: opt_string(self.looks),
            rule: opt_string(self.rule),
            description: opt_string(self.description),
        }
    }
}

/// Viewing rule: which views apply to which color spaces.
#[derive(Debug)]
pub struct ViewingRule {
    /// Rule name.
    pub name: String,
    /// Color space names this rule applies to.
    pub colorspaces: Vec<String>,
    /// Encodings this rule applies to.
    pub encodings: Vec<String>,
    /// Other key/value pairs.
    pub custom_keys: Vec<(String, String)>,
}

/// What a viewing rule holds.
pub struct ViewingRuleModel {
    pub name: Seq<char>,
    pub colorspaces: Seq<Seq<char>>,
    pub encodings: Seq<Seq<char>>,
    pub custom_keys: Seq<(Seq<char>, Seq<char>)>,
}

impl vstd::view::View for ViewingRule {
    type V = ViewingRuleModel;

    open spec fn view(&self) -> ViewingRuleModel {
        ViewingRuleModel {
            name: self.name@,
            colorspaces: strings_view(self.colorspaces@),
            encodings: strings_view(self.encodings@),
            custom_keys: crate::strmap::pairs_view(self.custom_keys@),
        }
    }
}

/// What a config holds.
pub struct ConfigModel {
    pub name: Seq<char>,
    pub description: Seq<char>,
    pub version: ConfigVersion,
    pub search_paths: Seq<Seq<char>>,
    pub working_dir: Seq<char>,
    pub colorspaces: Seq<ColorSpaceModel>,
    pub roles: Map<Seq<char>, Seq<char>>,
    pub role_order: Seq<(Seq<char>, Seq<char>)>,
    pub displays: DisplayManagerModel,
    pub looks: Seq<LookModel>,
    pub active_displays: Seq<Seq<char>>,
    pub active_views: Seq<Seq<char>>,
    pub shared_views: Seq<SharedViewModel>,
    pub viewing_rules: Seq<ViewingRuleModel>,
    pub named_transforms: Seq<NamedTransformModel>,
    pub inactive_colorspaces: Seq<Seq<char>>,
    pub file_rules: Seq<FileRuleModel>,
    pub context_vars: Map<Seq<char>, Seq<char>>,
    pub context_var_order: Seq<(Seq<char>, Seq<char>)>,
    pub context_env: Map<Seq<char>, Seq<char>>,
    pub context_uses_env: bool,
    pub strict_parsing: bool,
}

/// The models of file rules.
pub open spec fn file_models(v: Seq<FileRule>) -> Seq<FileRuleModel> {
    v.map_values(|c: FileRule| c@)
}

/// A color space matches `name`.
pub open spec fn cs_named(name: Seq<char>) -> spec_fn(ColorSpaceModel) -> bool {
    |c: ColorSpaceModel| cs_matches(c, name)
}

/// Index of the color space that `name` refers to: through the role `name`
/// if there is such a role, else directly by name or alias.
pub open spec fn cs_lookup(m: ConfigModel, name: Seq<char>) -> Option<int> {
    match role_target(m.roles, name) {
        Some(t) => first_index(m.colorspaces, cs_named(t)),
        None => first_index(m.colorspaces, cs_named(name)),
    }
}

/// The empty config: version 1, working directory ".", nothing defined,
/// a context that consults the environment, and lenient parsing.
pub open spec fn empty_config() -> ConfigModel {
    ConfigModel {
        name: Seq::empty(),
        description: Seq::empty(),
        version: ConfigVersion::V1,
        search_paths: Seq::empty(),
        working_dir: "."@,
        colorspaces: Seq::empty(),
        roles: Map::empty(),
        role_order: Seq::empty(),
        displays: DisplayManagerModel { displays: Seq::empty(), default_display: None, view_transforms: Seq::empty() },
        looks: Seq::empty(),
        active_displays: Seq::empty(),
        active_views: Seq::empty(),
        shared_views: Seq::empty(),
        viewing_rules: Seq::empty(),
        named_transforms: Seq::empty(),
        inactive_colorspaces: Seq::empty(),
        file_rules: Seq::empty(),
        context_vars: Map::empty(),
        context_var_order: Seq::empty(),
        context_env: Map::empty(),
        context_uses_env: true,
        strict_parsing: false,
    }
}

/// A config: everything needed to pick color spaces, displays, looks and
/// transform definitions by name.
#[derive(Debug)]
pub struct Config {
    name: String,
    description: String,
    version: ConfigVersion,
    search_paths: Vec<String>,
    working_dir: String,
    colorspaces: Vec<ColorSpace>,
    roles: Roles,
    displays: DisplayManager,
    looks: LookManager,
    active_displays: Vec<String>,
    active_views: Vec<String>,
    shared_views: Vec<SharedView>,
    viewing_rules: Vec<ViewingRule>,
    named_transforms: Vec<NamedTransform>,
    inactive_colorspaces: Vec<String>,
    file_rules: Vec<FileRule>,
    context: Context,
    strict_parsing: bool,
}

impl vstd::view::View for Config {
    type V = ConfigModel;

    closed spec fn view(&self) -> ConfigModel {
        ConfigModel {
            name: self.name@,
            description: self.description@,
            version: self.version,
            search_paths: strings_view(self.search_paths@),
            working_dir: self.working_dir@,
            colorspaces: models(self.colorspaces@),
            roles: self.roles@,
            role_order: self.roles.ordered(),
            displays: self.displays@,
            looks: self.looks@,
            active_displays: strings_view(self.active_displays@),
            active_views: strings_view(self.active_views@),
            shared_views: models(self.shared_views@),
            viewing_rules: models(self.viewing_rules@),
            named_transforms: models(self.named_transforms@),
            inactive_colorspaces: strings_view(self.inactive_colorspaces@),
            file_rules: file_models(self.file_rules@),
            context_vars: self.context.vars_map(),
            context_var_order: self.context.vars_order(),
            context_env: self.context.env_map(),
            context_uses_env: self.context.uses_env(),
            strict_parsing: self.strict_parsing,
        }
    }
}

impl Config {
    /// An empty configuration (see `empty_config`).
    pub fn new() -> (r: Self)
        ensures
            r@ == empty_config(),
    {
        let r = Config {
            name: String::new(),
            description: String::new(),
            version: ConfigVersion::V1,
            search_paths: Vec::new(),
            working_dir: string_of("."),
            colorspaces: Vec::new(),
            roles: Roles::new(),
            displays: DisplayManager::new(),
            looks: LookManager::new(),
            active_displays: Vec::new(),
            active_views: Vec::new(),
            shared_views: Vec::new(),
            viewing_rules: Vec::new(),
            named_transforms: Vec::new(),
            inactive_colorspaces: Vec::new(),
            file_rules: Vec::new(),
            context: Context::new(),
            strict_parsing: false,
        };
        assert(strings_view(r.search_paths@) =~= Seq::<Seq<char>>::empty());
        assert(models(r.colorspaces@) =~= Seq::<ColorSpaceModel>::empty());
        assert(r.roles.ordered() =~= Seq::<(Seq<char>, Seq<char>)>::empty());
        assert(r.looks@ =~= Seq::<LookModel>::empty());
        assert(strings_view(r.active_displays@) =~= Seq::<Seq<char>>::empty());
        assert(strings_view(r.active_views@) =~= Seq::<Seq<char>>::empty());
        assert(models(r.shared_views@) =~= Seq::<SharedViewModel>::empty());
        assert(models(r.viewing_rules@) =~= Seq::<ViewingRuleModel>::empty());
        assert(models(r.named_transforms@) =~= Seq::<NamedTransformModel>::empty());
        assert(strings_view(r.inactive_colorspaces@) =~= Seq::<Seq<char>>::empty());
        assert(models(r.file_rules@) =~= Seq::<FileRuleModel>::empty());
        r
    }

    /// The config name.
    pub fn name(&self) -> (r: &str)
        ensures
            r@ == self@.name,
    {
        self.name.as_str()
    }

    /// The config version.
    pub fn version(&self) -> (r: ConfigVersion)
        ensures
            r == self@.version,
    {
        self.version
    }

    /// The working directory.
    pub fn working_dir(&self) -> (r: &str)
        ensures
            r@ == self@.working_dir,
    {
        self.working_dir.as_str()
    }

    /// The search paths.
    pub fn search_paths(&self) -> (r: &[String])
        ensures
            strings_view(r@) == self@.search_paths,
    {
        self.search_paths.as_slice()
    }

    /// All color spaces.
    pub fn colorspaces(&self) -> (r: &[ColorSpace])
        ensures
            models(r@) == self@.colorspaces,
    {
        self.colorspaces.as_slice()
    }

    /// Position of the first color space whose name or alias is `name`.
    fn find_colorspace(&self, name: &str) -> (r: Option<usize>)
        ensures
            match first_index(self@.colorspaces, cs_named(name@)) {
                Some(i) => r matches Some(j) && j == i,
                None => r is None,
            },
            r matches Some(j) ==> j < self.colorspaces@.len(),
    {
        let ghost s = self@.colorspaces;
        let mut i: usize = 0;
        while i < self.colorspaces.len()
            invariant
                0 <= i <= self.colorspaces@.len(),
                s == models(self.colorspaces@),
                forall|j: int| 0 <= j < i ==> !cs_named(name@)(#[trigger] s[j]),
            decreases self.colorspaces@.len() - i,
        {
            assert(s[i as int] == self.colorspaces@[i as int]@);
            if self.colorspaces[i].matches_name(name) {
                proof {
                    lemma_first_index(s, cs_named(name@), i as int);
                }
                return Some(i);
            }
            i = i + 1;
        }
        proof {
            lemma_first_index(s, cs_named(name@), i as int);
        }
        None
    }

    /// Position of the color space that `name` refers to (see `cs_lookup`).
    fn lookup_index(&self, name: &str) -> (r: Option<usize>)
        ensures
            match cs_lookup(self@, name@) {
                Some(i) => r matches Some(j) && j == i,
                None => r is None,
            },
            r matches Some(j) ==> j < self.colorspaces@.len(),
    {
        match self.roles.get(name) {
            Some(t) => self.find_colorspace(t),
            None => self.find_colorspace(name),
        }
    }

    /// The color space that `name` refers to: through the role `name` if it is
    /// a role, else by color space name or alias (ignoring ASCII case).
    pub fn colorspace(&self, name: &str) -> (r: Option<&ColorSpace>)
        ensures
            match cs_lookup(self@, name@) {
                Some(i) => r is Some && r.unwrap()@ == self@.colorspaces[i],
                None => r is None,
            },
    {
        match self.lookup_index(name) {
            Some(i) => {
                assert(self@.colorspaces[i as int] == self.colorspaces@[i as int]@);
                Some(&self.colorspaces[i])
            },
            None => None,
        }
    }

    /// The color space names, in order.
    pub fn colorspace_names(&self) -> (r: Vec<&str>)
        ensures
            r@.map_values(|s: &str| s@) == self@.colorspaces.map_values(|c: ColorSpaceModel| c.name),
    {
        let mut r: Vec<&str> = Vec::new();
        let mut i: usize = 0;
        let ghost all = self@.colorspaces.map_values(|c: ColorSpaceModel| c.name);
        while i < self.colorspaces.len()
            invariant
                0 <= i <= self.colorspaces@.len(),
                all == models(self.colorspaces@).map_values(|c: ColorSpaceModel| c.name),
                r@.map_values(|s: &str| s@) == all.take(i as int),
            decreases self.colorspaces@.len() - i,
        {
            let ghost before = r@;
            r.push(self.colorspaces[i].name());
            assert(r@.map_values(|s: &str| s@) =~= before.map_values(|s: &str| s@).push(all[i as int]));
            assert(all.take(i + 1) =~= all.take(i as int).push(all[i as int]));
            i = i + 1;
        }
        assert(all.take(i as int) =~= all);
        r
    }

    /// The roles.
    pub fn roles(&self) -> (r: &Roles)
        ensures
            r@ == self@.roles,
            r.ordered() == self@.role_order,
    {
        &self.roles
    }

    /// The display manager.
    pub fn displays(&self) -> (r: &DisplayManager)
        ensures
            r@ == self@.displays,
    {
        &self.displays
    }

    /// The look manager.
    pub fn looks(&self) -> (r: &LookManager)
        ensures
            r@ == self@.looks,
    {
        &self.looks
    }

    /// The active display names.
    pub fn active_displays(&self) -> (r: &[String])
        ensures
            strings_view(r@) == self@.active_displays,
    {
        self.active_displays.as_slice()
    }

    /// The active view names.
    pub fn active_views(&self) -> (r: &[String])
        ensures
            strings_view(r@) == self@.active_views,
    {
        self.active_views.as_slice()
    }

    /// The default display: the first active display if any, else the
    /// display manager's default.
    pub fn default_display(&self) -> (r: Option<&str>)
        ensures
            opt_str(r) == (if self@.active_displays.len() > 0 {
                Some(self@.active_displays[0])
            } else {
                self@.displays.default_display
            }),
    {
        if self.active_displays.len() > 0 {
            Some(self.active_displays[0].as_str())
        } else {
            self.displays.default_display()
        }
    }

    /// The default view of the display named `display`.
    pub fn default_view(&self, display: &str) -> (r: Option<&str>)
        ensures
            opt_str(r) == (match first_named(display_names_of(self@.displays.displays), display@) {
                Some(i) => self@.displays.displays[i].default_view,
                None => None,
            }),
    {
        match self.displays.display(display) {
            Some(d) => d.default_view(),
            None => None,
        }
    }

    /// The context.
    pub fn context(&self) -> (r: &Context)
        ensures
            r.vars_map() == self@.context_vars,
            r.env_map() == self@.context_env,
            r.uses_env() == self@.context_uses_env,
    {
        &self.context
    }

    /// Sets a context variable.
    pub fn set_environment_var(&mut self, name: &str, value: &str)
        ensures
            final(self)@ == (ConfigModel {
                context_vars: old(self)@.context_vars.insert(name@, value@),
                context_var_order: crate::strmap::upsert(old(self)@.context_var_order, name@, value@),
                ..old(self)@
            }),
    {
        self.context.set(name, value);
    }

    /// The context, for changing it in place.
    pub fn context_mut(&mut self) -> (r: &mut Context)
        ensures
            r.vars_map() == old(self)@.context_vars,
            r.vars_order() == old(self)@.context_var_order,
            r.env_map() == old(self)@.context_env,
            r.uses_env() == old(self)@.context_uses_env,
            final(self)@ == (ConfigModel {
                context_vars: final(r).vars_map(),
                context_var_order: final(r).vars_order(),
                context_env: final(r).env_map(),
                context_uses_env: final(r).uses_env(),
                ..old(self)@
            }),
    {
        &mut self.context
    }

    /// Records the value of a process environment variable in the context,
    /// where it is consulted after the variables set on the config.
    pub fn record_process_env_var(&mut self, name: &str, value: &str)
        ensures
            final(self)@ == (ConfigModel {
                context_env: old(self)@.context_env.insert(name@, value@),
                ..old(self)@
            }),
    {
        self.context.set_env_var(name, value);
    }

    /// Adds a color space.
    pub fn add_colorspace(&mut self, cs: ColorSpace)
        ensures
            final(self)@ == (ConfigModel { colorspaces: old(self)@.colorspaces.push(cs@), ..old(self)@ }),
    {
        let ghost before = self.colorspaces@;
        self.colorspaces.push(cs);
        assert(models(self.colorspaces@) =~= models(before).push(cs@));
    }

    /// Adds a display.
    pub fn add_display(&mut self, display: Display)
        ensures
            final(self)@.displays == (DisplayManagerModel {
                displays: old(self)@.displays.displays.push(display.model()),
                default_display: match old(self)@.displays.default_display {
                    Some(d) => Some(d),
                    None => Some(display.model().name),
                },
                ..old(self)@.displays
            }),
            final(self)@ == (ConfigModel { displays: final(self)@.displays, ..old(self)@ }),
    {
        self.displays.add_display(display);
    }

    /// Adds a look.
    pub fn add_look(&mut self, look: Look)
        ensures
            final(self)@ == (ConfigModel { looks: old(self)@.looks.push(look@), ..old(self)@ }),
    {
        self.looks.add(look);
    }

    /// Maps a role to a color space.
    pub fn set_role(&mut self, role: &str, colorspace: &str)
        ensures
            final(self)@ == (ConfigModel {
                roles: old(self)@.roles.insert(role@, colorspace@),
                role_order: crate::strmap::upsert(old(self)@.role_order, role@, colorspace@),
                ..old(self)@
            }),
    {
        self.roles.define(role, colorspace);
    }

    /// Reads a config from a parsed YAML document, with `working_dir` as the
    /// directory that relative search paths are taken from (see `config_of`).
    pub fn from_yaml(root: &YamlNode, working_dir: &str) -> (r: Result<Config, OcioError>)
        ensures
            match r {
                Ok(c) => config_of(root@, working_dir@) == Ok::<ConfigModel, ErrorModel>(c@),
                Err(e) => config_of(root@, working_dir@) == Err::<ConfigModel, ErrorModel>(e@),
            },
    {
        let version = match parse_version(root) {
            Ok(v) => v,
            Err(e) => {
                return Err(e);
            },
        };
        let strict = match yaml_bool(root, "strictparsing") {
            Some(b) => b,
            None => true,
        };
        let colorspaces = match parse_colorspaces(root, strict) {
            Ok(v) => v,
            Err(e) => {
                return Err(e);
            },
        };
        let file_rules = match parse_file_rules(root, strict) {
            Ok(v) => v,
            Err(e) => {
                return Err(e);
            },
        };
        let mut displays = parse_displays(root);
        parse_view_transforms(root, &mut displays);
        assert(Seq::<ViewTransformModel>::empty() + crate::config_parse::view_transforms_of(root@)
            =~= crate::config_parse::view_transforms_of(root@));
        let c = Config {
            name: owned_or_empty(yaml_str(root, "name")),
            description: String::new(),
            version,
            search_paths: parse_search_paths(root, working_dir),
            working_dir: string_of(working_dir),
            colorspaces,
            roles: parse_roles(root),
            displays,
            looks: parse_looks_section(root),
            active_displays: yaml_str_list(root, "active_displays"),
            active_views: yaml_str_list(root, "active_views"),
            shared_views: parse_shared_views(root),
            viewing_rules: parse_viewing_rules(root),
            named_transforms: parse_named_transforms(root),
            inactive_colorspaces: yaml_str_list(root, "inactive_colorspaces"),
            file_rules,
            context: Context::new(),
            strict_parsing: strict,
        };
        Ok(c)
    }

    /// Reads a config from YAML text: its first document, read by `from_yaml`.
    pub fn from_yaml_str(text: &str, working_dir: &str) -> (r: Result<Config, OcioError>)
        ensures
            match r {
                Ok(c) => config_from_text(text@, working_dir@) == Ok::<ConfigModel, ErrorModel>(c@),
                Err(e) => config_from_text(text@, working_dir@) == Err::<ConfigModel, ErrorModel>(e@),
            },
    {
        let docs = match crate::yaml_load::load_yaml_documents(text) {
            Ok(d) => d,
            Err(m) => {
                return Err(OcioError::Yaml(m));
            },
        };
        proof {
            crate::yaml::lemma_items_value(docs@);
        }
        if docs.len() == 0 {
            return Err(OcioError::Yaml(string_of("empty YAML document")));
        }
        Config::from_yaml(&docs[0], working_dir)
    }

    /// The color space that the file rules give the file at `filepath`:
    /// that of the first rule that does not skip it (see `colorspace_for_path`).
    pub fn colorspace_from_filepath(&self, filepath: &str) -> (r: Option<&str>)
        ensures
            opt_str(r) == colorspace_for_path(self@.file_rules, filepath@),
    {
        let norm = normalize_path(filepath);
        let ext = lowercase_extension(norm.as_str());
        let ghost rules = self@.file_rules;
        let mut i: usize = 0;
        while i < self.file_rules.len()
            invariant
                rules == models(self.file_rules@),
                0 <= i <= self.file_rules@.len(),
                norm@ == normalized(filepath@),
                ext@ == file_ext_of(norm@),
                forall|j: int| 0 <= j < i ==> rule_outcome(#[trigger] rules[j].kind, norm@, ext@) == RuleOutcome::Skip,
            decreases self.file_rules@.len() - i,
        {
            let rule = &self.file_rules[i];
            assert(rules[i as int] == rule@);
            match rule.outcome(norm.as_str(), ext.as_str()) {
                RuleOutcome::Applies => {
                    proof {
                        lemma_rules_skip(rules, norm@, ext@, i as int);
                        assert(rules.skip(i as int)[0] == rules[i as int]);
                    }
                    return Some(rule.colorspace.as_str());
                },
                RuleOutcome::Abort => {
                    proof {
                        lemma_rules_skip(rules, norm@, ext@, i as int);
                        assert(rules.skip(i as int)[0] == rules[i as int]);
                    }
                    return None;
                },
                RuleOutcome::Skip => {},
            }
            i = i + 1;
        }
        proof {
            lemma_rules_skip(rules, norm@, ext@, i as int);
            assert(rules.skip(i as int).len() == 0);
        }
        None
    }

    /// Adds a file rule at the end.
    pub fn add_file_rule(&mut self, rule: FileRule)
        ensures
            final(self)@ == (ConfigModel { file_rules: old(self)@.file_rules.push(rule@), ..old(self)@ }),
    {
        let ghost before = self.file_rules@;
        self.file_rules.push(rule);
        assert(models(self.file_rules@) =~= models(before).push(rule@));
    }

    /// The file rules, in order.
    pub fn file_rules(&self) -> (r: &[FileRule])
        ensures
            models(r@) == self@.file_rules,
    {
        self.file_rules.as_slice()
    }

    /// Removes every file rule.
    pub fn clear_file_rules(&mut self)
        ensures
            final(self)@ == (ConfigModel { file_rules: Seq::empty(), ..old(self)@ }),
    {
        self.file_rules = Vec::new();
        assert(models(self.file_rules@) =~= Seq::<FileRuleModel>::empty());
    }

    /// The report on a role whose color space does not exist, if any.
    fn push_role_msgs(&self, out: &mut Vec<String>)
        ensures
            strings_view(final(out)@) == strings_view(old(out)@) + filter_map(self@.role_order, role_msg(self@)),
    {
        let pairs = self.roles.pairs();
        let ghost ps = self@.role_order;
        let ghost start = strings_view(out@);
        let mut i: usize = 0;
        assert(start =~= start + filter_map(ps.take(0), role_msg(self@)));
        while i < pairs.len()
            invariant
                pairs@.map_values(|p: (&str, &str)| (p.0@, p.1@)) == ps,
                ps == self@.role_order,
                0 <= i <= pairs@.len(),
                strings_view(out@) == start + filter_map(ps.take(i as int), role_msg(self@)),
            decreases pairs@.len() - i,
        {
            proof {
                lemma_filter_map_step(ps, role_msg(self@), i as int);
            }
            let (r, c) = pairs[i];
            assert(ps[i as int] == (r@, c@));
            if self.lookup_index(c).is_none() {
                let ghost before = strings_view(out@);
                let m = concat5("Role '", r, "' references non-existent color space '", c, "'");
                out.push(m);
                assert(strings_view(out@) =~= before.push(m@));
            }
            i = i + 1;
        }
        proof {
            lemma_take_all(ps);
        }
    }

    /// The reports on the views of one display.
    fn push_view_msgs_of(&self, d: &Display, out: &mut Vec<String>)
        ensures
            strings_view(final(out)@) == strings_view(old(out)@) + filter_map(d.model().views, view_msg(self@, d.model().name)),
    {
        let views = d.views();
        let dname = d.name();
        let ghost vs = d.model().views;
        let ghost start = strings_view(out@);
        let mut i: usize = 0;
        assert(start =~= start + filter_map(vs.take(0), view_msg(self@, dname@)));
        while i < views.len()
            invariant
                views_view(views@) == vs,
                vs == d.model().views,
                dname@ == d.model().name,
                0 <= i <= views@.len(),
                strings_view(out@) == start + filter_map(vs.take(i as int), view_msg(self@, dname@)),
            decreases views@.len() - i,
        {
            proof {
                lemma_filter_map_step(vs, view_msg(self@, dname@), i as int);
            }
            let v = &views[i];
            assert(vs[i as int] == v@);
            if self.lookup_index(v.colorspace()).is_none() {
                let ghost before = strings_view(out@);
                let mut m = concat5("View '", v.name(), "' in display '", dname, "' references non-existent color space '");
                push_str(&mut m, v.colorspace());
                push_str(&mut m, "'");
                out.push(m);
                assert(strings_view(out@) =~= before.push(m@));
            }
            i = i + 1;
        }
        proof {
            lemma_take_all(vs);
        }
    }

    /// The reports on the views of all displays.
    fn push_display_msgs(&self, out: &mut Vec<String>)
        ensures
            strings_view(final(out)@) == strings_view(old(out)@) + display_msgs(self@, self@.displays.displays),
    {
        let ds = self.displays.displays();
        let ghost dm = self@.displays.displays;
        let ghost start = strings_view(out@);
        let mut i: usize = 0;
        assert(start =~= start + display_msgs(self@, dm.take(0)));
        while i < ds.len()
            invariant
                displays_view(ds@) == dm,
                dm == self@.displays.displays,
                0 <= i <= ds@.len(),
                strings_view(out@) == start + display_msgs(self@, dm.take(i as int)),
            decreases ds@.len() - i,
        {
            let d = &ds[i];
            assert(dm[i as int] == d.model());
            assert(dm.take(i + 1).drop_last() =~= dm.take(i as int));
            assert(dm.take(i + 1).last() == dm[i as int]);
            self.push_view_msgs_of(d, out);
            assert(strings_view(out@) =~= start + display_msgs(self@, dm.take(i + 1)));
            i = i + 1;
        }
        assert(dm.take(i as int) =~= dm);
    }

    /// The reports on looks whose process space does not exist.
    fn push_look_msgs(&self, out: &mut Vec<String>)
        ensures
            strings_view(final(out)@) == strings_view(old(out)@) + filter_map(self@.looks, look_msg(self@)),
    {
        let ls = self.looks.all();
        let ghost lm = self@.looks;
        let ghost start = strings_view(out@);
        let mut i: usize = 0;
        assert(start =~= start + filter_map(lm.take(0), look_msg(self@)));
        while i < ls.len()
            invariant
                looks_models(ls@) == lm,
                lm == self@.looks,
                0 <= i <= ls@.len(),
                strings_view(out@) == start + filter_map(lm.take(i as int), look_msg(self@)),
            decreases ls@.len() - i,
        {
            proof {
                lemma_filter_map_step(lm, look_msg(self@), i as int);
            }
            let l = &ls[i];
            assert(lm[i as int] == l@);
            match l.get_process_space() {
                Some(ps) => {
                    if !ps.is_empty() && self.lookup_index(ps).is_none() {
                        let ghost before = strings_view(out@);
                        let m = concat5("Look '", l.name(), "' references non-existent process space '", ps, "'");
                        out.push(m);
                        assert(strings_view(out@) =~= before.push(m@));
                    }
                },
                None => {},
            }
            i = i + 1;
        }
        proof {
            lemma_take_all(lm);
        }
    }

    /// The number of default rules.
    fn count_default_rules(&self) -> (r: usize)
        ensures
            r == default_count(self@.file_rules),
    {
        let ghost rs = self@.file_rules;
        let mut n: usize = 0;
        let mut i: usize = 0;
        while i < self.file_rules.len()
            invariant
                rs == models(self.file_rules@),
                0 <= i <= self.file_rules@.len(),
                n == default_count(rs.take(i as int)),
                n <= i,
            decreases self.file_rules@.len() - i,
        {
            assert(rs[i as int] == self.file_rules@[i as int]@);
            assert(rs.take(i + 1).drop_last() =~= rs.take(i as int));
            match &self.file_rules[i].kind {
                FileRuleKind::Default => {
                    n = n + 1;
                },
                _ => {},
            }
            i = i + 1;
        }
        assert(rs.take(i as int) =~= rs);
        n
    }

    /// The reports on the file rules (see `file_rule_msgs`).
    fn push_file_rule_msgs(&self, out: &mut Vec<String>)
        ensures
            strings_view(final(out)@) == strings_view(old(out)@) + file_rule_msgs(self@),
    {
        let ghost start = strings_view(out@);
        if !(self.version == ConfigVersion::V2 && self.file_rules.len() > 0) {
            assert(start =~= start + file_rule_msgs(self@));
            return;
        }
        let ghost rs = self@.file_rules;
        let n = self.count_default_rules();
        if n == 0 {
            out.push(string_of("File rules must include a Default rule (OCIO v2 requirement)"));
        } else if n > 1 {
            let mut m = string_of("File rules must have exactly one Default rule, found ");
            let d = usize_decimal(n);
            push_str(&mut m, d.as_str());
            out.push(m);
        }
        assert(strings_view(out@) =~= start + default_count_msgs(n as nat));
        let last = self.file_rules.len() - 1;
        assert(rs.last() == self.file_rules@[last as int]@);
        let last_default = match &self.file_rules[last].kind {
            FileRuleKind::Default => true,
            _ => false,
        };
        if !last_default && n > 0 {
            out.push(string_of("Default rule must be the last file rule"));
        }
        let ghost mid = strings_view(out@);
        assert(mid =~= start + default_count_msgs(n as nat) + (if !(rs.last().kind is Default) && n > 0 {
            seq!["Default rule must be the last file rule"@]
        } else {
            Seq::<Seq<char>>::empty()
        }));
        let mut i: usize = 0;
        assert(mid =~= mid + filter_map(rs.take(0), rule_cs_msg(self@)));
        while i < self.file_rules.len()
            invariant
                rs == models(self.file_rules@),
                rs == self@.file_rules,
                0 <= i <= self.file_rules@.len(),
                strings_view(out@) == mid + filter_map(rs.take(i as int), rule_cs_msg(self@)),
            decreases self.file_rules@.len() - i,
        {
            proof {
                lemma_filter_map_step(rs, rule_cs_msg(self@), i as int);
            }
            let rule = &self.file_rules[i];
            assert(rs[i as int] == rule@);
            if self.lookup_index(rule.colorspace.as_str()).is_none() && !self.roles.contains(rule.colorspace.as_str()) {
                let ghost before = strings_view(out@);
                let m = concat5(
                    "File rule '",
                    rule.name.as_str(),
                    "' references non-existent color space or role '",
                    rule.colorspace.as_str(),
                    "'",
                );
                out.push(m);
                assert(strings_view(out@) =~= before.push(m@));
            }
            i = i + 1;
        }
        proof {
            lemma_take_all(rs);
        }
    }

    /// Checks the config and reports its problems (see `validation_messages`).
    pub fn validate(&self) -> (r: Vec<String>)
        ensures
            strings_view(r@) == validation_messages(self@),
    {
        let mut out: Vec<String> = Vec::new();
        if self.colorspaces.len() == 0 {
            out.push(string_of("Config has no color spaces defined"));
        }
        if !self.roles.has_reference() {
            out.push(string_of("Config is missing the 'reference' role"));
        }
        let ghost ab = strings_view(out@);
        assert(ab =~= (if self@.colorspaces.len() == 0 {
            seq!["Config has no color spaces defined"@]
        } else {
            Seq::<Seq<char>>::empty()
        }) + (if !self@.roles.contains_key(crate::role::names::REFERENCE@) {
            seq!["Config is missing the 'reference' role"@]
        } else {
            Seq::<Seq<char>>::empty()
        }));
        self.push_role_msgs(&mut out);
        self.push_display_msgs(&mut out);
        self.push_look_msgs(&mut out);
        self.push_file_rule_msgs(&mut out);
        out
    }

    /// Whether the check finds no problem.
    pub fn is_valid(&self) -> (r: bool)
        ensures
            r == (validation_messages(self@).len() == 0),
    {
        self.validate().len() == 0
    }
}

/// The color spaces of family `f`.
pub open spec fn family_fn(f: Family) -> spec_fn(ColorSpaceModel) -> Option<ColorSpaceModel> {
    |c: ColorSpaceModel| if c.family == f { Some(c) } else { None }
}

/// The color spaces of encoding `e`.
pub open spec fn encoding_fn(e: Encoding) -> spec_fn(ColorSpaceModel) -> Option<ColorSpaceModel> {
    |c: ColorSpaceModel| if c.encoding == e { Some(c) } else { None }
}

/// The color spaces with a linear encoding.
pub open spec fn linear_fn() -> spec_fn(ColorSpaceModel) -> Option<ColorSpaceModel> {
    |c: ColorSpaceModel|
        if c.encoding == Encoding::SceneLinear || c.encoding == Encoding::DisplayLinear {
            Some(c)
        } else {
            None
        }
}

/// The data color spaces.
pub open spec fn data_fn() -> spec_fn(ColorSpaceModel) -> Option<ColorSpaceModel> {
    |c: ColorSpaceModel| if c.is_data { Some(c) } else { None }
}

/// Whether `name` is in the inactive list, ignoring ASCII case.
pub open spec fn is_inactive(m: ConfigModel, name: Seq<char>) -> bool {
    exists|i: int| 0 <= i < m.inactive_colorspaces.len() && eq_ascii_ci(#[trigger] m.inactive_colorspaces[i], name)
}

/// The color spaces that are not inactive.
pub open spec fn active_fn(m: ConfigModel) -> spec_fn(ColorSpaceModel) -> Option<ColorSpaceModel> {
    |c: ColorSpaceModel| if !is_inactive(m, c.name) { Some(c) } else { None }
}

/// The entry at `index`, if there is one.
pub open spec fn entry_at<T>(s: Seq<T>, index: int) -> Option<T> {
    if 0 <= index < s.len() {
        Some(s[index])
    } else {
        None
    }
}

/// The first index whose text equals `name` exactly.
pub open spec fn exact_name(name: Seq<char>) -> spec_fn(Seq<char>) -> bool {
    |n: Seq<char>| n == name
}

/// Whether the shared view `v` applies to the color space `name`: it does
/// when it has no rule, when its rule or the color space is unknown, and
/// else as the rule says: by its color space list (exact names) when that
/// is not empty, else by its encodings when those are not empty (a color
/// space of unknown encoding then does not match), else always.
pub open spec fn view_applicable(m: ConfigModel, v: SharedViewModel, name: Seq<char>) -> bool {
    match v.rule {
        None => true,
        Some(rn) => match first_index(m.viewing_rules.map_values(|r: ViewingRuleModel| r.name), exact_name(rn)) {
            None => true,
            Some(k) => match cs_lookup(m, name) {
                None => true,
                Some(ci) => {
                    let rule = m.viewing_rules[k];
                    if rule.colorspaces.len() > 0 {
                        rule.colorspaces.contains(name)
                    } else if rule.encodings.len() > 0 {
                        let enc = m.colorspaces[ci].encoding;
                        enc != Encoding::Unknown && rule.encodings.contains(encoding_str(enc))
                    } else {
                        true
                    }
                },
            },
        },
    }
}

/// The shared views that apply to the color space `name`.
pub open spec fn applicable_fn(m: ConfigModel, name: Seq<char>) -> spec_fn(SharedViewModel) -> Option<SharedViewModel> {
    |v: SharedViewModel| if view_applicable(m, v, name) { Some(v) } else { None }
}

/// The name that `name` resolves to: the role's color space name when
/// `name` is a role whose color space exists, else the name of the color
/// space that `name` names (ignoring ASCII case, aliases included).
pub open spec fn resolved_name(m: ConfigModel, name: Seq<char>) -> Option<Seq<char>> {
    match role_target(m.roles, name) {
        Some(t) if first_index(m.colorspaces, cs_named(t)) is Some => Some(t),
        _ => match first_index(m.colorspaces, cs_named(name)) {
            Some(i) => Some(m.colorspaces[i].name),
            None => None,
        },
    }
}

enum Sel {
    Family(Family),
    Encoding(Encoding),
    Linear,
    Data,
    Active,
}

spec fn sel_fn(m: ConfigModel, sel: Sel) -> spec_fn(ColorSpaceModel) -> Option<ColorSpaceModel> {
    match sel {
        Sel::Family(f) => family_fn(f),
        Sel::Encoding(e) => encoding_fn(e),
        Sel::Linear => linear_fn(),
        Sel::Data => data_fn(),
        Sel::Active => active_fn(m),
    }
}

impl Config {
    /// An empty config with version 2, named "Raw Config", holding one data
    /// color space "Raw" that the reference, data and default roles map to.
    pub fn create_raw() -> (r: Self)
        ensures
            r@ == (ConfigModel {
                name: "Raw Config"@,
                version: ConfigVersion::V2,
                colorspaces: seq![ColorSpaceModel {
                    description: "Raw data bypass - no color processing"@,
                    family: Family::Utility,
                    encoding: Encoding::Data,
                    is_data: true,
                    ..crate::colorspace::fresh_colorspace("Raw"@)
                }],
                roles: Map::<Seq<char>, Seq<char>>::empty().insert(crate::role::names::REFERENCE@, "Raw"@).insert(
                    crate::role::names::DATA@,
                    "Raw"@,
                ).insert(crate::role::names::DEFAULT@, "Raw"@),
                role_order: crate::strmap::upsert(
                    crate::strmap::upsert(
                        crate::strmap::upsert(Seq::empty(), crate::role::names::REFERENCE@, "Raw"@),
                        crate::role::names::DATA@,
                        "Raw"@,
                    ),
                    crate::role::names::DEFAULT@,
                    "Raw"@,
                ),
                ..empty_config()
            }),
    {
        let mut c = Config::new();
        c.name = string_of("Raw Config");
        c.version = ConfigVersion::V2;
        let raw = ColorSpace::builder("Raw").encoding(Encoding::Data).family(Family::Utility).description(
            "Raw data bypass - no color processing",
        ).is_data(true).build();
        let ghost before = c.colorspaces@;
        c.colorspaces.push(raw);
        assert(models(c.colorspaces@) =~= seq![raw@]);
        c.roles.define(crate::role::names::REFERENCE, "Raw");
        c.roles.define(crate::role::names::DATA, "Raw");
        c.roles.define(crate::role::names::DEFAULT, "Raw");
        c
    }

    /// The major version: 1 or 2.
    pub fn major_version(&self) -> (r: u32)
        ensures
            r == (if self@.version == ConfigVersion::V1 { 1u32 } else { 2u32 }),
    {
        match self.version {
            ConfigVersion::V1 => 1,
            ConfigVersion::V2 => 2,
        }
    }

    /// The minor version, which is not tracked: always 0.
    pub fn minor_version(&self) -> (r: u32)
        ensures
            r == 0,
    {
        0
    }

    /// Sets the version: 2 for a major version of 2 or more, else 1.
    pub fn set_version(&mut self, major: u32, minor: u32)
        ensures
            final(self)@ == (ConfigModel {
                version: if major >= 2 { ConfigVersion::V2 } else { ConfigVersion::V1 },
                ..old(self)@
            }),
    {
        self.version = if major >= 2 {
            ConfigVersion::V2
        } else {
            ConfigVersion::V1
        };
    }

    /// Sets the config name.
    pub fn set_name(&mut self, name: &str)
        ensures
            final(self)@ == (ConfigModel { name: name@, ..old(self)@ }),
    {
        self.name = string_of(name);
    }

    /// Sets the description.
    pub fn set_description(&mut self, description: &str)
        ensures
            final(self)@ == (ConfigModel { description: description@, ..old(self)@ }),
    {
        self.description = string_of(description);
    }

    /// The description.
    pub fn description(&self) -> (r: &str)
        ensures
            r@ == self@.description,
    {
        self.description.as_str()
    }

    /// Adds a search path at the end.
    pub fn add_search_path(&mut self, path: &str)
        ensures
            final(self)@ == (ConfigModel { search_paths: old(self)@.search_paths.push(path@), ..old(self)@ }),
    {
        let ghost before = self.search_paths@;
        self.search_paths.push(string_of(path));
        assert(strings_view(self.search_paths@) =~= strings_view(before).push(path@));
    }

    /// Replaces the search paths.
    pub fn set_search_paths(&mut self, paths: Vec<String>)
        ensures
            final(self)@ == (ConfigModel { search_paths: strings_view(paths@), ..old(self)@ }),
    {
        self.search_paths = paths;
    }

    /// Removes every search path.
    pub fn clear_search_paths(&mut self)
        ensures
            final(self)@ == (ConfigModel { search_paths: Seq::empty(), ..old(self)@ }),
    {
        self.search_paths = Vec::new();
        assert(strings_view(self.search_paths@) =~= Seq::<Seq<char>>::empty());
    }

    /// Sets the working directory.
    pub fn set_working_dir(&mut self, dir: &str)
        ensures
            final(self)@ == (ConfigModel { working_dir: dir@, ..old(self)@ }),
    {
        self.working_dir = string_of(dir);
    }

    /// The value of a context variable.
    pub fn environment_var(&self, name: &str) -> (r: Option<&str>)
        ensures
            opt_str(r) == role_target(self@.context_vars, name@),
    {
        self.context.vars().get(name)
    }

    /// The number of context variables.
    pub fn num_environment_vars(&self) -> (r: usize)
        ensures
            r == self@.context_var_order.len(),
    {
        self.context.vars().len()
    }

    /// The name of the context variable at `index` (in the order first set).
    pub fn environment_var_name_at(&self, index: usize) -> (r: Option<&str>)
        ensures
            opt_str(r) == match entry_at(self@.context_var_order, index as int) {
                Some(p) => Some(p.0),
                None => None::<Seq<char>>,
            },
    {
        let pairs = self.context.vars().pairs();
        if index < pairs.len() {
            Some(pairs[index].0)
        } else {
            None
        }
    }

    /// The value of the context variable at `index` (in the order first set).
    pub fn environment_var_value_at(&self, index: usize) -> (r: Option<&str>)
        ensures
            opt_str(r) == match entry_at(self@.context_var_order, index as int) {
                Some(p) => Some(p.1),
                None => None::<Seq<char>>,
            },
    {
        let pairs = self.context.vars().pairs();
        if index < pairs.len() {
            Some(pairs[index].1)
        } else {
            None
        }
    }

    /// The number of color spaces.
    pub fn num_colorspaces(&self) -> (r: usize)
        ensures
            r == self@.colorspaces.len(),
    {
        self.colorspaces.len()
    }

    fn select(&self, sel: Sel) -> (r: Vec<&ColorSpace>)
        ensures
            models(r@) == filter_map(self@.colorspaces, sel_fn(self@, sel)),
    {
        let ghost cm = self@.colorspaces;
        let ghost f = sel_fn(self@, sel);
        let mut out: Vec<&ColorSpace> = Vec::new();
        let mut i: usize = 0;
        assert(models(out@) =~= filter_map(cm.take(0), f));
        while i < self.colorspaces.len()
            invariant
                cm == models(self.colorspaces@),
                f == sel_fn(self@, sel),
                0 <= i <= self.colorspaces@.len(),
                models(out@) == filter_map(cm.take(i as int), f),
            decreases self.colorspaces@.len() - i,
        {
            proof {
                lemma_filter_map_step(cm, f, i as int);
            }
            let c = &self.colorspaces[i];
            assert(cm[i as int] == c@);
            let keep = match sel {
                Sel::Family(fam) => c.family() == fam,
                Sel::Encoding(e) => c.encoding() == e,
                Sel::Linear => c.encoding().is_linear(),
                Sel::Data => c.is_data(),
                Sel::Active => !self.is_colorspace_inactive(c.name()),
            };
            if keep {
                let ghost before = out@;
                out.push(c);
                assert(models(out@) =~= models(before).push(c@));
            }
            i = i + 1;
        }
        proof {
            lemma_take_all(cm);
        }
        out
    }

    /// The color spaces of family `family`, in order.
    pub fn colorspaces_by_family(&self, family: Family) -> (r: Vec<&ColorSpace>)
        ensures
            models(r@) == filter_map(self@.colorspaces, family_fn(family)),
    {
        self.select(Sel::Family(family))
    }

    /// The color spaces of encoding `encoding`, in order.
    pub fn colorspaces_by_encoding(&self, encoding: Encoding) -> (r: Vec<&ColorSpace>)
        ensures
            models(r@) == filter_map(self@.colorspaces, encoding_fn(encoding)),
    {
        self.select(Sel::Encoding(encoding))
    }

    /// The color spaces with a linear encoding, in order.
    pub fn linear_colorspaces(&self) -> (r: Vec<&ColorSpace>)
        ensures
            models(r@) == filter_map(self@.colorspaces, linear_fn()),
    {
        self.select(Sel::Linear)
    }

    /// The data color spaces, in order.
    pub fn data_colorspaces(&self) -> (r: Vec<&ColorSpace>)
        ensures
            models(r@) == filter_map(self@.colorspaces, data_fn()),
    {
        self.select(Sel::Data)
    }

    /// Whether the color space that `name` refers to has a linear encoding
    /// (false when there is none).
    pub fn is_colorspace_linear(&self, name: &str) -> (r: bool)
        ensures
            r == match cs_lookup(self@, name@) {
                Some(i) => self@.colorspaces[i].encoding == Encoding::SceneLinear
                    || self@.colorspaces[i].encoding == Encoding::DisplayLinear,
                None => false,
            },
    {
        match self.colorspace(name) {
            Some(c) => c.encoding().is_linear(),
            None => false,
        }
    }

    /// Removes the first color space whose name or alias is `name` (ignoring
    /// ASCII case); whether there was one.
    pub fn remove_colorspace(&mut self, name: &str) -> (r: bool)
        ensures
            match first_index(old(self)@.colorspaces, cs_named(name@)) {
                Some(i) => r && final(self)@ == (ConfigModel {
                    colorspaces: old(self)@.colorspaces.remove(i),
                    ..old(self)@
                }),
                None => !r && final(self)@ == old(self)@,
            },
    {
        match self.find_colorspace(name) {
            Some(i) => {
                let ghost before = self.colorspaces@;
                self.colorspaces.remove(i);
                assert(models(self.colorspaces@) =~= models(before).remove(i as int));
                true
            },
            None => false,
        }
    }

    /// Removes every color space.
    pub fn clear_colorspaces(&mut self)
        ensures
            final(self)@ == (ConfigModel { colorspaces: Seq::empty(), ..old(self)@ }),
    {
        self.colorspaces = Vec::new();
        assert(models(self.colorspaces@) =~= Seq::<ColorSpaceModel>::empty());
    }

    /// Replaces the list of inactive color spaces.
    pub fn set_inactive_colorspaces(&mut self, names: Vec<String>)
        ensures
            final(self)@ == (ConfigModel { inactive_colorspaces: strings_view(names@), ..old(self)@ }),
    {
        self.inactive_colorspaces = names;
    }

    /// Adds a name to the list of inactive color spaces.
    pub fn add_inactive_colorspace(&mut self, name: &str)
        ensures
            final(self)@ == (ConfigModel {
                inactive_colorspaces: old(self)@.inactive_colorspaces.push(name@),
                ..old(self)@
            }),
    {
        let ghost before = self.inactive_colorspaces@;
        self.inactive_colorspaces.push(string_of(name));
        assert(strings_view(self.inactive_colorspaces@) =~= strings_view(before).push(name@));
    }

    /// Whether `name` is in the inactive list, ignoring ASCII case.
    pub fn is_colorspace_inactive(&self, name: &str) -> (r: bool)
        ensures
            r == is_inactive(self@, name@),
    {
        let ghost l = self@.inactive_colorspaces;
        let mut i: usize = 0;
        while i < self.inactive_colorspaces.len()
            invariant
                l == strings_view(self.inactive_colorspaces@),
                0 <= i <= self.inactive_colorspaces@.len(),
                forall|j: int| 0 <= j < i ==> !eq_ascii_ci(#[trigger] l[j], name@),
            decreases self.inactive_colorspaces@.len() - i,
        {
            assert(l[i as int] == self.inactive_colorspaces@[i as int]@);
            if eq_ignore_ascii_case(self.inactive_colorspaces[i].as_str(), name) {
                assert(eq_ascii_ci(self@.inactive_colorspaces[i as int], name@));
                return true;
            }
            i = i + 1;
        }
        false
    }

    /// The color spaces that are not inactive, in order.
    pub fn active_colorspaces(&self) -> (r: Vec<&ColorSpace>)
        ensures
            models(r@) == filter_map(self@.colorspaces, active_fn(self@)),
    {
        self.select(Sel::Active)
    }

    /// The number of displays.
    pub fn num_displays(&self) -> (r: usize)
        ensures
            r == self@.displays.displays.len(),
    {
        self.displays.displays().len()
    }

    /// The name of the display at `index`.
    pub fn display_name_at(&self, index: usize) -> (r: Option<&str>)
        ensures
            opt_str(r) == match entry_at(self@.displays.displays, index as int) {
                Some(d) => Some(d.name),
                None => None::<Seq<char>>,
            },
    {
        let ds = self.displays.displays();
        if index < ds.len() {
            Some(ds[index].name())
        } else {
            None
        }
    }

    /// Adds `view` to the first display named `display` (ignoring ASCII
    /// case), if there is one.
    pub fn add_view(&mut self, display: &str, view: View)
        ensures
            match first_named(display_names_of(old(self)@.displays.displays), display@) {
                Some(i) => final(self)@ == (ConfigModel {
                    displays: DisplayManagerModel {
                        displays: old(self)@.displays.displays.update(i, DisplayModel {
                            views: old(self)@.displays.displays[i].views.push(view@),
                            default_view: match old(self)@.displays.displays[i].default_view {
                                Some(d) => Some(d),
                                None => Some(view@.name),
                            },
                            ..old(self)@.displays.displays[i]
                        }),
                        ..old(self)@.displays
                    },
                    ..old(self)@
                }),
                None => final(self)@ == old(self)@,
            },
    {
        self.displays.add_view(display, view);
    }

    /// Removes every display named `name`, ignoring ASCII case.
    pub fn remove_display(&mut self, name: &str)
        ensures
            final(self)@ == (ConfigModel {
                displays: DisplayManagerModel {
                    displays: old(self)@.displays.displays.filter(crate::display::keep_unnamed(name@)),
                    ..old(self)@.displays
                },
                ..old(self)@
            }),
    {
        self.displays.remove_display(name);
    }

    /// Replaces the active displays.
    pub fn set_active_displays(&mut self, displays: Vec<String>)
        ensures
            final(self)@ == (ConfigModel { active_displays: strings_view(displays@), ..old(self)@ }),
    {
        self.active_displays = displays;
    }

    /// Replaces the active views.
    pub fn set_active_views(&mut self, views: Vec<String>)
        ensures
            final(self)@ == (ConfigModel { active_views: strings_view(views@), ..old(self)@ }),
    {
        self.active_views = views;
    }

    /// The number of roles.
    pub fn num_roles(&self) -> (r: usize)
        ensures
            r == self@.role_order.len(),
    {
        self.roles.len()
    }

    /// The role at `index` (in the order first defined).
    pub fn role_name_at(&self, index: usize) -> (r: Option<&str>)
        ensures
            opt_str(r) == match entry_at(self@.role_order, index as int) {
                Some(p) => Some(p.0),
                None => None::<Seq<char>>,
            },
    {
        let pairs = self.roles.pairs();
        if index < pairs.len() {
            Some(pairs[index].0)
        } else {
            None
        }
    }

    /// The color space of the role at `index` (in the order first defined).
    pub fn role_colorspace_at(&self, index: usize) -> (r: Option<&str>)
        ensures
            opt_str(r) == match entry_at(self@.role_order, index as int) {
                Some(p) => Some(p.1),
                None => None::<Seq<char>>,
            },
    {
        let pairs = self.roles.pairs();
        if index < pairs.len() {
            Some(pairs[index].1)
        } else {
            None
        }
    }

    /// Whether `role` is defined.
    pub fn has_role(&self, role: &str) -> (r: bool)
        ensures
            r == self@.roles.contains_key(role@),
    {
        self.roles.contains(role)
    }

    /// Removes a role, returning the color space it mapped to; the other roles
    /// keep their targets and their order.
    pub fn remove_role(&mut self, role: &str) -> (r: Option<String>)
        ensures
            match r {
                Some(c) => old(self)@.roles.contains_key(role@) && c@ == old(self)@.roles[role@],
                None => !old(self)@.roles.contains_key(role@),
            },
            final(self)@ == (ConfigModel {
                roles: old(self)@.roles.remove(role@),
                role_order: crate::strmap::remove_key(old(self)@.role_order, role@),
                ..old(self)@
            }),
    {
        self.roles.remove(role)
    }

    /// The number of looks.
    pub fn num_looks(&self) -> (r: usize)
        ensures
            r == self@.looks.len(),
    {
        self.looks.len()
    }

    /// The name of the look at `index`.
    pub fn look_name_at(&self, index: usize) -> (r: Option<&str>)
        ensures
            opt_str(r) == match entry_at(self@.looks, index as int) {
                Some(l) => Some(l.name),
                None => None::<Seq<char>>,
            },
    {
        let ls = self.looks.all();
        if index < ls.len() {
            assert(ls@[index as int]@ == self@.looks[index as int]);
            Some(ls[index].name())
        } else {
            None
        }
    }

    /// Whether a look named `name` (ignoring ASCII case) exists.
    pub fn has_look(&self, name: &str) -> (r: bool)
        ensures
            r == first_named(crate::look::look_names_of(self@.looks), name@) is Some,
    {
        self.looks.get(name).is_some()
    }

    /// The first look named `name`, ignoring ASCII case.
    pub fn look(&self, name: &str) -> (r: Option<&Look>)
        ensures
            match first_named(crate::look::look_names_of(self@.looks), name@) {
                Some(i) => r is Some && r.unwrap()@ == self@.looks[i],
                None => r is None,
            },
    {
        self.looks.get(name)
    }

    /// The number of view transforms.
    pub fn num_view_transforms(&self) -> (r: usize)
        ensures
            r == self@.displays.view_transforms.len(),
    {
        self.displays.view_transforms().len()
    }

    /// All view transforms, in order.
    pub fn view_transforms(&self) -> (r: &[ViewTransform])
        ensures
            crate::display::view_transforms_view(r@) == self@.displays.view_transforms,
    {
        self.displays.view_transforms()
    }

    /// The first view transform named `name`, ignoring ASCII case.
    pub fn view_transform(&self, name: &str) -> (r: Option<&ViewTransform>)
        ensures
            match first_named(crate::display::vt_names_of(self@.displays.view_transforms), name@) {
                Some(i) => r is Some && r.unwrap()@ == self@.displays.view_transforms[i],
                None => r is None,
            },
    {
        self.displays.view_transform(name)
    }

    /// Adds a view transform.
    pub fn add_view_transform(&mut self, vt: ViewTransform)
        ensures
            final(self)@ == (ConfigModel {
                displays: DisplayManagerModel {
                    view_transforms: old(self)@.displays.view_transforms.push(vt@),
                    ..old(self)@.displays
                },
                ..old(self)@
            }),
    {
        self.displays.add_view_transform(vt);
    }

    /// The name of the view transform at `index`.
    pub fn view_transform_name_at(&self, index: usize) -> (r: Option<&str>)
        ensures
            opt_str(r) == match entry_at(self@.displays.view_transforms, index as int) {
                Some(v) => Some(v.name),
                None => None::<Seq<char>>,
            },
    {
        let vts = self.displays.view_transforms();
        if index < vts.len() {
            assert(vts@[index as int]@ == self@.displays.view_transforms[index as int]);
            Some(vts[index].name())
        } else {
            None
        }
    }

    /// The number of named transforms.
    pub fn num_named_transforms(&self) -> (r: usize)
        ensures
            r == self@.named_transforms.len(),
    {
        self.named_transforms.len()
    }

    /// All named transforms, in order.
    pub fn named_transforms(&self) -> (r: &[NamedTransform])
        ensures
            models(r@) == self@.named_transforms,
    {
        self.named_transforms.as_slice()
    }

    /// The first named transform whose name is exactly `name`.
    pub fn named_transform(&self, name: &str) -> (r: Option<&NamedTransform>)
        ensures
            match first_index(self@.named_transforms.map_values(|t: NamedTransformModel| t.name), exact_name(name@)) {
                Some(i) => r is Some && r.unwrap()@ == self@.named_transforms[i],
                None => r is None,
            },
    {
        let ghost names = self@.named_transforms.map_values(|t: NamedTransformModel| t.name);
        let mut i: usize = 0;
        while i < self.named_transforms.len()
            invariant
                names == models(self.named_transforms@).map_values(|t: NamedTransformModel| t.name),
                0 <= i <= self.named_transforms@.len(),
                forall|j: int| 0 <= j < i ==> !exact_name(name@)(#[trigger] names[j]),
            decreases self.named_transforms@.len() - i,
        {
            assert(names[i as int] == self.named_transforms@[i as int]@.name);
            if str_eq(self.named_transforms[i].name.as_str(), name) {
                proof {
                    lemma_first_index(names, exact_name(name@), i as int);
                }
                return Some(&self.named_transforms[i]);
            }
            i = i + 1;
        }
        proof {
            lemma_first_index(names, exact_name(name@), i as int);
        }
        None
    }

    /// The number of shared views.
    pub fn num_shared_views(&self) -> (r: usize)
        ensures
            r == self@.shared_views.len(),
    {
        self.shared_views.len()
    }

    /// All shared views, in order.
    pub fn shared_views(&self) -> (r: &[SharedView])
        ensures
            models(r@) == self@.shared_views,
    {
        self.shared_views.as_slice()
    }

    /// The number of viewing rules.
    pub fn num_viewing_rules(&self) -> (r: usize)
        ensures
            r == self@.viewing_rules.len(),
    {
        self.viewing_rules.len()
    }

    /// All viewing rules, in order.
    pub fn viewing_rules(&self) -> (r: &[ViewingRule])
        ensures
            models(r@) == self@.viewing_rules,
    {
        self.viewing_rules.as_slice()
    }

    fn viewing_rule_index(&self, name: &str) -> (r: Option<usize>)
        ensures
            r matches Some(i) ==> first_index(self@.viewing_rules.map_values(|r: ViewingRuleModel| r.name), exact_name(name@)) == Some(i as int) && i < self.viewing_rules@.len(),
            r is None ==> first_index(self@.viewing_rules.map_values(|r: ViewingRuleModel| r.name), exact_name(name@)) is None,
    {
        let ghost names = self@.viewing_rules.map_values(|r: ViewingRuleModel| r.name);
        let mut i: usize = 0;
        while i < self.viewing_rules.len()
            invariant
                names == models(self.viewing_rules@).map_values(|r: ViewingRuleModel| r.name),
                0 <= i <= self.viewing_rules@.len(),
                forall|j: int| 0 <= j < i ==> !exact_name(name@)(#[trigger] names[j]),
            decreases self.viewing_rules@.len() - i,
        {
            assert(names[i as int] == self.viewing_rules@[i as int]@.name);
            if str_eq(self.viewing_rules[i].name.as_str(), name) {
                proof {
                    lemma_first_index(names, exact_name(name@), i as int);
                }
                return Some(i);
            }
            i = i + 1;
        }
        proof {
            lemma_first_index(names, exact_name(name@), i as int);
        }
        None
    }

    /// The first viewing rule whose name is exactly `name`.
    pub fn viewing_rule(&self, name: &str) -> (r: Option<&ViewingRule>)
        ensures
            match first_index(self@.viewing_rules.map_values(|r: ViewingRuleModel| r.name), exact_name(name@)) {
                Some(i) => r is Some && r.unwrap()@ == self@.viewing_rules[i],
                None => r is None,
            },
    {
        match self.viewing_rule_index(name) {
            Some(i) => {
                assert(self@.viewing_rules[i as int] == self.viewing_rules@[i as int]@);
                Some(&self.viewing_rules[i])
            },
            None => None,
        }
    }
}

/// Whether `s` holds `t` exactly.
fn strings_contain(s: &Vec<String>, t: &str) -> (r: bool)
    ensures
        r == strings_view(s@).contains(t@),
{
    let ghost v = strings_view(s@);
    let mut i: usize = 0;
    while i < s.len()
        invariant
            v == strings_view(s@),
            0 <= i <= s@.len(),
            forall|j: int| 0 <= j < i ==> #[trigger] v[j] != t@,
        decreases s@.len() - i,
    {
        assert(v[i as int] == s@[i as int]@);
        if str_eq(s[i].as_str(), t) {
            return true;
        }
        i = i + 1;
    }
    false
}

impl Config {
    /// Whether the shared view `view` applies to the color space `colorspace_name`
    /// (see `view_applicable`).
    pub fn is_view_applicable(&self, view: &SharedView, colorspace_name: &str) -> (r: bool)
        ensures
            r == view_applicable(self@, view@, colorspace_name@),
    {
        let rule_name = match &view.rule {
            Some(rn) => rn,
            None => {
                return true;
            },
        };
        let k = match self.viewing_rule_index(rule_name.as_str()) {
            Some(k) => k,
            None => {
                return true;
            },
        };
        let ci = match self.lookup_index(colorspace_name) {
            Some(ci) => ci,
            None => {
                return true;
            },
        };
        let rule = &self.viewing_rules[k];
        assert(self@.viewing_rules[k as int] == rule@);
        if rule.colorspaces.len() > 0 {
            return strings_contain(&rule.colorspaces, colorspace_name);
        }
        if rule.encodings.len() > 0 {
            assert(self@.colorspaces[ci as int] == self.colorspaces@[ci as int]@);
            let enc = self.colorspaces[ci].encoding();
            if enc != Encoding::Unknown {
                return strings_contain(&rule.encodings, enc.as_str());
            }
            return false;
        }
        true
    }

    /// The shared views that apply to the color space `colorspace_name`, in order.
    pub fn applicable_views(&self, colorspace_name: &str) -> (r: Vec<&SharedView>)
        ensures
            models(r@) == filter_map(self@.shared_views, applicable_fn(self@, colorspace_name@)),
    {
        let ghost sv = self@.shared_views;
        let ghost f = applicable_fn(self@, colorspace_name@);
        let mut out: Vec<&SharedView> = Vec::new();
        let mut i: usize = 0;
        assert(models(out@) =~= filter_map(sv.take(0), f));
        while i < self.shared_views.len()
            invariant
                sv == models(self.shared_views@),
                f == applicable_fn(self@, colorspace_name@),
                0 <= i <= self.shared_views@.len(),
                models(out@) == filter_map(sv.take(i as int), f),
            decreases self.shared_views@.len() - i,
        {
            proof {
                lemma_filter_map_step(sv, f, i as int);
            }
            let v = &self.shared_views[i];
            assert(sv[i as int] == v@);
            if self.is_view_applicable(v, colorspace_name) {
                let ghost before = out@;
                out.push(v);
                assert(models(out@) =~= models(before).push(v@));
            }
            i = i + 1;
        }
        proof {
            lemma_take_all(sv);
        }
        out
    }

    /// The color space of the reference role.
    pub fn reference_space(&self) -> (r: Option<&str>)
        ensures
            opt_str(r) == role_target(self@.roles, crate::role::names::REFERENCE@),
    {
        self.roles.reference()
    }

    /// The color space of the scene-linear role.
    pub fn scene_linear_space(&self) -> (r: Option<&str>)
        ensures
            opt_str(r) == role_target(self@.roles, crate::role::names::SCENE_LINEAR@),
    {
        self.roles.scene_linear()
    }

    /// The color space of the data role.
    pub fn data_space(&self) -> (r: Option<&str>)
        ensures
            opt_str(r) == role_target(self@.roles, crate::role::names::DATA@),
    {
        self.roles.data()
    }

    /// The color space name that `name` resolves to (see `resolved_name`).
    pub fn resolve_colorspace_name(&self, name: &str) -> (r: Option<&str>)
        ensures
            opt_str(r) == resolved_name(self@, name@),
    {
        match self.roles.get(name) {
            Some(t) => {
                if self.find_colorspace(t).is_some() {
                    return Some(t);
                }
            },
            None => {},
        }
        match self.find_colorspace(name) {
            Some(i) => {
                assert(self@.colorspaces[i as int] == self.colorspaces@[i as int]@);
                Some(self.colorspaces[i].name())
            },
            None => None,
        }
    }

    /// Whether this is a version 2 config.
    pub fn is_v2(&self) -> (r: bool)
        ensures
            r == (self@.version == ConfigVersion::V2),
    {
        self.version == ConfigVersion::V2
    }

    /// Whether this is a version 1 config.
    pub fn is_v1(&self) -> (r: bool)
        ensures
            r == (self@.version == ConfigVersion::V1),
    {
        self.version == ConfigVersion::V1
    }
}

impl Config {
    /// A config made of the given parts, with lenient parsing.
    pub fn from_builder(
        name: String,
        description: String,
        version: ConfigVersion,
        search_paths: Vec<String>,
        working_dir: String,
        colorspaces: Vec<ColorSpace>,
        roles: Roles,
        displays: DisplayManager,
        looks: LookManager,
        active_displays: Vec<String>,
        active_views: Vec<String>,
        shared_views: Vec<SharedView>,
        viewing_rules: Vec<ViewingRule>,
        named_transforms: Vec<NamedTransform>,
        inactive_colorspaces: Vec<String>,
        file_rules: Vec<FileRule>,
        context: Context,
    ) -> (r: Config)
        ensures
            r@ == (ConfigModel {
                name: name@,
                description: description@,
                version,
                search_paths: strings_view(search_paths@),
                working_dir: working_dir@,
                colorspaces: models(colorspaces@),
                roles: roles@,
                role_order: roles.ordered(),
                displays: displays@,
                looks: looks@,
                active_displays: strings_view(active_displays@),
                active_views: strings_view(active_views@),
                shared_views: models(shared_views@),
                viewing_rules: models(viewing_rules@),
                named_transforms: models(named_transforms@),
                inactive_colorspaces: strings_view(inactive_colorspaces@),
                file_rules: models(file_rules@),
                context_vars: context.vars_map(),
                context_var_order: context.vars_order(),
                context_env: context.env_map(),
                context_uses_env: context.uses_env(),
                strict_parsing: false,
            }),
    {
        Config {
            name,
            description,
            version,
            search_paths,
            working_dir,
            colorspaces,
            roles,
            displays,
            looks,
            active_displays,
            active_views,
            shared_views,
            viewing_rules,
            named_transforms,
            inactive_colorspaces,
            file_rules,
            context,
            strict_parsing: false,
        }
    }
}

impl Default for Config {
    /// The empty config.
    fn default() -> (r: Self)
        ensures
            r@ == empty_config(),
    {
        Config::new()
    }
}

impl Config {
    #[verifier::spinoff_prover]
    #[verifier::rlimit(30)]
    fn write_header(&self, out: &mut String)
        ensures
            final(out)@ == old(out)@ + header_text(self@),
    {
        let ghost start = out@;
        push_str(out, "ocio_profile_version: ");
        match self.version {
            ConfigVersion::V1 => push_str(out, "1"),
            ConfigVersion::V2 => push_str(out, "2.0"),
        }
        push_str(out, "\n\n");
        let ghost a = out@;
        if !self.name.as_str().is_empty() {
            push_str(out, "name: ");
            push_str(out, self.name.as_str());
            push_str(out, "\n");
        }
        let ghost b = out@;
        if self.search_paths.len() > 0 {
            push_str(out, "search_path: ");
            push_join(out, self.search_paths.as_slice(), ":");
            push_str(out, "\n");
        }
        let ghost c = out@;
        push_str(out, "\n");
        assert(b =~= a + text_if(self@.name.len() > 0, "name: "@ + self@.name + "\n"@));
        assert(c =~= b + text_if(
            self@.search_paths.len() > 0,
            "search_path: "@ + join(self@.search_paths, ":"@) + "\n"@,
        ));
        assert(out@ =~= start + header_text(self@));
    }

    fn write_roles(&self, out: &mut String)
        ensures
            final(out)@ == old(out)@ + roles_text(self@),
    {
        let ghost start = out@;
        let pairs = self.roles.pairs();
        let ghost ps = self@.role_order;
        if pairs.len() == 0 {
            assert(ps.len() == 0);
            assert(out@ =~= start + roles_text(self@));
            return;
        }
        push_str(out, "roles:\n");
        let ghost mid = out@;
        let mut i: usize = 0;
        assert(mid =~= mid + concat_map(ps.take(0), role_line()));
        while i < pairs.len()
            invariant
                pairs@.map_values(|p: (&str, &str)| (p.0@, p.1@)) == ps,
                0 <= i <= pairs@.len(),
                out@ == mid + concat_map(ps.take(i as int), role_line()),
            decreases pairs@.len() - i,
        {
            proof {
                lemma_concat_map_step(ps, role_line(), i as int);
            }
            let (r, c) = pairs[i];
            assert(ps[i as int] == (r@, c@));
            push_str(out, "  ");
            push_str(out, r);
            push_str(out, ": ");
            push_str(out, c);
            push_str(out, "\n");
            assert(out@ =~= mid + concat_map(ps.take(i + 1), role_line()));
            i = i + 1;
        }
        assert(ps.take(i as int) =~= ps);
        push_str(out, "\n");
        assert(out@ =~= start + roles_text(self@));
    }

    fn write_rules(&self, out: &mut String)
        ensures
            final(out)@ == old(out)@ + rules_text(self@),
    {
        let ghost start = out@;
        if !(self.version == ConfigVersion::V2 && self.file_rules.len() > 0) {
            assert(out@ =~= start + rules_text(self@));
            return;
        }
        let ghost rs = self@.file_rules;
        push_str(out, "file_rules:\n");
        let ghost mid = out@;
        let mut i: usize = 0;
        assert(mid =~= mid + concat_map(rs.take(0), rule_line()));
        while i < self.file_rules.len()
            invariant
                rs == models(self.file_rules@),
                0 <= i <= self.file_rules@.len(),
                out@ == mid + concat_map(rs.take(i as int), rule_line()),
            decreases self.file_rules@.len() - i,
        {
            proof {
                lemma_concat_map_step(rs, rule_line(), i as int);
            }
            assert(rs[i as int] == self.file_rules@[i as int]@);
            push_rule_line(out, &self.file_rules[i]);
            assert(out@ =~= mid + concat_map(rs.take(i + 1), rule_line()));
            i = i + 1;
        }
        assert(rs.take(i as int) =~= rs);
        push_str(out, "\n");
        assert(out@ =~= start + rules_text(self@));
    }

    fn write_display_block(&self, out: &mut String)
        ensures
            final(out)@ == old(out)@ + display_block_text(self@),
    {
        let ghost start = out@;
        let ds = self.displays.displays();
        let ghost dm = self@.displays.displays;
        if ds.len() == 0 {
            assert(out@ =~= start + display_block_text(self@));
            return;
        }
        push_str(out, "displays:\n");
        let ghost mid = out@;
        let mut i: usize = 0;
        assert(mid =~= mid + concat_map(dm.take(0), display_text()));
        while i < ds.len()
            invariant
                displays_view(ds@) == dm,
                0 <= i <= ds@.len(),
                out@ == mid + concat_map(dm.take(i as int), display_text()),
            decreases ds@.len() - i,
        {
            proof {
                lemma_concat_map_step(dm, display_text(), i as int);
            }
            assert(dm[i as int] == ds@[i as int].model());
            push_display_text(out, &ds[i]);
            assert(out@ =~= mid + concat_map(dm.take(i + 1), display_text()));
            i = i + 1;
        }
        assert(dm.take(i as int) =~= dm);
        push_str(out, "\n");
        assert(out@ =~= start + display_block_text(self@));
    }

    fn write_active(&self, out: &mut String)
        ensures
            final(out)@ == old(out)@ + active_text(self@),
    {
        let ghost a = out@;
        if self.active_displays.len() > 0 {
            push_str(out, "active_displays: [");
            push_join(out, self.active_displays.as_slice(), ", ");
            push_str(out, "]\n");
        }
        let ghost b = out@;
        assert(b =~= a + text_if(
            self@.active_displays.len() > 0,
            "active_displays: ["@ + join(self@.active_displays, ", "@) + "]\n"@,
        ));
        if self.active_views.len() > 0 {
            push_str(out, "active_views: [");
            push_join(out, self.active_views.as_slice(), ", ");
            push_str(out, "]\n");
        }
        assert(out@ =~= b + text_if(
            self@.active_views.len() > 0,
            "active_views: ["@ + join(self@.active_views, ", "@) + "]\n"@,
        ));
        assert(out@ =~= a + active_text(self@));
    }

    fn write_displays(&self, out: &mut String)
        ensures
            final(out)@ == old(out)@ + displays_text(self@),
    {
        let ghost start = out@;
        self.write_display_block(out);
        self.write_active(out);
        push_str(out, "\n");
        assert(out@ =~= start + displays_text(self@));
    }

    fn write_looks(&self, out: &mut String)
        ensures
            final(out)@ == old(out)@ + looks_text(self@),
    {
        let ghost start = out@;
        let ls = self.looks.all();
        let ghost lm = self@.looks;
        if ls.len() == 0 {
            assert(out@ =~= start + looks_text(self@));
            return;
        }
        push_str(out, "looks:\n");
        let ghost mid = out@;
        let mut i: usize = 0;
        assert(mid =~= mid + concat_map(lm.take(0), look_text()));
        while i < ls.len()
            invariant
                looks_models(ls@) == lm,
                0 <= i <= ls@.len(),
                out@ == mid + concat_map(lm.take(i as int), look_text()),
            decreases ls@.len() - i,
        {
            proof {
                lemma_concat_map_step(lm, look_text(), i as int);
            }
            assert(lm[i as int] == ls@[i as int]@);
            push_look_text(out, &ls[i]);
            assert(out@ =~= mid + concat_map(lm.take(i + 1), look_text()));
            i = i + 1;
        }
        assert(lm.take(i as int) =~= lm);
        push_str(out, "\n");
        assert(out@ =~= start + looks_text(self@));
    }

    fn write_colorspaces(&self, out: &mut String)
        ensures
            final(out)@ == old(out)@ + concat_map(self@.colorspaces, colorspace_text()),
    {
        let ghost start = out@;
        let ghost cm = self@.colorspaces;
        let mut i: usize = 0;
        assert(start =~= start + concat_map(cm.take(0), colorspace_text()));
        while i < self.colorspaces.len()
            invariant
                cm == models(self.colorspaces@),
                0 <= i <= self.colorspaces@.len(),
                out@ == start + concat_map(cm.take(i as int), colorspace_text()),
            decreases self.colorspaces@.len() - i,
        {
            proof {
                lemma_concat_map_step(cm, colorspace_text(), i as int);
            }
            assert(cm[i as int] == self.colorspaces@[i as int]@);
            push_colorspace_text(out, &self.colorspaces[i]);
            assert(out@ =~= start + concat_map(cm.take(i + 1), colorspace_text()));
            i = i + 1;
        }
        assert(cm.take(i as int) =~= cm);
    }

    /// The YAML text of this config (see `config_text`); transform
    /// definitions are not written.
    pub fn serialize(&self) -> (r: Result<String, OcioError>)
        ensures
            r matches Ok(s) && s@ == config_text(self@),
    {
        let mut out = String::new();
        self.write_header(&mut out);
        self.write_roles(&mut out);
        self.write_rules(&mut out);
        self.write_displays(&mut out);
        self.write_looks(&mut out);
        push_str(&mut out, "colorspaces:\n");
        self.write_colorspaces(&mut out);
        assert(out@ =~= config_text(self@));
        Ok(out)
    }
}

/// Appends the strings of `parts` with `sep` between them.
fn push_join(out: &mut String, parts: &[String], sep: &str)
    ensures
        final(out)@ == old(out)@ + join(strings_view(parts@), sep@),
{
    let ghost ps = strings_view(parts@);
    let ghost start = out@;
    let mut i: usize = 0;
    assert(ps.take(0) =~= Seq::<Seq<char>>::empty());
    assert(start =~= start + join(ps.take(0), sep@));
    while i < parts.len()
        invariant
            ps == strings_view(parts@),
            0 <= i <= parts@.len(),
            out@ == start + join(ps.take(i as int), sep@),
        decreases parts@.len() - i,
    {
        proof {
            lemma_join_step(ps, sep@, i as int);
        }
        assert(ps[i as int] == parts@[i as int]@);
        let ghost before = out@;
        if i > 0 {
            push_str(out, sep);
        }
        push_str(out, parts[i].as_str());
        assert(out@ =~= start + join(ps.take(i + 1), sep@));
        i = i + 1;
    }
    assert(ps.take(i as int) =~= ps);
}

/// Appends the line of a file rule.
fn push_rule_line(out: &mut String, rule: &FileRule)
    ensures
        final(out)@ == old(out)@ + rule_line()(rule@),
{
    let ghost start = out@;
    push_str(out, "  - !<Rule> {name: ");
    push_str(out, rule.name.as_str());
    let ghost mid = out@;
    match &rule.kind {
        FileRuleKind::Default => {},
        FileRuleKind::Basic { pattern, extension } => {
            if !pattern.as_str().is_empty() {
                push_str(out, ", pattern: \"");
                push_str(out, pattern.as_str());
                push_str(out, "\"");
            }
            match extension {
                Some(e) => {
                    push_str(out, ", extension: ");
                    push_str(out, e.as_str());
                },
                None => {},
            }
        },
        FileRuleKind::Regex { regex } => {
            push_str(out, ", regex: \"");
            push_str(out, regex.as_str());
            push_str(out, "\"");
        },
    }
    assert(out@ =~= mid + rule_kind_text(rule@.kind));
    push_str(out, ", colorspace: ");
    push_str(out, rule.colorspace.as_str());
    push_str(out, "}\n");
    assert(out@ =~= start + rule_line()(rule@));
}

/// Appends the line of a view.
fn push_view_line(out: &mut String, v: &View)
    ensures
        final(out)@ == old(out)@ + view_line()(v@),
{
    let ghost start = out@;
    push_str(out, "    - !<View> {name: ");
    push_str(out, v.name());
    push_str(out, ", colorspace: ");
    push_str(out, v.colorspace());
    let ghost mid = out@;
    match v.looks() {
        Some(l) => {
            if !l.is_empty() {
                push_str(out, ", looks: ");
                push_str(out, l);
            }
        },
        None => {},
    }
    assert(out@ =~= mid + match v@.looks {
        Some(l) => text_if(l.len() > 0, ", looks: "@ + l),
        None => Seq::<char>::empty(),
    });
    push_str(out, "}\n");
    assert(out@ =~= start + view_line()(v@));
}

/// Appends the lines of a display.
fn push_display_text(out: &mut String, d: &Display)
    ensures
        final(out)@ == old(out)@ + display_text()(d.model()),
{
    let ghost start = out@;
    push_str(out, "  ");
    push_str(out, d.name());
    push_str(out, ":\n");
    let ghost mid = out@;
    let views = d.views();
    let ghost vs = d.model().views;
    let mut i: usize = 0;
    assert(mid =~= mid + concat_map(vs.take(0), view_line()));
    while i < views.len()
        invariant
            views_view(views@) == vs,
            vs == d.model().views,
            0 <= i <= views@.len(),
            out@ == mid + concat_map(vs.take(i as int), view_line()),
        decreases views@.len() - i,
    {
        proof {
            lemma_concat_map_step(vs, view_line(), i as int);
        }
        assert(vs[i as int] == views@[i as int]@);
        push_view_line(out, &views[i]);
        assert(out@ =~= mid + concat_map(vs.take(i + 1), view_line()));
        i = i + 1;
    }
    assert(vs.take(i as int) =~= vs);
    assert(out@ =~= start + display_text()(d.model()));
}

/// Appends the lines of a look.
fn push_look_text(out: &mut String, l: &Look)
    ensures
        final(out)@ == old(out)@ + look_text()(l@),
{
    let ghost start = out@;
    push_str(out, "  - !<Look>\n");
    push_str(out, "    name: ");
    push_str(out, l.name());
    push_str(out, "\n");
    let ghost a = out@;
    match l.get_process_space() {
        Some(ps) => {
            if !ps.is_empty() {
                push_str(out, "    process_space: ");
                push_str(out, ps);
                push_str(out, "\n");
            }
        },
        None => {},
    }
    assert(out@ =~= a + match l@.process_space {
        Some(ps) => text_if(ps.len() > 0, "    process_space: "@ + ps + "\n"@),
        None => Seq::<char>::empty(),
    });
    let ghost b = out@;
    if !l.get_description().is_empty() {
        push_str(out, "    description: ");
        push_str(out, l.get_description());
        push_str(out, "\n");
    }
    assert(out@ =~= b + text_if(l@.description.len() > 0, "    description: "@ + l@.description + "\n"@));
    assert(out@ =~= start + look_text()(l@));
}

/// Appends the first lines of a color space.
fn push_cs_head(out: &mut String, c: &ColorSpace)
    ensures
        final(out)@ == old(out)@ + cs_head_text(c@),
{
    let ghost start = out@;
    push_str(out, "  - !<ColorSpace>\n");
    push_str(out, "    name: ");
    push_str(out, c.name());
    push_str(out, "\n");
    let ghost a = out@;
    if !c.description().is_empty() {
        push_str(out, "    description: ");
        push_str(out, c.description());
        push_str(out, "\n");
    }
    assert(out@ =~= a + text_if(c@.description.len() > 0, "    description: "@ + c@.description + "\n"@));
    assert(out@ =~= start + cs_head_text(c@));
}

/// Appends the family, encoding and data lines of a color space.
fn push_cs_kind(out: &mut String, c: &ColorSpace)
    ensures
        final(out)@ == old(out)@ + cs_kind_text(c@),
{
    let ghost start = out@;
    let fs = c.family().as_str();
    if !fs.is_empty() {
        push_str(out, "    family: ");
        push_str(out, fs);
        push_str(out, "\n");
    }
    let ghost d = out@;
    let es = c.encoding().as_str();
    if !es.is_empty() {
        push_str(out, "    encoding: ");
        push_str(out, es);
        push_str(out, "\n");
    }
    let ghost e = out@;
    if c.is_data() {
        push_str(out, "    isdata: true\n");
    }
    assert(out@ =~= start + cs_kind_text(c@));
}

/// Appends the lines of a color space.
fn push_colorspace_text(out: &mut String, c: &ColorSpace)
    ensures
        final(out)@ == old(out)@ + colorspace_text()(c@),
{
    let ghost start = out@;
    push_cs_head(out, c);
    push_cs_kind(out, c);
    let ghost f = out@;
    let aliases = c.aliases();
    if aliases.len() > 0 {
        push_str(out, "    aliases: [");
        push_join(out, aliases, ", ");
        push_str(out, "]\n");
    }
    assert(out@ =~= f + cs_alias_text(c@));
    assert(out@ =~= start + colorspace_text()(c@));
}

/// The concatenation of five strings.
fn concat5(a: &str, b: &str, c: &str, d: &str, e: &str) -> (r: String)
    ensures
        r@ == a@ + b@ + c@ + d@ + e@,
{
    let mut m = string_of(a);
    push_str(&mut m, b);
    push_str(&mut m, c);
    push_str(&mut m, d);
    push_str(&mut m, e);
    m
}
} // verus!
