//! Building a config step by step, with checks on the result.
use vstd::prelude::*;
use crate::colorspace::{ColorSpace, cs_matches, strings_view};
use crate::config::{Config, ConfigModel, ConfigVersion, NamedTransform, SharedView, ViewingRule, cs_named, empty_config};
use crate::context::Context;
use crate::display::{Display, DisplayManager, DisplayManagerModel};
use crate::error::{ErrorModel, OcioError};
use crate::file_rules::FileRule;
use crate::look::{Look, LookManager};
use crate::role::Roles;
use crate::seqs::{first_index, lemma_first_index, models};
use crate::text::{push_str, string_of};

verus! {

/// A builder of configs.
#[derive(Debug)]
pub struct ConfigBuilder {
    name: String,
    description: String,
    version: ConfigVersion,
    search_paths: Vec<String>,
    working_dir: String,
    colorspaces: Vec<ColorSpace>,
    roles: Roles,
    displays: DisplayManager,
    looks: LookManager,
    active_displays: Vec<String>,
    active_views: Vec<String>,
    shared_views: Vec<SharedView>,
    viewing_rules: Vec<ViewingRule>,
    named_transforms: Vec<NamedTransform>,
    inactive_colorspaces: Vec<String>,
    file_rules: Vec<FileRule>,
    context: Context,
}

/// Whether a role's color space is not the name or an alias of any color space.
pub open spec fn dangling_role(m: ConfigModel) -> spec_fn((Seq<char>, Seq<char>)) -> bool {
    |p: (Seq<char>, Seq<char>)| first_index(m.colorspaces, cs_named(p.1)) is None
}

/// Why a config cannot be built: no color space, no reference role, or
/// (the first, in role order) a role whose color space does not exist.
pub open spec fn build_error(m: ConfigModel) -> Option<ErrorModel> {
    if m.colorspaces.len() == 0 {
        Some(ErrorModel::Validation("Config must have at least one colorspace"@))
    } else if !m.roles.contains_key(crate::role::names::REFERENCE@) {
        Some(ErrorModel::Validation("Config must define a 'reference' role"@))
    } else {
        match first_index(m.role_order, dangling_role(m)) {
            Some(k) => Some(
                ErrorModel::Validation(
                    "Role '"@ + m.role_order[k].0 + "' references non-existent colorspace '"@ + m.role_order[k].1
                        + "'"@,
                ),
            ),
            None => None,
        }
    }
}

impl ConfigBuilder {
    /// The config that `build` makes from this builder, when it succeeds.
    pub closed spec fn model(&self) -> ConfigModel {
        ConfigModel {
            name: self.name@,
            description: self.description@,
            version: self.version,
            search_paths: strings_view(self.search_paths@),
            working_dir: self.working_dir@,
            colorspaces: models(self.colorspaces@),
            roles: self.roles@,
            role_order: self.roles.ordered(),
            displays: self.displays@,
            looks: self.looks@,
            active_displays: strings_view(self.active_displays@),
            active_views: strings_view(self.active_views@),
            shared_views: models(self.shared_views@),
            viewing_rules: models(self.viewing_rules@),
            named_transforms: models(self.named_transforms@),
            inactive_colorspaces: strings_view(self.inactive_colorspaces@),
            file_rules: models(self.file_rules@),
            context_vars: self.context.vars_map(),
            context_var_order: self.context.vars_order(),
            context_env: self.context.env_map(),
            context_uses_env: self.context.uses_env(),
            strict_parsing: false,
        }
    }

    /// The description given to the builder.
    pub closed spec fn description_text(&self) -> Seq<char> {
        self.description@
    }

    /// A builder of a version 2 config named `name`, with nothing else.
    pub fn new(name: &str) -> (r: Self)
        ensures
            r.model() == (ConfigModel { name: name@, version: ConfigVersion::V2, ..empty_config() }),
            r.description_text() == Seq::<char>::empty(),
    {
        let r = ConfigBuilder {
            name: string_of(name),
            description: String::new(),
            version: ConfigVersion::V2,
            search_paths: Vec::new(),
            working_dir: string_of("."),
            colorspaces: Vec::new(),
            roles: Roles::new(),
            displays: DisplayManager::new(),
            looks: LookManager::new(),
            active_displays: Vec::new(),
            active_views: Vec::new(),
            shared_views: Vec::new(),
            viewing_rules: Vec::new(),
            named_transforms: Vec::new(),
            inactive_colorspaces: Vec::new(),
            file_rules: Vec::new(),
            context: Context::new(),
        };
        assert(strings_view(r.search_paths@) =~= Seq::<Seq<char>>::empty());
        assert(models(r.colorspaces@) =~= Seq::empty());
        assert(r.roles.ordered() =~= Seq::empty());
        assert(strings_view(r.active_displays@) =~= Seq::<Seq<char>>::empty());
        assert(strings_view(r.active_views@) =~= Seq::<Seq<char>>::empty());
        assert(models(r.shared_views@) =~= Seq::empty());
        assert(models(r.viewing_rules@) =~= Seq::empty());
        assert(models(r.named_transforms@) =~= Seq::empty());
        assert(strings_view(r.inactive_colorspaces@) =~= Seq::<Seq<char>>::empty());
        assert(models(r.file_rules@) =~= Seq::empty());
        r
    }

    /// Sets the description.
    pub fn description(self, desc: &str) -> (r: Self)
        ensures
            r.model() == (ConfigModel { description: desc@, ..self.model() }),
            r.description_text() == desc@,
    {
        let mut b = self;
        b.description = string_of(desc);
        b
    }

    /// Sets the version.
    pub fn version(self, version: ConfigVersion) -> (r: Self)
        ensures
            r.model() == (ConfigModel { version, ..self.model() }),
            r.description_text() == self.description_text(),
    {
        let mut b = self;
        b.version = version;
        b
    }

    /// Adds a search path.
    pub fn search_path(self, path: &str) -> (r: Self)
        ensures
            r.model() == (ConfigModel { search_paths: self.model().search_paths.push(path@), ..self.model() }),
            r.description_text() == self.description_text(),
    {
        let mut b = self;
        let ghost before = b.search_paths@;
        b.search_paths.push(string_of(path));
        assert(strings_view(b.search_paths@) =~= strings_view(before).push(path@));
        b
    }

    /// Sets the working directory.
    pub fn working_dir(self, path: &str) -> (r: Self)
        ensures
            r.model() == (ConfigModel { working_dir: path@, ..self.model() }),
            r.description_text() == self.description_text(),
    {
        let mut b = self;
        b.working_dir = string_of(path);
        b
    }

    /// Adds a color space.
    pub fn add_colorspace(self, colorspace: ColorSpace) -> (r: Self)
        ensures
            r.model() == (ConfigModel { colorspaces: self.model().colorspaces.push(colorspace@), ..self.model() }),
            r.description_text() == self.description_text(),
    {
        let mut b = self;
        let ghost before = b.colorspaces@;
        b.colorspaces.push(colorspace);
        assert(models(b.colorspaces@) =~= models(before).push(colorspace@));
        b
    }

    /// Adds several color spaces, in order.
    pub fn add_colorspaces(self, colorspaces: Vec<ColorSpace>) -> (r: Self)
        ensures
            r.model() == (ConfigModel { colorspaces: self.model().colorspaces + models(colorspaces@), ..self.model() }),
            r.description_text() == self.description_text(),
    {
        let mut b = self;
        let ghost before = b.colorspaces@;
        let mut more = colorspaces;
        b.colorspaces.append(&mut more);
        assert(models(b.colorspaces@) =~= models(before) + models(colorspaces@));
        b
    }

    /// Maps a role to a color space.
    pub fn set_role(self, role: &str, colorspace: &str) -> (r: Self)
        ensures
            r.model() == (ConfigModel {
                roles: self.model().roles.insert(role@, colorspace@),
                role_order: crate::strmap::upsert(self.model().role_order, role@, colorspace@),
                ..self.model()
            }),
            r.description_text() == self.description_text(),
    {
        let mut b = self;
        b.roles.define(role, colorspace);
        b
    }

    /// Adds a display; the first display added becomes the default display.
    pub fn add_display(self, display: Display) -> (r: Self)
        ensures
            r.model() == (ConfigModel {
                displays: DisplayManagerModel {
                    displays: self.model().displays.displays.push(display.model()),
                    default_display: match self.model().displays.default_display {
                        Some(d) => Some(d),
                        None => Some(display.model().name),
                    },
                    ..self.model().displays
                },
                ..self.model()
            }),
            r.description_text() == self.description_text(),
    {
        let mut b = self;
        b.displays.add_display(display);
        b
    }

    /// Adds several displays, in order.
    pub fn add_displays(self, displays: Vec<Display>) -> (r: Self)
        ensures
            r.model().displays.displays == self.model().displays.displays + displays@.map_values(|d: Display| d.model()),
            r.model().displays.default_display == match self.model().displays.default_display {
                Some(d) => Some(d),
                None => if displays@.len() > 0 {
                    Some(displays@[0].model().name)
                } else {
                    None
                },
            },
            r.model() == (ConfigModel { displays: r.model().displays, ..self.model() }),
            r.model().displays.view_transforms == self.model().displays.view_transforms,
            r.description_text() == self.description_text(),
    {
        let mut b = self;
        let ghost start = b.model();
        let ghost dv = displays@.map_values(|d: Display| d.model());
        let mut rest = displays;
        let total = rest.len();
        let mut n: usize = 0;
        while rest.len() > 0
            invariant
                0 <= n <= total,
                total == dv.len(),
                rest@.len() == total - n,
                forall|j: int| 0 <= j < rest@.len() ==> #[trigger] rest@[j].model() == dv[n + j],
                b.model().displays.displays == start.displays.displays + dv.take(n as int),
                b.model().displays.default_display == match start.displays.default_display {
                    Some(d) => Some(d),
                    None => if n > 0 {
                        Some(dv[0].name)
                    } else {
                        None
                    },
                },
                b.model() == (ConfigModel { displays: b.model().displays, ..start }),
                b.model().displays.view_transforms == start.displays.view_transforms,
                b.description_text() == self.description_text(),
            decreases rest@.len(),
        {
            let ghost before = rest@;
            let d = rest.remove(0);
            assert(d.model() == dv[n as int]);
            assert(forall|j: int| 0 <= j < rest@.len() ==> rest@[j] == before[j + 1]);
            b.displays.add_display(d);
            assert(dv.take(n + 1) =~= dv.take(n as int).push(dv[n as int]));
            n = n + 1;
        }
        assert(dv.take(n as int) =~= dv);
        b
    }

    /// Adds a look.
    pub fn add_look(self, look: Look) -> (r: Self)
        ensures
            r.model() == (ConfigModel { looks: self.model().looks.push(look@), ..self.model() }),
            r.description_text() == self.description_text(),
    {
        let mut b = self;
        b.looks.add(look);
        b
    }

    /// Adds several looks, in order.
    pub fn add_looks(self, looks: Vec<Look>) -> (r: Self)
        ensures
            r.model() == (ConfigModel { looks: self.model().looks + models(looks@), ..self.model() }),
            r.description_text() == self.description_text(),
    {
        let mut b = self;
        let ghost start = b.model();
        let ghost lv = models(looks@);
        let mut rest = looks;
        let total = rest.len();
        let mut n: usize = 0;
        while rest.len() > 0
            invariant
                0 <= n <= total,
                total == lv.len(),
                rest@.len() == total - n,
                forall|j: int| 0 <= j < rest@.len() ==> #[trigger] rest@[j]@ == lv[n + j],
                b.model() == (ConfigModel { looks: start.looks + lv.take(n as int), ..start }),
                b.description_text() == self.description_text(),
            decreases rest@.len(),
        {
            let ghost before = rest@;
            let l = rest.remove(0);
            assert(l@ == lv[n as int]);
            assert(forall|j: int| 0 <= j < rest@.len() ==> rest@[j] == before[j + 1]);
            b.looks.add(l);
            assert(start.looks + lv.take(n + 1) =~= (start.looks + lv.take(n as int)).push(lv[n as int]));
            n = n + 1;
        }
        assert(lv.take(n as int) =~= lv);
        b
    }

    /// Sets the active displays.
    pub fn active_displays(self, displays: Vec<String>) -> (r: Self)
        ensures
            r.model() == (ConfigModel { active_displays: strings_view(displays@), ..self.model() }),
            r.description_text() == self.description_text(),
    {
        let mut b = self;
        b.active_displays = displays;
        b
    }

    /// Sets the active views.
    pub fn active_views(self, views: Vec<String>) -> (r: Self)
        ensures
            r.model() == (ConfigModel { active_views: strings_view(views@), ..self.model() }),
            r.description_text() == self.description_text(),
    {
        let mut b = self;
        b.active_views = views;
        b
    }

    /// Adds a shared view.
    pub fn add_shared_view(self, view: SharedView) -> (r: Self)
        ensures
            r.model() == (ConfigModel { shared_views: self.model().shared_views.push(view@), ..self.model() }),
            r.description_text() == self.description_text(),
    {
        let mut b = self;
        let ghost before = b.shared_views@;
        b.shared_views.push(view);
        assert(models(b.shared_views@) =~= models(before).push(view@));
        b
    }

    /// Adds a viewing rule.
    pub fn add_viewing_rule(self, rule: ViewingRule) -> (r: Self)
        ensures
            r.model() == (ConfigModel { viewing_rules: self.model().viewing_rules.push(rule@), ..self.model() }),
            r.description_text() == self.description_text(),
    {
        let mut b = self;
        let ghost before = b.viewing_rules@;
        b.viewing_rules.push(rule);
        assert(models(b.viewing_rules@) =~= models(before).push(rule@));
        b
    }

    /// Adds a named transform.
    pub fn add_named_transform(self, transform: NamedTransform) -> (r: Self)
        ensures
            r.model() == (ConfigModel { named_transforms: self.model().named_transforms.push(transform@), ..self.model() }),
            r.description_text() == self.description_text(),
    {
        let mut b = self;
        let ghost before = b.named_transforms@;
        b.named_transforms.push(transform);
        assert(models(b.named_transforms@) =~= models(before).push(transform@));
        b
    }

    /// Sets the inactive color spaces.
    pub fn inactive_colorspaces(self, names: Vec<String>) -> (r: Self)
        ensures
            r.model() == (ConfigModel { inactive_colorspaces: strings_view(names@), ..self.model() }),
            r.description_text() == self.description_text(),
    {
        let mut b = self;
        b.inactive_colorspaces = names;
        b
    }

    /// Adds a file rule.
    pub fn add_file_rule(self, rule: FileRule) -> (r: Self)
        ensures
            r.model() == (ConfigModel { file_rules: self.model().file_rules.push(rule@), ..self.model() }),
            r.description_text() == self.description_text(),
    {
        let mut b = self;
        let ghost before = b.file_rules@;
        b.file_rules.push(rule);
        assert(models(b.file_rules@) =~= models(before).push(rule@));
        b
    }

    /// Sets a context variable.
    pub fn context_var(self, key: &str, value: &str) -> (r: Self)
        ensures
            r.model() == (ConfigModel {
                context_vars: self.model().context_vars.insert(key@, value@),
                context_var_order: crate::strmap::upsert(self.model().context_var_order, key@, value@),
                ..self.model()
            }),
            r.description_text() == self.description_text(),
    {
        let mut b = self;
        b.context.set(key, value);
        b
    }

    /// Position of the first role (in role order) whose color space does not exist.
    fn first_dangling_role(&self) -> (r: Option<usize>)
        ensures
            r matches Some(k) ==> first_index(self.model().role_order, dangling_role(self.model())) == Some(k as int)
                && k < self.model().role_order.len(),
            r is None ==> first_index(self.model().role_order, dangling_role(self.model())) is None,
    {
        let pairs = self.roles.pairs();
        let ghost ps = self.model().role_order;
        let ghost p = dangling_role(self.model());
        let mut i: usize = 0;
        while i < pairs.len()
            invariant
                pairs@.map_values(|q: (&str, &str)| (q.0@, q.1@)) == ps,
                ps == self.model().role_order,
                p == dangling_role(self.model()),
                0 <= i <= pairs@.len(),
                forall|j: int| 0 <= j < i ==> !p(#[trigger] ps[j]),
            decreases pairs@.len() - i,
        {
            let (_, c) = pairs[i];
            assert(ps[i as int].1 == c@);
            if !self.has_colorspace(c) {
                assert(p(ps[i as int]));
                proof {
                    lemma_first_index(ps, p, i as int);
                }
                return Some(i);
            }
            assert(!p(ps[i as int]));
            i = i + 1;
        }
        proof {
            lemma_first_index(ps, p, i as int);
        }
        None
    }

    /// Whether some color space has `name` as name or alias (ignoring ASCII case).
    fn has_colorspace(&self, name: &str) -> (r: bool)
        ensures
            r == first_index(self.model().colorspaces, cs_named(name@)) is Some,
    {
        let ghost cs = self.model().colorspaces;
        let mut i: usize = 0;
        while i < self.colorspaces.len()
            invariant
                cs == models(self.colorspaces@),
                0 <= i <= self.colorspaces@.len(),
                forall|j: int| 0 <= j < i ==> !cs_named(name@)(#[trigger] cs[j]),
            decreases self.colorspaces@.len() - i,
        {
            assert(cs[i as int] == self.colorspaces@[i as int]@);
            if self.colorspaces[i].matches_name(name) {
                proof {
                    lemma_first_index(cs, cs_named(name@), i as int);
                }
                return true;
            }
            i = i + 1;
        }
        proof {
            lemma_first_index(cs, cs_named(name@), i as int);
        }
        false
    }

    /// Builds the config, or reports why it cannot be built (see `build_error`).
    pub fn build(self) -> (r: Result<Config, OcioError>)
        ensures
            match r {
                Ok(c) => build_error(self.model()) is None && c@ == self.model() && c@.description
                    == self.description_text(),
                Err(e) => build_error(self.model()) == Some(e@),
            },
    {
        if self.colorspaces.len() == 0 {
            return Err(OcioError::Validation(string_of("Config must have at least one colorspace")));
        }
        if !self.roles.has_reference() {
            return Err(OcioError::Validation(string_of("Config must define a 'reference' role")));
        }
        match self.first_dangling_role() {
            Some(k) => {
                let pairs = self.roles.pairs();
                let (role, cs) = pairs[k];
                assert(self.model().role_order[k as int] == (role@, cs@));
                let mut m = string_of("Role '");
                push_str(&mut m, role);
                push_str(&mut m, "' references non-existent colorspace '");
                push_str(&mut m, cs);
                push_str(&mut m, "'");
                return Err(OcioError::Validation(m));
            },
            None => {},
        }
        Ok(
            Config::from_builder(
                self.name,
                self.description,
                self.version,
                self.search_paths,
                self.working_dir,
                self.colorspaces,
                self.roles,
                self.displays,
                self.looks,
                self.active_displays,
                self.active_views,
                self.shared_views,
                self.viewing_rules,
                self.named_transforms,
                self.inactive_colorspaces,
                self.file_rules,
                self.context,
            ),
        )
    }
}

impl Default for ConfigBuilder {
    /// A builder of a config named "Untitled".
    fn default() -> (r: Self)
        ensures
            r.model() == (ConfigModel { name: "Untitled"@, version: ConfigVersion::V2, ..empty_config() }),
            r.description_text() == Seq::<char>::empty(),
    {
        ConfigBuilder::new("Untitled")
    }
}

} // verus!
