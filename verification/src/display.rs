//! Displays, their views, and shared view transforms.
use vstd::prelude::*;
use crate::text::{eq_ascii_ci, eq_ignore_ascii_case, string_of};
use crate::yaml::{YamlNode, YamlValue, opt_node_value, opt_value};
use vstd::view::View as _;

verus! {

/// The view of an optional owned string.
pub open spec fn opt_string(o: Option<String>) -> Option<Seq<char>> {
    match o {
        Some(s) => Some(s@),
        None => None,
    }
}

/// The view of an optional string slice.
pub open spec fn opt_str(o: Option<&str>) -> Option<Seq<char>> {
    match o {
        Some(s) => Some(s@),
        None => None,
    }
}

/// What a view holds.
pub struct ViewModel {
    pub name: Seq<char>,
    pub colorspace: Seq<char>,
    pub looks: Option<Seq<char>>,
    pub view_transform: Option<Seq<char>>,
    pub rule: Option<Seq<char>>,
    pub description: Seq<char>,
}

/// A view within a display: how the working space is shown on it.
#[derive(Debug)]
pub struct View {
    name: String,
    colorspace: String,
    looks: Option<String>,
    view_transform: Option<String>,
    rule: Option<String>,
    description: String,
}

impl vstd::view::View for View {
    type V = ViewModel;

    closed spec fn view(&self) -> ViewModel {
        ViewModel {
            name: self.name@,
            colorspace: self.colorspace@,
            looks: opt_string(self.looks),
            view_transform: opt_string(self.view_transform),
            rule: opt_string(self.rule),
            description: self.description@,
        }
    }
}

impl View {
    /// A view named `name` targeting color space `colorspace`.
    pub fn new(name: &str, colorspace: &str) -> (r: Self)
        ensures
            r@ == (ViewModel {
                name: name@,
                colorspace: colorspace@,
                looks: None,
                view_transform: None,
                rule: None,
                description: Seq::empty(),
            }),
    {
        View {
            name: string_of(name),
            colorspace: string_of(colorspace),
            looks: None,
            view_transform: None,
            rule: None,
            description: String::new(),
        }
    }

    /// Sets the looks to apply.
    pub fn with_look(self, looks: &str) -> (r: Self)
        ensures
            r@ == (ViewModel { looks: Some(looks@), ..self@ }),
    {
        let mut v = self;
        v.looks = Some(string_of(looks));
        v
    }

    /// Sets the view transform.
    pub fn with_view_transform(self, vt: &str) -> (r: Self)
        ensures
            r@ == (ViewModel { view_transform: Some(vt@), ..self@ }),
    {
        let mut v = self;
        v.view_transform = Some(string_of(vt));
        v
    }

    /// Sets the viewing rule.
    pub fn with_rule(self, rule: &str) -> (r: Self)
        ensures
            r@ == (ViewModel { rule: Some(rule@), ..self@ }),
    {
        let mut v = self;
        v.rule = Some(string_of(rule));
        v
    }

    /// Sets the description.
    pub fn with_description(self, desc: &str) -> (r: Self)
        ensures
            r@ == (ViewModel { description: desc@, ..self@ }),
    {
        let mut v = self;
        v.description = string_of(desc);
        v
    }

    /// The view name.
    pub fn name(&self) -> (r: &str)
        ensures
            r@ == self@.name,
    {
        self.name.as_str()
    }

    /// The target color space.
    pub fn colorspace(&self) -> (r: &str)
        ensures
            r@ == self@.colorspace,
    {
        self.colorspace.as_str()
    }

    /// The looks to apply.
    pub fn looks(&self) -> (r: Option<&str>)
        ensures
            opt_str(r) == self@.looks,
    {
        match &self.looks {
            Some(s) => Some(s.as_str()),
            None => None,
        }
    }

    /// The view transform name.
    pub fn view_transform(&self) -> (r: Option<&str>)
        ensures
            opt_str(r) == self@.view_transform,
    {
        match &self.view_transform {
            Some(s) => Some(s.as_str()),
            None => None,
        }
    }

    /// The viewing rule.
    pub fn rule(&self) -> (r: Option<&str>)
        ensures
            opt_str(r) == self@.rule,
    {
        match &self.rule {
            Some(s) => Some(s.as_str()),
            None => None,
        }
    }

    /// The description.
    pub fn description(&self) -> (r: &str)
        ensures
            r@ == self@.description,
    {
        self.description.as_str()
    }
}

/// The views of a sequence of views.
pub open spec fn views_view(v: Seq<View>) -> Seq<ViewModel> {
    v.map_values(|x: View| x@)
}

/// Index of the first entry whose name equals `name` up to ASCII case.
pub open spec fn first_named(names: Seq<Seq<char>>, name: Seq<char>) -> Option<int>
    decreases names.len(),
{
    if names.len() == 0 {
        None
    } else if eq_ascii_ci(names[0], name) {
        Some(0)
    } else {
        match first_named(names.drop_first(), name) {
            Some(i) => Some(i + 1),
            None => None,
        }
    }
}

/// `first_named` is the first index whose name matches.
pub proof fn lemma_first_named(names: Seq<Seq<char>>, name: Seq<char>, i: int)
    requires
        0 <= i <= names.len(),
        forall|j: int| 0 <= j < i ==> !eq_ascii_ci(#[trigger] names[j], name),
        i < names.len() ==> eq_ascii_ci(names[i], name),
    ensures
        first_named(names, name) == (if i < names.len() { Some(i) } else { None::<int> }),
    decreases names.len(),
{
    if names.len() > 0 && i > 0 {
        assert forall|j: int| 0 <= j < i - 1 implies !eq_ascii_ci(#[trigger] names.drop_first()[j], name) by {
            assert(names.drop_first()[j] == names[j + 1]);
        }
        lemma_first_named(names.drop_first(), name, i - 1);
    }
}

/// What a display holds.
pub struct DisplayModel {
    pub name: Seq<char>,
    pub views: Seq<ViewModel>,
    pub default_view: Option<Seq<char>>,
}

/// The names of a sequence of views.
pub open spec fn view_names_of(v: Seq<ViewModel>) -> Seq<Seq<char>> {
    v.map_values(|x: ViewModel| x.name)
}

/// A display device with its views.
#[derive(Debug)]
pub struct Display {
    name: String,
    views: Vec<View>,
    default_view: Option<String>,
}

impl Display {
    /// What this display holds.
    pub closed spec fn model(&self) -> DisplayModel {
        DisplayModel {
            name: self.name@,
            views: views_view(self.views@),
            default_view: opt_string(self.default_view),
        }
    }
}

impl Display {
    /// A display with no views.
    pub fn new(name: &str) -> (r: Self)
        ensures
            r.model() == (DisplayModel { name: name@, views: Seq::empty(), default_view: None }),
    {
        let r = Display { name: string_of(name), views: Vec::new(), default_view: None };
        assert(views_view(r.views@) =~= Seq::empty());
        r
    }

    /// The display name.
    pub fn name(&self) -> (r: &str)
        ensures
            r@ == self.model().name,
    {
        self.name.as_str()
    }

    /// Adds a view; the first view added becomes the default view.
    pub fn add_view(&mut self, view: View)
        ensures
            final(self).model() == (DisplayModel {
                views: old(self).model().views.push(view@),
                default_view: match old(self).model().default_view {
                    Some(d) => Some(d),
                    None => Some(view@.name),
                },
                ..old(self).model()
            }),
    {
        if self.default_view.is_none() {
            self.default_view = Some(string_of(view.name.as_str()));
        }
        let ghost old_views = self.views@;
        self.views.push(view);
        assert(views_view(self.views@) =~= views_view(old_views).push(view@));
    }

    /// Sets the default view name.
    pub fn set_default_view(&mut self, name: &str)
        ensures
            final(self).model() == (DisplayModel { default_view: Some(name@), ..old(self).model() }),
    {
        self.default_view = Some(string_of(name));
    }

    /// All views, in the order added.
    pub fn views(&self) -> (r: &[View])
        ensures
            views_view(r@) == self.model().views,
    {
        self.views.as_slice()
    }

    /// The first view named `name`, ignoring ASCII case.
    pub fn view(&self, name: &str) -> (r: Option<&View>)
        ensures
            match first_named(view_names_of(self.model().views), name@) {
                Some(i) => r is Some && r.unwrap()@ == self.model().views[i],
                None => r is None,
            },
    {
        let ghost names = view_names_of(self.model().views);
        let mut i: usize = 0;
        while i < self.views.len()
            invariant
                0 <= i <= self.views@.len(),
                names == view_names_of(views_view(self.views@)),
                forall|j: int| 0 <= j < i ==> !eq_ascii_ci(#[trigger] names[j], name@),
            decreases self.views@.len() - i,
        {
            if eq_ignore_ascii_case(self.views[i].name.as_str(), name) {
                proof {
                    assert(names[i as int] == self.views@[i as int]@.name);
                    lemma_first_named(names, name@, i as int);
                }
                return Some(&self.views[i]);
            }
            assert(names[i as int] == self.views@[i as int]@.name);
            i = i + 1;
        }
        proof {
            lemma_first_named(names, name@, i as int);
        }
        None
    }

    /// The default view name.
    pub fn default_view(&self) -> (r: Option<&str>)
        ensures
            opt_str(r) == self.model().default_view,
    {
        match &self.default_view {
            Some(s) => Some(s.as_str()),
            None => None,
        }
    }

    /// The view names, in order.
    pub fn view_names(&self) -> (r: Vec<&str>)
        ensures
            r@.map_values(|s: &str| s@) == view_names_of(self.model().views),
    {
        let mut r: Vec<&str> = Vec::new();
        let mut i: usize = 0;
        while i < self.views.len()
            invariant
                0 <= i <= self.views@.len(),
                r@.map_values(|s: &str| s@) == view_names_of(views_view(self.views@)).take(i as int),
            decreases self.views@.len() - i,
        {
            let ghost before = r@;
            r.push(self.views[i].name.as_str());
            assert(r@.map_values(|s: &str| s@) =~= before.map_values(|s: &str| s@).push(
                self.views@[i as int]@.name,
            ));
            assert(view_names_of(views_view(self.views@)).take(i + 1) =~= view_names_of(
                views_view(self.views@),
            ).take(i as int).push(self.views@[i as int]@.name));
            i = i + 1;
        }
        assert(view_names_of(views_view(self.views@)).take(i as int) =~= view_names_of(
            views_view(self.views@),
        ));
        r
    }
}

/// What a view transform holds.
pub struct ViewTransformModel {
    pub name: Seq<char>,
    pub family: Seq<char>,
    pub description: Seq<char>,
    pub from_scene_reference: Option<YamlValue>,
    pub to_scene_reference: Option<YamlValue>,
    pub from_display_reference: Option<YamlValue>,
    pub to_display_reference: Option<YamlValue>,
}

/// A view transform: a named transform shared by views.
#[derive(Debug)]
pub struct ViewTransform {
    name: String,
    family: String,
    description: String,
    from_scene_reference: Option<YamlNode>,
    to_scene_reference: Option<YamlNode>,
    from_display_reference: Option<YamlNode>,
    to_display_reference: Option<YamlNode>,
}

impl vstd::view::View for ViewTransform {
    type V = ViewTransformModel;

    closed spec fn view(&self) -> ViewTransformModel {
        ViewTransformModel {
            name: self.name@,
            family: self.family@,
            description: self.description@,
            from_scene_reference: opt_node_value(self.from_scene_reference),
            to_scene_reference: opt_node_value(self.to_scene_reference),
            from_display_reference: opt_node_value(self.from_display_reference),
            to_display_reference: opt_node_value(self.to_display_reference),
        }
    }
}

impl ViewTransform {
    /// A view transform with no transforms.
    pub fn new(name: &str) -> (r: Self)
        ensures
            r@ == (ViewTransformModel {
                name: name@,
                family: Seq::empty(),
                description: Seq::empty(),
                from_scene_reference: None,
                to_scene_reference: None,
                from_display_reference: None,
                to_display_reference: None,
            }),
    {
        ViewTransform {
            name: string_of(name),
            family: String::new(),
            description: String::new(),
            from_scene_reference: None,
            to_scene_reference: None,
            from_display_reference: None,
            to_display_reference: None,
        }
    }

    /// The name.
    pub fn name(&self) -> (r: &str)
        ensures
            r@ == self@.name,
    {
        self.name.as_str()
    }

    /// The family.
    pub fn family(&self) -> (r: &str)
        ensures
            r@ == self@.family,
    {
        self.family.as_str()
    }

    /// Sets the family.
    pub fn with_family(self, family: &str) -> (r: Self)
        ensures
            r@ == (ViewTransformModel { family: family@, ..self@ }),
    {
        let mut v = self;
        v.family = string_of(family);
        v
    }

    /// The description.
    pub fn description(&self) -> (r: &str)
        ensures
            r@ == self@.description,
    {
        self.description.as_str()
    }

    /// Sets the description.
    pub fn with_description(self, desc: &str) -> (r: Self)
        ensures
            r@ == (ViewTransformModel { description: desc@, ..self@ }),
    {
        let mut v = self;
        v.description = string_of(desc);
        v
    }

    /// Sets the transform from the scene reference.
    pub fn with_from_scene_reference(self, t: YamlNode) -> (r: Self)
        ensures
            r@ == (ViewTransformModel { from_scene_reference: Some(t@), ..self@ }),
    {
        let mut v = self;
        v.from_scene_reference = Some(t);
        v
    }

    /// Sets the transform to the scene reference.
    pub fn with_to_scene_reference(self, t: YamlNode) -> (r: Self)
        ensures
            r@ == (ViewTransformModel { to_scene_reference: Some(t@), ..self@ }),
    {
        let mut v = self;
        v.to_scene_reference = Some(t);
        v
    }

    /// Sets the transform from the display reference.
    pub fn with_from_display_reference(self, t: YamlNode) -> (r: Self)
        ensures
            r@ == (ViewTransformModel { from_display_reference: Some(t@), ..self@ }),
    {
        let mut v = self;
        v.from_display_reference = Some(t);
        v
    }

    /// Sets the transform to the display reference.
    pub fn with_to_display_reference(self, t: YamlNode) -> (r: Self)
        ensures
            r@ == (ViewTransformModel { to_display_reference: Some(t@), ..self@ }),
    {
        let mut v = self;
        v.to_display_reference = Some(t);
        v
    }

    /// The transform from the scene reference.
    pub fn from_scene_reference(&self) -> (r: Option<&YamlNode>)
        ensures
            opt_value(r) == self@.from_scene_reference,
    {
        self.from_scene_reference.as_ref()
    }

    /// The transform to the scene reference.
    pub fn to_scene_reference(&self) -> (r: Option<&YamlNode>)
        ensures
            opt_value(r) == self@.to_scene_reference,
    {
        self.to_scene_reference.as_ref()
    }

    /// The transform from the display reference.
    pub fn from_display_reference(&self) -> (r: Option<&YamlNode>)
        ensures
            opt_value(r) == self@.from_display_reference,
    {
        self.from_display_reference.as_ref()
    }

    /// The transform to the display reference.
    pub fn to_display_reference(&self) -> (r: Option<&YamlNode>)
        ensures
            opt_value(r) == self@.to_display_reference,
    {
        self.to_display_reference.as_ref()
    }
}

} // verus!

verus! {

/// The models of a sequence of displays.
pub open spec fn displays_view(v: Seq<Display>) -> Seq<DisplayModel> {
    v.map_values(|d: Display| d.model())
}

/// The names of a sequence of displays.
pub open spec fn display_names_of(v: Seq<DisplayModel>) -> Seq<Seq<char>> {
    v.map_values(|d: DisplayModel| d.name)
}

/// The models of a sequence of view transforms.
pub open spec fn view_transforms_view(v: Seq<ViewTransform>) -> Seq<ViewTransformModel> {
    v.map_values(|t: ViewTransform| t@)
}

/// The names of a sequence of view transforms.
pub open spec fn vt_names_of(v: Seq<ViewTransformModel>) -> Seq<Seq<char>> {
    v.map_values(|t: ViewTransformModel| t.name)
}

/// Whether a display is not named `name` (up to ASCII case).
pub open spec fn keep_unnamed(name: Seq<char>) -> spec_fn(DisplayModel) -> bool {
    |d: DisplayModel| !eq_ascii_ci(d.name, name)
}

/// What a display manager holds.
pub struct DisplayManagerModel {
    pub displays: Seq<DisplayModel>,
    pub default_display: Option<Seq<char>>,
    pub view_transforms: Seq<ViewTransformModel>,
}

/// The displays of a config, with its view transforms.
#[derive(Debug)]
pub struct DisplayManager {
    displays: Vec<Display>,
    default_display: Option<String>,
    view_transforms: Vec<ViewTransform>,
}

impl vstd::view::View for DisplayManager {
    type V = DisplayManagerModel;

    closed spec fn view(&self) -> DisplayManagerModel {
        DisplayManagerModel {
            displays: displays_view(self.displays@),
            default_display: opt_string(self.default_display),
            view_transforms: view_transforms_view(self.view_transforms@),
        }
    }
}

impl DisplayManager {
    /// An empty display manager.
    pub fn new() -> (r: Self)
        ensures
            r@ == (DisplayManagerModel {
                displays: Seq::empty(),
                default_display: None,
                view_transforms: Seq::empty(),
            }),
    {
        let r = DisplayManager { displays: Vec::new(), default_display: None, view_transforms: Vec::new() };
        assert(displays_view(r.displays@) =~= Seq::empty());
        assert(view_transforms_view(r.view_transforms@) =~= Seq::empty());
        r
    }

    /// Adds a display; the first display added becomes the default display.
    pub fn add_display(&mut self, display: Display)
        ensures
            final(self)@ == (DisplayManagerModel {
                displays: old(self)@.displays.push(display.model()),
                default_display: match old(self)@.default_display {
                    Some(d) => Some(d),
                    None => Some(display.model().name),
                },
                ..old(self)@
            }),
    {
        if self.default_display.is_none() {
            self.default_display = Some(string_of(display.name.as_str()));
        }
        let ghost before = self.displays@;
        self.displays.push(display);
        assert(displays_view(self.displays@) =~= displays_view(before).push(display.model()));
    }

    /// Sets the default display name.
    pub fn set_default_display(&mut self, name: &str)
        ensures
            final(self)@ == (DisplayManagerModel { default_display: Some(name@), ..old(self)@ }),
    {
        self.default_display = Some(string_of(name));
    }

    /// All displays, in the order added.
    pub fn displays(&self) -> (r: &[Display])
        ensures
            displays_view(r@) == self@.displays,
    {
        self.displays.as_slice()
    }

    /// Position of the first display named `name`, ignoring ASCII case.
    fn display_index(&self, name: &str) -> (r: Option<usize>)
        ensures
            r matches Some(j) ==> j < self.displays@.len(),
            match first_named(display_names_of(self@.displays), name@) {
                Some(i) => r matches Some(j) && j == i,
                None => r is None,
            },
    {
        let ghost names = display_names_of(self@.displays);
        let mut i: usize = 0;
        while i < self.displays.len()
            invariant
                0 <= i <= self.displays@.len(),
                names == display_names_of(displays_view(self.displays@)),
                forall|j: int| 0 <= j < i ==> !eq_ascii_ci(#[trigger] names[j], name@),
            decreases self.displays@.len() - i,
        {
            assert(names[i as int] == self.displays@[i as int].model().name);
            if eq_ignore_ascii_case(self.displays[i].name(), name) {
                proof {
                    lemma_first_named(names, name@, i as int);
                }
                return Some(i);
            }
            i = i + 1;
        }
        proof {
            lemma_first_named(names, name@, i as int);
        }
        None
    }

    /// The first display named `name`, ignoring ASCII case.
    pub fn display(&self, name: &str) -> (r: Option<&Display>)
        ensures
            match first_named(display_names_of(self@.displays), name@) {
                Some(i) => r is Some && r.unwrap().model() == self@.displays[i],
                None => r is None,
            },
    {
        match self.display_index(name) {
            Some(i) => {
                assert(self@.displays[i as int] == self.displays@[i as int].model());
                Some(&self.displays[i])
            },
            None => None,
        }
    }

    /// The first display named `name`, ignoring ASCII case, for changing it in place.
    pub fn display_mut(&mut self, name: &str) -> (r: Option<&mut Display>)
        ensures
            match first_named(display_names_of(old(self)@.displays), name@) {
                Some(i) => r matches Some(d) && d.model() == old(self)@.displays[i] && final(self)@
                    == (DisplayManagerModel {
                    displays: old(self)@.displays.update(i, final(d).model()),
                    ..old(self)@
                }),
                None => r is None && final(self)@ == old(self)@,
            },
    {
        match self.display_index(name) {
            Some(i) => {
                let ghost before = self.displays@;
                let d = &mut self.displays[i];
                proof {
                    assert(displays_view(before.update(i as int, *final(d))) =~= displays_view(before).update(
                        i as int,
                        final(d).model(),
                    ));
                }
                Some(d)
            },
            None => None,
        }
    }

    /// Adds `view` to the first display named `display`, if there is one.
    pub fn add_view(&mut self, display: &str, view: View)
        ensures
            match first_named(display_names_of(old(self)@.displays), display@) {
                Some(i) => final(self)@ == (DisplayManagerModel {
                    displays: old(self)@.displays.update(i, DisplayModel {
                        views: old(self)@.displays[i].views.push(view@),
                        default_view: match old(self)@.displays[i].default_view {
                            Some(d) => Some(d),
                            None => Some(view@.name),
                        },
                        ..old(self)@.displays[i]
                    }),
                    ..old(self)@
                }),
                None => final(self)@ == old(self)@,
            },
    {
        match self.display_index(display) {
            Some(i) => {
                let mut ds: Vec<Display> = Vec::new();
                std::mem::swap(&mut ds, &mut self.displays);
                let ghost before = ds@;
                assert(displays_view(before)[i as int] == before[i as int].model());
                let mut d = ds.remove(i);
                d.add_view(view);
                ds.insert(i, d);
                assert(displays_view(ds@) =~= displays_view(before).update(i as int, d.model()));
                self.displays = ds;
            },
            None => {},
        }
    }

    /// Removes every display named `name`, ignoring ASCII case.
    pub fn remove_display(&mut self, name: &str)
        ensures
            final(self)@ == (DisplayManagerModel {
                displays: old(self)@.displays.filter(keep_unnamed(name@)),
                ..old(self)@
            }),
    {
        let mut kept: Vec<Display> = Vec::new();
        let mut ds: Vec<Display> = Vec::new();
        std::mem::swap(&mut ds, &mut self.displays);
        let ghost all = displays_view(ds@);
        let ghost pred = keep_unnamed(name@);
        let ghost mut k: int = 0;
        assert(all.take(0).filter(pred) =~= Seq::<DisplayModel>::empty()) by {
            reveal_with_fuel(Seq::<_>::filter, 1);
        }
        assert(displays_view(kept@) =~= Seq::<DisplayModel>::empty());
        assert(displays_view(ds@) =~= all.skip(0));
        while ds.len() > 0
            invariant
                0 <= k <= all.len(),
                pred == keep_unnamed(name@),
                displays_view(ds@) == all.skip(k),
                displays_view(kept@) == all.take(k).filter(pred),
            decreases ds@.len(),
        {
            let ghost before_ds = ds@;
            let ghost before_kept = kept@;
            assert(displays_view(before_ds).len() == before_ds.len());
            assert(k < all.len());
            assert(displays_view(before_ds)[0] == all.skip(k)[0]);
            assert(all.skip(k)[0] == all[k]);
            let d = ds.remove(0);
            assert(all[k] == d.model());
            assert(all.take(k + 1).drop_last() =~= all.take(k));
            assert(all.take(k + 1).filter(pred) == if pred(all[k]) {
                all.take(k).filter(pred).push(all[k])
            } else {
                all.take(k).filter(pred)
            }) by {
                reveal_with_fuel(Seq::<_>::filter, 1);
            }
            assert(pred(all[k]) == !eq_ascii_ci(d.model().name, name@));
            if !eq_ignore_ascii_case(d.name(), name) {
                kept.push(d);
                assert(displays_view(kept@) =~= displays_view(before_kept).push(d.model()));
            }
            assert(displays_view(ds@) =~= all.skip(k + 1)) by {
                assert(displays_view(ds@) =~= displays_view(before_ds).drop_first());
            }
            proof {
                k = k + 1;
            }
        }
        assert(all.take(k) =~= all);
        self.displays = kept;
    }

    /// The default display name.
    pub fn default_display(&self) -> (r: Option<&str>)
        ensures
            opt_str(r) == self@.default_display,
    {
        match &self.default_display {
            Some(s) => Some(s.as_str()),
            None => None,
        }
    }

    /// The display names, in order.
    pub fn display_names(&self) -> (r: Vec<&str>)
        ensures
            r@.map_values(|s: &str| s@) == display_names_of(self@.displays),
    {
        let mut r: Vec<&str> = Vec::new();
        let mut i: usize = 0;
        while i < self.displays.len()
            invariant
                0 <= i <= self.displays@.len(),
                r@.map_values(|s: &str| s@) == display_names_of(displays_view(self.displays@)).take(i as int),
            decreases self.displays@.len() - i,
        {
            let ghost before = r@;
            r.push(self.displays[i].name());
            assert(r@.map_values(|s: &str| s@) =~= before.map_values(|s: &str| s@).push(
                self.displays@[i as int].model().name,
            ));
            assert(display_names_of(displays_view(self.displays@)).take(i + 1) =~= display_names_of(
                displays_view(self.displays@),
            ).take(i as int).push(self.displays@[i as int].model().name));
            i = i + 1;
        }
        assert(display_names_of(displays_view(self.displays@)).take(i as int) =~= display_names_of(
            displays_view(self.displays@),
        ));
        r
    }

    /// Adds a view transform.
    pub fn add_view_transform(&mut self, vt: ViewTransform)
        ensures
            final(self)@ == (DisplayManagerModel {
                view_transforms: old(self)@.view_transforms.push(vt@),
                ..old(self)@
            }),
    {
        let ghost before = self.view_transforms@;
        self.view_transforms.push(vt);
        assert(view_transforms_view(self.view_transforms@) =~= view_transforms_view(before).push(vt@));
    }

    /// The first view transform named `name`, ignoring ASCII case.
    pub fn view_transform(&self, name: &str) -> (r: Option<&ViewTransform>)
        ensures
            match first_named(vt_names_of(self@.view_transforms), name@) {
                Some(i) => r is Some && r.unwrap()@ == self@.view_transforms[i],
                None => r is None,
            },
    {
        let ghost names = vt_names_of(self@.view_transforms);
        let mut i: usize = 0;
        while i < self.view_transforms.len()
            invariant
                0 <= i <= self.view_transforms@.len(),
                names == vt_names_of(view_transforms_view(self.view_transforms@)),
                forall|j: int| 0 <= j < i ==> !eq_ascii_ci(#[trigger] names[j], name@),
            decreases self.view_transforms@.len() - i,
        {
            assert(names[i as int] == self.view_transforms@[i as int]@.name);
            if eq_ignore_ascii_case(self.view_transforms[i].name(), name) {
                proof {
                    lemma_first_named(names, name@, i as int);
                }
                return Some(&self.view_transforms[i]);
            }
            i = i + 1;
        }
        proof {
            lemma_first_named(names, name@, i as int);
        }
        None
    }

    /// All view transforms, in the order added.
    pub fn view_transforms(&self) -> (r: &[ViewTransform])
        ensures
            view_transforms_view(r@) == self@.view_transforms,
    {
        self.view_transforms.as_slice()
    }
}

} // verus!
