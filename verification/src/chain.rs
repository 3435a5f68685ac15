//! The chains of transform definitions that color conversions are built
//! from: which definitions, in which order and direction.
use vstd::prelude::*;
use crate::colorspace::{ColorSpace, ColorSpaceModel};
use crate::config::{Config, ConfigModel, cs_lookup};
use crate::display::{display_names_of, first_named, view_names_of, vt_names_of, ViewTransform, ViewTransformModel};
use crate::error::{ErrorModel, OcioError};
use crate::look::{Look, LookModel, look_names_of, parse_looks, parse_looks_spec, looks_view};
use crate::text::{chars_of, push_str, string_of, trim_bounds, trim_seq};
use crate::transform::TransformDirection;
use crate::yaml::{YamlNode, YamlValue, opt_value};
use crate::display::{opt_str, Display, View as ViewItem};

verus! {

/// One step of a chain: a transform definition and the direction it is applied in.
#[derive(Debug)]
pub struct ChainStep {
    /// The transform definition.
    pub transform: YamlNode,
    /// The direction it is applied in.
    pub direction: TransformDirection,
}

/// What a chain step holds.
pub struct ChainStepModel {
    pub transform: YamlValue,
    pub direction: TransformDirection,
}

impl View for ChainStep {
    type V = ChainStepModel;

    open spec fn view(&self) -> ChainStepModel {
        ChainStepModel { transform: self.transform@, direction: self.direction }
    }
}

/// The models of a sequence of steps.
pub open spec fn steps_view(s: Seq<ChainStep>) -> Seq<ChainStepModel> {
    s.map_values(|c: ChainStep| c@)
}

/// The step of a definition, when there is one.
pub open spec fn opt_step(o: Option<YamlValue>, d: TransformDirection) -> Seq<ChainStepModel> {
    match o {
        Some(t) => seq![ChainStepModel { transform: t, direction: d }],
        None => Seq::empty(),
    }
}

/// From a color space into the reference space: its `to_reference` definition.
pub open spec fn to_ref_steps(c: ColorSpaceModel) -> Seq<ChainStepModel> {
    opt_step(c.to_reference, TransformDirection::Forward)
}

/// From the reference space into a color space: its `from_reference`
/// definition, else its `to_reference` definition inverted.
pub open spec fn from_ref_steps(c: ColorSpaceModel) -> Seq<ChainStepModel> {
    match c.from_reference {
        Some(t) => opt_step(Some(t), TransformDirection::Forward),
        None => opt_step(c.to_reference, TransformDirection::Inverse),
    }
}

/// The chain from color space `src` to color space `dst` (names resolved
/// by `cs_lookup`): into the reference space, then out of it.
pub open spec fn processor_steps_of(m: ConfigModel, src: Seq<char>, dst: Seq<char>) -> Result<Seq<ChainStepModel>, ErrorModel> {
    match cs_lookup(m, src) {
        None => Err(ErrorModel::ColorSpaceNotFound(src)),
        Some(i) => match cs_lookup(m, dst) {
            None => Err(ErrorModel::ColorSpaceNotFound(dst)),
            Some(j) => Ok(to_ref_steps(m.colorspaces[i]) + from_ref_steps(m.colorspaces[j])),
        },
    }
}

/// The steps into (`into`) or out of a look's process space, when it names
/// an existing color space: that space's `from_reference`, or its `to_reference`.
pub open spec fn process_space_steps(m: ConfigModel, l: LookModel, into: bool) -> Seq<ChainStepModel> {
    match l.process_space {
        Some(p) => match cs_lookup(m, p) {
            Some(i) => if into {
                opt_step(m.colorspaces[i].from_reference, TransformDirection::Forward)
            } else {
                opt_step(m.colorspaces[i].to_reference, TransformDirection::Forward)
            },
            None => Seq::empty(),
        },
        None => Seq::empty(),
    }
}

/// The look's own step: its transform forward, or, for the inverse
/// direction, its inverse transform (else its transform) inverted.
pub open spec fn look_body_steps(l: LookModel, forward: bool) -> Seq<ChainStepModel> {
    if forward {
        opt_step(l.transform, TransformDirection::Forward)
    } else {
        match l.inverse_transform {
            Some(t) => opt_step(Some(t), TransformDirection::Inverse),
            None => opt_step(l.transform, TransformDirection::Inverse),
        }
    }
}

/// The steps of one entry of a look list.
pub open spec fn one_look_steps(m: ConfigModel, e: (Seq<char>, bool)) -> Result<Seq<ChainStepModel>, ErrorModel> {
    match first_named(look_names_of(m.looks), e.0) {
        None => Err(ErrorModel::LookNotFound(e.0)),
        Some(k) => Ok(
            process_space_steps(m, m.looks[k], true) + look_body_steps(m.looks[k], e.1) + process_space_steps(
                m,
                m.looks[k],
                false,
            ),
        ),
    }
}

/// The steps of a look list, or the error of its first unknown look.
pub open spec fn look_steps(m: ConfigModel, es: Seq<(Seq<char>, bool)>) -> Result<Seq<ChainStepModel>, ErrorModel>
    decreases es.len(),
{
    if es.len() == 0 {
        Ok(Seq::empty())
    } else {
        match look_steps(m, es.drop_last()) {
            Err(e) => Err(e),
            Ok(s) => match one_look_steps(m, es.last()) {
                Err(e) => Err(e),
                Ok(t) => Ok(s + t),
            },
        }
    }
}

/// The chain from `src` to `dst` through the looks of the look list `looks`
/// (the plain chain when `looks` is blank).
pub open spec fn looks_processor_steps_of(m: ConfigModel, src: Seq<char>, dst: Seq<char>, looks: Seq<char>) -> Result<Seq<ChainStepModel>, ErrorModel> {
    if trim_seq(looks).len() == 0 {
        processor_steps_of(m, src, dst)
    } else {
        match cs_lookup(m, src) {
            None => Err(ErrorModel::ColorSpaceNotFound(src)),
            Some(i) => match look_steps(m, parse_looks_spec(looks)) {
                Err(e) => Err(e),
                Ok(ls) => match cs_lookup(m, dst) {
                    None => Err(ErrorModel::ColorSpaceNotFound(dst)),
                    Some(j) => Ok(to_ref_steps(m.colorspaces[i]) + ls + from_ref_steps(m.colorspaces[j])),
                },
            },
        }
    }
}

/// The step of a view transform: its `from_scene_reference`, else its
/// `to_scene_reference` inverted, else its `to_display_reference`, else
/// its `from_display_reference` inverted.
pub open spec fn view_transform_steps(vt: ViewTransformModel) -> Seq<ChainStepModel> {
    match vt.from_scene_reference {
        Some(t) => opt_step(Some(t), TransformDirection::Forward),
        None => match vt.to_scene_reference {
            Some(t) => opt_step(Some(t), TransformDirection::Inverse),
            None => match vt.to_display_reference {
                Some(t) => opt_step(Some(t), TransformDirection::Forward),
                None => opt_step(vt.from_display_reference, TransformDirection::Inverse),
            },
        },
    }
}

/// Into the display color space `c`: its `from_display_reference` first
/// when the view has a view transform, else as `from_ref_steps`.
pub open spec fn display_dst_steps(c: ColorSpaceModel, has_vt: bool) -> Seq<ChainStepModel> {
    if has_vt {
        match c.from_display_reference {
            Some(t) => opt_step(Some(t), TransformDirection::Forward),
            None => from_ref_steps(c),
        }
    } else {
        from_ref_steps(c)
    }
}

/// The steps of a view's looks (none when it has none).
pub open spec fn view_look_steps(m: ConfigModel, looks: Option<Seq<char>>) -> Result<Seq<ChainStepModel>, ErrorModel> {
    match looks {
        Some(l) => look_steps(m, parse_looks_spec(l)),
        None => Ok(Seq::empty()),
    }
}

/// The steps of a view's view transform (none when it has none).
pub open spec fn view_vt_steps(m: ConfigModel, vt: Option<Seq<char>>) -> Result<Seq<ChainStepModel>, ErrorModel> {
    match vt {
        None => Ok(Seq::empty()),
        Some(n) => match first_named(vt_names_of(m.displays.view_transforms), n) {
            None => Err(ErrorModel::Validation("view transform not found: "@ + n)),
            Some(k) => Ok(view_transform_steps(m.displays.view_transforms[k])),
        },
    }
}

/// The chain from color space `src` to view `view` of display `display`
/// (names of displays, views, view transforms and looks ignore ASCII case):
/// into the reference space, the view's looks, its view transform, and
/// into the view's color space.
pub open spec fn display_steps_of(m: ConfigModel, src: Seq<char>, display: Seq<char>, view: Seq<char>) -> Result<Seq<ChainStepModel>, ErrorModel> {
    match first_named(display_names_of(m.displays.displays), display) {
        None => Err(ErrorModel::DisplayNotFound(display)),
        Some(di) => match first_named(view_names_of(m.displays.displays[di].views), view) {
            None => Err(ErrorModel::ViewNotFound(display, view)),
            Some(vi) => {
                let v = m.displays.displays[di].views[vi];
                match cs_lookup(m, src) {
                    None => Err(ErrorModel::ColorSpaceNotFound(src)),
                    Some(si) => match view_look_steps(m, v.looks) {
                        Err(e) => Err(e),
                        Ok(ls) => match view_vt_steps(m, v.view_transform) {
                            Err(e) => Err(e),
                            Ok(vs) => match cs_lookup(m, v.colorspace) {
                                None => Err(ErrorModel::ColorSpaceNotFound(v.colorspace)),
                                Some(ci) => Ok(
                                    to_ref_steps(m.colorspaces[si]) + ls + vs + display_dst_steps(
                                        m.colorspaces[ci],
                                        v.view_transform is Some,
                                    ),
                                ),
                            },
                        },
                    },
                }
            },
        },
    }
}

/// An error among the first entries of a look list stays the result for all of them.
proof fn lemma_look_steps_err(m: ConfigModel, es: Seq<(Seq<char>, bool)>, i: int, e: ErrorModel)
    requires
        0 <= i <= es.len(),
        look_steps(m, es.take(i)) == Err::<Seq<ChainStepModel>, ErrorModel>(e),
    ensures
        look_steps(m, es) == Err::<Seq<ChainStepModel>, ErrorModel>(e),
    decreases es.len(),
{
    if i == es.len() {
        assert(es.take(i) =~= es);
    } else {
        let d = es.drop_last();
        assert(d.take(i) =~= es.take(i));
        lemma_look_steps_err(m, d, i, e);
    }
}

fn push_opt_step(out: &mut Vec<ChainStep>, o: Option<&YamlNode>, d: TransformDirection)
    ensures
        steps_view(final(out)@) == steps_view(old(out)@) + opt_step(opt_value(o), d),
{
    let ghost before = out@;
    match o {
        Some(t) => {
            out.push(ChainStep { transform: t.copy(), direction: d });
        },
        None => {},
    }
    assert(steps_view(out@) =~= steps_view(before) + opt_step(opt_value(o), d));
}

fn push_to_ref(out: &mut Vec<ChainStep>, c: &ColorSpace)
    ensures
        steps_view(final(out)@) == steps_view(old(out)@) + to_ref_steps(c@),
{
    push_opt_step(out, c.to_reference(), TransformDirection::Forward);
}

fn push_from_ref(out: &mut Vec<ChainStep>, c: &ColorSpace)
    ensures
        steps_view(final(out)@) == steps_view(old(out)@) + from_ref_steps(c@),
{
    match c.from_reference() {
        Some(t) => push_opt_step(out, Some(t), TransformDirection::Forward),
        None => push_opt_step(out, c.to_reference(), TransformDirection::Inverse),
    }
}

fn push_look_body(out: &mut Vec<ChainStep>, l: &Look, forward: bool)
    ensures
        steps_view(final(out)@) == steps_view(old(out)@) + look_body_steps(l@, forward),
{
    if forward {
        push_opt_step(out, l.get_transform(), TransformDirection::Forward);
    } else {
        match l.get_inverse_transform() {
            Some(t) => push_opt_step(out, Some(t), TransformDirection::Inverse),
            None => push_opt_step(out, l.get_transform(), TransformDirection::Inverse),
        }
    }
}

fn push_view_transform(out: &mut Vec<ChainStep>, vt: &ViewTransform)
    ensures
        steps_view(final(out)@) == steps_view(old(out)@) + view_transform_steps(vt@),
{
    match vt.from_scene_reference() {
        Some(t) => push_opt_step(out, Some(t), TransformDirection::Forward),
        None => match vt.to_scene_reference() {
            Some(t) => push_opt_step(out, Some(t), TransformDirection::Inverse),
            None => match vt.to_display_reference() {
                Some(t) => push_opt_step(out, Some(t), TransformDirection::Forward),
                None => push_opt_step(out, vt.from_display_reference(), TransformDirection::Inverse),
            },
        },
    }
}

fn push_display_dst(out: &mut Vec<ChainStep>, c: &ColorSpace, has_vt: bool)
    ensures
        steps_view(final(out)@) == steps_view(old(out)@) + display_dst_steps(c@, has_vt),
{
    if has_vt {
        match c.from_display_reference() {
            Some(t) => push_opt_step(out, Some(t), TransformDirection::Forward),
            None => push_from_ref(out, c),
        }
    } else {
        push_from_ref(out, c);
    }
}

impl Config {
    fn push_process_space(&self, out: &mut Vec<ChainStep>, l: &Look, into: bool)
        ensures
            steps_view(final(out)@) == steps_view(old(out)@) + process_space_steps(self@, l@, into),
    {
        let ghost before = steps_view(out@);
        match l.get_process_space() {
            Some(p) => match self.colorspace(p) {
                Some(ps) => {
                    if into {
                        push_opt_step(out, ps.from_reference(), TransformDirection::Forward);
                    } else {
                        push_opt_step(out, ps.to_reference(), TransformDirection::Forward);
                    }
                },
                None => {
                    assert(steps_view(out@) =~= before + process_space_steps(self@, l@, into));
                },
            },
            None => {
                assert(steps_view(out@) =~= before + process_space_steps(self@, l@, into));
            },
        }
    }

    fn push_one_look(&self, out: &mut Vec<ChainStep>, name: &str, forward: bool) -> (r: Result<(), OcioError>)
        ensures
            match one_look_steps(self@, (name@, forward)) {
                Ok(t) => r is Ok && steps_view(final(out)@) == steps_view(old(out)@) + t,
                Err(e) => r matches Err(x) && x@ == e,
            },
    {
        let l = match self.look(name) {
            Some(l) => l,
            None => {
                return Err(OcioError::LookNotFound { name: string_of(name) });
            },
        };
        let ghost b0 = steps_view(out@);
        self.push_process_space(out, l, true);
        push_look_body(out, l, forward);
        self.push_process_space(out, l, false);
        assert(steps_view(out@) =~= b0 + (process_space_steps(self@, l@, true) + look_body_steps(l@, forward)
            + process_space_steps(self@, l@, false)));
        Ok(())
    }

    /// Appends the steps of the look list `looks` (see `look_steps`).
    fn push_look_steps(&self, out: &mut Vec<ChainStep>, looks: &str) -> (r: Result<(), OcioError>)
        ensures
            match look_steps(self@, parse_looks_spec(looks@)) {
                Ok(s) => r is Ok && steps_view(final(out)@) == steps_view(old(out)@) + s,
                Err(e) => r matches Err(x) && x@ == e,
            },
    {
        let entries = parse_looks(looks);
        let ghost es = looks_view(entries@);
        let ghost start = steps_view(out@);
        let ghost mut acc: Seq<ChainStepModel> = Seq::empty();
        let mut i: usize = 0;
        assert(es.take(0) =~= Seq::<(Seq<char>, bool)>::empty());
        assert(start =~= start + acc);
        while i < entries.len()
            invariant
                es == looks_view(entries@),
                es == parse_looks_spec(looks@),
                0 <= i <= entries@.len(),
                look_steps(self@, es.take(i as int)) == Ok::<Seq<ChainStepModel>, ErrorModel>(acc),
                steps_view(out@) == start + acc,
            decreases entries@.len() - i,
        {
            let (name, forward) = entries[i];
            assert(es[i as int] == (name@, forward));
            assert(es.take(i + 1).drop_last() =~= es.take(i as int));
            assert(es.take(i + 1).last() == es[i as int]);
            let ghost b0 = steps_view(out@);
            match self.push_one_look(out, name, forward) {
                Ok(()) => {},
                Err(e) => {
                    proof {
                        lemma_look_steps_err(self@, es, i + 1, e@);
                    }
                    return Err(e);
                },
            }
            proof {
                let t = one_look_steps(self@, (name@, forward))->Ok_0;
                assert(steps_view(out@) =~= start + (acc + t));
                acc = acc + t;
            }
            i = i + 1;
        }
        assert(es.take(i as int) =~= es);
        Ok(())
    }

    /// The chain from color space `src` to color space `dst` (see `processor_steps_of`).
    pub fn processor_steps(&self, src: &str, dst: &str) -> (r: Result<Vec<ChainStep>, OcioError>)
        ensures
            match r {
                Ok(v) => processor_steps_of(self@, src@, dst@) == Ok::<Seq<ChainStepModel>, ErrorModel>(steps_view(v@)),
                Err(e) => processor_steps_of(self@, src@, dst@) == Err::<Seq<ChainStepModel>, ErrorModel>(e@),
            },
    {
        let s = match self.colorspace(src) {
            Some(c) => c,
            None => {
                return Err(OcioError::ColorSpaceNotFound { name: string_of(src) });
            },
        };
        let d = match self.colorspace(dst) {
            Some(c) => c,
            None => {
                return Err(OcioError::ColorSpaceNotFound { name: string_of(dst) });
            },
        };
        let mut out: Vec<ChainStep> = Vec::new();
        assert(steps_view(out@) =~= Seq::<ChainStepModel>::empty());
        push_to_ref(&mut out, s);
        push_from_ref(&mut out, d);
        assert(steps_view(out@) =~= to_ref_steps(s@) + from_ref_steps(d@));
        Ok(out)
    }

    /// The chain from `src` to `dst` through the looks of `looks` (see
    /// `looks_processor_steps_of`).
    pub fn processor_with_looks_steps(&self, src: &str, dst: &str, looks: &str) -> (r: Result<Vec<ChainStep>, OcioError>)
        ensures
            match r {
                Ok(v) => looks_processor_steps_of(self@, src@, dst@, looks@) == Ok::<Seq<ChainStepModel>, ErrorModel>(
                    steps_view(v@),
                ),
                Err(e) => looks_processor_steps_of(self@, src@, dst@, looks@) == Err::<Seq<ChainStepModel>, ErrorModel>(e@),
            },
    {
        let cs = chars_of(looks);
        let (a, b) = trim_bounds(&cs, 0, cs.len());
        assert(cs@.subrange(0, cs@.len() as int) =~= looks@);
        if a == b {
            return self.processor_steps(src, dst);
        }
        let s = match self.colorspace(src) {
            Some(c) => c,
            None => {
                return Err(OcioError::ColorSpaceNotFound { name: string_of(src) });
            },
        };
        let mut out: Vec<ChainStep> = Vec::new();
        assert(steps_view(out@) =~= Seq::<ChainStepModel>::empty());
        push_to_ref(&mut out, s);
        let ghost after_src = steps_view(out@);
        match self.push_look_steps(&mut out, looks) {
            Ok(()) => {},
            Err(e) => {
                return Err(e);
            },
        }
        let ghost after_looks = steps_view(out@);
        let d = match self.colorspace(dst) {
            Some(c) => c,
            None => {
                return Err(OcioError::ColorSpaceNotFound { name: string_of(dst) });
            },
        };
        push_from_ref(&mut out, d);
        Ok(out)
    }

    /// The chain from color space `src` to view `view` of display `display`
    /// (see `display_steps_of`).
    pub fn display_processor_steps(&self, src: &str, display: &str, view: &str) -> (r: Result<Vec<ChainStep>, OcioError>)
        ensures
            match r {
                Ok(v) => display_steps_of(self@, src@, display@, view@) == Ok::<Seq<ChainStepModel>, ErrorModel>(steps_view(v@)),
                Err(e) => display_steps_of(self@, src@, display@, view@) == Err::<Seq<ChainStepModel>, ErrorModel>(e@),
            },
    {
        let disp = match self.displays().display(display) {
            Some(d) => d,
            None => {
                return Err(OcioError::DisplayNotFound { name: string_of(display) });
            },
        };
        let v = match disp.view(view) {
            Some(v) => v,
            None => {
                return Err(OcioError::ViewNotFound { display: string_of(display), view: string_of(view) });
            },
        };
        let s = match self.colorspace(src) {
            Some(c) => c,
            None => {
                return Err(OcioError::ColorSpaceNotFound { name: string_of(src) });
            },
        };
        let mut out: Vec<ChainStep> = Vec::new();
        assert(steps_view(out@) =~= Seq::<ChainStepModel>::empty());
        push_to_ref(&mut out, s);
        let ghost s0 = steps_view(out@);
        match v.looks() {
            Some(l) => match self.push_look_steps(&mut out, l) {
                Ok(()) => {},
                Err(e) => {
                    return Err(e);
                },
            },
            None => {
                assert(steps_view(out@) =~= s0 + Seq::<ChainStepModel>::empty());
            },
        }
        let ghost s1 = steps_view(out@);
        match v.view_transform() {
            Some(n) => match self.view_transform(n) {
                Some(vt) => push_view_transform(&mut out, vt),
                None => {
                    let mut m = string_of("view transform not found: ");
                    push_str(&mut m, n);
                    return Err(OcioError::Validation(m));
                },
            },
            None => {
                assert(steps_view(out@) =~= s1 + Seq::<ChainStepModel>::empty());
            },
        }
        let ghost s2 = steps_view(out@);
        let c = match self.colorspace(v.colorspace()) {
            Some(c) => c,
            None => {
                return Err(OcioError::ColorSpaceNotFound { name: string_of(v.colorspace()) });
            },
        };
        push_display_dst(&mut out, c, v.view_transform().is_some());
        Ok(out)
    }
}

/// A view whose view transform has a `from_scene_reference` gets that
/// transform, applied forward, in its display chain.
pub proof fn law_view_transform_from_scene_forward(
    m: ConfigModel,
    src: Seq<char>,
    display: Seq<char>,
    view: Seq<char>,
    di: int,
    vi: int,
    k: int,
    t: YamlValue,
)
    requires
        first_named(display_names_of(m.displays.displays), display) == Some(di),
        first_named(view_names_of(m.displays.displays[di].views), view) == Some(vi),
        m.displays.displays[di].views[vi].view_transform matches Some(n) && first_named(
            vt_names_of(m.displays.view_transforms),
            n,
        ) == Some(k),
        m.displays.view_transforms[k].from_scene_reference == Some(t),
    ensures
        display_steps_of(m, src, display, view) matches Ok(s) ==> exists|i: int|
            0 <= i < s.len() && s[i] == (ChainStepModel { transform: t, direction: TransformDirection::Forward }),
{
    if let Ok(s) = display_steps_of(m, src, display, view) {
        let v = m.displays.displays[di].views[vi];
        let si = cs_lookup(m, src)->0;
        let ci = cs_lookup(m, v.colorspace)->0;
        let ls = view_look_steps(m, v.looks)->Ok_0;
        let a = to_ref_steps(m.colorspaces[si]) + ls;
        assert(s == a + seq![ChainStepModel { transform: t, direction: TransformDirection::Forward }]
            + display_dst_steps(m.colorspaces[ci], true));
        assert(s[a.len() as int] == ChainStepModel { transform: t, direction: TransformDirection::Forward });
    }
}

/// A view whose view transform has no `from_scene_reference` but a
/// `to_scene_reference` gets the latter, inverted, in its display chain.
pub proof fn law_view_transform_to_scene_inverse(
    m: ConfigModel,
    src: Seq<char>,
    display: Seq<char>,
    view: Seq<char>,
    di: int,
    vi: int,
    k: int,
    t: YamlValue,
)
    requires
        first_named(display_names_of(m.displays.displays), display) == Some(di),
        first_named(view_names_of(m.displays.displays[di].views), view) == Some(vi),
        m.displays.displays[di].views[vi].view_transform matches Some(n) && first_named(
            vt_names_of(m.displays.view_transforms),
            n,
        ) == Some(k),
        m.displays.view_transforms[k].from_scene_reference is None,
        m.displays.view_transforms[k].to_scene_reference == Some(t),
    ensures
        display_steps_of(m, src, display, view) matches Ok(s) ==> exists|i: int|
            0 <= i < s.len() && s[i] == (ChainStepModel { transform: t, direction: TransformDirection::Inverse }),
{
    if let Ok(s) = display_steps_of(m, src, display, view) {
        let v = m.displays.displays[di].views[vi];
        let si = cs_lookup(m, src)->0;
        let ci = cs_lookup(m, v.colorspace)->0;
        let ls = view_look_steps(m, v.looks)->Ok_0;
        let a = to_ref_steps(m.colorspaces[si]) + ls;
        assert(s == a + seq![ChainStepModel { transform: t, direction: TransformDirection::Inverse }]
            + display_dst_steps(m.colorspaces[ci], true));
        assert(s[a.len() as int] == ChainStepModel { transform: t, direction: TransformDirection::Inverse });
    }
}

/// Whether `t` stands in `s` from position `o` on.
pub open spec fn occurs_at(s: Seq<ChainStepModel>, t: Seq<ChainStepModel>, o: int) -> bool {
    0 <= o && o + t.len() <= s.len() && s.subrange(o, o + t.len()) == t
}

/// The steps of each entry of a look list stand, in one piece, in the steps
/// of the whole list.
proof fn lemma_look_steps_part(m: ConfigModel, es: Seq<(Seq<char>, bool)>, j: int)
    requires
        look_steps(m, es) is Ok,
        0 <= j < es.len(),
    ensures
        one_look_steps(m, es[j]) is Ok,
        exists|o: int| #[trigger] occurs_at(look_steps(m, es)->Ok_0, one_look_steps(m, es[j])->Ok_0, o),
    decreases es.len(),
{
    let d = es.drop_last();
    let s0 = look_steps(m, d)->Ok_0;
    let last = one_look_steps(m, es.last())->Ok_0;
    let s = look_steps(m, es)->Ok_0;
    assert(s == s0 + last);
    if j == es.len() - 1 {
        assert(s.subrange(s0.len() as int, (s0.len() + last.len()) as int) =~= last);
        assert(occurs_at(s, last, s0.len() as int));
    } else {
        lemma_look_steps_part(m, d, j);
        assert(d[j] == es[j]);
        let t = one_look_steps(m, es[j])->Ok_0;
        let o = choose|o: int| #[trigger] occurs_at(s0, t, o);
        assert(s.subrange(o, o + t.len()) =~= s0.subrange(o, o + t.len()));
        assert(occurs_at(s, t, o));
    }
}

/// Each entry of a look list puts its look's transform into the chain:
/// forward for a `+` (or unmarked) entry, inverted for a `-` entry of a look
/// without an inverse transform. So `+L` and `-L` give different steps.
pub proof fn law_look_entry_direction(
    m: ConfigModel,
    src: Seq<char>,
    dst: Seq<char>,
    looks: Seq<char>,
    j: int,
    k: int,
    t: YamlValue,
)
    requires
        trim_seq(looks).len() > 0,
        0 <= j < parse_looks_spec(looks).len(),
        first_named(look_names_of(m.looks), parse_looks_spec(looks)[j].0) == Some(k),
        m.looks[k].transform == Some(t),
        !parse_looks_spec(looks)[j].1 ==> m.looks[k].inverse_transform is None,
    ensures
        looks_processor_steps_of(m, src, dst, looks) matches Ok(s) ==> exists|i: int|
            0 <= i < s.len() && s[i] == (ChainStepModel {
                transform: t,
                direction: if parse_looks_spec(looks)[j].1 {
                    TransformDirection::Forward
                } else {
                    TransformDirection::Inverse
                },
            }),
{
    if let Ok(s) = looks_processor_steps_of(m, src, dst, looks) {
        let es = parse_looks_spec(looks);
        let si = cs_lookup(m, src)->0;
        let di = cs_lookup(m, dst)->0;
        let ls = look_steps(m, es)->Ok_0;
        let a = to_ref_steps(m.colorspaces[si]);
        assert(s == a + ls + from_ref_steps(m.colorspaces[di]));
        lemma_look_steps_part(m, es, j);
        let l = m.looks[k];
        let dir = if es[j].1 { TransformDirection::Forward } else { TransformDirection::Inverse };
        let pin = process_space_steps(m, l, true);
        let body = look_body_steps(l, es[j].1);
        assert(body == seq![ChainStepModel { transform: t, direction: dir }]);
        let tt = one_look_steps(m, es[j])->Ok_0;
        assert(tt == pin + body + process_space_steps(m, l, false));
        let o = choose|o: int| #[trigger] occurs_at(ls, tt, o);
        let q = pin.len() as int;
        assert(tt[q] == ChainStepModel { transform: t, direction: dir });
        assert(ls.subrange(o, o + tt.len())[q] == tt[q]);
        assert(ls[o + q] == tt[q]);
        assert(s[a.len() + o + q] == ls[o + q]);
    }
}

} // verus!
