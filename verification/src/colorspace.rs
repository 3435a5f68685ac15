//! Color space definitions and their categories.
use vstd::prelude::*;
use crate::text::{ascii_lower, lower_char, chars_are, eq_ascii_ci, eq_ignore_ascii_case, lower_chars, string_of};
use crate::yaml::{YamlNode, YamlValue, opt_node_value, opt_value};

verus! {

/// Color encoding type.
#[derive(Debug, Clone, Copy, PartialEq, Eq, Structural)]
pub enum Encoding {
    /// Scene-referred linear.
    SceneLinear,
    /// Display-referred linear.
    DisplayLinear,
    /// Logarithmic encoding.
    Log,
    /// OETF-encoded (sRGB, Rec.709, etc.).
    Sdr,
    /// HDR display encoding (PQ, HLG).
    Hdr,
    /// Non-color data (normals, masks).
    Data,
    /// Unknown/unspecified encoding.
    Unknown,
}

/// The encoding that a lower-cased config keyword names.
pub open spec fn encoding_of(l: Seq<char>) -> Encoding {
    if l == "scene-linear"@ || l == "scene_linear"@ || l == "linear"@ {
        Encoding::SceneLinear
    } else if l == "display-linear"@ || l == "display_linear"@ {
        Encoding::DisplayLinear
    } else if l == "log"@ {
        Encoding::Log
    } else if l == "sdr-video"@ || l == "sdr_video"@ || l == "sdr"@ {
        Encoding::Sdr
    } else if l == "hdr-video"@ || l == "hdr_video"@ || l == "hdr"@ {
        Encoding::Hdr
    } else if l == "data"@ {
        Encoding::Data
    } else {
        Encoding::Unknown
    }
}

/// The config keyword of an encoding.
pub open spec fn encoding_str(e: Encoding) -> Seq<char> {
    match e {
        Encoding::SceneLinear => "scene-linear"@,
        Encoding::DisplayLinear => "display-linear"@,
        Encoding::Log => "log"@,
        Encoding::Sdr => "sdr-video"@,
        Encoding::Hdr => "hdr-video"@,
        Encoding::Data => "data"@,
        Encoding::Unknown => ""@,
    }
}

impl Encoding {
    /// Parses an encoding keyword, ignoring ASCII case; unknown text gives `Unknown`.
    pub fn parse(s: &str) -> (r: Self)
        ensures
            r == encoding_of(ascii_lower(s@)),
    {
        let l = lower_chars(s);
        if chars_are(&l, "scene-linear") || chars_are(&l, "scene_linear") || chars_are(&l, "linear") {
            Encoding::SceneLinear
        } else if chars_are(&l, "display-linear") || chars_are(&l, "display_linear") {
            Encoding::DisplayLinear
        } else if chars_are(&l, "log") {
            Encoding::Log
        } else if chars_are(&l, "sdr-video") || chars_are(&l, "sdr_video") || chars_are(&l, "sdr") {
            Encoding::Sdr
        } else if chars_are(&l, "hdr-video") || chars_are(&l, "hdr_video") || chars_are(&l, "hdr") {
            Encoding::Hdr
        } else if chars_are(&l, "data") {
            Encoding::Data
        } else {
            Encoding::Unknown
        }
    }

    /// The config keyword of this encoding (empty for `Unknown`).
    pub fn as_str(&self) -> (r: &'static str)
        ensures
            r@ == encoding_str(*self),
    {
        match self {
            Encoding::SceneLinear => "scene-linear",
            Encoding::DisplayLinear => "display-linear",
            Encoding::Log => "log",
            Encoding::Sdr => "sdr-video",
            Encoding::Hdr => "hdr-video",
            Encoding::Data => "data",
            Encoding::Unknown => "",
        }
    }

    /// Whether this is a linear encoding.
    pub fn is_linear(&self) -> (r: bool)
        ensures
            r == (*self == Encoding::SceneLinear || *self == Encoding::DisplayLinear),
    {
        match self {
            Encoding::SceneLinear | Encoding::DisplayLinear => true,
            _ => false,
        }
    }
}

/// Color space family/category.
#[derive(Debug, Clone, Copy, PartialEq, Eq, Structural)]
pub enum Family {
    /// Scene-referred spaces (linear, log).
    Scene,
    /// Display-referred spaces.
    Display,
    /// Input/camera spaces.
    Input,
    /// Output/delivery spaces.
    Output,
    /// Utility spaces.
    Utility,
    /// ACES spaces.
    Aces,
    /// Custom/uncategorized.
    Other,
}

/// The family that a lower-cased config keyword names.
pub open spec fn family_of(l: Seq<char>) -> Family {
    if l == "scene"@ || l == "scene-referred"@ {
        Family::Scene
    } else if l == "display"@ || l == "display-referred"@ {
        Family::Display
    } else if l == "input"@ || l == "camera"@ {
        Family::Input
    } else if l == "output"@ || l == "delivery"@ {
        Family::Output
    } else if l == "utility"@ || l == "utilities"@ {
        Family::Utility
    } else if l == "aces"@ {
        Family::Aces
    } else {
        Family::Other
    }
}

/// The display name of a family.
pub open spec fn family_str(f: Family) -> Seq<char> {
    match f {
        Family::Scene => "Scene"@,
        Family::Display => "Display"@,
        Family::Input => "Input"@,
        Family::Output => "Output"@,
        Family::Utility => "Utility"@,
        Family::Aces => "ACES"@,
        Family::Other => ""@,
    }
}

impl Family {
    /// Parses a family keyword, ignoring ASCII case; unknown text gives `Other`.
    pub fn parse(s: &str) -> (r: Self)
        ensures
            r == family_of(ascii_lower(s@)),
    {
        let l = lower_chars(s);
        if chars_are(&l, "scene") || chars_are(&l, "scene-referred") {
            Family::Scene
        } else if chars_are(&l, "display") || chars_are(&l, "display-referred") {
            Family::Display
        } else if chars_are(&l, "input") || chars_are(&l, "camera") {
            Family::Input
        } else if chars_are(&l, "output") || chars_are(&l, "delivery") {
            Family::Output
        } else if chars_are(&l, "utility") || chars_are(&l, "utilities") {
            Family::Utility
        } else if chars_are(&l, "aces") {
            Family::Aces
        } else {
            Family::Other
        }
    }

    /// The display name of this family (empty for `Other`).
    pub fn as_str(&self) -> (r: &'static str)
        ensures
            r@ == family_str(*self),
    {
        match self {
            Family::Scene => "Scene",
            Family::Display => "Display",
            Family::Input => "Input",
            Family::Output => "Output",
            Family::Utility => "Utility",
            Family::Aces => "ACES",
            Family::Other => "",
        }
    }
}

/// Bit depth hint for the color space.
#[derive(Debug, Clone, Copy, PartialEq, Eq, Structural)]
pub enum BitDepth {
    /// 8-bit unsigned integer.
    Uint8,
    /// 10-bit unsigned integer.
    Uint10,
    /// 12-bit unsigned integer.
    Uint12,
    /// 16-bit unsigned integer.
    Uint16,
    /// 16-bit float.
    F16,
    /// 32-bit float.
    F32,
}

/// Allocation type for GPU texture mapping.
#[derive(Debug, Clone, Copy, PartialEq, Eq, Structural)]
pub enum AllocationType {
    /// Uniform distribution.
    Uniform,
    /// Logarithmic distribution.
    Log,
}

} // verus!

verus! {

proof fn lemma_lower_fixed(s: Seq<char>)
    requires
        forall|i: int| 0 <= i < s.len() ==> !('A' <= #[trigger] s[i] && s[i] <= 'Z'),
    ensures
        ascii_lower(s) == s,
{
    assert(ascii_lower(s) =~= s);
}

/// Parsing the keyword of a known encoding gives that encoding back.
pub proof fn law_encoding_roundtrip(e: Encoding)
    requires
        e != Encoding::Unknown,
    ensures
        encoding_of(ascii_lower(encoding_str(e))) == e,
{
    reveal_strlit("scene-linear");
    reveal_strlit("scene_linear");
    reveal_strlit("linear");
    reveal_strlit("display-linear");
    reveal_strlit("display_linear");
    reveal_strlit("log");
    reveal_strlit("sdr-video");
    reveal_strlit("sdr_video");
    reveal_strlit("sdr");
    reveal_strlit("hdr-video");
    reveal_strlit("hdr_video");
    reveal_strlit("hdr");
    reveal_strlit("data");
    lemma_lower_fixed(encoding_str(e));
    let l = encoding_str(e);
    assert(l.len() > 0 ==> l[0] == l[0]);
    match e {
        Encoding::SceneLinear => {},
        Encoding::DisplayLinear => {
            assert(l[0] != ("scene-linear"@)[0]);
            assert(l[0] != ("scene_linear"@)[0]);
            assert(l[0] != ("linear"@)[0]);
        },
        Encoding::Log => {
            assert(l[0] != ("scene-linear"@)[0]);
            assert(l[0] != ("scene_linear"@)[0]);
            assert(l[1] != ("linear"@)[1]);
            assert(l[0] != ("display-linear"@)[0]);
            assert(l[0] != ("display_linear"@)[0]);
        },
        Encoding::Sdr => {
            assert(l[0] != ("log"@)[0]);
            assert(l[0] != ("linear"@)[0]);
            assert(l[0] != ("display-linear"@)[0]);
            assert(l[0] != ("display_linear"@)[0]);
            assert(l[1] != ("scene-linear"@)[1]);
            assert(l[1] != ("scene_linear"@)[1]);
        },
        Encoding::Hdr => {
            assert(l[0] != ("log"@)[0]);
            assert(l[0] != ("linear"@)[0]);
            assert(l[0] != ("display-linear"@)[0]);
            assert(l[0] != ("display_linear"@)[0]);
            assert(l[0] != ("scene-linear"@)[0]);
            assert(l[0] != ("scene_linear"@)[0]);
            assert(l[0] != ("sdr-video"@)[0]);
            assert(l[0] != ("sdr_video"@)[0]);
            assert(l[0] != ("sdr"@)[0]);
        },
        Encoding::Data => {
            assert(l[1] != ("display-linear"@)[1]);
            assert(l[1] != ("display_linear"@)[1]);
            assert(l[0] != ("log"@)[0]);
            assert(l[0] != ("linear"@)[0]);
            assert(l[0] != ("scene-linear"@)[0]);
            assert(l[0] != ("scene_linear"@)[0]);
            assert(l[0] != ("sdr-video"@)[0]);
            assert(l[0] != ("sdr_video"@)[0]);
            assert(l[0] != ("sdr"@)[0]);
            assert(l[0] != ("hdr-video"@)[0]);
            assert(l[0] != ("hdr_video"@)[0]);
            assert(l[0] != ("hdr"@)[0]);
        },
        Encoding::Unknown => {},
    }
}

} // verus!

verus! {

/// Parsing the display name of a known family gives that family back.
pub proof fn law_family_roundtrip(f: Family)
    requires
        f != Family::Other,
    ensures
        family_of(ascii_lower(family_str(f))) == f,
{
    reveal_strlit("Scene");
    reveal_strlit("Display");
    reveal_strlit("Input");
    reveal_strlit("Output");
    reveal_strlit("Utility");
    reveal_strlit("ACES");
    reveal_strlit("scene");
    reveal_strlit("scene-referred");
    reveal_strlit("display");
    reveal_strlit("display-referred");
    reveal_strlit("input");
    reveal_strlit("camera");
    reveal_strlit("output");
    reveal_strlit("delivery");
    reveal_strlit("utility");
    reveal_strlit("utilities");
    reveal_strlit("aces");
    let l = ascii_lower(family_str(f));
    match f {
        Family::Scene => {
            assert(l =~= "scene"@);
        },
        Family::Display => {
            assert(l =~= "display"@);
            assert(l[0] != ("scene"@)[0]);
            assert(l[0] != ("scene-referred"@)[0]);
        },
        Family::Input => {
            assert(l =~= "input"@);
            assert(l[0] != ("scene"@)[0]);
            assert(l[0] != ("scene-referred"@)[0]);
            assert(l[0] != ("display"@)[0]);
            assert(l[0] != ("display-referred"@)[0]);
        },
        Family::Output => {
            assert(l =~= "output"@);
            assert(l[0] != ("scene"@)[0]);
            assert(l[0] != ("scene-referred"@)[0]);
            assert(l[0] != ("display"@)[0]);
            assert(l[0] != ("display-referred"@)[0]);
            assert(l[0] != ("input"@)[0]);
            assert(l[0] != ("camera"@)[0]);
        },
        Family::Utility => {
            assert(l =~= "utility"@);
            assert(l[0] != ("scene"@)[0]);
            assert(l[0] != ("scene-referred"@)[0]);
            assert(l[0] != ("display"@)[0]);
            assert(l[0] != ("display-referred"@)[0]);
            assert(l[0] != ("input"@)[0]);
            assert(l[0] != ("camera"@)[0]);
            assert(l[0] != ("output"@)[0]);
            assert(l[0] != ("delivery"@)[0]);
        },
        Family::Aces => {
            assert(l =~= "aces"@);
            assert(l[0] != ("scene"@)[0]);
            assert(l[0] != ("scene-referred"@)[0]);
            assert(l[0] != ("display"@)[0]);
            assert(l[0] != ("display-referred"@)[0]);
            assert(l[0] != ("input"@)[0]);
            assert(l[0] != ("camera"@)[0]);
            assert(l[0] != ("output"@)[0]);
            assert(l[0] != ("delivery"@)[0]);
            assert(l[0] != ("utility"@)[0]);
            assert(l[0] != ("utilities"@)[0]);
        },
        Family::Other => {},
    }
}

} // verus!

verus! {

/// The views of a vector of strings.
pub open spec fn strings_view(v: Seq<String>) -> Seq<Seq<char>> {
    v.map_values(|s: String| s@)
}

/// What a color space holds.
pub struct ColorSpaceModel {
    pub name: Seq<char>,
    pub aliases: Seq<Seq<char>>,
    pub description: Seq<char>,
    pub family: Family,
    pub encoding: Encoding,
    pub bit_depth: BitDepth,
    pub is_data: bool,
    pub to_reference: Option<YamlValue>,
    pub from_reference: Option<YamlValue>,
    pub to_display_reference: Option<YamlValue>,
    pub from_display_reference: Option<YamlValue>,
}

/// Whether `name` is the name or an alias of the color space, ignoring ASCII case.
pub open spec fn cs_matches(m: ColorSpaceModel, name: Seq<char>) -> bool {
    eq_ascii_ci(m.name, name) || exists|i: int| 0 <= i < m.aliases.len() && eq_ascii_ci(
        #[trigger] m.aliases[i],
        name,
    )
}

/// A color space with the given name, no aliases, no transforms and default categories.
pub open spec fn fresh_colorspace(name: Seq<char>) -> ColorSpaceModel {
    ColorSpaceModel {
        name,
        aliases: Seq::empty(),
        description: Seq::empty(),
        family: Family::Other,
        encoding: Encoding::Unknown,
        bit_depth: BitDepth::F32,
        is_data: false,
        to_reference: None,
        from_reference: None,
        to_display_reference: None,
        from_display_reference: None,
    }
}

/// A named color space with its categories and its transform definitions
/// (kept as the YAML nodes that define them).
#[derive(Debug)]
pub struct ColorSpace {
    name: String,
    aliases: Vec<String>,
    description: String,
    family: Family,
    encoding: Encoding,
    bit_depth: BitDepth,
    is_data: bool,
    to_reference: Option<YamlNode>,
    from_reference: Option<YamlNode>,
    to_display_reference: Option<YamlNode>,
    from_display_reference: Option<YamlNode>,
}

impl View for ColorSpace {
    type V = ColorSpaceModel;

    closed spec fn view(&self) -> ColorSpaceModel {
        ColorSpaceModel {
            name: self.name@,
            aliases: strings_view(self.aliases@),
            description: self.description@,
            family: self.family,
            encoding: self.encoding,
            bit_depth: self.bit_depth,
            is_data: self.is_data,
            to_reference: opt_node_value(self.to_reference),
            from_reference: opt_node_value(self.from_reference),
            to_display_reference: opt_node_value(self.to_display_reference),
            from_display_reference: opt_node_value(self.from_display_reference),
        }
    }
}

impl ColorSpace {
    /// A color space with the given name and default categories.
    pub fn new(name: &str) -> (r: Self)
        ensures
            r@ == fresh_colorspace(name@),
    {
        let r = ColorSpace {
            name: string_of(name),
            aliases: Vec::new(),
            description: String::new(),
            family: Family::Other,
            encoding: Encoding::Unknown,
            bit_depth: BitDepth::F32,
            is_data: false,
            to_reference: None,
            from_reference: None,
            to_display_reference: None,
            from_display_reference: None,
        };
        assert(strings_view(r.aliases@) =~= Seq::empty());
        r
    }

    /// A builder for a color space with the given name.
    pub fn builder(name: &str) -> (r: ColorSpaceBuilder)
        ensures
            r@ == fresh_colorspace(name@),
    {
        ColorSpaceBuilder { inner: ColorSpace::new(name) }
    }

    /// The name.
    pub fn name(&self) -> (r: &str)
        ensures
            r@ == self@.name,
    {
        self.name.as_str()
    }

    /// The aliases.
    pub fn aliases(&self) -> (r: &[String])
        ensures
            strings_view(r@) == self@.aliases,
    {
        self.aliases.as_slice()
    }

    /// The description.
    pub fn description(&self) -> (r: &str)
        ensures
            r@ == self@.description,
    {
        self.description.as_str()
    }

    /// The family.
    pub fn family(&self) -> (r: Family)
        ensures
            r == self@.family,
    {
        self.family
    }

    /// The encoding.
    pub fn encoding(&self) -> (r: Encoding)
        ensures
            r == self@.encoding,
    {
        self.encoding
    }

    /// The bit depth hint.
    pub fn bit_depth(&self) -> (r: BitDepth)
        ensures
            r == self@.bit_depth,
    {
        self.bit_depth
    }

    /// Whether this is a data (non-color) space.
    pub fn is_data(&self) -> (r: bool)
        ensures
            r == self@.is_data,
    {
        self.is_data
    }

    /// The definition of the transform to the reference space.
    pub fn to_reference(&self) -> (r: Option<&YamlNode>)
        ensures
            opt_value(r) == self@.to_reference,
    {
        self.to_reference.as_ref()
    }

    /// The definition of the transform from the reference space.
    pub fn from_reference(&self) -> (r: Option<&YamlNode>)
        ensures
            opt_value(r) == self@.from_reference,
    {
        self.from_reference.as_ref()
    }

    /// The definition of the transform to the display reference space.
    pub fn to_display_reference(&self) -> (r: Option<&YamlNode>)
        ensures
            opt_value(r) == self@.to_display_reference,
    {
        self.to_display_reference.as_ref()
    }

    /// The definition of the transform from the display reference space.
    pub fn from_display_reference(&self) -> (r: Option<&YamlNode>)
        ensures
            opt_value(r) == self@.from_display_reference,
    {
        self.from_display_reference.as_ref()
    }

    /// Whether `name` is this color space's name or one of its aliases, ignoring ASCII case.
    pub fn matches_name(&self, name: &str) -> (r: bool)
        ensures
            r == cs_matches(self@, name@),
    {
        if eq_ignore_ascii_case(self.name.as_str(), name) {
            return true;
        }
        let mut i: usize = 0;
        while i < self.aliases.len()
            invariant
                0 <= i <= self.aliases@.len(),
                !eq_ascii_ci(self@.name, name@),
                forall|j: int| 0 <= j < i ==> !eq_ascii_ci(#[trigger] self@.aliases[j], name@),
            decreases self.aliases@.len() - i,
        {
            if eq_ignore_ascii_case(self.aliases[i].as_str(), name) {
                assert(self@.aliases[i as int] == self.aliases@[i as int]@);
                return true;
            }
            i = i + 1;
        }
        false
    }
}

/// Builder for color spaces.
#[derive(Debug)]
pub struct ColorSpaceBuilder {
    inner: ColorSpace,
}

impl View for ColorSpaceBuilder {
    type V = ColorSpaceModel;

    closed spec fn view(&self) -> ColorSpaceModel {
        self.inner@
    }
}

impl ColorSpaceBuilder {
    /// A builder for a color space with the given name.
    pub fn new(name: &str) -> (r: Self)
        ensures
            r@ == fresh_colorspace(name@),
    {
        ColorSpaceBuilder { inner: ColorSpace::new(name) }
    }

    /// Adds an alias.
    pub fn alias(self, alias: &str) -> (r: Self)
        ensures
            r@ == (ColorSpaceModel { aliases: self@.aliases.push(alias@), ..self@ }),
    {
        let mut inner = self.inner;
        inner.aliases.push(string_of(alias));
        assert(strings_view(inner.aliases@) =~= self@.aliases.push(alias@));
        ColorSpaceBuilder { inner }
    }

    /// Sets the description.
    pub fn description(self, desc: &str) -> (r: Self)
        ensures
            r@ == (ColorSpaceModel { description: desc@, ..self@ }),
    {
        let mut inner = self.inner;
        inner.description = string_of(desc);
        ColorSpaceBuilder { inner }
    }

    /// Sets the family.
    pub fn family(self, family: Family) -> (r: Self)
        ensures
            r@ == (ColorSpaceModel { family, ..self@ }),
    {
        let mut inner = self.inner;
        inner.family = family;
        ColorSpaceBuilder { inner }
    }

    /// Sets the encoding; the `Data` encoding also marks the space as data.
    pub fn encoding(self, encoding: Encoding) -> (r: Self)
        ensures
            r@ == (ColorSpaceModel {
                encoding,
                is_data: if encoding == Encoding::Data { true } else { self@.is_data },
                ..self@
            }),
    {
        let mut inner = self.inner;
        inner.encoding = encoding;
        if encoding == Encoding::Data {
            inner.is_data = true;
        }
        ColorSpaceBuilder { inner }
    }

    /// Sets the bit depth hint.
    pub fn bit_depth(self, depth: BitDepth) -> (r: Self)
        ensures
            r@ == (ColorSpaceModel { bit_depth: depth, ..self@ }),
    {
        let mut inner = self.inner;
        inner.bit_depth = depth;
        ColorSpaceBuilder { inner }
    }

    /// Marks the space as data (or not).
    pub fn is_data(self, is_data: bool) -> (r: Self)
        ensures
            r@ == (ColorSpaceModel { is_data, ..self@ }),
    {
        let mut inner = self.inner;
        inner.is_data = is_data;
        ColorSpaceBuilder { inner }
    }

    /// Sets the transform to the reference space.
    pub fn to_reference(self, t: YamlNode) -> (r: Self)
        ensures
            r@ == (ColorSpaceModel { to_reference: Some(t@), ..self@ }),
    {
        let mut inner = self.inner;
        inner.to_reference = Some(t);
        ColorSpaceBuilder { inner }
    }

    /// Sets the transform from the reference space.
    pub fn from_reference(self, t: YamlNode) -> (r: Self)
        ensures
            r@ == (ColorSpaceModel { from_reference: Some(t@), ..self@ }),
    {
        let mut inner = self.inner;
        inner.from_reference = Some(t);
        ColorSpaceBuilder { inner }
    }

    /// Sets the transform to the display reference space.
    pub fn to_display_reference(self, t: YamlNode) -> (r: Self)
        ensures
            r@ == (ColorSpaceModel { to_display_reference: Some(t@), ..self@ }),
    {
        let mut inner = self.inner;
        inner.to_display_reference = Some(t);
        ColorSpaceBuilder { inner }
    }

    /// Sets the transform from the display reference space.
    pub fn from_display_reference(self, t: YamlNode) -> (r: Self)
        ensures
            r@ == (ColorSpaceModel { from_display_reference: Some(t@), ..self@ }),
    {
        let mut inner = self.inner;
        inner.from_display_reference = Some(t);
        ColorSpaceBuilder { inner }
    }

    /// The color space built so far.
    pub fn build(self) -> (r: ColorSpace)
        ensures
            r@ == self@,
    {
        self.inner
    }
}

/// ASCII lower-casing leaves lower-cased text as it is.
proof fn lemma_lower_idempotent(s: Seq<char>)
    ensures
        ascii_lower(ascii_lower(s)) == ascii_lower(s),
{
    assert forall|i: int| 0 <= i < s.len() implies #[trigger] lower_char(lower_char(s[i])) == lower_char(s[i]) by {
        let c = s[i];
        if 'A' <= c && c <= 'Z' {
            assert((c as u32) + 32 <= 'z' as u32);
        }
    }
    assert(ascii_lower(ascii_lower(s)) =~= ascii_lower(s));
}

/// Parsing an encoding ignores case: text and its lower-cased form give the
/// same encoding. (Lower-casing here is ASCII lower-casing; no keyword holds a
/// letter whose Unicode lower-casing differs from it.)
pub proof fn law_encoding_parse_ignores_case(s: Seq<char>)
    ensures
        encoding_of(ascii_lower(ascii_lower(s))) == encoding_of(ascii_lower(s)),
{
    lemma_lower_idempotent(s);
}

/// Parsing a family ignores case: text and its lower-cased form give the
/// same family (ASCII lower-casing, as for encodings).
pub proof fn law_family_parse_ignores_case(s: Seq<char>)
    ensures
        family_of(ascii_lower(ascii_lower(s))) == family_of(ascii_lower(s)),
{
    lemma_lower_idempotent(s);
}

} // verus!
