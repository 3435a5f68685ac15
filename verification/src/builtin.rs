//! Built-in configurations: an ACES 1.3 config and two small studio configs,
//! usable without loading a file.
//!
//! Their color spaces carry their transforms as the YAML nodes a config file
//! would hold: `MatrixTransform` nodes with the 16 matrix entries as decimal
//! text, `GroupTransform` nodes with their children, and
//! `BuiltinTransferTransform` nodes naming a transfer function and a direction.
use vstd::prelude::*;

pub mod transforms;

use crate::colorspace::{BitDepth, ColorSpace, ColorSpaceModel, Encoding, Family};
use crate::config::{Config, ConfigModel, empty_config};
use crate::display::{Display, DisplayManagerModel, DisplayModel, View, ViewModel};
use vstd::view::View as _;
use crate::role::names;
use crate::strmap::{key_is, upsert};
use crate::seqs::lemma_first_index;
use crate::text::{str_eq, string_of, to_lowercase, str_lower};
use crate::yaml::{YamlNode, YamlValue, items_value, entries_value, lemma_items_value, lemma_entries_value};

verus! {

/// A `MatrixTransform` node whose matrix has the given entries, row by row.
pub open spec fn matrix_value(entries: Seq<Seq<char>>) -> YamlValue {
    YamlValue::Tagged(
        "MatrixTransform"@,
        Box::new(
            YamlValue::Mapping(
                seq![(YamlValue::Str("matrix"@), YamlValue::Sequence(entries.map_values(|e: Seq<char>| YamlValue::Real(e))))],
            ),
        ),
    )
}

/// A `BuiltinTransferTransform` node for the transfer function `style`,
/// applied forward (encoding) or inverse (decoding).
pub open spec fn transfer_value(style: Seq<char>, inverse: bool) -> YamlValue {
    YamlValue::Tagged(
        "BuiltinTransferTransform"@,
        Box::new(
            YamlValue::Mapping(
                seq![
                    (YamlValue::Str("style"@), YamlValue::Str(style)),
                    (YamlValue::Str("direction"@), YamlValue::Str(if inverse { "inverse"@ } else { "forward"@ })),
                ],
            ),
        ),
    )
}

/// A `GroupTransform` node applying `first`, then `second`.
pub open spec fn group_value(first: YamlValue, second: YamlValue) -> YamlValue {
    YamlValue::Tagged(
        "GroupTransform"@,
        Box::new(YamlValue::Mapping(seq![(YamlValue::Str("children"@), YamlValue::Sequence(seq![first, second]))])),
    )
}

/// AP1 to AP0 primaries.
pub open spec fn ap1_to_ap0() -> Seq<Seq<char>> {
    seq![
        "0.6954522414"@, "0.1406786965"@, "0.1638690622"@, "0.0"@,
        "0.0447945634"@, "0.8596711185"@, "0.0955343182"@, "0.0"@,
        "-0.0055258826"@, "0.0040252103"@, "1.0015006723"@, "0.0"@,
        "0.0"@, "0.0"@, "0.0"@, "1.0"@,
    ]
}

/// AP0 to AP1 primaries.
pub open spec fn ap0_to_ap1() -> Seq<Seq<char>> {
    seq![
        "1.4514393161"@, "-0.2365107469"@, "-0.2149285693"@, "0.0"@,
        "-0.0765537734"@, "1.1762296998"@, "-0.0996759264"@, "0.0"@,
        "0.0083161484"@, "-0.0060324498"@, "0.9977163014"@, "0.0"@,
        "0.0"@, "0.0"@, "0.0"@, "1.0"@,
    ]
}

/// Linear sRGB (Rec.709 primaries) to AP0, through CIE XYZ D65.
pub open spec fn srgb_to_ap0() -> Seq<Seq<char>> {
    seq![
        "0.4396658251"@, "0.3829824270"@, "0.1773517479"@, "0.0"@,
        "0.0897912300"@, "0.8134346456"@, "0.0967741244"@, "0.0"@,
        "0.0175437929"@, "0.1115441718"@, "0.8709120353"@, "0.0"@,
        "0.0"@, "0.0"@, "0.0"@, "1.0"@,
    ]
}

/// AP0 to linear sRGB (Rec.709 primaries), through CIE XYZ D65.
pub open spec fn ap0_to_srgb() -> Seq<Seq<char>> {
    seq![
        "2.5216994244"@, "-1.1368885542"@, "-0.3848108702"@, "0.0"@,
        "-0.2752540897"@, "1.3697051137"@, "-0.0944510240"@, "0.0"@,
        "-0.0159374562"@, "-0.1478051662"@, "1.1637426224"@, "0.0"@,
        "0.0"@, "0.0"@, "0.0"@, "1.0"@,
    ]
}

/// A `MatrixTransform` node.
fn matrix_node(entries: [&str; 16]) -> (r: YamlNode)
    ensures
        r@ == matrix_value(entries@.map_values(|e: &str| e@)),
{
    let mut items: Vec<YamlNode> = Vec::new();
    let mut i: usize = 0;
    while i < 16
        invariant
            i <= 16,
            items@.len() == i,
            forall|j: int| 0 <= j < i ==> (#[trigger] items@[j])@ == YamlValue::Real(entries@[j]@),
        decreases 16 - i,
    {
        items.push(YamlNode::Real(string_of(entries[i])));
        i = i + 1;
    }
    proof {
        lemma_items_value(items@);
        assert(items_value(items@) =~= entries@.map_values(|e: &str| e@).map_values(|e: Seq<char>| YamlValue::Real(e)));
    }
    let mut fields: Vec<(YamlNode, YamlNode)> = Vec::new();
    fields.push((YamlNode::Str(string_of("matrix")), YamlNode::Sequence(items)));
    proof {
        lemma_entries_value(fields@);
        assert(entries_value(fields@) =~= seq![(YamlValue::Str("matrix"@), YamlValue::Sequence(entries@.map_values(|e: &str| e@).map_values(|e: Seq<char>| YamlValue::Real(e))))]);
    }
    let body = YamlNode::Mapping(fields);
    assert(body@ == YamlValue::Mapping(entries_value(fields@)));
    YamlNode::Tagged(string_of("MatrixTransform"), Box::new(body))
}

/// The node of the AP1 to AP0 matrix.
fn ap1_to_ap0_node() -> (r: YamlNode)
    ensures
        r@ == matrix_value(ap1_to_ap0()),
{
    let m = [
        "0.6954522414", "0.1406786965", "0.1638690622", "0.0",
        "0.0447945634", "0.8596711185", "0.0955343182", "0.0",
        "-0.0055258826", "0.0040252103", "1.0015006723", "0.0",
        "0.0", "0.0", "0.0", "1.0",
    ];
    assert(m@.map_values(|e: &str| e@) =~= ap1_to_ap0());
    matrix_node(m)
}

/// The node of the AP0 to AP1 matrix.
fn ap0_to_ap1_node() -> (r: YamlNode)
    ensures
        r@ == matrix_value(ap0_to_ap1()),
{
    let m = [
        "1.4514393161", "-0.2365107469", "-0.2149285693", "0.0",
        "-0.0765537734", "1.1762296998", "-0.0996759264", "0.0",
        "0.0083161484", "-0.0060324498", "0.9977163014", "0.0",
        "0.0", "0.0", "0.0", "1.0",
    ];
    assert(m@.map_values(|e: &str| e@) =~= ap0_to_ap1());
    matrix_node(m)
}

/// The node of the linear sRGB to AP0 matrix.
fn srgb_to_ap0_node() -> (r: YamlNode)
    ensures
        r@ == matrix_value(srgb_to_ap0()),
{
    let m = [
        "0.4396658251", "0.3829824270", "0.1773517479", "0.0",
        "0.0897912300", "0.8134346456", "0.0967741244", "0.0",
        "0.0175437929", "0.1115441718", "0.8709120353", "0.0",
        "0.0", "0.0", "0.0", "1.0",
    ];
    assert(m@.map_values(|e: &str| e@) =~= srgb_to_ap0());
    matrix_node(m)
}

/// The node of the AP0 to linear sRGB matrix.
fn ap0_to_srgb_node() -> (r: YamlNode)
    ensures
        r@ == matrix_value(ap0_to_srgb()),
{
    let m = [
        "2.5216994244", "-1.1368885542", "-0.3848108702", "0.0",
        "-0.2752540897", "1.3697051137", "-0.0944510240", "0.0",
        "-0.0159374562", "-0.1478051662", "1.1637426224", "0.0",
        "0.0", "0.0", "0.0", "1.0",
    ];
    assert(m@.map_values(|e: &str| e@) =~= ap0_to_srgb());
    matrix_node(m)
}

/// A `BuiltinTransferTransform` node.
fn transfer_node(style: &str, inverse: bool) -> (r: YamlNode)
    ensures
        r@ == transfer_value(style@, inverse),
{
    let direction = if inverse { string_of("inverse") } else { string_of("forward") };
    let mut fields: Vec<(YamlNode, YamlNode)> = Vec::new();
    fields.push((YamlNode::Str(string_of("style")), YamlNode::Str(string_of(style))));
    fields.push((YamlNode::Str(string_of("direction")), YamlNode::Str(direction)));
    proof {
        lemma_entries_value(fields@);
        assert(entries_value(fields@) =~= seq![
            (YamlValue::Str("style"@), YamlValue::Str(style@)),
            (YamlValue::Str("direction"@), YamlValue::Str(if inverse { "inverse"@ } else { "forward"@ })),
        ]);
    }
    let body = YamlNode::Mapping(fields);
    assert(body@ == YamlValue::Mapping(entries_value(fields@)));
    YamlNode::Tagged(string_of("BuiltinTransferTransform"), Box::new(body))
}

/// A `GroupTransform` node with two children.
fn group_node(first: YamlNode, second: YamlNode) -> (r: YamlNode)
    ensures
        r@ == group_value(first@, second@),
{
    let ghost (a, b) = (first@, second@);
    let mut children: Vec<YamlNode> = Vec::new();
    children.push(first);
    children.push(second);
    proof {
        lemma_items_value(children@);
        assert(items_value(children@) =~= seq![a, b]);
    }
    let list = YamlNode::Sequence(children);
    assert(list@ == YamlValue::Sequence(items_value(children@)));
    let mut fields: Vec<(YamlNode, YamlNode)> = Vec::new();
    fields.push((YamlNode::Str(string_of("children")), list));
    proof {
        lemma_entries_value(fields@);
        assert(entries_value(fields@) =~= seq![(YamlValue::Str("children"@), YamlValue::Sequence(seq![a, b]))]);
    }
    let body = YamlNode::Mapping(fields);
    assert(body@ == YamlValue::Mapping(entries_value(fields@)));
    YamlNode::Tagged(string_of("GroupTransform"), Box::new(body))
}

/// A color space with the given name, aliases, description and categories,
/// 32-bit float depth, not data, and the given transforms to and from the reference.
pub open spec fn space(
    name: Seq<char>,
    aliases: Seq<Seq<char>>,
    description: Seq<char>,
    family: Family,
    encoding: Encoding,
    to_reference: Option<YamlValue>,
    from_reference: Option<YamlValue>,
) -> ColorSpaceModel {
    ColorSpaceModel {
        name,
        aliases,
        description,
        family,
        encoding,
        bit_depth: BitDepth::F32,
        is_data: false,
        to_reference,
        from_reference,
        to_display_reference: None,
        from_display_reference: None,
    }
}

/// ACES2065-1, the reference space (AP0 primaries, linear).
pub open spec fn aces2065_1_space() -> ColorSpaceModel {
    space(
        "ACES2065-1"@,
        seq!["aces"@, "ACES - ACES2065-1"@],
        "ACES 2065-1 reference color space (AP0 primaries)"@,
        Family::Aces,
        Encoding::SceneLinear,
        None,
        None,
    )
}

/// ACEScg, the working space (AP1 primaries, linear).
pub open spec fn acescg_space() -> ColorSpaceModel {
    space(
        "ACEScg"@,
        seq!["ACES - ACEScg"@],
        "ACEScg working space (AP1 primaries, linear)"@,
        Family::Aces,
        Encoding::SceneLinear,
        Some(matrix_value(ap1_to_ap0())),
        Some(matrix_value(ap0_to_ap1())),
    )
}

/// A log space on AP1 primaries whose transfer function is named like the space.
pub open spec fn ap1_log_space(name: Seq<char>, alias: Seq<char>, description: Seq<char>) -> ColorSpaceModel {
    space(
        name,
        seq![alias],
        description,
        Family::Aces,
        Encoding::Log,
        Some(group_value(transfer_value(name, true), matrix_value(ap1_to_ap0()))),
        Some(group_value(matrix_value(ap0_to_ap1()), transfer_value(name, false))),
    )
}

/// ACEScct, the color timing space (log encoding with a toe).
pub open spec fn acescct_space() -> ColorSpaceModel {
    ap1_log_space("ACEScct"@, "ACES - ACEScct"@, "ACEScct logarithmic color timing space"@)
}

/// ACEScc, the legacy color timing space (pure log encoding).
pub open spec fn acescc_space() -> ColorSpaceModel {
    ap1_log_space("ACEScc"@, "ACES - ACEScc"@, "ACEScc pure logarithmic color timing space"@)
}

/// Raw, for non-color data.
pub open spec fn raw_space() -> ColorSpaceModel {
    ColorSpaceModel {
        is_data: true,
        ..space(
            "Raw"@,
            seq!["raw"@, "Non-Color"@, "Utility - Raw"@],
            "Non-color data (normals, masks, etc.)"@,
            Family::Utility,
            Encoding::Data,
            None,
            None,
        )
    }
}

/// Linear sRGB (Rec.709 primaries).
pub open spec fn srgb_linear_space() -> ColorSpaceModel {
    space(
        "Linear sRGB"@,
        seq!["Linear Rec.709"@, "lin_srgb"@, "Utility - Linear - sRGB"@],
        "Linear sRGB / Rec.709 primaries"@,
        Family::Utility,
        Encoding::SceneLinear,
        Some(matrix_value(srgb_to_ap0())),
        Some(matrix_value(ap0_to_srgb())),
    )
}

/// A display space on Rec.709 primaries with the transfer function `style`.
pub open spec fn rec709_display_space(
    name: Seq<char>,
    aliases: Seq<Seq<char>>,
    description: Seq<char>,
    style: Seq<char>,
) -> ColorSpaceModel {
    space(
        name,
        aliases,
        description,
        Family::Display,
        Encoding::Sdr,
        Some(group_value(transfer_value(style, true), matrix_value(srgb_to_ap0()))),
        Some(group_value(matrix_value(ap0_to_srgb()), transfer_value(style, false))),
    )
}

/// sRGB, the display space, with an 8-bit depth hint.
pub open spec fn srgb_space() -> ColorSpaceModel {
    ColorSpaceModel {
        bit_depth: BitDepth::Uint8,
        ..rec709_display_space(
            "sRGB"@,
            seq!["srgb"@, "Output - sRGB"@],
            "sRGB display color space"@,
            "sRGB"@,
        )
    }
}

/// Rec.709, the video space.
pub open spec fn rec709_space() -> ColorSpaceModel {
    rec709_display_space(
        "Rec.709"@,
        seq!["rec709"@, "BT.709"@, "Output - Rec.709"@],
        "Rec.709 / BT.709 video color space"@,
        "Rec709"@,
    )
}

/// ACES2065-1.
fn aces2065_1() -> (r: ColorSpace)
    ensures
        r@ == aces2065_1_space(),
{
    let r = ColorSpace::builder("ACES2065-1")
        .alias("aces")
        .alias("ACES - ACES2065-1")
        .family(Family::Aces)
        .encoding(Encoding::SceneLinear)
        .description("ACES 2065-1 reference color space (AP0 primaries)")
        .build();
    assert(r@.aliases =~= seq!["aces"@, "ACES - ACES2065-1"@]);
    r
}

/// ACEScg.
fn acescg() -> (r: ColorSpace)
    ensures
        r@ == acescg_space(),
{
    let r = ColorSpace::builder("ACEScg")
        .alias("ACES - ACEScg")
        .family(Family::Aces)
        .encoding(Encoding::SceneLinear)
        .description("ACEScg working space (AP1 primaries, linear)")
        .to_reference(ap1_to_ap0_node())
        .from_reference(ap0_to_ap1_node())
        .build();
    assert(r@.aliases =~= seq!["ACES - ACEScg"@]);
    r
}

/// ACEScct.
fn acescct() -> (r: ColorSpace)
    ensures
        r@ == acescct_space(),
{
    let to_ref = group_node(transfer_node("ACEScct", true), ap1_to_ap0_node());
    let from_ref = group_node(ap0_to_ap1_node(), transfer_node("ACEScct", false));
    let r = ColorSpace::builder("ACEScct")
        .alias("ACES - ACEScct")
        .family(Family::Aces)
        .encoding(Encoding::Log)
        .description("ACEScct logarithmic color timing space")
        .to_reference(to_ref)
        .from_reference(from_ref)
        .build();
    assert(r@.aliases =~= seq!["ACES - ACEScct"@]);
    r
}

/// ACEScc.
fn acescc() -> (r: ColorSpace)
    ensures
        r@ == acescc_space(),
{
    let to_ref = group_node(transfer_node("ACEScc", true), ap1_to_ap0_node());
    let from_ref = group_node(ap0_to_ap1_node(), transfer_node("ACEScc", false));
    let r = ColorSpace::builder("ACEScc")
        .alias("ACES - ACEScc")
        .family(Family::Aces)
        .encoding(Encoding::Log)
        .description("ACEScc pure logarithmic color timing space")
        .to_reference(to_ref)
        .from_reference(from_ref)
        .build();
    assert(r@.aliases =~= seq!["ACES - ACEScc"@]);
    r
}

/// Raw.
fn raw() -> (r: ColorSpace)
    ensures
        r@ == raw_space(),
{
    let r = ColorSpace::builder("Raw")
        .alias("raw")
        .alias("Non-Color")
        .alias("Utility - Raw")
        .family(Family::Utility)
        .encoding(Encoding::Data)
        .description("Non-color data (normals, masks, etc.)")
        .is_data(true)
        .build();
    assert(r@.aliases =~= seq!["raw"@, "Non-Color"@, "Utility - Raw"@]);
    r
}

/// Linear sRGB.
fn srgb_linear() -> (r: ColorSpace)
    ensures
        r@ == srgb_linear_space(),
{
    let r = ColorSpace::builder("Linear sRGB")
        .alias("Linear Rec.709")
        .alias("lin_srgb")
        .alias("Utility - Linear - sRGB")
        .family(Family::Utility)
        .encoding(Encoding::SceneLinear)
        .description("Linear sRGB / Rec.709 primaries")
        .to_reference(srgb_to_ap0_node())
        .from_reference(ap0_to_srgb_node())
        .build();
    assert(r@.aliases =~= seq!["Linear Rec.709"@, "lin_srgb"@, "Utility - Linear - sRGB"@]);
    r
}

/// sRGB.
fn srgb() -> (r: ColorSpace)
    ensures
        r@ == srgb_space(),
{
    let to_ref = group_node(transfer_node("sRGB", true), srgb_to_ap0_node());
    let from_ref = group_node(ap0_to_srgb_node(), transfer_node("sRGB", false));
    let r = ColorSpace::builder("sRGB")
        .alias("srgb")
        .alias("Output - sRGB")
        .family(Family::Display)
        .encoding(Encoding::Sdr)
        .bit_depth(BitDepth::Uint8)
        .description("sRGB display color space")
        .to_reference(to_ref)
        .from_reference(from_ref)
        .build();
    assert(r@.aliases =~= seq!["srgb"@, "Output - sRGB"@]);
    r
}

/// Rec.709.
fn rec709() -> (r: ColorSpace)
    ensures
        r@ == rec709_space(),
{
    let to_ref = group_node(transfer_node("Rec709", true), srgb_to_ap0_node());
    let from_ref = group_node(ap0_to_srgb_node(), transfer_node("Rec709", false));
    let r = ColorSpace::builder("Rec.709")
        .alias("rec709")
        .alias("BT.709")
        .alias("Output - Rec.709")
        .family(Family::Display)
        .encoding(Encoding::Sdr)
        .description("Rec.709 / BT.709 video color space")
        .to_reference(to_ref)
        .from_reference(from_ref)
        .build();
    assert(r@.aliases =~= seq!["rec709"@, "BT.709"@, "Output - Rec.709"@]);
    r
}

/// Setting a role that is not yet defined appends it to the definition order.
proof fn lemma_upsert_new(e: Seq<(Seq<char>, Seq<char>)>, k: Seq<char>, v: Seq<char>)
    requires
        forall|j: int| 0 <= j < e.len() ==> (#[trigger] e[j]).0 != k,
    ensures
        upsert(e, k, v) == e.push((k, v)),
{
    lemma_first_index(e, key_is(k), e.len() as int);
}

/// A view with no looks, view transform, rule or description.
pub open spec fn plain_view(name: Seq<char>, colorspace: Seq<char>) -> ViewModel {
    ViewModel {
        name,
        colorspace,
        looks: None,
        view_transform: None,
        rule: None,
        description: Seq::empty(),
    }
}

/// A display of the ACES config: the ACES SDR video output through color
/// space `cs` (the default view), and the raw data.
pub open spec fn aces_display(name: Seq<char>, cs: Seq<char>) -> DisplayModel {
    DisplayModel {
        name,
        views: seq![plain_view("ACES 1.0 - SDR Video"@, cs), plain_view("Raw"@, "Raw"@)],
        default_view: Some("ACES 1.0 - SDR Video"@),
    }
}

/// The ACES 1.3 config.
pub open spec fn aces_config() -> ConfigModel {
    ConfigModel {
        colorspaces: seq![
            aces2065_1_space(),
            acescg_space(),
            acescct_space(),
            acescc_space(),
            raw_space(),
            srgb_linear_space(),
            srgb_space(),
            rec709_space(),
        ],
        roles: map![
            "reference"@ => "ACES2065-1"@,
            "scene_linear"@ => "ACEScg"@,
            "compositing_linear"@ => "ACEScg"@,
            "color_timing"@ => "ACEScct"@,
            "data"@ => "Raw"@,
            "default"@ => "ACEScg"@,
            "aces_interchange"@ => "ACES2065-1"@,
        ],
        role_order: seq![
            ("reference"@, "ACES2065-1"@),
            ("scene_linear"@, "ACEScg"@),
            ("compositing_linear"@, "ACEScg"@),
            ("color_timing"@, "ACEScct"@),
            ("data"@, "Raw"@),
            ("default"@, "ACEScg"@),
            ("aces_interchange"@, "ACES2065-1"@),
        ],
        displays: DisplayManagerModel {
            displays: seq![aces_display("sRGB"@, "sRGB"@), aces_display("Rec.709"@, "Rec.709"@)],
            default_display: Some("sRGB"@),
            view_transforms: Seq::empty(),
        },
        ..empty_config()
    }
}

/// A studio config: linear sRGB as reference and scene-linear space, `display`
/// as the default space, Raw for data; no displays.
pub open spec fn studio_config(display: ColorSpaceModel) -> ConfigModel {
    ConfigModel {
        colorspaces: seq![srgb_linear_space(), display, raw_space()],
        roles: map![
            "reference"@ => "Linear sRGB"@,
            "scene_linear"@ => "Linear sRGB"@,
            "default"@ => display.name,
            "data"@ => "Raw"@,
        ],
        role_order: seq![
            ("reference"@, "Linear sRGB"@),
            ("scene_linear"@, "Linear sRGB"@),
            ("default"@, display.name),
            ("data"@, "Raw"@),
        ],
        ..empty_config()
    }
}

/// The config that a lower-cased built-in config name selects, if any.
pub open spec fn builtin_config(lower: Seq<char>) -> Option<ConfigModel> {
    if lower == "aces_1.3"@ || lower == "aces"@ || lower == "aces1.3"@ {
        Some(aces_config())
    } else if lower == "srgb_studio"@ || lower == "srgb"@ {
        Some(studio_config(srgb_space()))
    } else if lower == "rec709_studio"@ || lower == "rec709"@ || lower == "rec.709"@ {
        Some(studio_config(rec709_space()))
    } else {
        None
    }
}

/// A display with the ACES SDR video view through `cs` and the raw view.
fn aces_display_of(name: &str, cs: &str) -> (r: Display)
    ensures
        r.model() == aces_display(name@, cs@),
{
    let mut d = Display::new(name);
    d.add_view(View::new("ACES 1.0 - SDR Video", cs));
    d.add_view(View::new("Raw", "Raw"));
    assert(d.model().views =~= aces_display(name@, cs@).views);
    d
}

/// An ACES 1.3 compatible configuration: the ACES spaces (ACES2065-1 as
/// reference, ACEScg, ACEScct, ACEScc), Raw, linear sRGB, sRGB and Rec.709,
/// the standard roles, and sRGB and Rec.709 displays.
pub fn aces_1_3() -> (r: Config)
    ensures
        r@ == aces_config(),
{
    let mut config = Config::new();
    config.add_colorspace(aces2065_1());
    config.add_colorspace(acescg());
    config.add_colorspace(acescct());
    config.add_colorspace(acescc());
    config.add_colorspace(raw());
    config.add_colorspace(srgb_linear());
    config.add_colorspace(srgb());
    config.add_colorspace(rec709());

    config.set_role(names::REFERENCE, "ACES2065-1");
    config.set_role(names::SCENE_LINEAR, "ACEScg");
    config.set_role(names::COMPOSITING_LINEAR, "ACEScg");
    config.set_role(names::COLOR_TIMING, "ACEScct");
    config.set_role(names::DATA, "Raw");
    config.set_role(names::DEFAULT, "ACEScg");
    config.set_role(names::ACES_INTERCHANGE, "ACES2065-1");
    proof {
        reveal_strlit("reference");
        assert("reference"@.len() == 9 && "reference"@[0] == 'r');
        reveal_strlit("scene_linear");
        assert("scene_linear"@.len() == 12 && "scene_linear"@[0] == 's');
        reveal_strlit("compositing_linear");
        assert("compositing_linear"@.len() == 18 && "compositing_linear"@[0] == 'c');
        reveal_strlit("color_timing");
        assert("color_timing"@.len() == 12 && "color_timing"@[0] == 'c');
        reveal_strlit("data");
        assert("data"@.len() == 4 && "data"@[0] == 'd');
        reveal_strlit("default");
        assert("default"@.len() == 7 && "default"@[0] == 'd');
        reveal_strlit("aces_interchange");
        assert("aces_interchange"@.len() == 16 && "aces_interchange"@[0] == 'a');
        let o = aces_config().role_order;
        let e0 = Seq::<(Seq<char>, Seq<char>)>::empty();
        lemma_upsert_new(e0, "reference"@, "ACES2065-1"@);
        let e1 = e0.push(("reference"@, "ACES2065-1"@));
        lemma_upsert_new(e1, "scene_linear"@, "ACEScg"@);
        let e2 = e1.push(("scene_linear"@, "ACEScg"@));
        lemma_upsert_new(e2, "compositing_linear"@, "ACEScg"@);
        let e3 = e2.push(("compositing_linear"@, "ACEScg"@));
        lemma_upsert_new(e3, "color_timing"@, "ACEScct"@);
        let e4 = e3.push(("color_timing"@, "ACEScct"@));
        lemma_upsert_new(e4, "data"@, "Raw"@);
        let e5 = e4.push(("data"@, "Raw"@));
        lemma_upsert_new(e5, "default"@, "ACEScg"@);
        let e6 = e5.push(("default"@, "ACEScg"@));
        lemma_upsert_new(e6, "aces_interchange"@, "ACES2065-1"@);
        let e7 = e6.push(("aces_interchange"@, "ACES2065-1"@));
        assert(e7 =~= o);
    }

    config.add_display(aces_display_of("sRGB", "sRGB"));
    config.add_display(aces_display_of("Rec.709", "Rec.709"));
    assert(config@.colorspaces =~= aces_config().colorspaces);
    assert(config@.displays.displays =~= aces_config().displays.displays);
    config
}

/// A studio config around the display space `display` (see `studio_config`).
fn studio(display: ColorSpace) -> (r: Config)
    ensures
        r@ == studio_config(display@),
{
    let ghost d = display@;
    let name = string_of(display.name());
    let mut config = Config::new();
    config.add_colorspace(srgb_linear());
    config.add_colorspace(display);
    config.add_colorspace(raw());

    config.set_role(names::REFERENCE, "Linear sRGB");
    config.set_role(names::SCENE_LINEAR, "Linear sRGB");
    config.set_role(names::DEFAULT, name.as_str());
    config.set_role(names::DATA, "Raw");
    proof {
        reveal_strlit("reference");
        assert("reference"@.len() == 9 && "reference"@[0] == 'r');
        reveal_strlit("scene_linear");
        assert("scene_linear"@.len() == 12 && "scene_linear"@[0] == 's');
        reveal_strlit("data");
        assert("data"@.len() == 4 && "data"@[0] == 'd');
        reveal_strlit("default");
        assert("default"@.len() == 7 && "default"@[0] == 'd');
        let o = studio_config(d).role_order;
        let e0 = Seq::<(Seq<char>, Seq<char>)>::empty();
        lemma_upsert_new(e0, "reference"@, "Linear sRGB"@);
        let e1 = e0.push(("reference"@, "Linear sRGB"@));
        lemma_upsert_new(e1, "scene_linear"@, "Linear sRGB"@);
        let e2 = e1.push(("scene_linear"@, "Linear sRGB"@));
        lemma_upsert_new(e2, "default"@, d.name);
        let e3 = e2.push(("default"@, d.name));
        lemma_upsert_new(e3, "data"@, "Raw"@);
        let e4 = e3.push(("data"@, "Raw"@));
        assert(e4 =~= o);
    }
    assert(config@.colorspaces =~= studio_config(d).colorspaces);
    config
}

/// A minimal config for sRGB-only workflows: linear sRGB (reference and
/// working space), sRGB (default) and Raw (data).
pub fn srgb_studio() -> (r: Config)
    ensures
        r@ == studio_config(srgb_space()),
{
    studio(srgb())
}

/// A Rec.709 broadcast config: linear sRGB (reference and working space),
/// Rec.709 (default) and Raw (data).
pub fn rec709_studio() -> (r: Config)
    ensures
        r@ == studio_config(rec709_space()),
{
    studio(rec709())
}

/// The built-in config with the given name, ignoring case: `aces_1.3` (also
/// `aces`, `aces1.3`), `srgb_studio` (also `srgb`) or `rec709_studio` (also
/// `rec709`, `rec.709`).
pub fn get_config(name: &str) -> (r: Option<Config>)
    ensures
        match builtin_config(str_lower(name@)) {
            Some(m) => r matches Some(c) && c@ == m,
            None => r is None,
        },
{
    let lower = to_lowercase(name);
    let l = lower.as_str();
    if str_eq(l, "aces_1.3") || str_eq(l, "aces") || str_eq(l, "aces1.3") {
        Some(aces_1_3())
    } else if str_eq(l, "srgb_studio") || str_eq(l, "srgb") {
        Some(srgb_studio())
    } else if str_eq(l, "rec709_studio") || str_eq(l, "rec709") || str_eq(l, "rec.709") {
        Some(rec709_studio())
    } else {
        None
    }
}

/// The names of all built-in configurations.
pub fn available_configs() -> (r: Vec<&'static str>)
    ensures
        r@.map_values(|s: &str| s@) == seq!["aces_1.3"@, "srgb_studio"@, "rec709_studio"@],
{
    let mut v: Vec<&'static str> = Vec::new();
    v.push("aces_1.3");
    v.push("srgb_studio");
    v.push("rec709_studio");
    assert(v@.map_values(|s: &str| s@) =~= seq!["aces_1.3"@, "srgb_studio"@, "rec709_studio"@]);
    v
}

/// Whether the encoded space `enc` converts through the linear space `lin`
/// on the same primaries: into the reference by decoding its transfer
/// function `style` and then applying `lin`'s conversion into the reference,
/// and out of the reference by `lin`'s conversion out of it and then encoding.
pub open spec fn converts_through(enc: ColorSpaceModel, lin: ColorSpaceModel, style: Seq<char>) -> bool {
    &&& lin.to_reference matches Some(a) && enc.to_reference == Some(group_value(transfer_value(style, true), a))
    &&& lin.from_reference matches Some(b) && enc.from_reference == Some(group_value(b, transfer_value(style, false)))
}

/// In the ACES config, ACEScct and ACEScc convert through ACEScg (AP1
/// primaries), and sRGB and Rec.709 through linear sRGB (Rec.709
/// primaries); so ACEScg's conversion into the reference is the matrix that
/// the log spaces apply after decoding, and its conversion out of the
/// reference the one they apply before encoding. The same holds in the
/// studio configs.
pub proof fn law_encoded_spaces_convert_through_linear()
    ensures
        aces_config().colorspaces[1].name == "ACEScg"@,
        aces_config().colorspaces[2].name == "ACEScct"@,
        aces_config().colorspaces[3].name == "ACEScc"@,
        aces_config().colorspaces[5].name == "Linear sRGB"@,
        aces_config().colorspaces[6].name == "sRGB"@,
        aces_config().colorspaces[7].name == "Rec.709"@,
        converts_through(aces_config().colorspaces[2], aces_config().colorspaces[1], "ACEScct"@),
        converts_through(aces_config().colorspaces[3], aces_config().colorspaces[1], "ACEScc"@),
        converts_through(aces_config().colorspaces[6], aces_config().colorspaces[5], "sRGB"@),
        converts_through(aces_config().colorspaces[7], aces_config().colorspaces[5], "Rec709"@),
        forall|d: ColorSpaceModel| d == srgb_space() || d == rec709_space() ==>
            converts_through(#[trigger] studio_config(d).colorspaces[1], studio_config(d).colorspaces[0], if d == srgb_space() { "sRGB"@ } else { "Rec709"@ }),
{
}

} // verus!
