//! A plain-value model of YAML documents, and the lookups that config parsing uses.
use vstd::prelude::*;
use crate::display::{opt_str, opt_string};
use crate::colorspace::strings_view;

verus! {

/// A YAML node.
#[derive(Debug)]
pub enum YamlNode {
    /// An unresolved scalar, kept as its source text.
    Repr(String),
    /// The null scalar.
    Null,
    /// A boolean scalar.
    Bool(bool),
    /// An integer scalar.
    Int(i64),
    /// A floating-point scalar, as the shortest decimal text that reads back to it.
    Real(String),
    /// A string scalar.
    Str(String),
    /// A sequence.
    Sequence(Vec<YamlNode>),
    /// A mapping, in document order.
    Mapping(Vec<(YamlNode, YamlNode)>),
    /// A tagged node: the tag's suffix and the node.
    Tagged(String, Box<YamlNode>),
    /// An alias.
    Alias(usize),
    /// A scalar whose contents could not be resolved.
    BadValue,
}

/// What a YAML node denotes.
pub enum YamlValue {
    Repr(Seq<char>),
    Null,
    Bool(bool),
    Int(i64),
    Real(Seq<char>),
    Str(Seq<char>),
    Sequence(Seq<YamlValue>),
    Mapping(Seq<(YamlValue, YamlValue)>),
    Tagged(Seq<char>, Box<YamlValue>),
    Alias(usize),
    BadValue,
}

/// What a node denotes.
pub open spec fn node_value(y: YamlNode) -> YamlValue
    decreases y, 1nat,
{
    match y {
        YamlNode::Repr(s) => YamlValue::Repr(s@),
        YamlNode::Null => YamlValue::Null,
        YamlNode::Bool(b) => YamlValue::Bool(b),
        YamlNode::Int(i) => YamlValue::Int(i),
        YamlNode::Real(s) => YamlValue::Real(s@),
        YamlNode::Str(s) => YamlValue::Str(s@),
        YamlNode::Sequence(items) => YamlValue::Sequence(items_value(items@)),
        YamlNode::Mapping(e) => YamlValue::Mapping(entries_value(e@)),
        YamlNode::Tagged(t, b) => YamlValue::Tagged(t@, Box::new(node_value(*b))),
        YamlNode::Alias(n) => YamlValue::Alias(n),
        YamlNode::BadValue => YamlValue::BadValue,
    }
}

/// What a sequence of nodes denotes.
pub open spec fn items_value(s: Seq<YamlNode>) -> Seq<YamlValue>
    decreases s, 0nat,
{
    if s.len() == 0 {
        Seq::empty()
    } else {
        seq![node_value(s[0])] + items_value(s.subrange(1, s.len() as int))
    }
}

/// What a sequence of mapping entries denotes.
pub open spec fn entries_value(e: Seq<(YamlNode, YamlNode)>) -> Seq<(YamlValue, YamlValue)>
    decreases e, 0nat,
{
    if e.len() == 0 {
        Seq::empty()
    } else {
        seq![(node_value(e[0].0), node_value(e[0].1))] + entries_value(e.subrange(1, e.len() as int))
    }
}

impl View for YamlNode {
    type V = YamlValue;

    open spec fn view(&self) -> YamlValue {
        node_value(*self)
    }
}

/// The values of a sequence of nodes, element by element.
pub proof fn lemma_items_value(s: Seq<YamlNode>)
    ensures
        items_value(s).len() == s.len(),
        forall|i: int| 0 <= i < s.len() ==> #[trigger] items_value(s)[i] == s[i]@,
    decreases s.len(),
{
    if s.len() > 0 {
        let t = s.subrange(1, s.len() as int);
        lemma_items_value(t);
        assert forall|i: int| 0 <= i < s.len() implies #[trigger] items_value(s)[i] == s[i]@ by {
            if i > 0 {
                assert(s[i] == t[i - 1]);
            }
        }
    }
}

/// The values of a sequence of mapping entries, entry by entry.
pub proof fn lemma_entries_value(e: Seq<(YamlNode, YamlNode)>)
    ensures
        entries_value(e).len() == e.len(),
        forall|i: int| 0 <= i < e.len() ==> #[trigger] entries_value(e)[i] == (e[i].0@, e[i].1@),
    decreases e.len(),
{
    if e.len() > 0 {
        let t = e.subrange(1, e.len() as int);
        lemma_entries_value(t);
        assert forall|i: int| 0 <= i < e.len() implies #[trigger] entries_value(e)[i] == (e[i].0@, e[i].1@) by {
            if i > 0 {
                assert(e[i] == t[i - 1]);
            }
        }
    }
}

/// The value of an optional reference to a node.
pub open spec fn opt_value(o: Option<&YamlNode>) -> Option<YamlValue> {
    match o {
        Some(n) => Some(n@),
        None => None,
    }
}

/// The value of an optional node.
pub open spec fn opt_node_value(o: Option<YamlNode>) -> Option<YamlValue> {
    match o {
        Some(n) => Some(n@),
        None => None,
    }
}

/// A value with one level of tagging removed.
pub open spec fn untag(y: YamlValue) -> YamlValue {
    match y {
        YamlValue::Tagged(_, inner) => *inner,
        _ => y,
    }
}

/// The text of a string scalar (resolved or not), looking through one tag.
pub open spec fn as_str(y: YamlValue) -> Option<Seq<char>> {
    match untag(y) {
        YamlValue::Str(s) => Some(s),
        YamlValue::Repr(s) => Some(s),
        _ => None,
    }
}

/// Index of the first mapping entry whose key is the string `key`.
pub open spec fn key_index(e: Seq<(YamlValue, YamlValue)>, key: Seq<char>) -> Option<int>
    decreases e.len(),
{
    if e.len() == 0 {
        None
    } else if as_str(e[0].0) == Some(key) {
        Some(0)
    } else {
        match key_index(e.drop_first(), key) {
            Some(i) => Some(i + 1),
            None => None,
        }
    }
}

/// The value under `key` of a mapping (looking through one tag).
pub open spec fn get(y: YamlValue, key: Seq<char>) -> Option<YamlValue> {
    match untag(y) {
        YamlValue::Mapping(e) => match key_index(e, key) {
            Some(i) => Some(e[i].1),
            None => None,
        },
        _ => None,
    }
}

/// The string under `key`.
pub open spec fn get_str(y: YamlValue, key: Seq<char>) -> Option<Seq<char>> {
    match get(y, key) {
        Some(v) => as_str(v),
        None => None,
    }
}

/// The boolean under `key`.
pub open spec fn get_bool(y: YamlValue, key: Seq<char>) -> Option<bool> {
    match get(y, key) {
        Some(v) => match untag(v) {
            YamlValue::Bool(b) => Some(b),
            _ => None,
        },
        None => None,
    }
}

/// The string items of a sequence of values, skipping the others.
pub open spec fn strs_of(items: Seq<YamlValue>) -> Seq<Seq<char>>
    decreases items.len(),
{
    if items.len() == 0 {
        Seq::empty()
    } else {
        let head = match as_str(items[0]) {
            Some(s) => seq![s],
            None => Seq::empty(),
        };
        head + strs_of(items.drop_first())
    }
}

/// The items of the sequence under `key`, looking through one tag (empty when there is none).
pub open spec fn get_items(y: YamlValue, key: Seq<char>) -> Seq<YamlValue> {
    match get(y, key) {
        Some(v) => match untag(v) {
            YamlValue::Sequence(items) => items,
            _ => Seq::empty(),
        },
        None => Seq::empty(),
    }
}

/// The entries of the mapping under `key`, looking through one tag (empty when there is none).
pub open spec fn get_entries(y: YamlValue, key: Seq<char>) -> Seq<(YamlValue, YamlValue)> {
    match get(y, key) {
        Some(v) => match untag(v) {
            YamlValue::Mapping(e) => e,
            _ => Seq::empty(),
        },
        None => Seq::empty(),
    }
}

/// The string items of the sequence under `key`.
pub open spec fn get_str_list(y: YamlValue, key: Seq<char>) -> Seq<Seq<char>> {
    strs_of(get_items(y, key))
}

/// Decimal digits of a natural number.
pub open spec fn digits(n: nat) -> Seq<char>
    decreases n,
{
    if n < 10 {
        seq![((n + 48) as u32) as char]
    } else {
        digits(n / 10).push((((n % 10) + 48) as u32) as char)
    }
}

/// Decimal text of an integer.
pub open spec fn decimal(i: int) -> Seq<char> {
    if i < 0 {
        seq!['-'] + digits((-i) as nat)
    } else {
        digits(i as nat)
    }
}

/// The text of a scalar: strings as written, integers in decimal, reals as kept.
pub open spec fn scalar_text(y: YamlValue) -> Option<Seq<char>> {
    match untag(y) {
        YamlValue::Str(s) => Some(s),
        YamlValue::Repr(s) => Some(s),
        YamlValue::Int(i) => Some(decimal(i as int)),
        YamlValue::Real(s) => Some(s),
        _ => None,
    }
}

/// The node with one level of tagging removed.
pub fn unwrap_tagged(y: &YamlNode) -> (r: &YamlNode)
    ensures
        r@ == untag(y@),
{
    match y {
        YamlNode::Tagged(_, inner) => inner,
        _ => y,
    }
}

/// The text of a string scalar.
pub fn yaml_as_str(y: &YamlNode) -> (r: Option<&str>)
    ensures
        opt_str(r) == as_str(y@),
{
    match unwrap_tagged(y) {
        YamlNode::Str(s) => Some(s.as_str()),
        YamlNode::Repr(s) => Some(s.as_str()),
        _ => None,
    }
}

proof fn lemma_key_index(e: Seq<(YamlValue, YamlValue)>, key: Seq<char>, i: int)
    requires
        0 <= i <= e.len(),
        forall|j: int| 0 <= j < i ==> as_str(#[trigger] e[j].0) != Some(key),
        i < e.len() ==> as_str(e[i].0) == Some(key),
    ensures
        key_index(e, key) == (if i < e.len() { Some(i) } else { None::<int> }),
    decreases e.len(),
{
    if e.len() > 0 && i > 0 {
        assert forall|j: int| 0 <= j < i - 1 implies as_str(#[trigger] e.drop_first()[j].0) != Some(key) by {
            assert(e.drop_first()[j] == e[j + 1]);
        }
        lemma_key_index(e.drop_first(), key, i - 1);
    }
}

/// Position of the first entry whose key is the string `key`.
fn find_key(e: &Vec<(YamlNode, YamlNode)>, key: &str) -> (r: Option<usize>)
    ensures
        r matches Some(i) ==> key_index(entries_value(e@), key@) == Some(i as int) && i < e@.len(),
        r is None ==> key_index(entries_value(e@), key@) is None,
{
    proof {
        lemma_entries_value(e@);
    }
    let ghost ev = entries_value(e@);
    let mut i: usize = 0;
    while i < e.len()
        invariant
            0 <= i <= e@.len(),
            ev == entries_value(e@),
            ev.len() == e@.len(),
            forall|j: int| 0 <= j < e@.len() ==> #[trigger] ev[j] == (e@[j].0@, e@[j].1@),
            forall|j: int| 0 <= j < i ==> as_str(#[trigger] ev[j].0) != Some(key@),
        decreases e@.len() - i,
    {
        let k = yaml_as_str(&e[i].0);
        let hit = match k {
            Some(ks) => crate::text::str_eq(ks, key),
            None => false,
        };
        assert(ev[i as int].0 == e@[i as int].0@);
        if hit {
            proof {
                lemma_key_index(ev, key@, i as int);
            }
            return Some(i);
        }
        i = i + 1;
    }
    proof {
        lemma_key_index(ev, key@, i as int);
    }
    None
}

/// The value under `key` of a mapping.
pub fn yaml_get<'a>(y: &'a YamlNode, key: &str) -> (r: Option<&'a YamlNode>)
    ensures
        opt_value(r) == get(y@, key@),
{
    match unwrap_tagged(y) {
        YamlNode::Mapping(e) => {
            proof {
                lemma_entries_value(e@);
            }
            assert(untag(y@) == YamlValue::Mapping(entries_value(e@)));
            match find_key(e, key) {
                Some(i) => {
                    assert(entries_value(e@)[i as int] == (e@[i as int].0@, e@[i as int].1@));
                    assert(key_index(entries_value(e@), key@) == Some(i as int));
                    assert(get(y@, key@) == Some(e@[i as int].1@));
                    Some(&e[i].1)
                },
                None => None,
            }
        },
        _ => None,
    }
}

/// The string under `key`.
pub fn yaml_str<'a>(y: &'a YamlNode, key: &str) -> (r: Option<&'a str>)
    ensures
        opt_str(r) == get_str(y@, key@),
{
    match yaml_get(y, key) {
        Some(v) => yaml_as_str(v),
        None => None,
    }
}

/// The boolean under `key`.
pub fn yaml_bool(y: &YamlNode, key: &str) -> (r: Option<bool>)
    ensures
        r == get_bool(y@, key@),
{
    match yaml_get(y, key) {
        Some(v) => match unwrap_tagged(v) {
            YamlNode::Bool(b) => Some(*b),
            _ => None,
        },
        None => None,
    }
}

/// The items of the sequence under `key`.
pub fn yaml_items<'a>(y: &'a YamlNode, key: &str) -> (r: &'a [YamlNode])
    ensures
        items_value(r@) == get_items(y@, key@),
{
    match yaml_get(y, key) {
        Some(v) => match unwrap_tagged(v) {
            YamlNode::Sequence(items) => items.as_slice(),
            _ => {
                let e: &[YamlNode] = &[];
                assert(items_value(e@) =~= Seq::<YamlValue>::empty());
                e
            },
        },
        None => {
            let e: &[YamlNode] = &[];
            assert(items_value(e@) =~= Seq::<YamlValue>::empty());
            e
        },
    }
}

/// The entries of the mapping under `key`.
pub fn yaml_entries<'a>(y: &'a YamlNode, key: &str) -> (r: &'a [(YamlNode, YamlNode)])
    ensures
        entries_value(r@) == get_entries(y@, key@),
{
    match yaml_get(y, key) {
        Some(v) => match unwrap_tagged(v) {
            YamlNode::Mapping(e) => e.as_slice(),
            _ => {
                let e: &[(YamlNode, YamlNode)] = &[];
                assert(entries_value(e@) =~= Seq::<(YamlValue, YamlValue)>::empty());
                e
            },
        },
        None => {
            let e: &[(YamlNode, YamlNode)] = &[];
            assert(entries_value(e@) =~= Seq::<(YamlValue, YamlValue)>::empty());
            e
        },
    }
}

/// `strs_of` distributes over concatenation.
pub proof fn lemma_strs_of_append(a: Seq<YamlValue>, b: Seq<YamlValue>)
    ensures
        strs_of(a + b) == strs_of(a) + strs_of(b),
    decreases a.len(),
{
    if a.len() == 0 {
        assert(a + b =~= b);
    } else {
        lemma_strs_of_append(a.drop_first(), b);
        assert((a + b).drop_first() =~= a.drop_first() + b);
        assert((a + b)[0] == a[0]);
    }
}

/// The string items of a sequence of nodes.
pub fn strings_of_items(items: &[YamlNode]) -> (r: Vec<String>)
    ensures
        strings_view(r@) == strs_of(items_value(items@)),
{
    let mut r: Vec<String> = Vec::new();
    let mut i: usize = 0;
    proof {
        lemma_items_value(items@);
    }
    let ghost all = items_value(items@);
    assert(all.take(0) =~= Seq::<YamlValue>::empty());
    assert(strings_view(r@) =~= Seq::<Seq<char>>::empty());
    while i < items.len()
        invariant
            all == items_value(items@),
            all.len() == items@.len(),
            forall|j: int| 0 <= j < items@.len() ==> #[trigger] all[j] == items@[j]@,
            0 <= i <= all.len(),
            strings_view(r@) == strs_of(all.take(i as int)),
        decreases all.len() - i,
    {
        proof {
            assert(all.take(i + 1) =~= all.take(i as int) + seq![all[i as int]]);
            lemma_strs_of_append(all.take(i as int), seq![all[i as int]]);
            assert(seq![all[i as int]].drop_first() =~= Seq::<YamlValue>::empty());
        }
        assert(all[i as int] == items@[i as int]@);
        match yaml_as_str(&items[i]) {
            Some(s) => {
                let ghost before = r@;
                r.push(crate::text::string_of(s));
                assert(strings_view(r@) =~= strings_view(before).push(s@));
                assert(strs_of(seq![all[i as int]]) =~= seq![s@]) by {
                    reveal_with_fuel(strs_of, 2);
                }
            },
            None => {
                assert(strs_of(seq![all[i as int]]) =~= Seq::<Seq<char>>::empty()) by {
                    reveal_with_fuel(strs_of, 2);
                }
            },
        }
        i = i + 1;
    }
    assert(all.take(i as int) =~= all);
    r
}

/// The string items of the sequence under `key`.
pub fn yaml_str_list(y: &YamlNode, key: &str) -> (r: Vec<String>)
    ensures
        strings_view(r@) == get_str_list(y@, key@),
{
    strings_of_items(yaml_items(y, key))
}

/// Appends the decimal digits of `n`.
fn push_digits(out: &mut String, n: u64)
    ensures
        final(out)@ == old(out)@ + digits(n as nat),
    decreases n,
{
    if n >= 10 {
        push_digits(out, n / 10);
    }
    let d: u8 = (n % 10) as u8;
    let c: char = (d + 48) as char;
    assert(c == (((n % 10) + 48) as u32) as char);
    crate::text::push_char(out, c);
    proof {
        if n >= 10 {
            assert(digits(n as nat) == digits((n / 10) as nat).push(c));
        } else {
            assert(digits(n as nat) == seq![c]);
        }
    }
    assert(final(out)@ =~= old(out)@ + digits(n as nat));
}

/// Decimal text of an integer.
pub fn decimal_string(i: i64) -> (r: String)
    ensures
        r@ == decimal(i as int),
{
    let mut out = String::new();
    if i < 0 {
        crate::text::push_char(&mut out, '-');
        let m: u64 = ((-(i + 1)) as u64) + 1;
        assert(m as int == -(i as int));
        push_digits(&mut out, m);
    } else {
        push_digits(&mut out, i as u64);
    }
    assert(out@ =~= decimal(i as int));
    out
}

/// Decimal text of a count.
pub fn usize_decimal(n: usize) -> (r: String)
    ensures
        r@ == decimal(n as int),
{
    let mut out = String::new();
    push_digits(&mut out, n as u64);
    assert(out@ =~= decimal(n as int));
    out
}

/// The text of a scalar: strings as written, integers in decimal, reals as kept.
pub fn yaml_to_string(y: &YamlNode) -> (r: Option<String>)
    ensures
        opt_string(r) == scalar_text(y@),
{
    match unwrap_tagged(y) {
        YamlNode::Str(s) => Some(crate::text::string_of(s.as_str())),
        YamlNode::Repr(s) => Some(crate::text::string_of(s.as_str())),
        YamlNode::Int(i) => Some(decimal_string(*i)),
        YamlNode::Real(s) => Some(crate::text::string_of(s.as_str())),
        _ => None,
    }
}

} // verus!

verus! {

/// `key_index` gives an index of the entries.
pub proof fn lemma_key_index_range(e: Seq<(YamlValue, YamlValue)>, key: Seq<char>)
    ensures
        key_index(e, key) matches Some(i) ==> 0 <= i < e.len() && as_str(e[i].0) == Some(key),
        key_index(e, key) is None ==> forall|j: int| 0 <= j < e.len() ==> as_str(#[trigger] e[j].0) != Some(key),
    decreases e.len(),
{
    if e.len() > 0 {
        lemma_key_index_range(e.drop_first(), key);
        if key_index(e, key) is None {
            assert forall|j: int| 0 <= j < e.len() implies as_str(#[trigger] e[j].0) != Some(key) by {
                if j > 0 {
                    assert(e[j] == e.drop_first()[j - 1]);
                }
            }
        }
    }
}

/// Tag names of the transforms a config may define.
pub open spec fn known_transform_tag(t: Seq<char>) -> bool {
    t == "MatrixTransform"@ || t == "FileTransform"@ || t == "ExponentTransform"@ || t
        == "LogTransform"@ || t == "CDLTransform"@ || t == "ColorSpaceTransform"@ || t
        == "BuiltinTransform"@ || t == "RangeTransform"@ || t == "FixedFunctionTransform"@ || t
        == "ExposureContrastTransform"@ || t == "LookTransform"@ || t == "GroupTransform"@ || t
        == "GradingPrimaryTransform"@ || t == "GradingRGBCurveTransform"@ || t
        == "GradingToneTransform"@ || t == "LogAffineTransform"@ || t == "LogCameraTransform"@
        || t == "AllocationTransform"@
}

/// Whether every value of `s` is a transform definition.
pub open spec fn items_ok(s: Seq<YamlValue>) -> bool
    decreases s, 0nat,
{
    if s.len() == 0 {
        true
    } else {
        transform_ok(s[0]) && items_ok(s.subrange(1, s.len() as int))
    }
}

/// Whether a value (looking through one tag) is a sequence of transform definitions.
pub open spec fn group_items_ok(c: YamlValue) -> bool
    decreases c, 0nat,
{
    match c {
        YamlValue::Sequence(items) => items_ok(items),
        YamlValue::Tagged(_, b) => match *b {
            YamlValue::Sequence(items) => items_ok(items),
            _ => false,
        },
        _ => false,
    }
}

/// Whether mapping entries hold `children` as a sequence of transform definitions.
pub open spec fn entries_children_ok(e: Seq<(YamlValue, YamlValue)>) -> bool
    decreases e, 0nat,
{
    match key_index(e, "children"@) {
        Some(i) => {
            proof {
                lemma_key_index_range(e, "children"@);
            }
            group_items_ok(e[i].1)
        },
        None => false,
    }
}

/// Whether a value (looking through one tag) is a mapping whose `children`
/// is a sequence of transform definitions.
pub open spec fn children_ok(m: YamlValue) -> bool
    decreases m, 0nat,
{
    match m {
        YamlValue::Mapping(e) => entries_children_ok(e),
        YamlValue::Tagged(_, b) => match *b {
            YamlValue::Mapping(e) => entries_children_ok(e),
            _ => false,
        },
        _ => false,
    }
}

/// Whether the body of a transform tagged `tag` has the fields the tag needs.
pub open spec fn tagged_ok(tag: Seq<char>, y: YamlValue) -> bool
    decreases y, 1nat,
{
    let b = untag(y);
    if tag == "FileTransform"@ {
        get_str(b, "src"@) is Some
    } else if tag == "ColorSpaceTransform"@ || tag == "LookTransform"@ {
        get_str(b, "src"@) is Some && get_str(b, "dst"@) is Some
    } else if tag == "BuiltinTransform"@ || tag == "FixedFunctionTransform"@ {
        get_str(b, "style"@) is Some
    } else if tag == "GroupTransform"@ {
        match y {
            YamlValue::Tagged(_, inner) => children_ok(*inner),
            _ => children_ok(y),
        }
    } else {
        known_transform_tag(tag)
    }
}

/// Whether a value defines a transform: a sequence of transforms, a tagged
/// transform whose body has the fields its tag needs, or a mapping whose
/// `children` is a sequence of transforms.
pub open spec fn transform_ok(y: YamlValue) -> bool
    decreases y, 0nat,
{
    match y {
        YamlValue::Sequence(items) => items_ok(items),
        YamlValue::Tagged(tag, inner) => tagged_ok(tag, *inner),
        YamlValue::Mapping(e) => entries_children_ok(e),
        _ => false,
    }
}

/// `items_ok` holds exactly when every item is a transform definition.
pub proof fn lemma_items_ok(s: Seq<YamlValue>)
    ensures
        items_ok(s) <==> forall|i: int| 0 <= i < s.len() ==> transform_ok(#[trigger] s[i]),
    decreases s.len(),
{
    if s.len() > 0 {
        let t = s.subrange(1, s.len() as int);
        lemma_items_ok(t);
        if items_ok(s) {
            assert forall|i: int| 0 <= i < s.len() implies transform_ok(#[trigger] s[i]) by {
                if i > 0 {
                    assert(s[i] == t[i - 1]);
                }
            }
        }
        if forall|i: int| 0 <= i < s.len() ==> transform_ok(#[trigger] s[i]) {
            assert forall|i: int| 0 <= i < t.len() implies transform_ok(#[trigger] t[i]) by {
                assert(t[i] == s[i + 1]);
            }
        }
    }
}

fn items_parse(items: &Vec<YamlNode>) -> (r: bool)
    ensures
        r == items_ok(items_value(items@)),
    decreases items, 2nat,
{
    proof {
        lemma_items_value(items@);
        lemma_items_ok(items_value(items@));
    }
    let ghost all = items_value(items@);
    let mut i: usize = 0;
    while i < items.len()
        invariant
            0 <= i <= items@.len(),
            all == items_value(items@),
            all.len() == items@.len(),
            forall|j: int| 0 <= j < items@.len() ==> #[trigger] all[j] == items@[j]@,
            items_ok(all) <==> forall|j: int| 0 <= j < all.len() ==> transform_ok(#[trigger] all[j]),
            forall|j: int| 0 <= j < i ==> transform_ok(#[trigger] all[j]),
        decreases items@.len() - i,
    {
        assert(all[i as int] == items@[i as int]@);
        if !transform_parses(&items[i]) {
            return false;
        }
        i = i + 1;
    }
    true
}

fn group_items_parse(c: &YamlNode) -> (r: bool)
    ensures
        r == group_items_ok(c@),
    decreases c, 3nat,
{
    match c {
        YamlNode::Sequence(items) => {
            assert(c@ == YamlValue::Sequence(items_value(items@)));
            items_parse(items)
        },
        YamlNode::Tagged(_, b) => match &**b {
            YamlNode::Sequence(items) => {
                assert(b@ == YamlValue::Sequence(items_value(items@)));
                items_parse(items)
            },
            _ => {
                assert(!(b@ is Sequence));
                false
            },
        },
        _ => false,
    }
}

fn entries_children_parse(e: &Vec<(YamlNode, YamlNode)>) -> (r: bool)
    ensures
        r == entries_children_ok(entries_value(e@)),
    decreases e, 4nat,
{
    proof {
        lemma_key_index_range(entries_value(e@), "children"@);
        lemma_entries_value(e@);
    }
    match find_key(e, "children") {
        Some(i) => {
            assert(entries_value(e@)[i as int] == (e@[i as int].0@, e@[i as int].1@));
            group_items_parse(&e[i].1)
        },
        None => false,
    }
}

fn children_parse(m: &YamlNode) -> (r: bool)
    ensures
        r == children_ok(m@),
    decreases m, 5nat,
{
    match m {
        YamlNode::Mapping(e) => {
            assert(m@ == YamlValue::Mapping(entries_value(e@)));
            entries_children_parse(e)
        },
        YamlNode::Tagged(_, b) => match &**b {
            YamlNode::Mapping(e) => {
                assert(b@ == YamlValue::Mapping(entries_value(e@)));
                entries_children_parse(e)
            },
            _ => {
                assert(!(b@ is Mapping));
                false
            },
        },
        _ => false,
    }
}

fn tagged_parses(tag: &str, y: &YamlNode) -> (r: bool)
    ensures
        r == tagged_ok(tag@, y@),
    decreases y, 6nat,
{
    let t = crate::text::chars_of(tag);
    let b = unwrap_tagged(y);
    if crate::text::chars_are(&t, "FileTransform") {
        yaml_str(b, "src").is_some()
    } else if crate::text::chars_are(&t, "ColorSpaceTransform") || crate::text::chars_are(&t, "LookTransform") {
        yaml_str(b, "src").is_some() && yaml_str(b, "dst").is_some()
    } else if crate::text::chars_are(&t, "BuiltinTransform") || crate::text::chars_are(&t, "FixedFunctionTransform") {
        yaml_str(b, "style").is_some()
    } else if crate::text::chars_are(&t, "GroupTransform") {
        match y {
            YamlNode::Tagged(_, inner) => children_parse(inner),
            _ => children_parse(y),
        }
    } else {
        crate::text::chars_are(&t, "MatrixTransform") || crate::text::chars_are(&t, "FileTransform")
            || crate::text::chars_are(&t, "ExponentTransform") || crate::text::chars_are(&t, "LogTransform")
            || crate::text::chars_are(&t, "CDLTransform") || crate::text::chars_are(&t, "ColorSpaceTransform")
            || crate::text::chars_are(&t, "BuiltinTransform") || crate::text::chars_are(&t, "RangeTransform")
            || crate::text::chars_are(&t, "FixedFunctionTransform") || crate::text::chars_are(
            &t,
            "ExposureContrastTransform",
        ) || crate::text::chars_are(&t, "LookTransform") || crate::text::chars_are(&t, "GroupTransform")
            || crate::text::chars_are(&t, "GradingPrimaryTransform") || crate::text::chars_are(
            &t,
            "GradingRGBCurveTransform",
        ) || crate::text::chars_are(&t, "GradingToneTransform") || crate::text::chars_are(
            &t,
            "LogAffineTransform",
        ) || crate::text::chars_are(&t, "LogCameraTransform") || crate::text::chars_are(
            &t,
            "AllocationTransform",
        )
    }
}

/// Whether a node defines a transform (see `transform_ok`).
pub fn transform_parses(y: &YamlNode) -> (r: bool)
    ensures
        r == transform_ok(y@),
    decreases y, 7nat,
{
    match y {
        YamlNode::Sequence(items) => {
            assert(y@ == YamlValue::Sequence(items_value(items@)));
            items_parse(items)
        },
        YamlNode::Tagged(tag, inner) => tagged_parses(tag.as_str(), inner),
        YamlNode::Mapping(e) => {
            assert(y@ == YamlValue::Mapping(entries_value(e@)));
            entries_children_parse(e)
        },
        _ => false,
    }
}

impl YamlNode {
    /// A copy of this node.
    pub fn copy(&self) -> (r: YamlNode)
        ensures
            r@ == self@,
        decreases self, 2nat,
    {
        match self {
            YamlNode::Repr(s) => YamlNode::Repr(s.clone()),
            YamlNode::Null => YamlNode::Null,
            YamlNode::Bool(b) => YamlNode::Bool(*b),
            YamlNode::Int(i) => YamlNode::Int(*i),
            YamlNode::Real(s) => YamlNode::Real(s.clone()),
            YamlNode::Str(s) => YamlNode::Str(s.clone()),
            YamlNode::Sequence(items) => YamlNode::Sequence(copy_items(items)),
            YamlNode::Mapping(e) => YamlNode::Mapping(copy_entries(e)),
            YamlNode::Tagged(t, inner) => YamlNode::Tagged(t.clone(), Box::new((**inner).copy())),
            YamlNode::Alias(n) => YamlNode::Alias(*n),
            YamlNode::BadValue => YamlNode::BadValue,
        }
    }
}

fn copy_items(items: &Vec<YamlNode>) -> (r: Vec<YamlNode>)
    ensures
        items_value(r@) == items_value(items@),
    decreases items, 1nat,
{
    let mut out: Vec<YamlNode> = Vec::new();
    let mut i: usize = 0;
    while i < items.len()
        invariant
            0 <= i <= items@.len(),
            out@.len() == i,
            forall|j: int| 0 <= j < i ==> #[trigger] out@[j]@ == items@[j]@,
        decreases items@.len() - i,
    {
        let c = items[i].copy();
        out.push(c);
        i = i + 1;
    }
    proof {
        lemma_items_value(out@);
        lemma_items_value(items@);
        assert(items_value(out@) =~= items_value(items@));
    }
    out
}

fn copy_entries(e: &Vec<(YamlNode, YamlNode)>) -> (r: Vec<(YamlNode, YamlNode)>)
    ensures
        entries_value(r@) == entries_value(e@),
    decreases e, 1nat,
{
    let mut out: Vec<(YamlNode, YamlNode)> = Vec::new();
    let mut i: usize = 0;
    while i < e.len()
        invariant
            0 <= i <= e@.len(),
            out@.len() == i,
            forall|j: int| 0 <= j < i ==> #[trigger] out@[j].0@ == e@[j].0@ && out@[j].1@ == e@[j].1@,
        decreases e@.len() - i,
    {
        let k = e[i].0.copy();
        let v = e[i].1.copy();
        out.push((k, v));
        i = i + 1;
    }
    proof {
        lemma_entries_value(out@);
        lemma_entries_value(e@);
        assert(entries_value(out@) =~= entries_value(e@));
    }
    out
}

/// A copy of an optional node.
pub fn copy_opt(o: Option<&YamlNode>) -> (r: Option<YamlNode>)
    ensures
        opt_node_value(r) == opt_value(o),
{
    match o {
        Some(n) => Some(n.copy()),
        None => None,
    }
}

} // verus!
