//! Looks: named creative transforms, and the look-list syntax of views.
use vstd::prelude::*;
use vstd::string::*;
use crate::text::{chars_of, eq_ascii_ci, eq_ignore_ascii_case, string_of, trim_bounds, trim_seq};
use crate::yaml::{YamlNode, YamlValue, opt_node_value, opt_value};
use crate::display::{first_named, lemma_first_named, opt_str, opt_string};

verus! {

/// Index of the first `sep` in `s`, or `s.len()` when there is none.
pub open spec fn index_of_or_len(s: Seq<char>, sep: char) -> nat
    decreases s.len(),
{
    if s.len() == 0 {
        0
    } else if s[0] == sep {
        0
    } else {
        1 + index_of_or_len(s.drop_first(), sep)
    }
}

/// The pieces of `s` between occurrences of `sep` (`str::split`).
pub open spec fn split_seq(s: Seq<char>, sep: char) -> Seq<Seq<char>>
    decreases s.len(),
{
    let i = index_of_or_len(s, sep);
    if i >= s.len() {
        seq![s]
    } else {
        seq![s.take(i as int)] + split_seq(s.skip(i as int + 1), sep)
    }
}

/// One entry of a look list: the look name and whether it applies forward.
pub open spec fn look_entry(piece: Seq<char>) -> (Seq<char>, bool) {
    let t = trim_seq(piece);
    if t.len() > 0 && t[0] == '-' {
        (trim_seq(t.drop_first()), false)
    } else if t.len() > 0 && t[0] == '+' {
        (trim_seq(t.drop_first()), true)
    } else {
        (t, true)
    }
}

/// The entries of a look list given as its comma-separated pieces;
/// pieces that are empty after trimming are skipped.
pub open spec fn look_entries(pieces: Seq<Seq<char>>) -> Seq<(Seq<char>, bool)>
    decreases pieces.len(),
{
    if pieces.len() == 0 {
        Seq::empty()
    } else {
        let head = if trim_seq(pieces[0]).len() == 0 {
            Seq::empty()
        } else {
            seq![look_entry(pieces[0])]
        };
        head + look_entries(pieces.drop_first())
    }
}

/// The parsed form of a look list string.
pub open spec fn parse_looks_spec(s: Seq<char>) -> Seq<(Seq<char>, bool)> {
    look_entries(split_seq(s, ','))
}

/// The view of a parsed look list.
pub open spec fn looks_view(v: Seq<(&str, bool)>) -> Seq<(Seq<char>, bool)> {
    v.map_values(|p: (&str, bool)| (p.0@, p.1))
}

pub proof fn lemma_index_of(s: Seq<char>, sep: char, i: int)
    requires
        0 <= i <= s.len(),
        forall|j: int| 0 <= j < i ==> s[j] != sep,
        i == s.len() || s[i] == sep,
    ensures
        index_of_or_len(s, sep) == i,
    decreases s.len(),
{
    if s.len() > 0 && i > 0 {
        lemma_index_of(s.drop_first(), sep, i - 1);
    }
}

proof fn lemma_entries_append(pieces: Seq<Seq<char>>, p: Seq<char>)
    ensures
        look_entries(pieces.push(p)) == look_entries(pieces) + look_entries(seq![p]),
    decreases pieces.len(),
{
    if pieces.len() == 0 {
        assert(pieces.push(p) =~= seq![p]);
    } else {
        lemma_entries_append(pieces.drop_first(), p);
        assert(pieces.push(p).drop_first() =~= pieces.drop_first().push(p));
        let h = if trim_seq(pieces[0]).len() == 0 {
            Seq::<(Seq<char>, bool)>::empty()
        } else {
            seq![look_entry(pieces[0])]
        };
        assert(h + (look_entries(pieces.drop_first()) + look_entries(seq![p])) =~= (h
            + look_entries(pieces.drop_first())) + look_entries(seq![p]));
    }
}

/// The pieces of `s` between occurrences of `sep`, as new strings (`str::split`).
pub fn split_char(s: &str, sep: char) -> (r: Vec<String>)
    ensures
        crate::colorspace::strings_view(r@) == split_seq(s@, sep),
{
    let cs = chars_of(s);
    let ghost t = cs@;
    let mut out: Vec<String> = Vec::new();
    let mut start: usize = 0;
    let mut i: usize = 0;
    assert(t.skip(0) =~= t);
    assert(crate::colorspace::strings_view(out@) + split_seq(t, sep) =~= split_seq(t, sep));
    while i < cs.len()
        invariant
            cs@ == t,
            t == s@,
            start <= i <= cs@.len(),
            forall|j: int| start <= j < i ==> cs@[j] != sep,
            split_seq(t, sep) == crate::colorspace::strings_view(out@) + split_seq(t.skip(start as int), sep),
        decreases cs@.len() - i,
    {
        if cs[i] == sep {
            proof {
                let rest = t.skip(start as int);
                lemma_index_of(rest, sep, i - start);
                assert(rest.take(i - start) =~= t.subrange(start as int, i as int));
                assert(rest.skip(i - start + 1) =~= t.skip(i + 1));
            }
            let ghost before = out@;
            let piece = crate::text::string_from_chars(&cs, start, i);
            out.push(piece);
            proof {
                let p = t.subrange(start as int, i as int);
                assert(crate::colorspace::strings_view(out@) =~= crate::colorspace::strings_view(before).push(p));
                assert(crate::colorspace::strings_view(before) + (seq![p] + split_seq(t.skip(i + 1), sep))
                    =~= crate::colorspace::strings_view(out@) + split_seq(t.skip(i + 1), sep));
            }
            start = i + 1;
        }
        i = i + 1;
    }
    proof {
        let rest = t.skip(start as int);
        lemma_index_of(rest, sep, rest.len() as int);
        assert(rest =~= t.subrange(start as int, i as int));
    }
    let ghost before = out@;
    let piece = crate::text::string_from_chars(&cs, start, cs.len());
    out.push(piece);
    assert(crate::colorspace::strings_view(out@) =~= crate::colorspace::strings_view(before).push(
        t.subrange(start as int, cs@.len() as int),
    ));
    out
}

/// The entry for the piece `cs[a..b]`, as slices of `s`.
fn piece_entry<'a>(s: &'a str, cs: &Vec<char>, a: usize, b: usize) -> (r: Option<(&'a str, bool)>)
    requires
        cs@ == s@,
        a <= b <= cs@.len(),
    ensures
        trim_seq(cs@.subrange(a as int, b as int)).len() == 0 ==> r is None,
        trim_seq(cs@.subrange(a as int, b as int)).len() > 0 ==> r is Some && (r.unwrap().0@, r.unwrap().1)
            == look_entry(cs@.subrange(a as int, b as int)),
{
    let (ta, tb) = trim_bounds(cs, a, b);
    if ta == tb {
        return None;
    }
    let ghost t = cs@.subrange(ta as int, tb as int);
    assert(t[0] == cs@[ta as int]);
    if cs[ta] == '-' || cs[ta] == '+' {
        let (na, nb) = trim_bounds(cs, ta + 1, tb);
        assert(t.drop_first() =~= cs@.subrange(ta + 1, tb as int));
        let name = s.substring_char(na, nb);
        Some((name, cs[ta] == '+'))
    } else {
        Some((s.substring_char(ta, tb), true))
    }
}

/// Parses a comma-separated look list such as `"+ShowLUT, -ShotGrade"`.
///
/// Each entry is `(name, forward)`: a leading `-` selects the inverse
/// direction, a leading `+` or no sign the forward one; entries that are
/// empty after trimming are skipped.
pub fn parse_looks(looks_str: &str) -> (r: Vec<(&str, bool)>)
    ensures
        looks_view(r@) == parse_looks_spec(looks_str@),
{
    let cs = chars_of(looks_str);
    let ghost s = cs@;
    let mut out: Vec<(&str, bool)> = Vec::new();
    let mut start: usize = 0;
    let mut i: usize = 0;
    let ghost mut done: Seq<Seq<char>> = Seq::empty();
    assert(s.skip(0) =~= s);
    assert(done + split_seq(s, ',') =~= split_seq(s, ','));
    while i < cs.len()
        invariant
            cs@ == s,
            s == looks_str@,
            start <= i <= cs@.len(),
            forall|j: int| start <= j < i ==> cs@[j] != ',',
            split_seq(s, ',') == done + split_seq(s.skip(start as int), ','),
            looks_view(out@) == look_entries(done),
        decreases cs@.len() - i,
    {
        if cs[i] == ',' {
            proof {
                let rest = s.skip(start as int);
                lemma_index_of(rest, ',', i - start);
                assert(rest.take(i - start) =~= s.subrange(start as int, i as int));
                assert(rest.skip(i - start + 1) =~= s.skip(i + 1));
                assert(split_seq(rest, ',') == seq![s.subrange(start as int, i as int)]
                    + split_seq(s.skip(i + 1), ','));
                lemma_entries_append(done, s.subrange(start as int, i as int));
            }
            let e = piece_entry(looks_str, &cs, start, i);
            match e {
                Some(p) => {
                    out.push(p);
                },
                None => {},
            }
            proof {
                let piece = s.subrange(start as int, i as int);
                let ghost nd = done.push(piece);
                assert(nd + split_seq(s.skip(i + 1), ',') =~= done + (seq![piece] + split_seq(
                    s.skip(i + 1),
                    ',',
                )));
                assert(look_entries(seq![piece]) =~= (if trim_seq(piece).len() == 0 {
                    Seq::<(Seq<char>, bool)>::empty()
                } else {
                    seq![look_entry(piece)]
                })) by {
                    reveal_with_fuel(look_entries, 2);
                }
                assert(looks_view(out@) =~= look_entries(nd));
                done = nd;
            }
            start = i + 1;
        }
        i = i + 1;
    }
    proof {
        let rest = s.skip(start as int);
        lemma_index_of(rest, ',', rest.len() as int);
        assert(rest =~= s.subrange(start as int, i as int));
        lemma_entries_append(done, rest);
    }
    let e = piece_entry(looks_str, &cs, start, cs.len());
    match e {
        Some(p) => {
            out.push(p);
        },
        None => {},
    }
    proof {
        let piece = s.subrange(start as int, cs@.len() as int);
        assert(look_entries(seq![piece]) =~= (if trim_seq(piece).len() == 0 {
            Seq::<(Seq<char>, bool)>::empty()
        } else {
            seq![look_entry(piece)]
        })) by {
            reveal_with_fuel(look_entries, 2);
        }
        assert(done + seq![piece] =~= done.push(piece));
        assert(looks_view(out@) =~= look_entries(done.push(piece)));
    }
    out
}

} // verus!

verus! {

/// What a look holds.
pub struct LookModel {
    pub name: Seq<char>,
    pub process_space: Option<Seq<char>>,
    pub description: Seq<char>,
    pub transform: Option<YamlValue>,
    pub inverse_transform: Option<YamlValue>,
}

/// A named creative look, with its transform definitions.
#[derive(Debug)]
pub struct Look {
    name: String,
    process_space: Option<String>,
    description: String,
    transform: Option<YamlNode>,
    inverse_transform: Option<YamlNode>,
}

impl View for Look {
    type V = LookModel;

    closed spec fn view(&self) -> LookModel {
        LookModel {
            name: self.name@,
            process_space: opt_string(self.process_space),
            description: self.description@,
            transform: opt_node_value(self.transform),
            inverse_transform: opt_node_value(self.inverse_transform),
        }
    }
}

impl Look {
    /// A look with the given name and nothing else.
    pub fn new(name: &str) -> (r: Self)
        ensures
            r@ == (LookModel {
                name: name@,
                process_space: None,
                description: Seq::empty(),
                transform: None,
                inverse_transform: None,
            }),
    {
        Look {
            name: string_of(name),
            process_space: None,
            description: String::new(),
            transform: None,
            inverse_transform: None,
        }
    }

    /// Sets the process space.
    pub fn process_space(self, space: &str) -> (r: Self)
        ensures
            r@ == (LookModel { process_space: Some(space@), ..self@ }),
    {
        let mut l = self;
        l.process_space = Some(string_of(space));
        l
    }

    /// Sets the description.
    pub fn description(self, desc: &str) -> (r: Self)
        ensures
            r@ == (LookModel { description: desc@, ..self@ }),
    {
        let mut l = self;
        l.description = string_of(desc);
        l
    }

    /// Sets the forward transform.
    pub fn transform(self, t: YamlNode) -> (r: Self)
        ensures
            r@ == (LookModel { transform: Some(t@), ..self@ }),
    {
        let mut l = self;
        l.transform = Some(t);
        l
    }

    /// Sets the inverse transform.
    pub fn inverse_transform(self, t: YamlNode) -> (r: Self)
        ensures
            r@ == (LookModel { inverse_transform: Some(t@), ..self@ }),
    {
        let mut l = self;
        l.inverse_transform = Some(t);
        l
    }

    /// The look name.
    pub fn name(&self) -> (r: &str)
        ensures
            r@ == self@.name,
    {
        self.name.as_str()
    }

    /// The process space name.
    pub fn get_process_space(&self) -> (r: Option<&str>)
        ensures
            opt_str(r) == self@.process_space,
    {
        match &self.process_space {
            Some(s) => Some(s.as_str()),
            None => None,
        }
    }

    /// The description.
    pub fn get_description(&self) -> (r: &str)
        ensures
            r@ == self@.description,
    {
        self.description.as_str()
    }

    /// The forward transform.
    pub fn get_transform(&self) -> (r: Option<&YamlNode>)
        ensures
            opt_value(r) == self@.transform,
    {
        self.transform.as_ref()
    }

    /// The inverse transform.
    pub fn get_inverse_transform(&self) -> (r: Option<&YamlNode>)
        ensures
            opt_value(r) == self@.inverse_transform,
    {
        self.inverse_transform.as_ref()
    }

    /// Whether the look has an explicit inverse.
    pub fn has_inverse(&self) -> (r: bool)
        ensures
            r == (self@.inverse_transform is Some),
    {
        self.inverse_transform.is_some()
    }
}

/// The models of a sequence of looks.
pub open spec fn looks_models(v: Seq<Look>) -> Seq<LookModel> {
    v.map_values(|l: Look| l@)
}

/// The names of a sequence of looks.
pub open spec fn look_names_of(v: Seq<LookModel>) -> Seq<Seq<char>> {
    v.map_values(|l: LookModel| l.name)
}

/// The looks of a config, in the order added.
#[derive(Debug)]
pub struct LookManager {
    looks: Vec<Look>,
}

impl View for LookManager {
    type V = Seq<LookModel>;

    closed spec fn view(&self) -> Seq<LookModel> {
        looks_models(self.looks@)
    }
}

impl LookManager {
    /// No looks.
    pub fn new() -> (r: Self)
        ensures
            r@ == Seq::<LookModel>::empty(),
    {
        let r = LookManager { looks: Vec::new() };
        assert(looks_models(r.looks@) =~= Seq::empty());
        r
    }

    /// Adds a look.
    pub fn add(&mut self, look: Look)
        ensures
            final(self)@ == old(self)@.push(look@),
    {
        let ghost before = self.looks@;
        self.looks.push(look);
        assert(looks_models(self.looks@) =~= looks_models(before).push(look@));
    }

    /// The first look named `name`, ignoring ASCII case.
    pub fn get(&self, name: &str) -> (r: Option<&Look>)
        ensures
            match first_named(look_names_of(self@), name@) {
                Some(i) => r is Some && r.unwrap()@ == self@[i],
                None => r is None,
            },
    {
        let ghost names = look_names_of(self@);
        let mut i: usize = 0;
        while i < self.looks.len()
            invariant
                0 <= i <= self.looks@.len(),
                names == look_names_of(looks_models(self.looks@)),
                forall|j: int| 0 <= j < i ==> !eq_ascii_ci(#[trigger] names[j], name@),
            decreases self.looks@.len() - i,
        {
            assert(names[i as int] == self.looks@[i as int]@.name);
            if eq_ignore_ascii_case(self.looks[i].name(), name) {
                proof {
                    lemma_first_named(names, name@, i as int);
                }
                return Some(&self.looks[i]);
            }
            i = i + 1;
        }
        proof {
            lemma_first_named(names, name@, i as int);
        }
        None
    }

    /// All looks, in the order added.
    pub fn all(&self) -> (r: &[Look])
        ensures
            looks_models(r@) == self@,
    {
        self.looks.as_slice()
    }

    /// The look names, in order.
    pub fn names(&self) -> (r: Vec<&str>)
        ensures
            r@.map_values(|s: &str| s@) == look_names_of(self@),
    {
        let mut r: Vec<&str> = Vec::new();
        let mut i: usize = 0;
        while i < self.looks.len()
            invariant
                0 <= i <= self.looks@.len(),
                r@.map_values(|s: &str| s@) == look_names_of(looks_models(self.looks@)).take(i as int),
            decreases self.looks@.len() - i,
        {
            let ghost before = r@;
            r.push(self.looks[i].name());
            assert(r@.map_values(|s: &str| s@) =~= before.map_values(|s: &str| s@).push(
                self.looks@[i as int]@.name,
            ));
            assert(look_names_of(looks_models(self.looks@)).take(i + 1) =~= look_names_of(
                looks_models(self.looks@),
            ).take(i as int).push(self.looks@[i as int]@.name));
            i = i + 1;
        }
        assert(look_names_of(looks_models(self.looks@)).take(i as int) =~= look_names_of(
            looks_models(self.looks@),
        ));
        r
    }

    /// Number of looks.
    pub fn len(&self) -> (r: usize)
        ensures
            r == self@.len(),
    {
        self.looks.len()
    }

    /// Whether there are no looks.
    pub fn is_empty(&self) -> (r: bool)
        ensures
            r == (self@.len() == 0),
    {
        self.looks.len() == 0
    }
}

} // verus!
