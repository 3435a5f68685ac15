//! Roles: semantic names mapped to color space names.
use vstd::prelude::*;
use crate::strmap::{StrMap, keys_unique, map_of};
use vstd::std_specs::iter::IteratorSpec;

pub mod names;

verus! {

/// Role to color space mapping.
#[derive(Debug)]
pub struct Roles {
    mapping: StrMap,
}

impl View for Roles {
    type V = Map<Seq<char>, Seq<char>>;

    closed spec fn view(&self) -> Map<Seq<char>, Seq<char>> {
        self.mapping@
    }
}

/// The color space that `role` maps to in `m`.
pub open spec fn role_target(m: Map<Seq<char>, Seq<char>>, role: Seq<char>) -> Option<Seq<char>> {
    if m.contains_key(role) {
        Some(m[role])
    } else {
        None
    }
}

/// The view of an optional string slice.
pub open spec fn opt_view(o: Option<&str>) -> Option<Seq<char>> {
    match o {
        Some(s) => Some(s@),
        None => None,
    }
}

impl Roles {
    /// The (role, color space) pairs in the order the roles were first defined.
    pub closed spec fn ordered(&self) -> Seq<(Seq<char>, Seq<char>)> {
        self.mapping.ordered()
    }

    /// Creates an empty roles mapping.
    pub fn new() -> (r: Self)
        ensures
            r@ == Map::<Seq<char>, Seq<char>>::empty(),
            r.ordered().len() == 0,
    {
        Roles { mapping: StrMap::new() }
    }

    /// Maps `role` to `colorspace`, replacing any earlier mapping of `role`.
    pub fn define(&mut self, role: &str, colorspace: &str)
        ensures
            final(self)@ == old(self)@.insert(role@, colorspace@),
            final(self).ordered() == crate::strmap::upsert(old(self).ordered(), role@, colorspace@),
    {
        self.mapping.insert(role, colorspace);
    }

    /// Removes `role`, returning the color space it mapped to; the other roles
    /// keep their order.
    pub fn remove(&mut self, role: &str) -> (r: Option<String>)
        ensures
            match r {
                Some(c) => old(self)@.contains_key(role@) && c@ == old(self)@[role@],
                None => !old(self)@.contains_key(role@),
            },
            final(self)@ == old(self)@.remove(role@),
            final(self).ordered() == crate::strmap::remove_key(old(self).ordered(), role@),
    {
        self.mapping.remove(role)
    }

    /// The color space name for a role, if the role is defined.
    pub fn get(&self, role: &str) -> (r: Option<&str>)
        ensures
            opt_view(r) == role_target(self@, role@),
    {
        self.mapping.get(role)
    }

    /// Whether a role is defined.
    pub fn contains(&self, role: &str) -> (r: bool)
        ensures
            r == self@.contains_key(role@),
    {
        self.mapping.contains_key(role)
    }

    /// All (role, color space) pairs, in the order the roles were first defined.
    pub fn iter(&self) -> (r: std::vec::IntoIter<(&str, &str)>)
        ensures
            r.remaining().map_values(|p: (&str, &str)| (p.0@, p.1@)) == self.ordered(),
            keys_unique(self.ordered()),
            self@ == map_of(self.ordered()),
    {
        let v = self.mapping.pairs();
        v.into_iter()
    }

    /// All (role, color space) pairs as a vector, in the order the roles were first defined.
    pub fn pairs(&self) -> (r: Vec<(&str, &str)>)
        ensures
            r@.map_values(|p: (&str, &str)| (p.0@, p.1@)) == self.ordered(),
            keys_unique(self.ordered()),
            self@ == map_of(self.ordered()),
    {
        self.mapping.pairs()
    }

    /// Number of defined roles.
    pub fn len(&self) -> (r: usize)
        ensures
            r == self@.len(),
            r == self.ordered().len(),
    {
        self.mapping.len()
    }

    /// Whether no role is defined.
    pub fn is_empty(&self) -> (r: bool)
        ensures
            r == (self@.len() == 0),
    {
        self.mapping.len() == 0
    }

    /// Whether the required `reference` role is defined.
    pub fn has_reference(&self) -> (r: bool)
        ensures
            r == self@.contains_key(names::REFERENCE@),
    {
        self.contains(names::REFERENCE)
    }

    /// The reference color space name.
    pub fn reference(&self) -> (r: Option<&str>)
        ensures
            opt_view(r) == role_target(self@, names::REFERENCE@),
    {
        self.get(names::REFERENCE)
    }

    /// The scene_linear color space name.
    pub fn scene_linear(&self) -> (r: Option<&str>)
        ensures
            opt_view(r) == role_target(self@, names::SCENE_LINEAR@),
    {
        self.get(names::SCENE_LINEAR)
    }

    /// The data color space name.
    pub fn data(&self) -> (r: Option<&str>)
        ensures
            opt_view(r) == role_target(self@, names::DATA@),
    {
        self.get(names::DATA)
    }

    /// The default input color space name.
    pub fn default_input(&self) -> (r: Option<&str>)
        ensures
            opt_view(r) == role_target(self@, names::DEFAULT@),
    {
        self.get(names::DEFAULT)
    }
}

/// After `define(role, cs)`, looking `role` up gives `cs`; other roles keep their targets.
pub proof fn law_define_then_get(m: Map<Seq<char>, Seq<char>>, role: Seq<char>, cs: Seq<char>, other: Seq<char>)
    ensures
        role_target(m.insert(role, cs), role) == Some(cs),
        other != role ==> role_target(m.insert(role, cs), other) == role_target(m, other),
{
}

} // verus!
