//! Context variables (`$VAR`, `${VAR}`) for path resolution.
use vstd::prelude::*;
use crate::strmap::StrMap;
use crate::text::{char_alphanumeric, chars_of, is_alphanumeric, push_char, push_str, string_of};
use crate::look::index_of_or_len;

verus! {

/// Context for variable substitution in file paths.
///
/// Values set with [`Context::set`] take precedence; when the context uses
/// the environment, values loaded with [`Context::set_env_var`] (the process
/// environment as read by the caller) are consulted next.
#[derive(Debug)]
pub struct Context {
    vars: StrMap,
    use_env: bool,
    env: StrMap,
}

/// Length of the longest prefix of `s` made of alphanumeric characters and `_`.
pub open spec fn ident_len(s: Seq<char>) -> nat
    decreases s.len(),
{
    if s.len() > 0 && (char_alphanumeric(s[0]) || s[0] == '_') {
        1 + ident_len(s.drop_first())
    } else {
        0
    }
}

pub proof fn lemma_ident_len(s: Seq<char>)
    ensures
        ident_len(s) <= s.len(),
    decreases s.len(),
{
    if s.len() > 0 {
        lemma_ident_len(s.drop_first());
    }
}

pub proof fn lemma_index_bound(s: Seq<char>, c: char)
    ensures
        index_of_or_len(s, c) <= s.len(),
        index_of_or_len(s, c) < s.len() ==> s[index_of_or_len(s, c) as int] == c,
        forall|j: int| 0 <= j < index_of_or_len(s, c) ==> s[j] != c,
    decreases s.len(),
{
    if s.len() > 0 && s[0] != c {
        lemma_index_bound(s.drop_first(), c);
        assert forall|j: int| 0 <= j < index_of_or_len(s, c) implies s[j] != c by {
            if j > 0 {
                assert(s[j] == s.drop_first()[j - 1]);
            }
        }
    }
}

impl Context {
    /// Variables set on this context.
    pub closed spec fn vars_map(&self) -> Map<Seq<char>, Seq<char>> {
        self.vars@
    }

    /// The set variables, in the order they were first set.
    pub closed spec fn vars_order(&self) -> Seq<(Seq<char>, Seq<char>)> {
        self.vars.ordered()
    }

    /// Environment values known to this context.
    pub closed spec fn env_map(&self) -> Map<Seq<char>, Seq<char>> {
        self.env@
    }

    /// Whether the environment is consulted after the set variables.
    pub closed spec fn uses_env(&self) -> bool {
        self.use_env
    }

    /// The value of variable `name`: a set variable first, then the environment if used.
    pub open spec fn lookup(&self, name: Seq<char>) -> Option<Seq<char>> {
        if self.vars_map().contains_key(name) {
            Some(self.vars_map()[name])
        } else if self.uses_env() && self.env_map().contains_key(name) {
            Some(self.env_map()[name])
        } else {
            None
        }
    }

    /// The result of substituting every `$VAR` and `${VAR}` reference in `s`;
    /// unknown references are left as written, and so is a `${` that no `}`
    /// closes, with all the text after it.
    pub open spec fn resolve_seq(&self, s: Seq<char>) -> Seq<char>
        decreases s.len(),
    {
        if s.len() == 0 {
            Seq::empty()
        } else if s[0] != '$' {
            seq![s[0]] + self.resolve_seq(s.drop_first())
        } else if s.len() > 1 && s[1] == '{' {
            let body = s.skip(2);
            let k = index_of_or_len(body, '}');
            if k < body.len() {
                let name = body.take(k as int);
                let out = match self.lookup(name) {
                    Some(v) => v,
                    None => seq!['$', '{'] + name + seq!['}'],
                };
                out + self.resolve_seq(body.skip(k as int + 1))
            } else {
                s
            }
        } else {
            let rest = s.drop_first();
            let k = ident_len(rest);
            proof {
                lemma_ident_len(rest);
            }
            let name = rest.take(k as int);
            let out = if k == 0 {
                seq!['$']
            } else {
                match self.lookup(name) {
                    Some(v) => v,
                    None => seq!['$'] + name,
                }
            };
            out + self.resolve_seq(rest.skip(k as int))
        }
    }

    /// A new empty context that also consults the environment.
    pub fn new() -> (c: Self)
        ensures
            c.vars_map() == Map::<Seq<char>, Seq<char>>::empty(),
            c.vars_order() == Seq::<(Seq<char>, Seq<char>)>::empty(),
            c.env_map() == Map::<Seq<char>, Seq<char>>::empty(),
            c.uses_env(),
    {
        Context { vars: StrMap::new(), use_env: true, env: StrMap::new() }
    }

    /// A new empty context that ignores the environment.
    pub fn without_env() -> (c: Self)
        ensures
            c.vars_map() == Map::<Seq<char>, Seq<char>>::empty(),
            c.vars_order() == Seq::<(Seq<char>, Seq<char>)>::empty(),
            c.env_map() == Map::<Seq<char>, Seq<char>>::empty(),
            !c.uses_env(),
    {
        Context { vars: StrMap::new(), use_env: false, env: StrMap::new() }
    }

    /// Sets a context variable; it takes precedence over the environment.
    pub fn set(&mut self, name: &str, value: &str)
        ensures
            final(self).vars_map() == old(self).vars_map().insert(name@, value@),
            final(self).vars_order() == crate::strmap::upsert(old(self).vars_order(), name@, value@),
            final(self).env_map() == old(self).env_map(),
            final(self).uses_env() == old(self).uses_env(),
    {
        self.vars.insert(name, value);
    }

    /// Records the value of an environment variable.
    pub fn set_env_var(&mut self, name: &str, value: &str)
        ensures
            final(self).env_map() == old(self).env_map().insert(name@, value@),
            final(self).vars_map() == old(self).vars_map(),
            final(self).vars_order() == old(self).vars_order(),
            final(self).uses_env() == old(self).uses_env(),
    {
        self.env.insert(name, value);
    }

    /// The value of a variable: set variables first, then the environment if used.
    pub fn get(&self, name: &str) -> (r: Option<String>)
        ensures
            match r {
                Some(v) => self.lookup(name@) == Some(v@),
                None => self.lookup(name@) is None,
            },
    {
        match self.vars.get(name) {
            Some(v) => Some(string_of(v)),
            None => {
                if self.use_env {
                    match self.env.get(name) {
                        Some(v) => Some(string_of(v)),
                        None => None,
                    }
                } else {
                    None
                }
            },
        }
    }

    /// Whether a variable is defined.
    pub fn contains(&self, name: &str) -> (r: bool)
        ensures
            r == (self.lookup(name@) is Some),
    {
        self.vars.contains_key(name) || (self.use_env && self.env.contains_key(name))
    }

    /// The value for `cs[a..b]` as a variable name.
    fn lookup_chars(&self, cs: &Vec<char>, a: usize, b: usize) -> (r: Option<String>)
        requires
            a <= b <= cs@.len(),
        ensures
            match r {
                Some(v) => self.lookup(cs@.subrange(a as int, b as int)) == Some(v@),
                None => self.lookup(cs@.subrange(a as int, b as int)) is None,
            },
    {
        let name = crate::text::string_from_chars(cs, a, b);
        self.get(name.as_str())
    }

    /// Resolves all `$VAR` and `${VAR}` references in a string; unknown
    /// variables are left as written.
    #[verifier::rlimit(50)]
    #[verifier::spinoff_prover]
    pub fn resolve(&self, input: &str) -> (r: String)
        ensures
            r@ == self.resolve_seq(input@),
    {
        let cs = chars_of(input);
        let ghost s = cs@;
        let n = cs.len();
        let mut out = String::new();
        let mut i: usize = 0;
        assert(s.skip(0) =~= s);
        while i < n
            invariant
                cs@ == s,
                s == input@,
                n == s.len(),
                i <= n,
                out@ + self.resolve_seq(s.skip(i as int)) == self.resolve_seq(s),
            decreases n - i,
        {
            let ghost t = s.skip(i as int);
            let ghost before = out@;
            assert(t[0] == cs@[i as int]);
            if cs[i] != '$' {
                push_char(&mut out, cs[i]);
                assert(t.drop_first() =~= s.skip(i + 1));
                assert(out@ + self.resolve_seq(s.skip(i + 1)) =~= before + (seq![cs@[i as int]]
                    + self.resolve_seq(t.drop_first())));
                i = i + 1;
            } else if i + 1 < n && cs[i + 1] == '{' {
                assert(t[1] == cs@[i + 1]);
                let start = i + 2;
                let mut j = start;
                while j < n && cs[j] != '}'
                    invariant
                        cs@ == s,
                        n == s.len(),
                        start <= j <= n,
                        forall|m: int| start <= m < j ==> cs@[m] != '}',
                    decreases n - j,
                {
                    j = j + 1;
                }
                let ghost body = t.skip(2);
                proof {
                    assert(body =~= s.skip(start as int));
                    lemma_index_bound(body, '}');
                    let k = index_of_or_len(body, '}');
                    if k < j - start {
                        assert(body[k as int] == cs@[start + k]);
                    }
                    if j < n && k > j - start {
                        assert(body[j - start] == cs@[j as int]);
                    }
                    assert(k == j - start);
                    assert(body.take(k as int) =~= s.subrange(start as int, j as int));
                }
                if j < n {
                    let value = self.lookup_chars(&cs, start, j);
                    match value {
                        Some(v) => {
                            push_str(&mut out, v.as_str());
                        },
                        None => {
                            push_char(&mut out, '$');
                            push_char(&mut out, '{');
                            let name = crate::text::string_from_chars(&cs, start, j);
                            push_str(&mut out, name.as_str());
                            push_char(&mut out, '}');
                        },
                    }
                    let next = j + 1;
                    proof {
                        let k = index_of_or_len(body, '}');
                        assert(body.skip(k as int + 1) =~= s.skip(next as int));
                        let name = body.take(k as int);
                        let piece = match self.lookup(name) {
                            Some(v) => v,
                            None => seq!['$', '{'] + name + seq!['}'],
                        };
                        assert(out@ == before + piece);
                        assert(out@ + self.resolve_seq(s.skip(next as int)) =~= before + self.resolve_seq(t));
                    }
                    i = next;
                } else {
                    let tail = crate::text::string_from_chars(&cs, i, n);
                    push_str(&mut out, tail.as_str());
                    proof {
                        assert(tail@ =~= t);
                        assert(s.skip(n as int) =~= Seq::<char>::empty());
                        assert(out@ + self.resolve_seq(s.skip(n as int)) =~= before + self.resolve_seq(t));
                    }
                    i = n;
                }
            } else {
                let start = i + 1;
                let mut j = start;
                while j < n && (is_alphanumeric(cs[j]) || cs[j] == '_')
                    invariant
                        cs@ == s,
                        n == s.len(),
                        start <= j <= n,
                        ident_len(s.skip(start as int)) == (j - start) + ident_len(s.skip(j as int)),
                    decreases n - j,
                {
                    proof {
                        assert(s.skip(j as int).drop_first() =~= s.skip(j + 1));
                        assert(s.skip(j as int)[0] == cs@[j as int]);
                    }
                    j = j + 1;
                }
                let ghost rest = t.drop_first();
                proof {
                    assert(rest =~= s.skip(start as int));
                    if j < n {
                        assert(s.skip(j as int)[0] == cs@[j as int]);
                    }
                    assert(ident_len(s.skip(j as int)) == 0);
                    assert(rest.take(j - start) =~= s.subrange(start as int, j as int));
                    assert(rest.skip(j - start) =~= s.skip(j as int));
                }
                if j == start {
                    push_char(&mut out, '$');
                } else {
                    let value = self.lookup_chars(&cs, start, j);
                    match value {
                        Some(v) => {
                            push_str(&mut out, v.as_str());
                        },
                        None => {
                            push_char(&mut out, '$');
                            let name = crate::text::string_from_chars(&cs, start, j);
                            push_str(&mut out, name.as_str());
                        },
                    }
                }
                proof {
                    assert(out@ + self.resolve_seq(s.skip(j as int)) =~= before + self.resolve_seq(t));
                }
                i = j;
            }
        }
        assert(s.skip(n as int) =~= Seq::<char>::empty());
        assert(out@ =~= out@ + self.resolve_seq(s.skip(n as int)));
        out
    }

    /// All set variables, in the order they were first set.
    pub fn vars(&self) -> (r: &StrMap)
        ensures
            r@ == self.vars_map(),
            r.ordered() == self.vars_order(),
    {
        &self.vars
    }

    /// Clears all set variables.
    pub fn clear(&mut self)
        ensures
            final(self).vars_map() == Map::<Seq<char>, Seq<char>>::empty(),
            final(self).vars_order() == Seq::<(Seq<char>, Seq<char>)>::empty(),
            final(self).env_map() == old(self).env_map(),
            final(self).uses_env() == old(self).uses_env(),
    {
        self.vars.clear();
    }
}

} // verus!

verus! {

/// Whether every character of `s` may stand in a variable name
/// (alphanumeric or `_`).
pub open spec fn is_ident(s: Seq<char>) -> bool {
    forall|i: int| 0 <= i < s.len() ==> char_alphanumeric(#[trigger] s[i]) || s[i] == '_'
}

proof fn lemma_ident_len_of(name: Seq<char>, rest: Seq<char>)
    requires
        is_ident(name),
        rest.len() == 0 || !(char_alphanumeric(rest[0]) || rest[0] == '_'),
    ensures
        ident_len(name + rest) == name.len(),
    decreases name.len(),
{
    if name.len() == 0 {
        assert(name + rest =~= rest);
    } else {
        assert((name + rest).drop_first() =~= name.drop_first() + rest);
        assert(char_alphanumeric(name[0]) || name[0] == '_');
        lemma_ident_len_of(name.drop_first(), rest);
    }
}

/// Text without `$` resolves to itself.
pub proof fn law_resolve_plain_text(c: Context, s: Seq<char>)
    requires
        forall|i: int| 0 <= i < s.len() ==> s[i] != '$',
    ensures
        c.resolve_seq(s) == s,
    decreases s.len(),
{
    if s.len() > 0 {
        law_resolve_plain_text(c, s.drop_first());
        assert(seq![s[0]] + s.drop_first() =~= s);
    }
}

/// A `$NAME` reference (a name of alphanumeric characters and `_`, not
/// starting with `{`, and not followed by such a character) resolves to the
/// variable's value, or stays as written when the variable is unknown; the
/// text after it is resolved in turn.
pub proof fn law_resolve_var(c: Context, name: Seq<char>, rest: Seq<char>)
    requires
        name.len() > 0,
        name[0] != '{',
        is_ident(name),
        rest.len() == 0 || !(char_alphanumeric(rest[0]) || rest[0] == '_'),
    ensures
        c.resolve_seq(seq!['$'] + name + rest) == (match c.lookup(name) {
            Some(v) => v,
            None => seq!['$'] + name,
        }) + c.resolve_seq(rest),
{
    let s = seq!['$'] + name + rest;
    assert(s[0] == '$');
    assert(s[1] == name[0]);
    let r = s.drop_first();
    assert(r =~= name + rest);
    lemma_ident_len_of(name, rest);
    assert(r.take(name.len() as int) =~= name);
    assert(r.skip(name.len() as int) =~= rest);
}

/// A `${NAME}` reference (a name without `}`) resolves to the variable's
/// value, or stays as written when the variable is unknown; the text after
/// it is resolved in turn.
pub proof fn law_resolve_braced_var(c: Context, name: Seq<char>, rest: Seq<char>)
    requires
        forall|i: int| 0 <= i < name.len() ==> name[i] != '}',
    ensures
        c.resolve_seq(seq!['$', '{'] + name + seq!['}'] + rest) == (match c.lookup(name) {
            Some(v) => v,
            None => seq!['$', '{'] + name + seq!['}'],
        }) + c.resolve_seq(rest),
{
    let s = seq!['$', '{'] + name + seq!['}'] + rest;
    assert(s[0] == '$');
    assert(s[1] == '{');
    let body = s.skip(2);
    assert(body =~= name + seq!['}'] + rest);
    crate::look::lemma_index_of(body, '}', name.len() as int);
    assert(body.take(name.len() as int) =~= name);
    assert(body.skip(name.len() as int + 1) =~= rest);
}

/// A `${` that no `}` closes stays as written, with all the text after it.
pub proof fn law_resolve_unclosed(c: Context, name: Seq<char>)
    requires
        forall|i: int| 0 <= i < name.len() ==> name[i] != '}',
    ensures
        c.resolve_seq(seq!['$', '{'] + name) == seq!['$', '{'] + name,
{
    let s = seq!['$', '{'] + name;
    assert(s[0] == '$');
    assert(s[1] == '{');
    let body = s.skip(2);
    assert(body =~= name);
    crate::look::lemma_index_of(body, '}', name.len() as int);
}

/// When no variable is known, every text resolves to itself: unknown
/// references are left as written.
pub proof fn law_resolve_unknown_left_as_is(c: Context, s: Seq<char>)
    requires
        forall|n: Seq<char>| #[trigger] c.lookup(n) is None,
    ensures
        c.resolve_seq(s) == s,
    decreases s.len(),
{
    if s.len() == 0 {
    } else if s[0] != '$' {
        law_resolve_unknown_left_as_is(c, s.drop_first());
        assert(seq![s[0]] + s.drop_first() =~= s);
    } else if s.len() > 1 && s[1] == '{' {
        let body = s.skip(2);
        lemma_index_bound(body, '}');
        let k = index_of_or_len(body, '}');
        if k < body.len() {
            let name = body.take(k as int);
            let rest = body.skip(k as int + 1);
            assert(c.lookup(name) is None);
            law_resolve_unknown_left_as_is(c, rest);
            assert(seq!['$', '{'] + name + seq!['}'] + rest =~= s);
        }
    } else {
        let rest = s.drop_first();
        lemma_ident_len(rest);
        let k = ident_len(rest);
        let name = rest.take(k as int);
        assert(c.lookup(name) is None);
        law_resolve_unknown_left_as_is(c, rest.skip(k as int));
        if k == 0 {
            assert(seq!['$'] + rest.skip(k as int) =~= s);
        } else {
            assert(seq!['$'] + name + rest.skip(k as int) =~= s);
        }
    }
}

} // verus!
