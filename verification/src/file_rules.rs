//! File rules: which color space a file path is given.
use vstd::prelude::*;
use crate::display::{opt_str, opt_string};
use crate::patterns::{glob_error, glob_matches, regex_matches, path_extension, glob_check, glob_is_match, regex_is_match, file_extension};
use crate::text::{chars_of, push_char, str_lower, to_lowercase, string_from_chars, str_eq};

verus! {

/// File rule matching behavior.
#[derive(Debug)]
pub enum FileRuleKind {
    /// Basic rule: glob pattern and optional extension.
    Basic {
        pattern: String,
        extension: Option<String>,
    },
    /// Regex rule: the regular expression's text.
    Regex {
        regex: String,
    },
    /// Default rule (fallback).
    Default,
}

/// What a file rule kind holds.
pub enum FileRuleKindModel {
    Basic(Seq<char>, Option<Seq<char>>),
    Regex(Seq<char>),
    Default,
}

impl vstd::view::View for FileRuleKind {
    type V = FileRuleKindModel;

    open spec fn view(&self) -> FileRuleKindModel {
        match self {
            FileRuleKind::Basic { pattern, extension } => FileRuleKindModel::Basic(pattern@, opt_string(*extension)),
            FileRuleKind::Regex { regex } => FileRuleKindModel::Regex(regex@),
            FileRuleKind::Default => FileRuleKindModel::Default,
        }
    }
}

/// File rule for automatic color space assignment.
#[derive(Debug)]
pub struct FileRule {
    /// Rule name.
    pub name: String,
    /// Assigned color space.
    pub colorspace: String,
    /// Rule matching kind.
    pub kind: FileRuleKind,
}

/// What a file rule holds.
pub struct FileRuleModel {
    pub name: Seq<char>,
    pub colorspace: Seq<char>,
    pub kind: FileRuleKindModel,
}

impl vstd::view::View for FileRule {
    type V = FileRuleModel;

    open spec fn view(&self) -> FileRuleModel {
        FileRuleModel { name: self.name@, colorspace: self.colorspace@, kind: self.kind@ }
    }
}


/// Whether `c` is a glob metacharacter.
pub open spec fn is_glob_char(c: char) -> bool {
    c == '*' || c == '?' || c == '[' || c == ']'
}

/// Whether `s` holds a glob metacharacter.
pub open spec fn has_glob(s: Seq<char>) -> bool {
    exists|i: int| 0 <= i < s.len() && is_glob_char(#[trigger] s[i])
}

/// Whether a string holds a glob metacharacter (`*`, `?`, `[` or `]`).
pub fn has_glob_chars(s: &str) -> (r: bool)
    ensures
        r == has_glob(s@),
{
    let cs = chars_of(s);
    let mut i: usize = 0;
    while i < cs.len()
        invariant
            cs@ == s@,
            0 <= i <= cs@.len(),
            forall|j: int| 0 <= j < i ==> !is_glob_char(#[trigger] cs@[j]),
        decreases cs@.len() - i,
    {
        let c = cs[i];
        if c == '*' || c == '?' || c == '[' || c == ']' {
            assert(is_glob_char(cs@[i as int]));
            return true;
        }
        i = i + 1;
    }
    false
}

/// `s` with every backslash turned into a forward slash.
pub open spec fn normalized(s: Seq<char>) -> Seq<char> {
    s.map_values(|c: char| if c == '\\' { '/' } else { c })
}

/// A path with every backslash turned into a forward slash.
pub fn normalize_path(path: &str) -> (r: String)
    ensures
        r@ == normalized(path@),
{
    let cs = chars_of(path);
    let mut out = String::new();
    let mut i: usize = 0;
    while i < cs.len()
        invariant
            cs@ == path@,
            0 <= i <= cs@.len(),
            out@ == normalized(cs@.take(i as int)),
        decreases cs@.len() - i,
    {
        let c = cs[i];
        let d = if c == '\\' { '/' } else { c };
        push_char(&mut out, d);
        assert(normalized(cs@.take(i + 1)) =~= normalized(cs@.take(i as int)).push(d));
        i = i + 1;
    }
    assert(cs@.take(i as int) =~= cs@);
    out
}

/// The number of dots at the start of `s`.
pub open spec fn lead_dots(s: Seq<char>) -> nat
    decreases s.len(),
{
    if s.len() > 0 && s[0] == '.' {
        1 + lead_dots(s.drop_first())
    } else {
        0
    }
}

/// `s` without its leading dots (`trim_start_matches('.')`).
pub open spec fn trim_dots(s: Seq<char>) -> Seq<char> {
    s.skip(lead_dots(s) as int)
}

proof fn lemma_lead_dots(s: Seq<char>, i: int)
    requires
        0 <= i <= s.len(),
        forall|j: int| 0 <= j < i ==> s[j] == '.',
        i == s.len() || s[i] != '.',
    ensures
        lead_dots(s) == i,
    decreases s.len(),
{
    if i > 0 {
        lemma_lead_dots(s.drop_first(), i - 1);
    }
}

/// A string without its leading dots.
fn trim_leading_dots(s: &str) -> (r: String)
    ensures
        r@ == trim_dots(s@),
{
    let cs = chars_of(s);
    let mut i: usize = 0;
    while i < cs.len() && cs[i] == '.'
        invariant
            cs@ == s@,
            0 <= i <= cs@.len(),
            forall|j: int| 0 <= j < i ==> cs@[j] == '.',
        decreases cs@.len() - i,
    {
        i = i + 1;
    }
    proof {
        lemma_lead_dots(cs@, i as int);
    }
    let r = string_from_chars(&cs, i, cs.len());
    assert(r@ =~= trim_dots(s@));
    r
}

/// How a rule treats a file.
#[derive(Debug, Clone, Copy, PartialEq, Eq, Structural)]
pub enum RuleOutcome {
    /// The rule gives the file its color space.
    Applies,
    /// The rule does not concern the file; later rules are tried.
    Skip,
    /// A pattern of the rule does not compile; no color space is given.
    Abort,
}

/// How a rule's extension `e` treats a file whose lower-cased extension is `file_ext`.
pub open spec fn extension_outcome(e: Seq<char>, file_ext: Seq<char>) -> RuleOutcome {
    let er = str_lower(trim_dots(e));
    if has_glob(er) {
        if glob_error(er) is Some {
            RuleOutcome::Abort
        } else if glob_matches(er, file_ext) {
            RuleOutcome::Applies
        } else {
            RuleOutcome::Skip
        }
    } else if file_ext == er {
        RuleOutcome::Applies
    } else {
        RuleOutcome::Skip
    }
}

/// How a rule of kind `k` treats the (normalized) path `path` whose
/// lower-cased extension is `file_ext`.
pub open spec fn rule_outcome(k: FileRuleKindModel, path: Seq<char>, file_ext: Seq<char>) -> RuleOutcome {
    match k {
        FileRuleKindModel::Basic(p, ext) => if p.len() > 0 && glob_error(p) is Some {
            RuleOutcome::Abort
        } else if p.len() > 0 && !glob_matches(p, path) {
            RuleOutcome::Skip
        } else {
            match ext {
                Some(e) => extension_outcome(e, file_ext),
                None => RuleOutcome::Applies,
            }
        },
        FileRuleKindModel::Regex(re) => if regex_matches(re, path) {
            RuleOutcome::Applies
        } else {
            RuleOutcome::Skip
        },
        FileRuleKindModel::Default => RuleOutcome::Applies,
    }
}

/// The lower-cased extension of a path (empty when it has none).
pub open spec fn file_ext_of(path: Seq<char>) -> Seq<char> {
    match path_extension(path) {
        Some(e) => str_lower(e),
        None => Seq::empty(),
    }
}

/// The color space given by the first rule that does not skip the file:
/// `None` when that rule aborts or when every rule skips the file.
pub open spec fn rules_colorspace(rules: Seq<FileRuleModel>, path: Seq<char>, file_ext: Seq<char>) -> Option<Seq<char>>
    decreases rules.len(),
{
    if rules.len() == 0 {
        None
    } else {
        match rule_outcome(rules[0].kind, path, file_ext) {
            RuleOutcome::Applies => Some(rules[0].colorspace),
            RuleOutcome::Abort => None,
            RuleOutcome::Skip => rules_colorspace(rules.drop_first(), path, file_ext),
        }
    }
}

/// The color space that `rules` give the file at `filepath`.
pub open spec fn colorspace_for_path(rules: Seq<FileRuleModel>, filepath: Seq<char>) -> Option<Seq<char>> {
    let p = normalized(filepath);
    rules_colorspace(rules, p, file_ext_of(p))
}

/// Rules that skip the file can be dropped from the front.
pub proof fn lemma_rules_skip(rules: Seq<FileRuleModel>, path: Seq<char>, file_ext: Seq<char>, i: int)
    requires
        0 <= i <= rules.len(),
        forall|j: int| 0 <= j < i ==> rule_outcome(#[trigger] rules[j].kind, path, file_ext) == RuleOutcome::Skip,
    ensures
        rules_colorspace(rules, path, file_ext) == rules_colorspace(rules.skip(i), path, file_ext),
    decreases i,
{
    if i == 0 {
        assert(rules.skip(0) =~= rules);
    } else {
        let d = rules.drop_first();
        assert forall|j: int| 0 <= j < i - 1 implies rule_outcome(#[trigger] d[j].kind, path, file_ext) == RuleOutcome::Skip by {
            assert(d[j] == rules[j + 1]);
        }
        assert(rule_outcome(rules[0].kind, path, file_ext) == RuleOutcome::Skip);
        lemma_rules_skip(d, path, file_ext, i - 1);
        assert(d.skip(i - 1) =~= rules.skip(i));
    }
}

/// A basic rule with an extension never applies to a file whose extension
/// that rule's extension (dots trimmed, lower-cased) neither equals nor
/// glob-matches, whatever the rule's pattern.
pub proof fn law_extension_mismatch_not_applied(p: Seq<char>, e: Seq<char>, path: Seq<char>, file_ext: Seq<char>)
    requires
        str_lower(trim_dots(e)) != file_ext,
        !glob_matches(str_lower(trim_dots(e)), file_ext),
    ensures
        rule_outcome(FileRuleKindModel::Basic(p, Some(e)), path, file_ext) != RuleOutcome::Applies,
{
}

/// A well-formed basic rule whose extension does not fit the file is passed
/// over: the file gets the color space that the later rules give it.
pub proof fn law_extension_mismatch_falls_through(rules: Seq<FileRuleModel>, filepath: Seq<char>)
    requires
        rules.len() > 0,
        rules[0].kind matches FileRuleKindModel::Basic(p, Some(e)) && {
            let er = str_lower(trim_dots(e));
            let ext = file_ext_of(normalized(filepath));
            &&& (p.len() == 0 || glob_error(p) is None)
            &&& (has_glob(er) ==> glob_error(er) is None)
            &&& er != ext
            &&& !glob_matches(er, ext)
        },
    ensures
        colorspace_for_path(rules, filepath) == colorspace_for_path(rules.drop_first(), filepath),
{
    let path = normalized(filepath);
    let ext = file_ext_of(path);
    assert(rule_outcome(rules[0].kind, path, ext) == RuleOutcome::Skip);
}

/// How the extension `e` of a rule treats a file with lower-cased extension `file_ext`.
fn extension_check(e: &str, file_ext: &str) -> (r: RuleOutcome)
    ensures
        r == extension_outcome(e@, file_ext@),
{
    let trimmed = trim_leading_dots(e);
    let er = to_lowercase(trimmed.as_str());
    if has_glob_chars(er.as_str()) {
        match glob_check(er.as_str()) {
            Some(_) => RuleOutcome::Abort,
            None => if glob_is_match(er.as_str(), file_ext) {
                RuleOutcome::Applies
            } else {
                RuleOutcome::Skip
            },
        }
    } else if str_eq(file_ext, er.as_str()) {
        RuleOutcome::Applies
    } else {
        RuleOutcome::Skip
    }
}

impl FileRule {
    /// How this rule treats the (normalized) path `path` whose lower-cased
    /// extension is `file_ext`.
    pub fn outcome(&self, path: &str, file_ext: &str) -> (r: RuleOutcome)
        ensures
            r == rule_outcome(self@.kind, path@, file_ext@),
    {
        match &self.kind {
            FileRuleKind::Basic { pattern, extension } => {
                if !pattern.as_str().is_empty() {
                    if glob_check(pattern.as_str()).is_some() {
                        return RuleOutcome::Abort;
                    }
                    if !glob_is_match(pattern.as_str(), path) {
                        return RuleOutcome::Skip;
                    }
                }
                match extension {
                    Some(e) => extension_check(e.as_str(), file_ext),
                    None => RuleOutcome::Applies,
                }
            },
            FileRuleKind::Regex { regex } => if regex_is_match(regex.as_str(), path) {
                RuleOutcome::Applies
            } else {
                RuleOutcome::Skip
            },
            FileRuleKind::Default => RuleOutcome::Applies,
        }
    }
}

/// The lower-cased extension of a path (empty when it has none).
pub fn lowercase_extension(path: &str) -> (r: String)
    ensures
        r@ == file_ext_of(path@),
{
    match file_extension(path) {
        Some(e) => to_lowercase(e.as_str()),
        None => String::new(),
    }
}

} // verus!
