//! Checking a config for problems: missing color spaces, roles and
//! displays, duplicates, and search paths that do not exist.
use vstd::prelude::*;
use crate::colorspace::{ColorSpace, ColorSpaceModel, strings_view};
use crate::config::{Config, ConfigModel, cs_lookup};
use crate::display::{Display, DisplayModel, ViewModel, displays_view, views_view};
use crate::seqs::{filter_map, lemma_filter_map_step, lemma_take_all, models};
use crate::text::{push_str, str_eq, string_of};
use crate::display::opt_string;

verus! {

/// Severity level of an issue.
#[derive(Debug, Clone, Copy, PartialEq, Eq, Structural)]
pub enum Severity {
    /// Informational message.
    Info,
    /// The config works but may have problems.
    Warning,
    /// The config has problems that may cause failures.
    Error,
}

/// The label of a severity.
pub open spec fn severity_label(s: Severity) -> Seq<char> {
    match s {
        Severity::Info => "INFO"@,
        Severity::Warning => "WARN"@,
        Severity::Error => "ERROR"@,
    }
}

impl Severity {
    /// The label of this severity: `INFO`, `WARN` or `ERROR`.
    pub fn as_str(&self) -> (r: &'static str)
        ensures
            r@ == severity_label(*self),
    {
        match self {
            Severity::Info => "INFO",
            Severity::Warning => "WARN",
            Severity::Error => "ERROR",
        }
    }
}

/// Category of an issue.
#[derive(Debug, Clone, Copy, PartialEq, Eq, Structural)]
pub enum IssueCategory {
    /// A color space that is referred to does not exist.
    MissingColorSpace,
    /// A role is not defined.
    MissingRole,
    /// A display or view is missing.
    MissingDisplay,
    /// A file or directory is missing.
    MissingFile,
    /// Transforms refer to each other in a circle.
    CircularReference,
    /// A transform is set up wrongly.
    InvalidTransform,
    /// A color space is not used.
    UnusedColorSpace,
    /// Something is defined twice.
    Duplicate,
}

/// An issue found in a config.
#[derive(Debug)]
pub struct Issue {
    /// Severity level.
    pub severity: Severity,
    /// Issue category.
    pub category: IssueCategory,
    /// Human-readable message.
    pub message: String,
    /// The element concerned (color space name, role, ...).
    pub context: Option<String>,
}

/// What an issue holds.
pub struct IssueModel {
    pub severity: Severity,
    pub category: IssueCategory,
    pub message: Seq<char>,
    pub context: Option<Seq<char>>,
}

impl View for Issue {
    type V = IssueModel;

    open spec fn view(&self) -> IssueModel {
        IssueModel {
            severity: self.severity,
            category: self.category,
            message: self.message@,
            context: opt_string(self.context),
        }
    }
}

/// An issue with the given parts.
pub open spec fn issue(
    severity: Severity,
    category: IssueCategory,
    message: Seq<char>,
    context: Option<Seq<char>>,
) -> IssueModel {
    IssueModel { severity, category, message, context }
}

/// The warning for a recommended role that is not defined.
pub open spec fn missing_role_issues(m: ConfigModel, role: Seq<char>) -> Seq<IssueModel> {
    if !m.roles.contains_key(role) {
        seq![issue(
            Severity::Warning,
            IssueCategory::MissingRole,
            "recommended role '"@ + role + "' is not defined"@,
            Some(role),
        )]
    } else {
        Seq::empty()
    }
}

/// The error for a role whose color space does not exist.
pub open spec fn role_target_issue(m: ConfigModel) -> spec_fn((Seq<char>, Seq<char>)) -> Option<IssueModel> {
    |p: (Seq<char>, Seq<char>)|
        if cs_lookup(m, p.1) is None {
            Some(
                issue(
                    Severity::Error,
                    IssueCategory::MissingColorSpace,
                    "role '"@ + p.0 + "' references non-existent color space '"@ + p.1 + "'"@,
                    Some(p.0),
                ),
            )
        } else {
            None
        }
}

/// The issues about roles: the recommended `reference` and `default` roles,
/// then each role (in order) whose color space does not exist.
pub open spec fn role_issues(m: ConfigModel) -> Seq<IssueModel> {
    missing_role_issues(m, "reference"@) + missing_role_issues(m, "default"@) + filter_map(
        m.role_order,
        role_target_issue(m),
    )
}

/// The error for a view of display `d` whose color space does not exist.
pub open spec fn view_issue(m: ConfigModel, d: Seq<char>) -> spec_fn(ViewModel) -> Option<IssueModel> {
    |v: ViewModel|
        if cs_lookup(m, v.colorspace) is None {
            Some(
                issue(
                    Severity::Error,
                    IssueCategory::MissingColorSpace,
                    "view '"@ + v.name + "' in display '"@ + d + "' references non-existent color space '"@
                        + v.colorspace + "'"@,
                    Some(d + ":"@ + v.name),
                ),
            )
        } else {
            None
        }
}

/// The issues about one display: no views, and views whose color space does not exist.
pub open spec fn one_display_issues(m: ConfigModel, d: DisplayModel) -> Seq<IssueModel> {
    (if d.views.len() == 0 {
        seq![issue(
            Severity::Warning,
            IssueCategory::MissingDisplay,
            "display '"@ + d.name + "' has no views"@,
            Some(d.name),
        )]
    } else {
        Seq::empty()
    }) + filter_map(d.views, view_issue(m, d.name))
}

/// The issues about the displays `ds`, display by display.
pub open spec fn displays_issues(m: ConfigModel, ds: Seq<DisplayModel>) -> Seq<IssueModel>
    decreases ds.len(),
{
    if ds.len() == 0 {
        Seq::empty()
    } else {
        displays_issues(m, ds.drop_last()) + one_display_issues(m, ds.last())
    }
}

/// The issues about displays: a warning when there is none, else those of each display.
pub open spec fn display_issues(m: ConfigModel) -> Seq<IssueModel> {
    if m.displays.displays.len() == 0 {
        seq![issue(Severity::Warning, IssueCategory::MissingDisplay, "no displays defined"@, None)]
    } else {
        displays_issues(m, m.displays.displays)
    }
}

/// Whether one of the first `n` color spaces is named exactly `name`.
pub open spec fn named_before(cs: Seq<ColorSpaceModel>, n: int, name: Seq<char>) -> bool {
    exists|j: int| 0 <= j < n && #[trigger] cs[j].name == name
}

/// The warning for an alias of color space `i` that is the name of it or of an earlier one.
pub open spec fn alias_issue(cs: Seq<ColorSpaceModel>, i: int) -> spec_fn(Seq<char>) -> Option<IssueModel> {
    |a: Seq<char>|
        if named_before(cs, i + 1, a) {
            Some(
                issue(
                    Severity::Warning,
                    IssueCategory::Duplicate,
                    "alias '"@ + a + "' for '"@ + cs[i].name + "' conflicts with existing name"@,
                    Some(cs[i].name),
                ),
            )
        } else {
            None
        }
}

/// The issues about color space `i`: a name used before, aliases that are
/// names already seen, and transforms on a data color space.
pub open spec fn colorspace_issues_at(cs: Seq<ColorSpaceModel>, i: int) -> Seq<IssueModel> {
    let c = cs[i];
    (if named_before(cs, i, c.name) {
        seq![issue(
            Severity::Error,
            IssueCategory::Duplicate,
            "duplicate color space name: '"@ + c.name + "'"@,
            Some(c.name),
        )]
    } else {
        Seq::empty()
    }) + filter_map(c.aliases, alias_issue(cs, i)) + (if c.is_data && (c.to_reference is Some
        || c.from_reference is Some) {
        seq![issue(
            Severity::Warning,
            IssueCategory::InvalidTransform,
            "data color space '"@ + c.name + "' has transforms defined (will be ignored)"@,
            Some(c.name),
        )]
    } else {
        Seq::empty()
    })
}

/// The issues about the first `n` color spaces.
pub open spec fn colorspace_issues(cs: Seq<ColorSpaceModel>, n: nat) -> Seq<IssueModel>
    decreases n,
{
    if n == 0 {
        Seq::empty()
    } else {
        colorspace_issues(cs, (n - 1) as nat) + colorspace_issues_at(cs, n - 1)
    }
}

/// The warnings for search paths that do not exist (`exists[i]` tells whether path `i` does).
pub open spec fn file_issues(paths: Seq<Seq<char>>, exists: Seq<bool>, n: nat) -> Seq<IssueModel>
    decreases n,
{
    if n == 0 {
        Seq::empty()
    } else {
        file_issues(paths, exists, (n - 1) as nat) + if !exists[n - 1] {
            seq![issue(
                Severity::Warning,
                IssueCategory::MissingFile,
                "search path does not exist: "@ + paths[n - 1],
                Some(paths[n - 1]),
            )]
        } else {
            Seq::empty()
        }
    }
}

/// Everything `check` reports on a config whose search paths exist as `exists` says.
pub open spec fn check_issues(m: ConfigModel, exists: Seq<bool>) -> Seq<IssueModel> {
    role_issues(m) + display_issues(m) + colorspace_issues(m.colorspaces, m.colorspaces.len()) + file_issues(
        m.search_paths,
        exists,
        m.search_paths.len(),
    )
}

fn push_issue(out: &mut Vec<Issue>, severity: Severity, category: IssueCategory, message: String, context: Option<String>)
    ensures
        models(final(out)@) == models(old(out)@).push(issue(severity, category, message@, opt_string(context))),
{
    let ghost before = out@;
    out.push(Issue { severity, category, message, context });
    assert(models(out@) =~= models(before).push(issue(severity, category, message@, opt_string(context))));
}

fn cat3(a: &str, b: &str, c: &str) -> (r: String)
    ensures
        r@ == a@ + b@ + c@,
{
    let mut m = string_of(a);
    push_str(&mut m, b);
    push_str(&mut m, c);
    m
}

fn push_missing_role(config: &Config, role: &str, out: &mut Vec<Issue>)
    ensures
        models(final(out)@) == models(old(out)@) + missing_role_issues(config@, role@),
{
    let ghost before = models(out@);
    if !config.roles().contains(role) {
        push_issue(
            out,
            Severity::Warning,
            IssueCategory::MissingRole,
            cat3("recommended role '", role, "' is not defined"),
            Some(string_of(role)),
        );
    }
    assert(models(out@) =~= before + missing_role_issues(config@, role@));
}

fn push_role_issues(config: &Config, out: &mut Vec<Issue>)
    ensures
        models(final(out)@) == models(old(out)@) + role_issues(config@),
{
    let ghost start = models(out@);
    push_missing_role(config, "reference", out);
    push_missing_role(config, "default", out);
    let ghost mid = models(out@);
    let pairs = config.roles().pairs();
    let ghost ps = config@.role_order;
    let ghost f = role_target_issue(config@);
    let mut i: usize = 0;
    assert(mid =~= mid + filter_map(ps.take(0), f));
    while i < pairs.len()
        invariant
            pairs@.map_values(|p: (&str, &str)| (p.0@, p.1@)) == ps,
            ps == config@.role_order,
            f == role_target_issue(config@),
            0 <= i <= pairs@.len(),
            models(out@) == mid + filter_map(ps.take(i as int), f),
        decreases pairs@.len() - i,
    {
        proof {
            lemma_filter_map_step(ps, f, i as int);
        }
        let (r, c) = pairs[i];
        assert(ps[i as int] == (r@, c@));
        let ghost before = models(out@);
        if config.colorspace(c).is_none() {
            let mut m = cat3("role '", r, "' references non-existent color space '");
            push_str(&mut m, c);
            push_str(&mut m, "'");
            push_issue(out, Severity::Error, IssueCategory::MissingColorSpace, m, Some(string_of(r)));
        }
        assert(models(out@) =~= mid + filter_map(ps.take(i + 1), f));
        i = i + 1;
    }
    proof {
        lemma_take_all(ps);
    }
    assert(models(out@) =~= start + role_issues(config@));
}

fn push_one_display_issues(config: &Config, d: &Display, out: &mut Vec<Issue>)
    ensures
        models(final(out)@) == models(old(out)@) + one_display_issues(config@, d.model()),
{
    let ghost start = models(out@);
    let views = d.views();
    let dname = d.name();
    if views.len() == 0 {
        push_issue(out, Severity::Warning, IssueCategory::MissingDisplay, cat3("display '", dname, "' has no views"), Some(string_of(dname)));
    }
    let ghost mid = models(out@);
    let ghost vs = d.model().views;
    let ghost f = view_issue(config@, dname@);
    let mut i: usize = 0;
    assert(mid =~= mid + filter_map(vs.take(0), f));
    while i < views.len()
        invariant
            views_view(views@) == vs,
            vs == d.model().views,
            dname@ == d.model().name,
            f == view_issue(config@, dname@),
            0 <= i <= views@.len(),
            models(out@) == mid + filter_map(vs.take(i as int), f),
        decreases views@.len() - i,
    {
        proof {
            lemma_filter_map_step(vs, f, i as int);
        }
        let v = &views[i];
        assert(vs[i as int] == v@);
        if config.colorspace(v.colorspace()).is_none() {
            let mut m = cat3("view '", v.name(), "' in display '");
            push_str(&mut m, dname);
            push_str(&mut m, "' references non-existent color space '");
            push_str(&mut m, v.colorspace());
            push_str(&mut m, "'");
            let ctx = cat3(dname, ":", v.name());
            push_issue(out, Severity::Error, IssueCategory::MissingColorSpace, m, Some(ctx));
        }
        assert(models(out@) =~= mid + filter_map(vs.take(i + 1), f));
        i = i + 1;
    }
    proof {
        lemma_take_all(vs);
    }
    assert(models(out@) =~= start + one_display_issues(config@, d.model()));
}

fn push_display_issues(config: &Config, out: &mut Vec<Issue>)
    ensures
        models(final(out)@) == models(old(out)@) + display_issues(config@),
{
    let ghost start = models(out@);
    let ds = config.displays().displays();
    let ghost dm = config@.displays.displays;
    if ds.len() == 0 {
        push_issue(out, Severity::Warning, IssueCategory::MissingDisplay, string_of("no displays defined"), None);
        return;
    }
    let mut i: usize = 0;
    assert(start =~= start + displays_issues(config@, dm.take(0)));
    while i < ds.len()
        invariant
            displays_view(ds@) == dm,
            dm == config@.displays.displays,
            0 <= i <= ds@.len(),
            models(out@) == start + displays_issues(config@, dm.take(i as int)),
        decreases ds@.len() - i,
    {
        let d = &ds[i];
        assert(dm[i as int] == d.model());
        assert(dm.take(i + 1).drop_last() =~= dm.take(i as int));
        assert(dm.take(i + 1).last() == dm[i as int]);
        push_one_display_issues(config, d, out);
        assert(models(out@) =~= start + displays_issues(config@, dm.take(i + 1)));
        i = i + 1;
    }
    assert(dm.take(i as int) =~= dm);
}

fn named_before_exec(cs: &[ColorSpace], n: usize, name: &str) -> (r: bool)
    requires
        n <= cs@.len(),
    ensures
        r == named_before(models(cs@), n as int, name@),
{
    let ghost m = models(cs@);
    let mut j: usize = 0;
    while j < n
        invariant
            m == models(cs@),
            n <= cs@.len(),
            0 <= j <= n,
            forall|k: int| 0 <= k < j ==> #[trigger] m[k].name != name@,
        decreases n - j,
    {
        assert(m[j as int] == cs@[j as int]@);
        if str_eq(cs[j].name(), name) {
            return true;
        }
        j = j + 1;
    }
    false
}

fn push_colorspace_issues_at(cs: &[ColorSpace], i: usize, out: &mut Vec<Issue>)
    requires
        i < cs@.len(),
    ensures
        models(final(out)@) == models(old(out)@) + colorspace_issues_at(models(cs@), i as int),
{
    let ghost m = models(cs@);
    let ghost start = models(out@);
    let c = &cs[i];
    assert(m[i as int] == c@);
    let name = c.name();
    if named_before_exec(cs, i, name) {
        push_issue(out, Severity::Error, IssueCategory::Duplicate, cat3("duplicate color space name: '", name, "'"), Some(string_of(name)));
    }
    let ghost mid = models(out@);
    let aliases = c.aliases();
    let ghost al = c@.aliases;
    let ghost f = alias_issue(m, i as int);
    let n = cs.len();
    let upto = i + 1;
    let mut k: usize = 0;
    assert(mid =~= mid + filter_map(al.take(0), f));
    while k < aliases.len()
        invariant
            strings_view(aliases@) == al,
            al == c@.aliases,
            m == models(cs@),
            m[i as int] == c@,
            name@ == c@.name,
            i < cs@.len(),
            upto == i + 1,
            f == alias_issue(m, i as int),
            0 <= k <= aliases@.len(),
            models(out@) == mid + filter_map(al.take(k as int), f),
        decreases aliases@.len() - k,
    {
        proof {
            lemma_filter_map_step(al, f, k as int);
        }
        assert(al[k as int] == aliases@[k as int]@);
        let a = aliases[k].as_str();
        if named_before_exec(cs, upto, a) {
            let mut msg = cat3("alias '", a, "' for '");
            push_str(&mut msg, name);
            push_str(&mut msg, "' conflicts with existing name");
            push_issue(out, Severity::Warning, IssueCategory::Duplicate, msg, Some(string_of(name)));
        }
        assert(models(out@) =~= mid + filter_map(al.take(k + 1), f));
        k = k + 1;
    }
    proof {
        lemma_take_all(al);
    }
    let ghost mid2 = models(out@);
    if c.is_data() && (c.to_reference().is_some() || c.from_reference().is_some()) {
        push_issue(
            out,
            Severity::Warning,
            IssueCategory::InvalidTransform,
            cat3("data color space '", name, "' has transforms defined (will be ignored)"),
            Some(string_of(name)),
        );
    }
    assert(models(out@) =~= start + colorspace_issues_at(m, i as int));
}

fn push_colorspace_issues(config: &Config, out: &mut Vec<Issue>)
    ensures
        models(final(out)@) == models(old(out)@) + colorspace_issues(config@.colorspaces, config@.colorspaces.len()),
{
    let ghost start = models(out@);
    let cs = config.colorspaces();
    let ghost m = config@.colorspaces;
    let mut i: usize = 0;
    assert(start =~= start + colorspace_issues(m, 0));
    while i < cs.len()
        invariant
            models(cs@) == m,
            m == config@.colorspaces,
            0 <= i <= cs@.len(),
            models(out@) == start + colorspace_issues(m, i as nat),
        decreases cs@.len() - i,
    {
        push_colorspace_issues_at(cs, i, out);
        assert(models(out@) =~= start + colorspace_issues(m, (i + 1) as nat));
        i = i + 1;
    }
}

fn push_file_issues(config: &Config, exists: &[bool], out: &mut Vec<Issue>)
    requires
        exists@.len() == config@.search_paths.len(),
    ensures
        models(final(out)@) == models(old(out)@) + file_issues(config@.search_paths, exists@, config@.search_paths.len()),
{
    let ghost start = models(out@);
    let paths = config.search_paths();
    let ghost ps = config@.search_paths;
    let mut i: usize = 0;
    assert(start =~= start + file_issues(ps, exists@, 0));
    while i < paths.len()
        invariant
            strings_view(paths@) == ps,
            ps == config@.search_paths,
            exists@.len() == ps.len(),
            0 <= i <= paths@.len(),
            models(out@) == start + file_issues(ps, exists@, i as nat),
        decreases paths@.len() - i,
    {
        assert(ps[i as int] == paths@[i as int]@);
        if !exists[i] {
            let mut m = string_of("search path does not exist: ");
            push_str(&mut m, paths[i].as_str());
            push_issue(out, Severity::Warning, IssueCategory::MissingFile, m, Some(string_of(paths[i].as_str())));
        }
        assert(models(out@) =~= start + file_issues(ps, exists@, (i + 1) as nat));
        i = i + 1;
    }
}

/// Checks a config and returns every issue found (see `check_issues`);
/// `search_path_exists[i]` tells whether search path `i` exists.
pub fn check(config: &Config, search_path_exists: &[bool]) -> (r: Vec<Issue>)
    requires
        search_path_exists@.len() == config@.search_paths.len(),
    ensures
        models(r@) == check_issues(config@, search_path_exists@),
{
    let mut out: Vec<Issue> = Vec::new();
    assert(models(out@) =~= Seq::<IssueModel>::empty());
    push_role_issues(config, &mut out);
    push_display_issues(config, &mut out);
    push_colorspace_issues(config, &mut out);
    push_file_issues(config, search_path_exists, &mut out);
    assert(models(out@) =~= check_issues(config@, search_path_exists@));
    out
}

/// Whether some issue is an error.
pub open spec fn any_error(s: Seq<IssueModel>) -> bool {
    exists|i: int| 0 <= i < s.len() && #[trigger] s[i].severity == Severity::Error
}

/// Whether some issue is a warning or an error.
pub open spec fn any_warning(s: Seq<IssueModel>) -> bool {
    exists|i: int| 0 <= i < s.len() && (#[trigger] s[i].severity == Severity::Warning || s[i].severity == Severity::Error)
}

/// Whether some issue is an error.
pub fn has_errors(issues: &[Issue]) -> (r: bool)
    ensures
        r == any_error(models(issues@)),
{
    let ghost s = models(issues@);
    let mut i: usize = 0;
    while i < issues.len()
        invariant
            s == models(issues@),
            0 <= i <= issues@.len(),
            forall|j: int| 0 <= j < i ==> #[trigger] s[j].severity != Severity::Error,
        decreases issues@.len() - i,
    {
        assert(s[i as int] == issues@[i as int]@);
        if issues[i].severity == Severity::Error {
            assert(s[i as int].severity == Severity::Error);
            return true;
        }
        i = i + 1;
    }
    false
}

/// Whether some issue is a warning or an error.
pub fn has_warnings(issues: &[Issue]) -> (r: bool)
    ensures
        r == any_warning(models(issues@)),
{
    let ghost s = models(issues@);
    let mut i: usize = 0;
    while i < issues.len()
        invariant
            s == models(issues@),
            0 <= i <= issues@.len(),
            forall|j: int| 0 <= j < i ==> #[trigger] s[j].severity != Severity::Warning && s[j].severity != Severity::Error,
        decreases issues@.len() - i,
    {
        assert(s[i as int] == issues@[i as int]@);
        if issues[i].severity == Severity::Warning || issues[i].severity == Severity::Error {
            assert(s[i as int].severity == Severity::Warning || s[i as int].severity == Severity::Error);
            return true;
        }
        i = i + 1;
    }
    false
}

/// A list with an error has a warning or an error: `has_errors` implies `has_warnings`.
pub proof fn law_errors_imply_warnings(s: Seq<IssueModel>)
    ensures
        any_error(s) ==> any_warning(s),
{
    if any_error(s) {
        let i = choose|i: int| 0 <= i < s.len() && #[trigger] s[i].severity == Severity::Error;
        assert(s[i].severity == Severity::Warning || s[i].severity == Severity::Error);
    }
}

} // verus!
