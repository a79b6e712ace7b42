//! Installation records and the selector that ranks them.
//!
//! A discovered installation carries a path, an optional version string and
//! the discovery source that produced it. The selector picks the stable
//! minimum under (source priority, version absence): lower source priority
//! wins, a known version breaks ties, and remaining ties go to the record
//! encountered first.

use vstd::prelude::*;
use vstd::string::StringExecFns;

verus! {

/// One discovered candidate installation of the tool.
#[derive(Debug, Clone)]
pub struct GeminiInstallation {
    /// Full path to the binary.
    pub path: String,
    /// Version string, when the probe could obtain one.
    pub version: Option<String>,
    /// Which discovery strategy produced the record: `npm-global`,
    /// `system` or `common-path`.
    pub source: String,
}

/// The mathematical image of an installation record.
pub struct InstallationView {
    pub path: Seq<char>,
    pub version: Option<Seq<char>>,
    pub source: Seq<char>,
}

impl View for GeminiInstallation {
    type V = InstallationView;

    open spec fn view(&self) -> InstallationView {
        InstallationView {
            path: self.path@,
            version: match self.version {
                Some(v) => Some(v@),
                None => None,
            },
            source: self.source@,
        }
    }
}

impl DeepView for GeminiInstallation {
    type V = InstallationView;

    open spec fn deep_view(&self) -> InstallationView {
        self.view()
    }
}

impl GeminiInstallation {
    /// An equal copy of the record.
    pub fn duplicate(&self) -> (r: GeminiInstallation)
        ensures
            r == *self,
    {
        GeminiInstallation {
            path: self.path.clone(),
            version: match &self.version {
                Some(v) => Some(v.clone()),
                None => None,
            },
            source: self.source.clone(),
        }
    }
}

/// Priority of a discovery source: the package-manager global install is
/// most trusted, then the system path, then the well-known paths; anything
/// else ranks last.
pub open spec fn spec_source_priority(source: Seq<char>) -> int {
    if source == "npm-global"@ {
        0
    } else if source == "system"@ {
        1
    } else if source == "common-path"@ {
        2
    } else {
        999
    }
}

pub fn source_priority(source: &String) -> (r: u32)
    ensures
        r as int == spec_source_priority(source@),
{
    if *source == String::from_str("npm-global") {
        0
    } else if *source == String::from_str("system") {
        1
    } else if *source == String::from_str("common-path") {
        2
    } else {
        999
    }
}

/// Total rank of a record: source priority first, then presence of a
/// version string as the tie-breaker. Lower is better.
pub open spec fn spec_rank(r: InstallationView) -> int {
    2 * spec_source_priority(r.source) + if r.version is None {
        1int
    } else {
        0int
    }
}

pub fn rank(r: &GeminiInstallation) -> (k: u32)
    ensures
        k as int == spec_rank(r.deep_view()),
{
    let p = source_priority(&r.source);
    let vbit: u32 = if r.version.is_none() {
        1
    } else {
        0
    };
    2 * p + vbit
}

/// The stable minimum of a non-empty sequence of records under `spec_rank`:
/// the earliest record whose rank no other record undercuts.
pub open spec fn spec_select_best(s: Seq<InstallationView>) -> InstallationView
    recommends
        s.len() > 0,
    decreases s.len(),
{
    if s.len() <= 1 {
        s[0]
    } else {
        let rest = spec_select_best(s.drop_first());
        if spec_rank(rest) < spec_rank(s[0]) {
            rest
        } else {
            s[0]
        }
    }
}

/// Extending the input on the right keeps the stable minimum unless the new
/// record strictly undercuts it.
pub proof fn lemma_select_best_push(s: Seq<InstallationView>, x: InstallationView)
    requires
        s.len() > 0,
    ensures
        spec_select_best(s.push(x)) == if spec_rank(x) < spec_rank(spec_select_best(s)) {
            x
        } else {
            spec_select_best(s)
        },
    decreases s.len(),
{
    if s.len() == 1 {
        assert(s.push(x).drop_first() =~= seq![x]);
        assert(spec_select_best(seq![x]) == x);
        assert(s.push(x)[0] == s[0]);
    } else {
        assert(s.push(x).drop_first() =~= s.drop_first().push(x));
        lemma_select_best_push(s.drop_first(), x);
    }
}

/// The stable minimum is an element of the input, its rank undercuts no
/// other record, and every strictly earlier record ranks strictly worse.
pub proof fn lemma_select_best_is_stable_min(s: Seq<InstallationView>)
    requires
        s.len() > 0,
    ensures
        exists|i: int|
            0 <= i < s.len() && s[i] == spec_select_best(s) && (forall|j: int|
                0 <= j < i ==> spec_rank(s[j]) > spec_rank(spec_select_best(s))),
        forall|j: int| 0 <= j < s.len() ==> spec_rank(s[j]) >= spec_rank(spec_select_best(s)),
    decreases s.len(),
{
    if s.len() <= 1 {
        assert(s[0] == spec_select_best(s));
    } else {
        lemma_select_best_is_stable_min(s.drop_first());
        let rest = spec_select_best(s.drop_first());
        assert(forall|j: int| 0 < j < s.len() ==> s[j] == s.drop_first()[j - 1]);
        if spec_rank(rest) < spec_rank(s[0]) {
            let i0 = choose|i: int|
                0 <= i < s.drop_first().len() && s.drop_first()[i] == rest && (forall|j: int|
                    0 <= j < i ==> spec_rank(s.drop_first()[j]) > spec_rank(rest));
            assert(s[i0 + 1] == rest);
            assert(forall|j: int| 0 <= j < i0 + 1 ==> spec_rank(s[j]) > spec_rank(rest));
        } else {
            assert(s[0] == spec_select_best(s));
        }
    }
}

/// Select the best installation: the stable minimum under
/// (source priority, version absence).
pub fn select_best_gemini_installation<'a>(installations: &'a Vec<GeminiInstallation>) -> (best:
    &'a GeminiInstallation)
    requires
        installations.len() > 0,
    ensures
        best.deep_view() == spec_select_best(installations.deep_view()),
        exists|i: int| 0 <= i < installations@.len() && *best == installations@[i],
{
    let ghost views = installations.deep_view();
    let mut best_idx: usize = 0;
    let mut j: usize = 1;
    while j < installations.len()
        invariant
            1 <= j <= installations.len(),
            best_idx < j,
            views == installations.deep_view(),
            views.len() == installations.len(),
            views[best_idx as int] == spec_select_best(views.subrange(0, j as int)),
        decreases installations.len() - j,
    {
        proof {
            lemma_select_best_push(views.subrange(0, j as int), views[j as int]);
            assert(views.subrange(0, j as int + 1) =~= views.subrange(0, j as int).push(
                views[j as int]));
        }
        if rank(&installations[j]) < rank(&installations[best_idx]) {
            best_idx = j;
        }
        j += 1;
    }
    proof {
        assert(views.subrange(0, installations.len() as int) =~= views);
    }
    &installations[best_idx]
}

/// Whenever some record comes from the package-manager global install, the
/// selected record does too, whatever the ordering and whatever versions
/// the other records carry.
pub proof fn lemma_select_best_prefers_package_manager(s: Seq<InstallationView>)
    requires
        s.len() > 0,
        exists|i: int| 0 <= i < s.len() && s[i].source == "npm-global"@,
    ensures
        spec_select_best(s).source == "npm-global"@,
{
    lemma_select_best_is_stable_min(s);
    let i = choose|i: int| 0 <= i < s.len() && s[i].source == "npm-global"@;
    assert(spec_rank(s[i]) <= 1);
    assert(spec_rank(spec_select_best(s)) <= 1);
    assert(spec_source_priority(spec_select_best(s).source) == 0);
}

/// Of two records with equal source priority where exactly one carries a
/// version string, the one with the version is selected, in either order.
pub proof fn lemma_select_best_prefers_version(s: Seq<InstallationView>, i: int, j: int)
    requires
        s.len() == 2,
        0 <= i < 2,
        0 <= j < 2,
        i != j,
        spec_source_priority(s[i].source) == spec_source_priority(s[j].source),
        s[i].version is Some,
        s[j].version is None,
    ensures
        spec_select_best(s) == s[i],
{
    assert(s.drop_first().len() == 1);
    assert(s.drop_first()[0] == s[1]);
    assert(spec_select_best(s.drop_first()) == s[1]);
    assert(spec_rank(s[i]) < spec_rank(s[j]));
}

} // verus!
