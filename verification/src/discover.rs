//! Discovery of candidate installations.
//!
//! Three independent strategies (package-manager global prefix, system PATH
//! lookup, fixed well-known paths) each report the candidates they found;
//! the probing itself is filesystem and subprocess work done by the caller,
//! which hands the observed plain values in as [`ProbeFindings`].
//! `discover_all_gemini_installations` normalizes those findings into
//! records in strategy order and deduplicates them by path, keeping them
//! sorted by path and keeping, for each path, the record of the strategy
//! that reported it first.

use vstd::prelude::*;
use vstd::string::StringExecFns;

use crate::install::{GeminiInstallation, InstallationView};
use crate::order::{lemma_seq_lt_connex, lemma_seq_lt_irrefl, lemma_seq_lt_trans, seq_lt, str_lt};

verus! {

/// One accepted candidate from a single discovery strategy: a path that
/// exists as a regular file, and the version string the probe obtained,
/// when it obtained one.
pub struct ProbeHit {
    pub path: String,
    pub version: Option<String>,
}

/// The mathematical image of a probe hit.
pub struct HitView {
    pub path: Seq<char>,
    pub version: Option<Seq<char>>,
}

impl View for ProbeHit {
    type V = HitView;

    open spec fn view(&self) -> HitView {
        HitView {
            path: self.path@,
            version: match self.version {
                Some(v) => Some(v@),
                None => None,
            },
        }
    }
}

impl DeepView for ProbeHit {
    type V = HitView;

    open spec fn deep_view(&self) -> HitView {
        self.view()
    }
}

/// What the three independent discovery strategies observed, in their
/// fixed order.
pub struct ProbeFindings {
    /// The binary under the package manager's global prefix, if present.
    pub npm_global: Option<ProbeHit>,
    /// The binary located on the system PATH, if present.
    pub system_path: Option<ProbeHit>,
    /// The binaries found at the fixed well-known paths, in list order.
    pub well_known: Vec<ProbeHit>,
}

/// The mathematical image of the findings.
pub struct FindingsView {
    pub npm_global: Option<HitView>,
    pub system_path: Option<HitView>,
    pub well_known: Seq<HitView>,
}

impl View for ProbeFindings {
    type V = FindingsView;

    open spec fn view(&self) -> FindingsView {
        FindingsView {
            npm_global: match self.npm_global {
                Some(h) => Some(h@),
                None => None,
            },
            system_path: match self.system_path {
                Some(h) => Some(h@),
                None => None,
            },
            well_known: self.well_known.deep_view(),
        }
    }
}

/// The record a hit becomes, tagged with the name of the strategy that
/// produced it.
pub open spec fn hit_record(h: HitView, source: Seq<char>) -> InstallationView {
    InstallationView { path: h.path, version: h.version, source: source }
}

/// The ordered concatenation of the accepted records of the three
/// strategies, before deduplication.
pub open spec fn concat_views(f: FindingsView) -> Seq<InstallationView> {
    (match f.npm_global {
        Some(h) => seq![hit_record(h, "npm-global"@)],
        None => Seq::<InstallationView>::empty(),
    }) + (match f.system_path {
        Some(h) => seq![hit_record(h, "system"@)],
        None => Seq::<InstallationView>::empty(),
    }) + f.well_known.map_values(|h: HitView| hit_record(h, "common-path"@))
}

/// Records sorted strictly ascending by path.
pub open spec fn sorted_by_path(s: Seq<InstallationView>) -> bool {
    forall|i: int, j: int| 0 <= i < j < s.len() ==> seq_lt(s[i].path, s[j].path)
}

/// `r` stands in `c`, and no earlier record of `c` shares its path.
pub open spec fn first_occurrence(c: Seq<InstallationView>, r: InstallationView) -> bool {
    exists|k: int|
        0 <= k < c.len() && #[trigger] c[k] == r && (forall|k2: int|
            0 <= k2 < k ==> c[k2].path != r.path)
}

/// Every path occurring in `c` also occurs in `out`.
pub open spec fn covers(out: Seq<InstallationView>, c: Seq<InstallationView>) -> bool {
    forall|k: int|
        0 <= k < c.len() ==> exists|i: int|
            0 <= i < out.len() && #[trigger] out[i].path == #[trigger] c[k].path
}

/// A first occurrence in `c` is still one after `c` grows on the right.
proof fn lemma_first_occ_extend(c: Seq<InstallationView>, x: InstallationView, v: InstallationView)
    requires
        first_occurrence(c, v),
    ensures
        first_occurrence(c.push(x), v),
{
    let k = choose|k: int|
        0 <= k < c.len() && #[trigger] c[k] == v && (forall|k2: int|
            0 <= k2 < k ==> c[k2].path != v.path);
    assert(c.push(x)[k] == v);
    assert(forall|k2: int| 0 <= k2 < k ==> c.push(x)[k2].path != v.path);
}

/// Sorted records have pairwise distinct paths.
pub proof fn lemma_sorted_paths_distinct(s: Seq<InstallationView>)
    requires
        sorted_by_path(s),
    ensures
        forall|i: int, j: int| 0 <= i < j < s.len() ==> s[i].path != s[j].path,
{
    assert forall|i: int, j: int| 0 <= i < j < s.len() implies s[i].path != s[j].path by {
        lemma_seq_lt_irrefl(s[i].path);
    }
}

/// Index of the first record of `out` whose path does not come strictly
/// before `path`, scanning a path-sorted vector.
fn lower_bound(out: &Vec<GeminiInstallation>, path: &String) -> (i: usize)
    ensures
        i <= out.len(),
        forall|j: int| 0 <= j < i ==> seq_lt(#[trigger] out.deep_view()[j].path, path@),
        i < out.len() ==> !seq_lt(out.deep_view()[i as int].path, path@),
{
    let mut i: usize = 0;
    while i < out.len() && str_lt(out[i].path.as_str(), path.as_str())
        invariant
            i <= out.len(),
            forall|j: int| 0 <= j < i ==> seq_lt(#[trigger] out.deep_view()[j].path, path@),
        decreases out.len() - i,
    {
        i += 1;
    }
    i
}

/// Insert one more normalized record into the deduplicated, path-sorted
/// accumulator: a record whose path is already present is dropped, so the
/// earlier strategy's record is kept.
#[verifier::rlimit(100)]
#[verifier::spinoff_prover]
fn insert_dedup(
    out: &mut Vec<GeminiInstallation>,
    r: GeminiInstallation,
    Ghost(c): Ghost<Seq<InstallationView>>,
)
    requires
        sorted_by_path(old(out).deep_view()),
        forall|i: int|
            0 <= i < old(out)@.len() ==> first_occurrence(c, #[trigger] old(out).deep_view()[i]),
        covers(old(out).deep_view(), c),
    ensures
        sorted_by_path(final(out).deep_view()),
        forall|i: int|
            0 <= i < final(out)@.len() ==> first_occurrence(
                c.push(r@),
                #[trigger] final(out).deep_view()[i],
            ),
        covers(final(out).deep_view(), c.push(r@)),
{
    let ghost out0 = out.deep_view();
    let i = lower_bound(out, &r.path);
    if i < out.len() && out[i].path == r.path {
        proof {
            assert forall|ii: int| 0 <= ii < out0.len() implies first_occurrence(
                c.push(r@),
                out0[ii],
            ) by {
                lemma_first_occ_extend(c, r@, out0[ii]);
            }
            assert forall|k: int| 0 <= k < c.push(r@).len() implies exists|w: int|
                0 <= w < out0.len() && #[trigger] out0[w].path == #[trigger] c.push(r@)[k].path by {
                if k < c.len() {
                    assert(c.push(r@)[k] == c[k]);
                    assert(exists|w: int|
                        0 <= w < out0.len() && #[trigger] out0[w].path == c[k].path);
                } else {
                    assert(c.push(r@)[k] == r@);
                    assert(out0[i as int].path == r@.path);
                }
            }
        }
    } else {
        proof {
            // No record of the accumulator carries this path.
            assert forall|j: int| 0 <= j < out0.len() implies out0[j].path != r@.path by {
                if j < i {
                    lemma_seq_lt_irrefl(r@.path);
                } else {
                    if !seq_lt(r@.path, out0[i as int].path) {
                        lemma_seq_lt_connex(out0[i as int].path, r@.path);
                    }
                    if j > i {
                        lemma_seq_lt_trans(r@.path, out0[i as int].path, out0[j].path);
                    }
                    lemma_seq_lt_irrefl(r@.path);
                }
            }
            // Hence the path never occurred in `c` either.
            assert forall|k: int| 0 <= k < c.len() implies c[k].path != r@.path by {
                if c[k].path == r@.path {
                    let w = choose|w: int|
                        0 <= w < out0.len() && #[trigger] out0[w].path == c[k].path;
                    assert(out0[w].path == r@.path);
                }
            }
        }
        let ghost rv = r@;
        out.insert(i, r);
        proof {
            old(out)@.insert_ensures(i as int, r);
            let outn = out.deep_view();
            assert(outn.len() == out0.len() + 1);
            assert forall|j: int| 0 <= j < i implies outn[j] == out0[j] by {
                assert(out@[j] == old(out)@[j]);
            }
            assert forall|j: int| i <= j < out0.len() implies outn[j + 1] == out0[j] by {
                assert(out@[j + 1] == old(out)@[j]);
            }
            assert(outn[i as int] == rv);
            // Sortedness of the grown accumulator.
            assert forall|a: int, b: int| 0 <= a < b < outn.len() implies seq_lt(
                outn[a].path,
                outn[b].path,
            ) by {
                if b < i {
                    assert(seq_lt(out0[a].path, out0[b].path));
                } else if b == i {
                    assert(seq_lt(out0[a].path, rv.path));
                } else if a == i {
                    assert(i < out0.len());
                    assert(out0[i as int].path != rv.path);
                    if !seq_lt(rv.path, out0[i as int].path) {
                        lemma_seq_lt_connex(out0[i as int].path, rv.path);
                    }
                    assert(seq_lt(rv.path, out0[i as int].path));
                    if b > i + 1 {
                        assert(seq_lt(out0[i as int].path, out0[b - 1].path));
                        lemma_seq_lt_trans(rv.path, out0[i as int].path, out0[b - 1].path);
                    }
                    assert(outn[b] == out0[b - 1]);
                } else if a < i {
                    assert(seq_lt(out0[a].path, out0[b - 1].path));
                    assert(outn[a] == out0[a] && outn[b] == out0[b - 1]);
                } else {
                    assert(seq_lt(out0[a - 1].path, out0[b - 1].path));
                    assert(outn[a] == out0[a - 1] && outn[b] == out0[b - 1]);
                }
            }
            // Every kept record is a first occurrence in the grown prefix.
            assert forall|ii: int| 0 <= ii < outn.len() implies first_occurrence(
                c.push(rv),
                outn[ii],
            ) by {
                if ii < i {
                    lemma_first_occ_extend(c, rv, out0[ii]);
                } else if ii == i {
                    assert(c.push(rv)[c.len() as int] == rv);
                } else {
                    lemma_first_occ_extend(c, rv, out0[ii - 1]);
                }
            }
            // Coverage of the grown prefix.
            assert forall|k: int| 0 <= k < c.push(rv).len() implies exists|w: int|
                0 <= w < outn.len() && #[trigger] outn[w].path == #[trigger] c.push(rv)[k].path by {
                if k < c.len() {
                    assert(c.push(rv)[k] == c[k]);
                    let w = choose|w: int|
                        0 <= w < out0.len() && #[trigger] out0[w].path == c[k].path;
                    if w < i {
                        assert(outn[w].path == c[k].path);
                    } else {
                        assert(outn[w + 1].path == c[k].path);
                    }
                } else {
                    assert(c.push(rv)[k] == rv);
                    assert(outn[i as int].path == rv.path);
                }
            }
        }
    }
}

/// Run the normalization over everything the strategies observed: the
/// accepted records, in strategy order, deduplicated by path. The result
/// is sorted strictly ascending by path; each kept record is the first, in
/// strategy order, among those sharing its path; and every observed path
/// is kept exactly once.
pub fn discover_all_gemini_installations(findings: &ProbeFindings) -> (r: Vec<GeminiInstallation>)
    ensures
        sorted_by_path(r.deep_view()),
        forall|i: int|
            0 <= i < r@.len() ==> first_occurrence(
                concat_views(findings@),
                #[trigger] r.deep_view()[i],
            ),
        covers(r.deep_view(), concat_views(findings@)),
        forall|i: int, j: int|
            0 <= i < j < r@.len() ==> r.deep_view()[i].path != r.deep_view()[j].path,
{
    let mut all: Vec<GeminiInstallation> = Vec::new();
    if let Some(h) = &findings.npm_global {
        let rec = GeminiInstallation {
            path: h.path.clone(),
            version: match &h.version {
                Some(v) => Some(v.clone()),
                None => None,
            },
            source: String::from_str("npm-global"),
        };
        all.push(rec);
    }
    if let Some(h) = &findings.system_path {
        let rec = GeminiInstallation {
            path: h.path.clone(),
            version: match &h.version {
                Some(v) => Some(v.clone()),
                None => None,
            },
            source: String::from_str("system"),
        };
        all.push(rec);
    }
    let ghost base = all.deep_view();
    let ghost wkv = findings.well_known.deep_view();
    let mut w: usize = 0;
    while w < findings.well_known.len()
        invariant
            w <= findings.well_known.len(),
            wkv == findings.well_known.deep_view(),
            wkv.len() == findings.well_known@.len(),
            all.deep_view() == base + wkv.subrange(0, w as int).map_values(
                |h: HitView| hit_record(h, "common-path"@),
            ),
        decreases findings.well_known.len() - w,
    {
        let h = &findings.well_known[w];
        let rec = GeminiInstallation {
            path: h.path.clone(),
            version: match &h.version {
                Some(v) => Some(v.clone()),
                None => None,
            },
            source: String::from_str("common-path"),
        };
        let ghost before = all.deep_view();
        all.push(rec);
        proof {
            assert(all.deep_view() =~= before.push(hit_record(wkv[w as int], "common-path"@)));
            assert(wkv.subrange(0, w as int + 1).map_values(
                |h: HitView| hit_record(h, "common-path"@),
            ) =~= wkv.subrange(0, w as int).map_values(
                |h: HitView| hit_record(h, "common-path"@),
            ).push(hit_record(wkv[w as int], "common-path"@)));
        }
        w += 1;
    }
    let ghost c = concat_views(findings@);
    proof {
        assert(wkv.subrange(0, findings.well_known@.len() as int) =~= wkv);
        assert(all.deep_view() =~= c);
    }
    let mut out: Vec<GeminiInstallation> = Vec::new();
    let mut k: usize = 0;
    while k < all.len()
        invariant
            k <= all.len(),
            c == concat_views(findings@),
            all.deep_view() == c,
            c.len() == all@.len(),
            sorted_by_path(out.deep_view()),
            forall|i: int|
                0 <= i < out@.len() ==> first_occurrence(
                    c.subrange(0, k as int),
                    #[trigger] out.deep_view()[i],
                ),
            covers(out.deep_view(), c.subrange(0, k as int)),
        decreases all.len() - k,
    {
        let r = all[k].duplicate();
        proof {
            assert(c.subrange(0, k as int).push(r@) =~= c.subrange(0, k as int + 1));
        }
        insert_dedup(&mut out, r, Ghost(c.subrange(0, k as int)));
        k += 1;
    }
    proof {
        assert(c.subrange(0, all@.len() as int) =~= c);
        lemma_sorted_paths_distinct(out.deep_view());
    }
    out
}

} // verus!
