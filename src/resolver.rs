use vstd::prelude::*;

use crate::paths::{path_views, views_of, FsPath, PathModel};
use crate::platform::Platform;

verus! {

/// Where the bridge executable may live, as far as the shell can tell at
/// start-up.
#[derive(Debug)]
pub struct SearchLayout {
    pub platform: Platform,
    /// Target triple of a multi-target development build, if any.
    pub target_triple: Option<String>,
    /// Explicit executable path from the override variable, if set.
    pub override_path: Option<FsPath>,
    /// Whether the shell runs from source rather than from a package.
    pub dev_build: bool,
    /// Directory of the build manifest (used in development builds only).
    pub manifest_dir: FsPath,
    /// Base directory of the packaged resources, when it can be resolved.
    pub resource_dir: Option<FsPath>,
    /// Directory holding the running executable, when it can be found.
    pub exe_dir: Option<FsPath>,
}

/// A candidate path together with whether a file was found there.
#[derive(Debug)]
pub struct Probe {
    pub path: FsPath,
    pub exists: bool,
}

/// Resolution failed: no candidate exists. `tried` lists every path that
/// was looked at, in the order it was looked at.
#[derive(Debug)]
pub enum ResolveError {
    NotFound { tried: Vec<FsPath> },
}

pub open spec fn exe_suffix(platform: Platform) -> Seq<char> {
    if platform == Platform::Windows { ".exe"@ } else { ""@ }
}

pub open spec fn opt_text(t: Option<String>) -> Option<Seq<char>> {
    match t {
        Some(s) => Some(s@),
        None => None,
    }
}

/// Executable names to try in each root: the target-suffixed name first
/// (development builds), then the plain name (packaged builds).
pub open spec fn names_for(platform: Platform, triple: Option<Seq<char>>) -> Seq<Seq<char>> {
    let plain = "motionview-py"@ + exe_suffix(platform);
    match triple {
        Some(t) => seq!["motionview-py-"@ + t + exe_suffix(platform), plain],
        None => seq![plain],
    }
}

/// Roots derived from the executable's directory: the directory, its `bin`,
/// its parent and the parent's `bin`, then a sibling application directory
/// one level higher and its `bin`.
pub open spec fn exe_roots(e: PathModel) -> Seq<PathModel> {
    seq![e, e.join("bin"@)] + match e.parent() {
        Some(p) => seq![p, p.join("bin"@)] + match p.parent() {
            Some(g) => seq![g.join("MotionView"@), g.join("MotionView"@).join("bin"@)],
            None => Seq::empty(),
        },
        None => Seq::empty(),
    }
}

/// Search roots, highest priority first.
pub open spec fn roots_for(l: SearchLayout) -> Seq<PathModel> {
    (if l.dev_build { seq![l.manifest_dir@.join("bin"@)] } else { Seq::empty() })
    + match l.resource_dir {
        Some(r) => seq![r@.join("bin"@)],
        None => Seq::empty(),
    }
    + match l.exe_dir {
        Some(e) => exe_roots(e@),
        None => Seq::empty(),
    }
}

pub open spec fn joined_all(root: PathModel, names: Seq<Seq<char>>) -> Seq<PathModel> {
    names.map_values(|n: Seq<char>| root.join(n))
}

/// Every root joined with every name, root by root.
pub open spec fn candidates_for(roots: Seq<PathModel>, names: Seq<Seq<char>>) -> Seq<PathModel>
    decreases roots.len(),
{
    if roots.len() == 0 {
        Seq::empty()
    } else {
        candidates_for(roots.drop_last(), names) + joined_all(roots.last(), names)
    }
}

/// The full search order: the override path, then every candidate.
pub open spec fn plan_for(l: SearchLayout) -> Seq<PathModel> {
    (match l.override_path {
        Some(o) => seq![o@],
        None => Seq::empty(),
    }) + candidates_for(roots_for(l), names_for(l.platform, opt_text(l.target_triple)))
}

pub open spec fn probed_paths(probes: Seq<Probe>) -> Seq<PathModel> {
    probes.map_values(|p: Probe| p.path@)
}

/// The first probed path that exists.
pub open spec fn first_existing(probes: Seq<Probe>) -> Option<PathModel>
    decreases probes.len(),
{
    if probes.len() == 0 {
        None
    } else if probes[0].exists {
        Some(probes[0].path@)
    } else {
        first_existing(probes.drop_first())
    }
}

/// The outcome of a resolution: the first existing path, or every path tried.
pub open spec fn resolution(probes: Seq<Probe>) -> Result<PathModel, Seq<PathModel>> {
    match first_existing(probes) {
        Some(p) => Ok(p),
        None => Err(probed_paths(probes)),
    }
}

proof fn lemma_push_view(v: Seq<FsPath>, x: FsPath)
    ensures
        path_views(v.push(x)) == path_views(v).push(x@),
{
    assert(path_views(v.push(x)) =~= path_views(v).push(x@));
}

fn push_path(v: &mut Vec<FsPath>, x: FsPath)
    ensures
        path_views(final(v)@) == path_views(old(v)@).push(x@),
{
    proof {
        lemma_push_view(v@, x);
    }
    v.push(x);
}

/// The executable names to try, in order.
pub fn candidate_names(platform: Platform, triple: &Option<String>) -> (r: Vec<String>)
    ensures
        views_of(r@) == names_for(platform, opt_text(*triple)),
{
    let suffix: &str = match platform {
        Platform::Windows => ".exe",
        Platform::Posix => "",
    };
    let mut names: Vec<String> = Vec::new();
    match triple {
        Some(t) => {
            let name = String::from_str("motionview-py-").concat(t.as_str()).concat(suffix);
            names.push(name);
        },
        None => {},
    }
    let plain = String::from_str("motionview-py").concat(suffix);
    names.push(plain);
    assert(views_of(names@) =~= names_for(platform, opt_text(*triple)));
    names
}

/// The search roots, highest priority first.
pub fn search_roots(l: &SearchLayout) -> (r: Vec<FsPath>)
    ensures
        path_views(r@) == roots_for(*l),
{
    let mut roots: Vec<FsPath> = Vec::new();
    assert(path_views(roots@) =~= Seq::<PathModel>::empty());
    if l.dev_build {
        push_path(&mut roots, l.manifest_dir.join("bin"));
    }
    match &l.resource_dir {
        Some(r) => push_path(&mut roots, r.join("bin")),
        None => {},
    }
    let ghost before_exe = path_views(roots@);
    match &l.exe_dir {
        Some(e) => {
            push_path(&mut roots, e.duplicate());
            push_path(&mut roots, e.join("bin"));
            match e.parent() {
                Some(p) => {
                    push_path(&mut roots, p.duplicate());
                    push_path(&mut roots, p.join("bin"));
                    match p.parent() {
                        Some(g) => {
                            let app = g.join("MotionView");
                            let app_bin = app.join("bin");
                            push_path(&mut roots, app);
                            push_path(&mut roots, app_bin);
                            assert(path_views(roots@) =~= before_exe + exe_roots(e@));
                        },
                        None => {
                            assert(path_views(roots@) =~= before_exe + exe_roots(e@));
                        },
                    }
                },
                None => {
                    assert(path_views(roots@) =~= before_exe + exe_roots(e@));
                },
            }
        },
        None => {},
    }
    assert(path_views(roots@) =~= roots_for(*l));
    roots
}

proof fn lemma_candidates_step(roots: Seq<PathModel>, names: Seq<Seq<char>>, i: int)
    requires
        0 <= i < roots.len(),
    ensures
        candidates_for(roots.subrange(0, i + 1), names)
            == candidates_for(roots.subrange(0, i), names) + joined_all(roots[i], names),
{
    let next = roots.subrange(0, i + 1);
    assert(next.drop_last() =~= roots.subrange(0, i));
}

/// Every path to look at, in order: the override path, then each root
/// joined with each candidate name.
pub fn search_plan(l: &SearchLayout) -> (r: Vec<FsPath>)
    ensures
        path_views(r@) == plan_for(*l),
{
    let roots = search_roots(l);
    let names = candidate_names(l.platform, &l.target_triple);
    let ghost names_v = names_for(l.platform, opt_text(l.target_triple));
    let ghost roots_v = roots_for(*l);
    let mut plan: Vec<FsPath> = Vec::new();
    assert(path_views(plan@) =~= Seq::<PathModel>::empty());
    match &l.override_path {
        Some(o) => push_path(&mut plan, o.duplicate()),
        None => {},
    }
    let ghost head = path_views(plan@);
    assert(roots_v.subrange(0, 0) =~= Seq::<PathModel>::empty());
    assert(head =~= head + candidates_for(roots_v.subrange(0, 0), names_v));
    let mut i: usize = 0;
    while i < roots.len()
        invariant
            i <= roots.len(),
            path_views(roots@) == roots_v,
            views_of(names@) == names_v,
            path_views(plan@) == head + candidates_for(roots_v.subrange(0, i as int), names_v),
        decreases roots.len() - i,
    {
        let ghost start = path_views(plan@);
        let root = &roots[i];
        assert(root@ == roots_v[i as int]);
        let mut j: usize = 0;
        assert(start =~= start + joined_all(root@, names_v.subrange(0, 0)));
        while j < names.len()
            invariant
                j <= names.len(),
                views_of(names@) == names_v,
                path_views(plan@) == start + joined_all(root@, names_v.subrange(0, j as int)),
            decreases names.len() - j,
        {
            assert(names@[j as int]@ == names_v[j as int]);
            push_path(&mut plan, root.join(names[j].as_str()));
            assert(joined_all(root@, names_v.subrange(0, j + 1))
                =~= joined_all(root@, names_v.subrange(0, j as int)).push(root@.join(names_v[j as int])));
            j = j + 1;
        }
        assert(names_v.subrange(0, names.len() as int) =~= names_v);
        proof {
            lemma_candidates_step(roots_v, names_v, i as int);
        }
        i = i + 1;
    }
    assert(roots_v.subrange(0, roots.len() as int) =~= roots_v);
    plan
}

/// Picks the first probe whose path exists; when none does, reports every
/// path that was tried.
pub fn resolve_executable(probes: &Vec<Probe>) -> (r: Result<FsPath, ResolveError>)
    ensures
        match r {
            Ok(p) => resolution(probes@) == Ok::<PathModel, Seq<PathModel>>(p@),
            Err(ResolveError::NotFound { tried }) =>
                resolution(probes@) == Err::<PathModel, Seq<PathModel>>(path_views(tried@)),
        },
{
    let mut i: usize = 0;
    let mut tried: Vec<FsPath> = Vec::new();
    assert(probes@.subrange(0, probes.len() as int) =~= probes@);
    assert(path_views(tried@) =~= probed_paths(probes@.subrange(0, 0)));
    while i < probes.len()
        invariant
            i <= probes.len(),
            first_existing(probes@) == first_existing(probes@.subrange(i as int, probes.len() as int)),
            path_views(tried@) == probed_paths(probes@.subrange(0, i as int)),
        decreases probes.len() - i,
    {
        let ghost rest = probes@.subrange(i as int, probes.len() as int);
        assert(rest.drop_first() =~= probes@.subrange(i + 1, probes.len() as int));
        if probes[i].exists {
            return Ok(probes[i].path.duplicate());
        }
        push_path(&mut tried, probes[i].path.duplicate());
        assert(probed_paths(probes@.subrange(0, i + 1))
            =~= probed_paths(probes@.subrange(0, i as int)).push(probes@[i as int].path@));
        i = i + 1;
    }
    assert(probes@.subrange(0, probes.len() as int) =~= probes@);
    assert(probes@.subrange(i as int, probes.len() as int) =~= Seq::<Probe>::empty());
    Err(ResolveError::NotFound { tried })
}

proof fn lemma_none_exists(probes: Seq<Probe>)
    requires
        forall|i: int| 0 <= i < probes.len() ==> !(#[trigger] probes[i]).exists,
    ensures
        first_existing(probes) is None,
    decreases probes.len(),
{
    if probes.len() > 0 {
        let rest = probes.drop_first();
        assert forall|i: int| 0 <= i < rest.len() implies !(#[trigger] rest[i]).exists by {
            assert(rest[i] == probes[i + 1]);
        }
        lemma_none_exists(rest);
    }
}

/// When the override variable names a file that exists, resolution returns
/// that file, whatever exists in the lower-priority roots.
pub proof fn override_takes_priority(l: SearchLayout, probes: Seq<Probe>)
    requires
        l.override_path is Some,
        probed_paths(probes) == plan_for(l),
        probes.len() > 0,
        probes[0].exists,
    ensures
        resolution(probes) == Ok::<PathModel, Seq<PathModel>>(l.override_path->Some_0@),
{
    assert(plan_for(l).len() > 0);
    assert(plan_for(l)[0] == l.override_path->Some_0@);
    assert(probed_paths(probes).len() == probes.len());
    assert(probed_paths(probes)[0] == probes[0].path@);
}

/// When nothing exists at any candidate, resolution fails and reports the
/// whole search order, override included; no other path is used.
pub proof fn exhaustion_reports_every_candidate(l: SearchLayout, probes: Seq<Probe>)
    requires
        probed_paths(probes) == plan_for(l),
        forall|i: int| 0 <= i < probes.len() ==> !(#[trigger] probes[i]).exists,
    ensures
        resolution(probes) == Err::<PathModel, Seq<PathModel>>(plan_for(l)),
{
    lemma_none_exists(probes);
}

} // verus!
