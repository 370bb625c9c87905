use motionview::{
    candidate_names, resolve_executable, search_plan, search_roots, FsPath, Platform, Probe,
    ResolveError, SearchLayout,
};

fn path(root: &str, parts: &[&str]) -> FsPath {
    FsPath { root: root.to_string(), parts: parts.iter().map(|p| p.to_string()).collect() }
}

fn shown(p: &FsPath) -> String {
    let mut s = p.root.clone();
    s.push_str(&p.parts.join("/"));
    s
}

fn packaged_layout() -> SearchLayout {
    SearchLayout {
        platform: Platform::Posix,
        target_triple: None,
        override_path: None,
        dev_build: false,
        manifest_dir: path("/", &["src", "motionview", "src-tauri"]),
        resource_dir: Some(path("/", &["usr", "lib", "MotionView"])),
        exe_dir: Some(path("/", &["opt", "apps", "MotionView", "__up__"])),
    }
}

fn probes(plan: &[FsPath], found: &str) -> Vec<Probe> {
    plan.iter()
        .map(|p| Probe { path: FsPath { root: p.root.clone(), parts: p.parts.clone() }, exists: shown(p) == found })
        .collect()
}

#[test]
fn names_plain_on_posix() {
    assert_eq!(candidate_names(Platform::Posix, &None), vec!["motionview-py"]);
}

#[test]
fn names_with_triple_and_exe_suffix() {
    let triple = Some("x86_64-pc-windows-msvc".to_string());
    assert_eq!(
        candidate_names(Platform::Windows, &triple),
        vec!["motionview-py-x86_64-pc-windows-msvc.exe", "motionview-py.exe"]
    );
    let linux = Some("x86_64-unknown-linux-gnu".to_string());
    assert_eq!(
        candidate_names(Platform::Posix, &linux),
        vec!["motionview-py-x86_64-unknown-linux-gnu", "motionview-py"]
    );
}

#[test]
fn packaged_roots_in_priority_order() {
    let roots: Vec<String> = search_roots(&packaged_layout()).iter().map(shown).collect();
    assert_eq!(
        roots,
        vec![
            "/usr/lib/MotionView/bin",
            "/opt/apps/MotionView/__up__",
            "/opt/apps/MotionView/__up__/bin",
            "/opt/apps/MotionView",
            "/opt/apps/MotionView/bin",
            "/opt/apps/MotionView",
            "/opt/apps/MotionView/bin",
        ]
    );
}

#[test]
fn dev_build_searches_manifest_bin_first() {
    let mut l = packaged_layout();
    l.dev_build = true;
    let roots: Vec<String> = search_roots(&l).iter().map(shown).collect();
    assert_eq!(roots.len(), 8);
    assert_eq!(roots[0], "/src/motionview/src-tauri/bin");
    assert_eq!(roots[1], "/usr/lib/MotionView/bin");
}

#[test]
fn shallow_exe_dir_stops_at_root() {
    let mut l = packaged_layout();
    l.resource_dir = None;
    l.exe_dir = Some(path("/", &["app"]));
    let roots: Vec<String> = search_roots(&l).iter().map(shown).collect();
    assert_eq!(roots, vec!["/app", "/app/bin", "/", "/bin"]);
    l.exe_dir = Some(path("/", &[]));
    let roots: Vec<String> = search_roots(&l).iter().map(shown).collect();
    assert_eq!(roots, vec!["/", "/bin"]);
    l.exe_dir = None;
    assert!(search_roots(&l).is_empty());
}

#[test]
fn plan_tries_both_names_per_root() {
    let mut l = packaged_layout();
    l.target_triple = Some("aarch64-apple-darwin".to_string());
    let plan: Vec<String> = search_plan(&l).iter().map(shown).collect();
    assert_eq!(plan.len(), 14);
    assert_eq!(plan[0], "/usr/lib/MotionView/bin/motionview-py-aarch64-apple-darwin");
    assert_eq!(plan[1], "/usr/lib/MotionView/bin/motionview-py");
    assert_eq!(plan[2], "/opt/apps/MotionView/__up__/motionview-py-aarch64-apple-darwin");
    assert_eq!(plan[13], "/opt/apps/MotionView/bin/motionview-py");
}

#[test]
fn fresh_launch_finds_packaged_binary() {
    let plan = search_plan(&packaged_layout());
    let found = resolve_executable(&probes(&plan, "/usr/lib/MotionView/bin/motionview-py")).unwrap();
    assert_eq!(shown(&found), "/usr/lib/MotionView/bin/motionview-py");
}

#[test]
fn first_existing_candidate_wins() {
    let plan = search_plan(&packaged_layout());
    let mut ps = probes(&plan, "");
    ps[4].exists = true;
    ps[6].exists = true;
    let found = resolve_executable(&ps).unwrap();
    assert_eq!(shown(&found), "/opt/apps/MotionView/bin/motionview-py");
}

#[test]
fn existing_override_takes_priority() {
    let mut l = packaged_layout();
    l.override_path = Some(path("/", &["custom", "bridge"]));
    let plan = search_plan(&l);
    assert_eq!(shown(&plan[0]), "/custom/bridge");
    let mut ps = probes(&plan, "/usr/lib/MotionView/bin/motionview-py");
    ps[0].exists = true;
    let found = resolve_executable(&ps).unwrap();
    assert_eq!(shown(&found), "/custom/bridge");
}

#[test]
fn missing_override_falls_through() {
    let mut l = packaged_layout();
    l.override_path = Some(path("/", &["custom", "bridge"]));
    let plan = search_plan(&l);
    let found =
        resolve_executable(&probes(&plan, "/opt/apps/MotionView/__up__/motionview-py")).unwrap();
    assert_eq!(shown(&found), "/opt/apps/MotionView/__up__/motionview-py");
}

#[test]
fn nothing_found_reports_every_candidate() {
    let plan = search_plan(&packaged_layout());
    assert_eq!(plan.len(), 7);
    match resolve_executable(&probes(&plan, "")) {
        Err(ResolveError::NotFound { tried }) => {
            let tried: Vec<String> = tried.iter().map(shown).collect();
            let all: Vec<String> = plan.iter().map(shown).collect();
            assert_eq!(tried, all);
        }
        Ok(p) => panic!("unexpected {}", shown(&p)),
    }
}

#[test]
fn empty_plan_is_not_found() {
    match resolve_executable(&Vec::new()) {
        Err(ResolveError::NotFound { tried }) => assert!(tried.is_empty()),
        Ok(_) => panic!("nothing to find"),
    }
}
