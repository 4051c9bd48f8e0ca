use cargo_rustc::plan::{
    binary_names, compile_filter, has_library, package_spec, plan_compile, CompileFilter,
    Options, Target, TargetKind, FAILURE_EXIT_CODE,
};

fn target(name: &str, kind: TargetKind) -> Target {
    Target { name: name.to_string(), kind }
}

fn options() -> Options {
    Options {
        arg_pkgid: None,
        arg_opts: None,
        flag_jobs: None,
        flag_features: Vec::new(),
        flag_no_default_features: false,
        flag_profile: None,
        flag_target: None,
        flag_manifest_path: None,
        flag_verbose: false,
        flag_release: false,
    }
}

#[test]
fn no_targets_selects_everything() {
    assert!(matches!(compile_filter(&Vec::new()), CompileFilter::Everything));
}

#[test]
fn library_alone_selects_everything() {
    let ts = vec![target("core", TargetKind::Lib), target("it", TargetKind::Other)];
    assert!(matches!(compile_filter(&ts), CompileFilter::Everything));
}

#[test]
fn binaries_and_library_are_selected() {
    let ts = vec![
        target("app", TargetKind::Bin),
        target("core", TargetKind::Lib),
        target("bench", TargetKind::Other),
        target("tool", TargetKind::Bin),
    ];
    match compile_filter(&ts) {
        CompileFilter::Only { lib, bins } => {
            assert!(lib);
            assert_eq!(bins, vec!["app".to_string(), "tool".to_string()]);
        }
        CompileFilter::Everything => panic!("expected only the binaries"),
    }
}

#[test]
fn binaries_without_library() {
    let ts = vec![target("app", TargetKind::Bin)];
    match compile_filter(&ts) {
        CompileFilter::Only { lib, bins } => {
            assert!(!lib);
            assert_eq!(bins, vec!["app".to_string()]);
        }
        CompileFilter::Everything => panic!("expected only the binary"),
    }
}

#[test]
fn binary_names_keep_order() {
    let ts = vec![
        target("b", TargetKind::Bin),
        target("x", TargetKind::Other),
        target("a", TargetKind::Bin),
    ];
    assert_eq!(binary_names(&ts), vec!["b".to_string(), "a".to_string()]);
    assert!(binary_names(&Vec::new()).is_empty());
}

#[test]
fn library_is_found() {
    assert!(has_library(&vec![target("a", TargetKind::Bin), target("l", TargetKind::Lib)]));
    assert!(!has_library(&vec![target("a", TargetKind::Bin)]));
    assert!(!has_library(&Vec::new()));
}

#[test]
fn package_spec_names_other_packages_only() {
    let root = "app".to_string();
    assert_eq!(package_spec(&None, &root), None);
    assert_eq!(package_spec(&Some("app".to_string()), &root), None);
    assert_eq!(package_spec(&Some("serde".to_string()), &root), Some("serde".to_string()));
}

#[test]
fn plan_carries_the_options() {
    let mut o = options();
    o.arg_pkgid = Some("dep".to_string());
    o.arg_opts = Some(vec!["-Zprint".to_string()]);
    o.flag_jobs = Some(4);
    o.flag_features = vec!["fast".to_string()];
    o.flag_no_default_features = true;
    o.flag_profile = Some("bench".to_string());
    o.flag_target = Some("x86_64-unknown-linux-gnu".to_string());
    o.flag_release = true;
    let ts = vec![target("app", TargetKind::Bin), target("app", TargetKind::Lib)];
    let p = plan_compile(o, &"app".to_string(), &ts);
    assert_eq!(p.spec, Some("dep".to_string()));
    assert_eq!(p.bins, vec!["app".to_string()]);
    assert!(matches!(p.filter, CompileFilter::Only { lib: true, .. }));
    assert_eq!(p.jobs, Some(4));
    assert_eq!(p.target, Some("x86_64-unknown-linux-gnu".to_string()));
    assert_eq!(p.features, vec!["fast".to_string()]);
    assert!(p.no_default_features);
    assert_eq!(p.profile, Some("bench".to_string()));
    assert!(p.release);
    assert_eq!(p.extra_args, Some(vec!["-Zprint".to_string()]));
}

#[test]
fn plan_for_root_package_without_binaries() {
    let p = plan_compile(options(), &"core".to_string(), &vec![target("core", TargetKind::Lib)]);
    assert_eq!(p.spec, None);
    assert!(p.bins.is_empty());
    assert!(matches!(p.filter, CompileFilter::Everything));
    assert_eq!(p.extra_args, None);
    assert!(!p.release);
}

#[test]
fn failure_exit_code_value() {
    assert_eq!(FAILURE_EXIT_CODE, 101);
}
