//! What a compile of the package asks for, computed from the user's options
//! and the package's own name and targets.

use vstd::prelude::*;

verus! {

/// The kind of compilation unit that a target of a package is.
#[derive(PartialEq, Eq, Structural, Clone, Copy, Debug)]
pub enum TargetKind {
    Lib,
    Bin,
    Other,
}

/// A target of a package, by name and kind.
#[derive(Debug)]
pub struct Target {
    pub name: String,
    pub kind: TargetKind,
}

/// Which of the package's targets a compile selects.
#[derive(Debug)]
pub enum CompileFilter {
    /// Every target that a plain build compiles.
    Everything,
    /// The library when `lib` holds, and the binaries named in `bins`.
    Only { lib: bool, bins: Vec<String> },
}

/// The names of the binary targets among `ts`, in their order.
pub open spec fn bin_names(ts: Seq<Target>) -> Seq<Seq<char>>
    decreases ts.len(),
{
    if ts.len() == 0 {
        Seq::empty()
    } else {
        let rest = bin_names(ts.drop_last());
        if ts.last().kind == TargetKind::Bin {
            rest.push(ts.last().name@)
        } else {
            rest
        }
    }
}

/// The list of binary names holds exactly the names of the binary targets.
pub proof fn lemma_bin_names_are_the_binaries(ts: Seq<Target>, n: Seq<char>)
    ensures
        bin_names(ts).contains(n) <==> exists|i: int|
            0 <= i < ts.len() && (#[trigger] ts[i]).kind == TargetKind::Bin && ts[i].name@ == n,
    decreases ts.len(),
{
    if ts.len() > 0 {
        let init = ts.drop_last();
        lemma_bin_names_are_the_binaries(init, n);
        if exists|i: int| 0 <= i < ts.len() && (#[trigger] ts[i]).kind == TargetKind::Bin && ts[i].name@ == n {
            let i = choose|i: int| 0 <= i < ts.len() && (#[trigger] ts[i]).kind == TargetKind::Bin && ts[i].name@ == n;
            if i < init.len() {
                assert(init[i] == ts[i]);
                let j = choose|j: int| 0 <= j < bin_names(init).len() && bin_names(init)[j] == n;
                if ts.last().kind == TargetKind::Bin {
                    assert(bin_names(ts) == bin_names(init).push(ts.last().name@));
                    assert(bin_names(ts)[j] == n);
                }
            } else {
                assert(bin_names(ts) == bin_names(init).push(n));
                assert(bin_names(ts)[bin_names(init).len() as int] == n);
            }
        }
        if bin_names(ts).contains(n) {
            if ts.last().kind == TargetKind::Bin && ts.last().name@ == n {
                assert(ts[ts.len() - 1].kind == TargetKind::Bin);
            } else {
                let j = choose|j: int| 0 <= j < bin_names(ts).len() && bin_names(ts)[j] == n;
                if ts.last().kind == TargetKind::Bin {
                    assert(bin_names(ts) == bin_names(init).push(ts.last().name@));
                    assert(j < bin_names(init).len());
                    assert(bin_names(init)[j] == n);
                }
                assert(bin_names(init).contains(n));
                let i = choose|i: int| 0 <= i < init.len() && (#[trigger] init[i]).kind == TargetKind::Bin && init[i].name@ == n;
                assert(ts[i] == init[i]);
            }
        }
    }
}

/// Whether one of `ts` is a library.
pub open spec fn has_lib(ts: Seq<Target>) -> bool {
    exists|i: int| 0 <= i < ts.len() && (#[trigger] ts[i]).kind == TargetKind::Lib
}

/// Whether `f` is the filter for a package with the targets `ts`: everything
/// when it has no binary, and otherwise exactly its binaries together with its
/// library, if it has one.
pub open spec fn selects(f: CompileFilter, ts: Seq<Target>) -> bool {
    match f {
        CompileFilter::Everything => bin_names(ts).len() == 0,
        CompileFilter::Only { lib, bins } => {
            &&& bin_names(ts).len() > 0
            &&& lib == has_lib(ts)
            &&& bins.deep_view() == bin_names(ts)
        },
    }
}

/// The names of the binary targets among `targets`, in their order.
pub fn binary_names(targets: &Vec<Target>) -> (r: Vec<String>)
    ensures
        r.deep_view() == bin_names(targets@),
{
    let mut r: Vec<String> = Vec::new();
    let mut i: usize = 0;
    while i < targets.len()
        invariant
            i <= targets.len(),
            r.deep_view() == bin_names(targets@.subrange(0, i as int)),
        decreases targets.len() - i,
    {
        let ghost before = r.deep_view();
        assert(targets@.subrange(0, i + 1).drop_last() =~= targets@.subrange(0, i as int));
        if targets[i].kind == TargetKind::Bin {
            r.push(targets[i].name.clone());
            assert(r.deep_view() =~= before.push(targets@[i as int].name@));
        }
        i = i + 1;
    }
    assert(targets@.subrange(0, targets.len() as int) =~= targets@);
    r
}

/// Whether one of `targets` is a library.
pub fn has_library(targets: &Vec<Target>) -> (r: bool)
    ensures
        r == has_lib(targets@),
{
    let mut i: usize = 0;
    while i < targets.len()
        invariant
            forall|k: int| 0 <= k < i ==> (#[trigger] targets@[k]).kind != TargetKind::Lib,
        decreases targets.len() - i,
    {
        if targets[i].kind == TargetKind::Lib {
            return true;
        }
        i = i + 1;
    }
    false
}

/// The filter for a package with the targets `targets`: everything when it
/// has no binary, and otherwise exactly its binaries and its library.
pub fn compile_filter(targets: &Vec<Target>) -> (r: CompileFilter)
    ensures
        selects(r, targets@),
{
    let bins = binary_names(targets);
    if bins.len() == 0 {
        CompileFilter::Everything
    } else {
        CompileFilter::Only { lib: has_library(targets), bins }
    }
}

/// The exit status of the command when the manifest cannot be found, the
/// package cannot be loaded or the compile fails.
pub const FAILURE_EXIT_CODE: i32 = 101;

/// The options that the user gave on the command line.
#[derive(Debug)]
pub struct Options {
    /// The package to compile; the root package when absent.
    pub arg_pkgid: Option<String>,
    /// The trailing arguments for the final compiler invocation.
    pub arg_opts: Option<Vec<String>>,
    pub flag_jobs: Option<u32>,
    pub flag_features: Vec<String>,
    pub flag_no_default_features: bool,
    pub flag_profile: Option<String>,
    pub flag_target: Option<String>,
    pub flag_manifest_path: Option<String>,
    pub flag_verbose: bool,
    pub flag_release: bool,
}

/// What a compile asks of the build engine.
#[derive(Debug)]
pub struct CompilePlan {
    /// The package named by the user, or `None` for the root package.
    pub spec: Option<String>,
    /// The names of the root package's binary targets.
    pub bins: Vec<String>,
    pub filter: CompileFilter,
    pub jobs: Option<u32>,
    pub target: Option<String>,
    pub features: Vec<String>,
    pub no_default_features: bool,
    pub profile: Option<String>,
    pub release: bool,
    /// The trailing arguments for the compiler invocation of one of `bins`.
    pub extra_args: Option<Vec<String>>,
}

/// The package that a compile names: the one the user asked for, or `None`
/// where the user asked for none or named the root package itself.
pub open spec fn requested_spec(pkgid: Option<Seq<char>>, root_name: Seq<char>) -> Option<Seq<char>> {
    match pkgid {
        Some(p) => if p == root_name {
            None
        } else {
            Some(p)
        },
        None => None,
    }
}

/// The package that a compile names, given the user's package id and the
/// name of the root package.
pub fn package_spec(pkgid: &Option<String>, root_name: &String) -> (r: Option<String>)
    ensures
        r.deep_view() == requested_spec(pkgid.deep_view(), root_name@),
{
    match pkgid {
        Some(p) => if *p == *root_name {
            None
        } else {
            Some(p.clone())
        },
        None => None,
    }
}

/// The compile that the user's options ask for on a root package named
/// `root_name` with the targets `targets`.
pub fn plan_compile(options: Options, root_name: &String, targets: &Vec<Target>) -> (r: CompilePlan)
    ensures
        r.spec.deep_view() == requested_spec(options.arg_pkgid.deep_view(), root_name@),
        r.bins.deep_view() == bin_names(targets@),
        selects(r.filter, targets@),
        r.jobs == options.flag_jobs,
        r.target == options.flag_target,
        r.features == options.flag_features,
        r.no_default_features == options.flag_no_default_features,
        r.profile == options.flag_profile,
        r.release == options.flag_release,
        r.extra_args == options.arg_opts,
{
    let spec = package_spec(&options.arg_pkgid, root_name);
    let bins = binary_names(targets);
    let filter = compile_filter(targets);
    CompilePlan {
        spec,
        bins,
        filter,
        jobs: options.flag_jobs,
        target: options.flag_target,
        features: options.flag_features,
        no_default_features: options.flag_no_default_features,
        profile: options.flag_profile,
        release: options.flag_release,
        extra_args: options.arg_opts,
    }
}

} // verus!
