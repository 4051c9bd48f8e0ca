//! Selecting the compiler invocation of the package itself, so that the
//! user's trailing arguments reach it and none of its dependencies.

use cargo_util::ProcessBuilder;
use vstd::prelude::*;
use vstd::string::*;

verus! {

/// A compiler command line under construction, as cargo's build engine hands
/// it over before running it.
#[verifier::external_type_specification]
#[verifier::external_body]
pub struct ExProcessBuilder(ProcessBuilder);

/// The arguments of a command after its program, in order; each is its text
/// where it is valid UTF-8, and `None` where it is not.
pub uninterp spec fn command_args(cmd: ProcessBuilder) -> Seq<Option<Seq<char>>>;

/// Arguments given as text, in the form that `command_args` speaks of.
pub open spec fn as_args(extra: Seq<Seq<char>>) -> Seq<Option<Seq<char>>> {
    extra.map_values(|a: Seq<char>| Some(a))
}

/// Relies on `cargo_util::ProcessBuilder::get_args`: it yields the arguments
/// that follow the program, in order, and `OsStr::to_str` gives the text of
/// each one that is valid UTF-8.
#[verifier::external_body]
fn get_args(cmd: &ProcessBuilder) -> (r: Vec<Option<String>>)
    ensures
        r.deep_view() == command_args(*cmd),
{
    cmd.get_args().map(|a| a.to_str().map(|t| t.to_string())).collect()
}

/// Relies on `cargo_util::ProcessBuilder::args`: the given arguments are added
/// after the existing ones, in order, and nothing else changes in the list.
#[verifier::external_body]
fn add_args(cmd: &mut ProcessBuilder, extra: &Vec<String>)
    ensures
        command_args(*final(cmd)) == command_args(*old(cmd)) + as_args(extra.deep_view()),
{
    cmd.args(extra.as_slice());
}

/// The flag that precedes the crate's name on a compiler command line.
pub open spec fn crate_name_flag() -> Seq<char> {
    "--crate-name"@
}

/// Whether `names` holds `name`.
pub fn contains_name(names: &Vec<String>, name: &String) -> (r: bool)
    ensures
        r == names.deep_view().contains(name@),
{
    let mut i: usize = 0;
    while i < names.len()
        invariant
            i <= names.len(),
            forall|k: int| 0 <= k < i ==> names@[k]@ != name@,
        decreases names.len() - i,
    {
        if names[i] == *name {
            assert(names.deep_view()[i as int] == name@);
            return true;
        }
        i = i + 1;
    }
    proof {
        assert forall|k: int| 0 <= k < names.deep_view().len() implies names.deep_view()[k] != name@ by {
            assert(names.deep_view()[k] == names@[k]@);
        }
    }
    false
}

/// Whether an argument, read as text where it is valid UTF-8, is the
/// crate-name flag.
pub fn is_crate_name_flag(arg: &Option<String>) -> (r: bool)
    ensures
        r == (arg.deep_view() == Some(crate_name_flag())),
{
    match arg {
        Some(s) => {
            let flag = String::from_str("--crate-name");
            *s == flag
        },
        None => false,
    }
}

/// Whether the crate-name flag stands at position `i` of `args` and is
/// followed by one of `targets`.
pub open spec fn names_target_at(
    args: Seq<Option<Seq<char>>>,
    targets: Seq<Seq<char>>,
    i: int,
) -> bool {
    &&& 0 <= i
    &&& i + 1 < args.len()
    &&& args[i] == Some(crate_name_flag())
    &&& args[i + 1] is Some
    &&& targets.contains(args[i + 1]->0)
}

/// Whether a command line compiles one of `targets`: somewhere in it the
/// crate-name flag is directly followed by one of their names.
pub open spec fn names_target(args: Seq<Option<Seq<char>>>, targets: Seq<Seq<char>>) -> bool {
    exists|i: int| #[trigger] names_target_at(args, targets, i)
}

/// The arguments that a command line ends up with: the trailing arguments are
/// added to it when there are any and it compiles one of `targets`, and it is
/// left as it is otherwise.
pub open spec fn intercepted_args(
    args: Seq<Option<Seq<char>>>,
    extra: Option<Seq<Seq<char>>>,
    targets: Seq<Seq<char>>,
) -> Seq<Option<Seq<char>>> {
    if extra is Some && names_target(args, targets) {
        args + as_args(extra->0)
    } else {
        args
    }
}

/// The trailing arguments reach only a command line that compiles one of the
/// binaries: every other command line, a dependency's among them, keeps its
/// arguments as they were, and one that compiles a binary keeps them and
/// receives the trailing arguments after them.
pub proof fn lemma_only_binaries_receive_extra(
    args: Seq<Option<Seq<char>>>,
    extra: Option<Seq<Seq<char>>>,
    targets: Seq<Seq<char>>,
)
    ensures
        !names_target(args, targets) ==> intercepted_args(args, extra, targets) == args,
        extra is None ==> intercepted_args(args, extra, targets) == args,
        names_target(args, targets) && extra is Some ==> {
            &&& intercepted_args(args, extra, targets).len() == args.len() + extra->0.len()
            &&& intercepted_args(args, extra, targets).subrange(0, args.len() as int) == args
            &&& intercepted_args(args, extra, targets).skip(args.len() as int) == as_args(extra->0)
        },
{
    if names_target(args, targets) && extra is Some {
        let r = intercepted_args(args, extra, targets);
        assert(r.subrange(0, args.len() as int) =~= args);
        assert(r.skip(args.len() as int) =~= as_args(extra->0));
    }
}

/// Whether the command line `args` compiles one of `targets`.
pub fn names_binary(args: &Vec<Option<String>>, targets: &Vec<String>) -> (r: bool)
    ensures
        r == names_target(args.deep_view(), targets.deep_view()),
{
    let mut i: usize = 0;
    while i < args.len()
        invariant
            forall|k: int| 0 <= k < i ==> !names_target_at(args.deep_view(), targets.deep_view(), k),
        decreases args.len() - i,
    {
        if i + 1 < args.len() && is_crate_name_flag(&args[i]) {
            if let Some(name) = &args[i + 1] {
                if contains_name(targets, name) {
                    assert(names_target_at(args.deep_view(), targets.deep_view(), i as int));
                    return true;
                }
            }
        }
        i = i + 1;
    }
    false
}

/// Adds the trailing arguments `args` to `command` when it compiles one of
/// the binaries `targets`, and leaves it as it is otherwise, so that the
/// compiler invocations of dependencies never receive them.
pub fn append_rustc_opts(
    command: ProcessBuilder,
    args: &Option<Vec<String>>,
    targets: &Vec<String>,
) -> (r: ProcessBuilder)
    ensures
        command_args(r) == intercepted_args(command_args(command), args.deep_view(), targets.deep_view()),
{
    let mut command = command;
    let current = get_args(&command);
    let name_matches = names_binary(&current, targets);
    if name_matches {
        if let Some(extra) = args {
            add_args(&mut command, extra);
        }
    }
    command
}

} // verus!
