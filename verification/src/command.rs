//! The two commands that print the predicates.
//!
//! The compiler prints them itself. The build coordinator can be asked to
//! run the compiler for that purpose; it knows of toolchain overrides that
//! a bare call of the compiler would miss, so it is tried first where a
//! manifest is at hand.

use vstd::prelude::*;
use rustc_hash::FxHashMap;
use crate::env::{env_contents, env_of, env_settings, is_listing, lemma_listing_env};

verus! {

/// A tool of the toolchain.
#[derive(Debug, Clone, Copy, PartialEq, Eq, Structural)]
pub enum Tool {
    /// The build coordinator.
    Cargo,
    /// The compiler.
    Rustc,
}

/// Where a command is run.
#[derive(Debug, Clone, PartialEq, Eq)]
pub enum WorkDir {
    /// The directory that holds the manifest at this path.
    ManifestDir(String),
    /// The directory that the process is in.
    Current,
}

/// The mathematical content of a [`WorkDir`].
pub enum WorkDirView {
    ManifestDir(Seq<char>),
    Current,
}

impl View for WorkDir {
    type V = WorkDirView;

    open spec fn view(&self) -> WorkDirView {
        match *self {
            WorkDir::ManifestDir(manifest) => WorkDirView::ManifestDir(manifest@),
            WorkDir::Current => WorkDirView::Current,
        }
    }
}

/// How to reach the toolchain.
#[derive(Debug, Clone, Copy)]
pub enum QueryConfig<'a> {
    /// Through the build coordinator of the toolchain at the first path, for
    /// the manifest at the second.
    Cargo(&'a str, &'a str),
    /// By the compiler of the toolchain at this path.
    Rustc(&'a str),
}

impl<'a> QueryConfig<'a> {
    /// The root directory of the toolchain.
    pub open spec fn sysroot(self) -> Seq<char> {
        match self {
            QueryConfig::Cargo(sysroot, _) => sysroot@,
            QueryConfig::Rustc(sysroot) => sysroot@,
        }
    }
}

/// A command to run: a tool of a toolchain, where to run it, the
/// environment variables to set for it in this order, and its arguments.
#[derive(Debug, Clone, PartialEq, Eq)]
pub struct Invocation {
    pub tool: Tool,
    pub sysroot: String,
    pub dir: WorkDir,
    pub envs: Vec<(String, String)>,
    pub args: Vec<String>,
}

/// The mathematical content of an [`Invocation`]. Of the environment it
/// keeps what the settings leave behind, not their order.
pub struct InvocationView {
    pub tool: Tool,
    pub sysroot: Seq<char>,
    pub dir: WorkDirView,
    pub env: Map<Seq<char>, Seq<char>>,
    pub args: Seq<Seq<char>>,
}

impl View for Invocation {
    type V = InvocationView;

    open spec fn view(&self) -> InvocationView {
        InvocationView {
            tool: self.tool,
            sysroot: self.sysroot@,
            dir: self.dir@,
            env: env_of(self.envs.deep_view()),
            args: self.args.deep_view(),
        }
    }
}

/// The arguments that ask the compiler for its predicates. Optimisation is
/// always switched on, so that every call prints the same set.
pub open spec fn print_cfg_args() -> Seq<Seq<char>> {
    seq!["--print"@, "cfg"@, "-O"@]
}

/// The arguments that select a target: none for the host.
pub open spec fn target_args(target: Option<Seq<char>>) -> Seq<Seq<char>> {
    match target {
        Some(triple) => seq!["--target"@, triple],
        None => Seq::empty(),
    }
}

/// The arguments that make the build coordinator run the compiler.
pub open spec fn delegate_args() -> Seq<Seq<char>> {
    seq!["rustc"@, "-Z"@, "unstable-options"@]
}

/// The command that asks the build coordinator.
///
/// It runs beside the manifest, with the extra environment and, whatever
/// that holds, with `RUSTC_BOOTSTRAP` set to `1`, which unlocks the unstable
/// options.
pub open spec fn cargo_plan(
    sysroot: Seq<char>,
    manifest: Seq<char>,
    target: Option<Seq<char>>,
    extra_env: Map<Seq<char>, Seq<char>>,
) -> InvocationView {
    InvocationView {
        tool: Tool::Cargo,
        sysroot,
        dir: WorkDirView::ManifestDir(manifest),
        env: extra_env.insert("RUSTC_BOOTSTRAP"@, "1"@),
        args: delegate_args() + print_cfg_args() + target_args(target),
    }
}

/// The command that asks the compiler itself, in the current directory and
/// with the extra environment.
pub open spec fn rustc_plan(
    sysroot: Seq<char>,
    target: Option<Seq<char>>,
    extra_env: Map<Seq<char>, Seq<char>>,
) -> InvocationView {
    InvocationView {
        tool: Tool::Rustc,
        sysroot,
        dir: WorkDirView::Current,
        env: extra_env,
        args: print_cfg_args() + target_args(target),
    }
}

/// Without a target neither command holds the argument that selects one.
pub proof fn lemma_no_target_no_argument(
    sysroot: Seq<char>,
    manifest: Seq<char>,
    extra_env: Map<Seq<char>, Seq<char>>,
)
    ensures
        !rustc_plan(sysroot, None, extra_env).args.contains("--target"@),
        !cargo_plan(sysroot, manifest, None, extra_env).args.contains("--target"@),
{
    reveal_strlit("--target");
    reveal_strlit("--print");
    reveal_strlit("cfg");
    reveal_strlit("-O");
    reveal_strlit("rustc");
    reveal_strlit("-Z");
    reveal_strlit("unstable-options");
    let direct = rustc_plan(sysroot, None, extra_env).args;
    let preferred = cargo_plan(sysroot, manifest, None, extra_env).args;
    assert(direct.len() == 3);
    assert(preferred.len() == 6);
    assert forall|i: int| 0 <= i < direct.len() implies direct[i].len() != 8 by {}
    assert forall|i: int| 0 <= i < preferred.len() implies preferred[i].len() != 8 by {}
}

/// With a target both commands end with the argument that selects it and
/// the triple itself.
pub proof fn lemma_target_argument_last(
    sysroot: Seq<char>,
    manifest: Seq<char>,
    triple: Seq<char>,
    extra_env: Map<Seq<char>, Seq<char>>,
)
    ensures
        rustc_plan(sysroot, Some(triple), extra_env).args == rustc_plan(
            sysroot,
            None,
            extra_env,
        ).args + seq!["--target"@, triple],
        cargo_plan(sysroot, manifest, Some(triple), extra_env).args == cargo_plan(
            sysroot,
            manifest,
            None,
            extra_env,
        ).args + seq!["--target"@, triple],
{
    assert(rustc_plan(sysroot, Some(triple), extra_env).args =~= rustc_plan(
        sysroot,
        None,
        extra_env,
    ).args + seq!["--target"@, triple]);
    assert(cargo_plan(sysroot, manifest, Some(triple), extra_env).args =~= cargo_plan(
        sysroot,
        manifest,
        None,
        extra_env,
    ).args + seq!["--target"@, triple]);
}

/// The build coordinator hands the compiler the very arguments that the
/// compiler gets when it is asked itself.
pub proof fn lemma_same_compiler_arguments(
    sysroot: Seq<char>,
    manifest: Seq<char>,
    target: Option<Seq<char>>,
    extra_env: Map<Seq<char>, Seq<char>>,
)
    ensures
        cargo_plan(sysroot, manifest, target, extra_env).args == delegate_args() + rustc_plan(
            sysroot,
            target,
            extra_env,
        ).args,
{
    assert(cargo_plan(sysroot, manifest, target, extra_env).args =~= delegate_args() + rustc_plan(
        sysroot,
        target,
        extra_env,
    ).args);
}

/// Every extra variable reaches the compiler's command as it was given.
/// It reaches the build coordinator's command as well, unless it is
/// `RUSTC_BOOTSTRAP`, which is `1` there whatever was given.
pub proof fn lemma_extra_env_visible(
    sysroot: Seq<char>,
    manifest: Seq<char>,
    target: Option<Seq<char>>,
    extra_env: Map<Seq<char>, Seq<char>>,
    name: Seq<char>,
)
    requires
        extra_env.contains_key(name),
    ensures
        rustc_plan(sysroot, target, extra_env).env.contains_pair(name, extra_env[name]),
        name != "RUSTC_BOOTSTRAP"@ ==> cargo_plan(
            sysroot,
            manifest,
            target,
            extra_env,
        ).env.contains_pair(name, extra_env[name]),
        cargo_plan(sysroot, manifest, target, extra_env).env.contains_pair(
            "RUSTC_BOOTSTRAP"@,
            "1"@,
        ),
{
}

fn push_arg(args: &mut Vec<String>, arg: &str)
    ensures
        final(args).deep_view() == old(args).deep_view().push(arg@),
{
    args.push(arg.to_owned());
    assert(args.deep_view() =~= old(args).deep_view().push(arg@));
}

fn push_print_cfg_args(args: &mut Vec<String>, target: Option<&str>)
    ensures
        final(args).deep_view() == old(args).deep_view() + print_cfg_args() + target_args(
            target.deep_view(),
        ),
{
    push_arg(args, "--print");
    push_arg(args, "cfg");
    push_arg(args, "-O");
    if let Some(triple) = target {
        push_arg(args, "--target");
        push_arg(args, triple);
    }
    assert(args.deep_view() =~= old(args).deep_view() + print_cfg_args() + target_args(
        target.deep_view(),
    ));
}

/// Builds the command that asks the build coordinator.
///
/// Its settings are the extra variables, each once, and after them the
/// override.
pub fn cargo_command(
    sysroot: &str,
    manifest: &str,
    target: Option<&str>,
    extra_env: &FxHashMap<String, String>,
) -> (command: Invocation)
    ensures
        command@ == cargo_plan(sysroot@, manifest@, target.deep_view(), env_contents(*extra_env)),
        command.envs.len() > 0,
        is_listing(command.envs.deep_view().drop_last(), env_contents(*extra_env)),
        command.envs.deep_view().last() == ("RUSTC_BOOTSTRAP"@, "1"@),
{
    let mut envs = env_settings(extra_env);
    let ghost listed = envs.deep_view();
    envs.push(("RUSTC_BOOTSTRAP".to_owned(), "1".to_owned()));
    let mut args: Vec<String> = Vec::new();
    push_arg(&mut args, "rustc");
    push_arg(&mut args, "-Z");
    push_arg(&mut args, "unstable-options");
    push_print_cfg_args(&mut args, target);
    proof {
        lemma_listing_env(listed, env_contents(*extra_env));
        assert(envs.deep_view().drop_last() =~= listed);
        assert(args.deep_view() =~= delegate_args() + print_cfg_args() + target_args(
            target.deep_view(),
        ));
    }
    Invocation {
        tool: Tool::Cargo,
        sysroot: sysroot.to_owned(),
        dir: WorkDir::ManifestDir(manifest.to_owned()),
        envs,
        args,
    }
}

/// Builds the command that asks the compiler itself.
///
/// Its settings are the extra variables, each once.
pub fn rustc_command(
    sysroot: &str,
    target: Option<&str>,
    extra_env: &FxHashMap<String, String>,
) -> (command: Invocation)
    ensures
        command@ == rustc_plan(sysroot@, target.deep_view(), env_contents(*extra_env)),
        is_listing(command.envs.deep_view(), env_contents(*extra_env)),
{
    let envs = env_settings(extra_env);
    let mut args: Vec<String> = Vec::new();
    push_print_cfg_args(&mut args, target);
    proof {
        lemma_listing_env(envs.deep_view(), env_contents(*extra_env));
        assert(args.deep_view() =~= print_cfg_args() + target_args(target.deep_view()));
    }
    Invocation {
        tool: Tool::Rustc,
        sysroot: sysroot.to_owned(),
        dir: WorkDir::Current,
        envs,
        args,
    }
}

} // verus!
