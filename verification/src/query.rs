//! Fetching the predicates: which command is run, what happens when it
//! fails, and what the caller gets.
//!
//! Running a command is the caller's business: it hands in a runner that
//! takes a command and gives back the text the command printed, or the
//! reason why there is none. A failure never reaches the caller of [`get`],
//! who gets no atoms then; [`query`] keeps the account of what happened.

use vstd::prelude::*;
use rustc_hash::FxHashMap;
use crate::atom::{AtomView, CfgAtom, ParseError};
use crate::command::{
    cargo_command, cargo_plan, rustc_command, rustc_plan, Invocation, QueryConfig,
};
use crate::env::env_contents;
use crate::parse::{line_atom, parse_output, text_atoms, text_error};
use crate::text::lines_of;

verus! {

/// A command that was run, and what came of it: the text that it printed,
/// or the reason why it gave none.
#[derive(Debug, PartialEq, Eq)]
pub struct Attempt {
    pub command: Invocation,
    pub outcome: Result<String, String>,
}

/// The account of a fetch: the command that was run last, and before it the
/// attempt that made a second one necessary, if there was one.
#[derive(Debug, PartialEq, Eq)]
pub struct Fetched {
    pub fallback: Option<Attempt>,
    pub last: Attempt,
}

/// The account of a query: the atoms for the caller, how the text was
/// fetched, and the error where the text was malformed.
#[derive(Debug, PartialEq, Eq)]
pub struct Report {
    pub atoms: Vec<CfgAtom>,
    pub fetched: Fetched,
    pub malformed: Option<ParseError>,
}

/// `run` may answer the command of `attempt` with the outcome of `attempt`.
pub open spec fn ran<F: Fn(&Invocation) -> Result<String, String>>(
    run: F,
    attempt: Attempt,
) -> bool {
    run.ensures((&attempt.command,), attempt.outcome)
}

/// `run` takes every command.
pub open spec fn takes_commands<F: Fn(&Invocation) -> Result<String, String>>(run: F) -> bool {
    forall|command: &Invocation| #[trigger] run.requires((command,))
}

/// `fetched` is an account of fetching the text with `run`.
///
/// Where a manifest is at hand the build coordinator is asked first, and
/// its text is taken. Only when it fails is the compiler asked, with the
/// same toolchain, target and extra environment. Without a manifest the
/// compiler is asked at once. What the compiler's command gives is final.
pub open spec fn fetched_by<F: Fn(&Invocation) -> Result<String, String>>(
    fetched: Fetched,
    run: F,
    config: QueryConfig,
    target: Option<Seq<char>>,
    extra_env: Map<Seq<char>, Seq<char>>,
) -> bool {
    let direct = rustc_plan(config.sysroot(), target, extra_env);
    &&& ran(run, fetched.last)
    &&& match config {
        QueryConfig::Cargo(sysroot, manifest) => {
            let preferred = cargo_plan(sysroot@, manifest@, target, extra_env);
            match fetched.fallback {
                Some(first) => {
                    &&& first.command@ == preferred
                    &&& first.outcome is Err
                    &&& ran(run, first)
                    &&& fetched.last.command@ == direct
                },
                None => {
                    &&& fetched.last.command@ == preferred
                    &&& fetched.last.outcome is Ok
                },
            }
        },
        QueryConfig::Rustc(_) => {
            &&& fetched.fallback is None
            &&& fetched.last.command@ == direct
        },
    }
}

/// The atoms that the caller gets for the outcome of the last command: those
/// of the printed text where every line of it is well formed, none
/// otherwise.
pub open spec fn outcome_atoms(outcome: Result<String, String>) -> Seq<AtomView> {
    match outcome {
        Ok(text) => match text_atoms(text@) {
            Some(atoms) => atoms,
            None => Seq::empty(),
        },
        Err(_) => Seq::empty(),
    }
}

/// The line that is held against the outcome of the last command: the first
/// malformed line of the printed text, if there is one.
pub open spec fn outcome_error(outcome: Result<String, String>) -> Option<Seq<char>> {
    match outcome {
        Ok(text) => text_error(text@),
        Err(_) => None,
    }
}

/// Fetches the printed predicates as text.
///
/// With [`QueryConfig::Cargo`] the build coordinator is asked first; if
/// that fails, the compiler is asked as with [`QueryConfig::Rustc`]. The
/// account holds each command that was run with its outcome.
pub fn rustc_print_cfg<F: Fn(&Invocation) -> Result<String, String>>(
    target: Option<&str>,
    extra_env: &FxHashMap<String, String>,
    config: QueryConfig<'_>,
    run: F,
) -> (fetched: Fetched)
    requires
        takes_commands(run),
    ensures
        fetched_by(fetched, run, config, target.deep_view(), env_contents(*extra_env)),
{
    let (sysroot, fallback) = match config {
        QueryConfig::Cargo(sysroot, manifest) => {
            let command = cargo_command(sysroot, manifest, target, extra_env);
            match run(&command) {
                Ok(text) => {
                    return Fetched { fallback: None, last: Attempt { command, outcome: Ok(text) } };
                },
                Err(error) => (sysroot, Some(Attempt { command, outcome: Err(error) })),
            }
        },
        QueryConfig::Rustc(sysroot) => (sysroot, None),
    };
    let command = rustc_command(sysroot, target, extra_env);
    let outcome = run(&command);
    Fetched { fallback, last: Attempt { command, outcome } }
}

/// Fetches the predicates and keeps the account.
///
/// The atoms are those of the last command's text, in the order of its
/// lines. Where no command gave a text, or a line of the text is malformed,
/// there are no atoms at all.
pub fn query<F: Fn(&Invocation) -> Result<String, String>>(
    config: QueryConfig<'_>,
    target: Option<&str>,
    extra_env: &FxHashMap<String, String>,
    run: F,
) -> (report: Report)
    requires
        takes_commands(run),
    ensures
        fetched_by(report.fetched, run, config, target.deep_view(), env_contents(*extra_env)),
        report.atoms.deep_view() == outcome_atoms(report.fetched.last.outcome),
        report.malformed.deep_view() == outcome_error(report.fetched.last.outcome),
{
    let fetched = rustc_print_cfg(target, extra_env, config, run);
    let parsed = match &fetched.last.outcome {
        Ok(text) => parse_output(text.as_str()),
        Err(_) => Ok(Vec::new()),
    };
    match parsed {
        Ok(atoms) => {
            assert(atoms.deep_view() =~= outcome_atoms(fetched.last.outcome));
            Report { atoms, fetched, malformed: None }
        },
        Err(error) => {
            let atoms: Vec<CfgAtom> = Vec::new();
            assert(atoms.deep_view() =~= outcome_atoms(fetched.last.outcome));
            Report { atoms, fetched, malformed: Some(error) }
        },
    }
}

/// The built-in predicates of the target, or of the host where no target
/// is named.
///
/// Never fails: where the predicates cannot be had, for whatever reason,
/// the result is empty.
pub fn get<F: Fn(&Invocation) -> Result<String, String>>(
    config: QueryConfig<'_>,
    target: Option<&str>,
    extra_env: &FxHashMap<String, String>,
    run: F,
) -> (atoms: Vec<CfgAtom>)
    requires
        takes_commands(run),
    ensures
        exists|fetched: Fetched|
            fetched_by(fetched, run, config, target.deep_view(), env_contents(*extra_env))
                && atoms.deep_view() == outcome_atoms(fetched.last.outcome),
{
    let report = query(config, target, extra_env, run);
    assert(fetched_by(
        report.fetched,
        run,
        config,
        target.deep_view(),
        env_contents(*extra_env),
    ));
    report.atoms
}

/// Where the build coordinator fails and the compiler prints a text, the
/// caller gets what that text holds: the first failure alone never leaves
/// the result empty.
pub proof fn lemma_fallback_gives_compiler_atoms<F: Fn(&Invocation) -> Result<String, String>>(
    run: F,
    sysroot: &str,
    manifest: &str,
    target: Option<Seq<char>>,
    extra_env: Map<Seq<char>, Seq<char>>,
    fetched: Fetched,
    text: Seq<char>,
    atoms: Seq<AtomView>,
)
    requires
        forall|command: Invocation, outcome: Result<String, String>|
            command@ == cargo_plan(sysroot@, manifest@, target, extra_env) && #[trigger] run.ensures(
                (&command,),
                outcome,
            ) ==> outcome is Err,
        forall|command: Invocation, outcome: Result<String, String>|
            command@ == rustc_plan(sysroot@, target, extra_env) && #[trigger] run.ensures(
                (&command,),
                outcome,
            ) ==> outcome is Ok && outcome->Ok_0@ == text,
        text_atoms(text) == Some(atoms),
        fetched_by(fetched, run, QueryConfig::Cargo(sysroot, manifest), target, extra_env),
    ensures
        fetched.fallback is Some,
        fetched.last.command@ == rustc_plan(sysroot@, target, extra_env),
        outcome_atoms(fetched.last.outcome) == atoms,
{
}

/// Where the build coordinator prints a text, the compiler is not asked,
/// and the caller gets what that text holds.
pub proof fn lemma_success_is_final<F: Fn(&Invocation) -> Result<String, String>>(
    run: F,
    sysroot: &str,
    manifest: &str,
    target: Option<Seq<char>>,
    extra_env: Map<Seq<char>, Seq<char>>,
    fetched: Fetched,
)
    requires
        forall|command: Invocation, outcome: Result<String, String>|
            command@ == cargo_plan(sysroot@, manifest@, target, extra_env) && #[trigger] run.ensures(
                (&command,),
                outcome,
            ) ==> outcome is Ok,
        fetched_by(fetched, run, QueryConfig::Cargo(sysroot, manifest), target, extra_env),
    ensures
        fetched.fallback is None,
        fetched.last.command@ == cargo_plan(sysroot@, manifest@, target, extra_env),
{
}

/// One malformed line in the text of the last command leaves the caller
/// with no atom at all, however many lines are well formed.
pub proof fn lemma_malformed_line_empties(text: String, i: int)
    requires
        0 <= i < lines_of(text@).len(),
        line_atom(lines_of(text@)[i]) is None,
    ensures
        outcome_atoms(Ok(text)) == Seq::<AtomView>::empty(),
        outcome_error(Ok(text)) is Some,
{
}

/// A command that fails last leaves the caller with no atom, and no line is
/// held against it.
pub proof fn lemma_failure_empties(reason: String)
    ensures
        outcome_atoms(Err(reason)) == Seq::<AtomView>::empty(),
        outcome_error(Err(reason)) is None,
{
}

} // verus!
