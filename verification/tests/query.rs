use rustc_cfg::{get, query, rustc_print_cfg, CfgAtom, Invocation, ParseError, QueryConfig, Tool, WorkDir};
use rustc_hash::FxHashMap;
use std::cell::RefCell;

const PRINTOUT: &str = "unix\nfeature=\"crt-static\"\n";

fn flag(name: &str) -> CfgAtom {
    CfgAtom::Flag(name.to_string())
}

fn key_value(key: &str, value: &str) -> CfgAtom {
    CfgAtom::KeyValue { key: key.to_string(), value: value.to_string() }
}

fn no_env() -> FxHashMap<String, String> {
    FxHashMap::default()
}

fn cargo_config() -> QueryConfig<'static> {
    QueryConfig::Cargo("/toolchain", "/work/project/Cargo.toml")
}

/// A runner in which the build coordinator is missing and the compiler
/// prints `text`.
fn only_compiler(text: &str) -> impl Fn(&Invocation) -> Result<String, String> + '_ {
    move |command: &Invocation| match command.tool {
        Tool::Cargo => Err("cargo: command not found".to_string()),
        Tool::Rustc => Ok(text.to_string()),
    }
}

#[test]
fn end_to_end_with_the_compiler() {
    let atoms = get(QueryConfig::Rustc("/toolchain"), None, &no_env(), |_: &Invocation| {
        Ok("unix\nfeature=\"crt-static\"\n".to_string())
    });
    assert_eq!(atoms, vec![flag("unix"), key_value("feature", "crt-static")]);
}

#[test]
fn compiler_config_runs_the_compiler_once() {
    let seen = RefCell::new(Vec::new());
    let atoms = get(QueryConfig::Rustc("/toolchain"), None, &no_env(), |command: &Invocation| {
        seen.borrow_mut().push(command.clone());
        Ok(PRINTOUT.to_string())
    });
    assert_eq!(atoms.len(), 2);
    let seen = seen.into_inner();
    assert_eq!(seen.len(), 1);
    assert_eq!(seen[0].tool, Tool::Rustc);
    assert_eq!(seen[0].sysroot, "/toolchain");
    assert_eq!(seen[0].dir, WorkDir::Current);
}

#[test]
fn coordinator_success_is_final() {
    let seen = RefCell::new(Vec::new());
    let atoms = get(cargo_config(), None, &no_env(), |command: &Invocation| {
        seen.borrow_mut().push(command.clone());
        match command.tool {
            Tool::Cargo => Ok("from_cargo\n".to_string()),
            Tool::Rustc => Ok("from_rustc\n".to_string()),
        }
    });
    assert_eq!(atoms, vec![flag("from_cargo")]);
    let seen = seen.into_inner();
    assert_eq!(seen.len(), 1);
    assert_eq!(seen[0].tool, Tool::Cargo);
    assert_eq!(seen[0].dir, WorkDir::ManifestDir("/work/project/Cargo.toml".to_string()));
}

#[test]
fn fallback_gives_the_compiler_atoms() {
    let atoms = get(cargo_config(), None, &no_env(), only_compiler(PRINTOUT));
    assert_eq!(atoms, vec![flag("unix"), key_value("feature", "crt-static")]);
}

#[test]
fn fallback_keeps_sysroot_target_and_environment() {
    let mut extra = no_env();
    extra.insert("RUSTFLAGS".to_string(), "-C debuginfo=2".to_string());
    let seen = RefCell::new(Vec::new());
    let atoms = get(cargo_config(), Some("riscv64gc-unknown-none-elf"), &extra, |command: &Invocation| {
        seen.borrow_mut().push(command.clone());
        only_compiler(PRINTOUT)(command)
    });
    assert_eq!(atoms.len(), 2);
    let seen = seen.into_inner();
    assert_eq!(seen.len(), 2);
    assert_eq!(seen[0].tool, Tool::Cargo);
    assert_eq!(seen[1].tool, Tool::Rustc);
    assert_eq!(seen[1].sysroot, "/toolchain");
    assert_eq!(seen[1].dir, WorkDir::Current);
    assert_eq!(seen[1].args, vec!["--print", "cfg", "-O", "--target", "riscv64gc-unknown-none-elf"]);
    assert_eq!(seen[1].envs, vec![("RUSTFLAGS".to_string(), "-C debuginfo=2".to_string())]);
}

#[test]
fn both_commands_failing_gives_nothing() {
    let atoms = get(cargo_config(), None, &no_env(), |_: &Invocation| Err("spawn failed".to_string()));
    assert_eq!(atoms, vec![]);
}

#[test]
fn compiler_failing_gives_nothing() {
    let atoms =
        get(QueryConfig::Rustc("/toolchain"), None, &no_env(), |_: &Invocation| Err("exit status 1".to_string()));
    assert_eq!(atoms, vec![]);
}

#[test]
fn batch_atomicity() {
    let text = "a\nb=\"1\"\nc\nnot=quoted\nd\ne=\"2\"\n";
    let atoms = get(QueryConfig::Rustc("/toolchain"), None, &no_env(), |_: &Invocation| Ok(text.to_string()));
    assert_eq!(atoms, vec![]);
}

#[test]
fn malformed_coordinator_text_is_not_retried() {
    let seen = RefCell::new(0);
    let atoms = get(cargo_config(), None, &no_env(), |command: &Invocation| {
        *seen.borrow_mut() += 1;
        match command.tool {
            Tool::Cargo => Ok("broken=x\n".to_string()),
            Tool::Rustc => Ok("unix\n".to_string()),
        }
    });
    assert_eq!(atoms, vec![]);
    assert_eq!(seen.into_inner(), 1);
}

#[test]
fn environment_merge() {
    let mut extra = no_env();
    extra.insert("FIRST".to_string(), "one".to_string());
    extra.insert("SECOND".to_string(), "two".to_string());
    let echo = |command: &Invocation| {
        let mut names: Vec<&(String, String)> = command.envs.iter().collect();
        names.sort();
        Ok(names.iter().map(|(name, value)| format!("{name}=\"{value}\"\n")).collect::<String>())
    };
    let direct = get(QueryConfig::Rustc("/toolchain"), None, &extra, echo);
    assert_eq!(direct, vec![key_value("FIRST", "one"), key_value("SECOND", "two")]);
    let preferred = get(cargo_config(), None, &extra, echo);
    assert_eq!(
        preferred,
        vec![key_value("FIRST", "one"), key_value("RUSTC_BOOTSTRAP", "1"), key_value("SECOND", "two")]
    );
}

#[test]
fn no_target_no_target_argument_reaches_the_runner() {
    let seen = RefCell::new(Vec::new());
    get(cargo_config(), None, &no_env(), |command: &Invocation| {
        seen.borrow_mut().push(command.args.clone());
        Err("failed".to_string())
    });
    let seen = seen.into_inner();
    assert_eq!(seen.len(), 2);
    for args in &seen {
        assert!(!args.iter().any(|arg| arg == "--target"));
    }
    assert_eq!(seen[0], vec!["rustc", "-Z", "unstable-options", "--print", "cfg", "-O"]);
    assert_eq!(seen[1], vec!["--print", "cfg", "-O"]);
}

#[test]
fn target_argument_reaches_the_runner() {
    let seen = RefCell::new(Vec::new());
    get(cargo_config(), Some("thumbv7em-none-eabi"), &no_env(), |command: &Invocation| {
        seen.borrow_mut().push(command.args.clone());
        Err("failed".to_string())
    });
    for args in seen.into_inner() {
        assert_eq!(args[args.len() - 2..], ["--target", "thumbv7em-none-eabi"]);
    }
}

#[test]
fn fetch_account_of_a_fallback() {
    let fetched = rustc_print_cfg(None, &no_env(), cargo_config(), only_compiler(PRINTOUT));
    let first = fetched.fallback.expect("the build coordinator was tried first");
    assert_eq!(first.command.tool, Tool::Cargo);
    assert_eq!(first.outcome, Err("cargo: command not found".to_string()));
    assert_eq!(fetched.last.command.tool, Tool::Rustc);
    assert_eq!(fetched.last.outcome, Ok(PRINTOUT.to_string()));
}

#[test]
fn fetch_account_without_a_fallback() {
    let fetched = rustc_print_cfg(None, &no_env(), cargo_config(), |_: &Invocation| Ok(PRINTOUT.to_string()));
    assert_eq!(fetched.fallback, None);
    assert_eq!(fetched.last.command.tool, Tool::Cargo);
    assert_eq!(fetched.last.outcome, Ok(PRINTOUT.to_string()));

    let fetched =
        rustc_print_cfg(None, &no_env(), QueryConfig::Rustc("/toolchain"), |_: &Invocation| Err("gone".to_string()));
    assert_eq!(fetched.fallback, None);
    assert_eq!(fetched.last.command.tool, Tool::Rustc);
    assert_eq!(fetched.last.outcome, Err("gone".to_string()));
}

#[test]
fn report_of_a_good_printout() {
    let report = query(cargo_config(), None, &no_env(), only_compiler(PRINTOUT));
    assert_eq!(report.atoms, vec![flag("unix"), key_value("feature", "crt-static")]);
    assert_eq!(report.malformed, None);
    assert!(report.fetched.fallback.is_some());
}

#[test]
fn report_of_a_malformed_printout() {
    let report = query(QueryConfig::Rustc("/toolchain"), None, &no_env(), |_: &Invocation| {
        Ok("unix\nbad=1\nworse=2\n".to_string())
    });
    assert_eq!(report.atoms, vec![]);
    assert_eq!(report.malformed, Some(ParseError { line: "bad=1".to_string() }));
    assert_eq!(report.fetched.last.outcome, Ok("unix\nbad=1\nworse=2\n".to_string()));
}

#[test]
fn report_of_a_failed_fetch() {
    let report = query(cargo_config(), None, &no_env(), |command: &Invocation| match command.tool {
        Tool::Cargo => Err("no cargo".to_string()),
        Tool::Rustc => Err("no rustc".to_string()),
    });
    assert_eq!(report.atoms, vec![]);
    assert_eq!(report.malformed, None);
    assert_eq!(report.fetched.fallback.map(|first| first.outcome), Some(Err("no cargo".to_string())));
    assert_eq!(report.fetched.last.outcome, Err("no rustc".to_string()));
}

#[test]
fn empty_printout_is_an_empty_result() {
    let report = query(QueryConfig::Rustc("/toolchain"), None, &no_env(), |_: &Invocation| Ok(String::new()));
    assert_eq!(report.atoms, vec![]);
    assert_eq!(report.malformed, None);
}
