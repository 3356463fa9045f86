use rustc_cfg::{cargo_command, env_settings, rustc_command, Tool, WorkDir};
use rustc_hash::FxHashMap;
use std::collections::BTreeMap;

fn env(entries: &[(&str, &str)]) -> FxHashMap<String, String> {
    let mut map = FxHashMap::default();
    for (name, value) in entries {
        map.insert(name.to_string(), value.to_string());
    }
    map
}

/// What the settings leave behind when they are applied in order.
fn applied(envs: &[(String, String)]) -> BTreeMap<String, String> {
    let mut map = BTreeMap::new();
    for (name, value) in envs {
        map.insert(name.clone(), value.clone());
    }
    map
}

fn expected(entries: &[(&str, &str)]) -> BTreeMap<String, String> {
    entries.iter().map(|(name, value)| (name.to_string(), value.to_string())).collect()
}

#[test]
fn compiler_command_for_the_host() {
    let command = rustc_command("/toolchain", None, &env(&[]));
    assert_eq!(command.tool, Tool::Rustc);
    assert_eq!(command.sysroot, "/toolchain");
    assert_eq!(command.dir, WorkDir::Current);
    assert_eq!(command.args, vec!["--print", "cfg", "-O"]);
    assert!(command.envs.is_empty());
}

#[test]
fn compiler_command_for_a_target() {
    let command = rustc_command("/toolchain", Some("wasm32-unknown-unknown"), &env(&[]));
    assert_eq!(command.args, vec!["--print", "cfg", "-O", "--target", "wasm32-unknown-unknown"]);
}

#[test]
fn coordinator_command_for_the_host() {
    let command = cargo_command("/toolchain", "/work/project/Cargo.toml", None, &env(&[]));
    assert_eq!(command.tool, Tool::Cargo);
    assert_eq!(command.sysroot, "/toolchain");
    assert_eq!(command.dir, WorkDir::ManifestDir("/work/project/Cargo.toml".to_string()));
    assert_eq!(command.args, vec!["rustc", "-Z", "unstable-options", "--print", "cfg", "-O"]);
    assert_eq!(command.envs, vec![("RUSTC_BOOTSTRAP".to_string(), "1".to_string())]);
}

#[test]
fn coordinator_command_for_a_target() {
    let command = cargo_command("/toolchain", "/p/Cargo.toml", Some("x86_64-pc-windows-msvc"), &env(&[]));
    assert_eq!(
        command.args,
        vec![
            "rustc",
            "-Z",
            "unstable-options",
            "--print",
            "cfg",
            "-O",
            "--target",
            "x86_64-pc-windows-msvc"
        ]
    );
}

#[test]
fn no_target_no_target_argument() {
    let extra = env(&[("A", "1")]);
    let direct = rustc_command("/toolchain", None, &extra);
    let preferred = cargo_command("/toolchain", "/p/Cargo.toml", None, &extra);
    assert!(!direct.args.iter().any(|arg| arg == "--target"));
    assert!(!preferred.args.iter().any(|arg| arg == "--target"));
}

#[test]
fn optimised_printout_is_always_asked_for() {
    for target in [None, Some("aarch64-apple-darwin")] {
        let direct = rustc_command("/toolchain", target, &env(&[]));
        let preferred = cargo_command("/toolchain", "/p/Cargo.toml", target, &env(&[]));
        assert_eq!(direct.args[..3], ["--print", "cfg", "-O"]);
        assert_eq!(preferred.args[3..6], ["--print", "cfg", "-O"]);
        assert_eq!(preferred.args[3..], direct.args[..]);
    }
}

#[test]
fn extra_environment_reaches_the_compiler_command() {
    let extra = env(&[("RUSTFLAGS", "--cfg extra"), ("PATH", "/bin"), ("EMPTY", "")]);
    let command = rustc_command("/toolchain", None, &extra);
    assert_eq!(command.envs.len(), 3);
    assert_eq!(applied(&command.envs), expected(&[("EMPTY", ""), ("PATH", "/bin"), ("RUSTFLAGS", "--cfg extra")]));
}

#[test]
fn extra_environment_reaches_the_coordinator_command() {
    let extra = env(&[("RUSTFLAGS", "--cfg extra"), ("PATH", "/bin")]);
    let command = cargo_command("/toolchain", "/p/Cargo.toml", None, &extra);
    assert_eq!(command.envs.len(), 3);
    assert_eq!(
        applied(&command.envs),
        expected(&[("PATH", "/bin"), ("RUSTC_BOOTSTRAP", "1"), ("RUSTFLAGS", "--cfg extra")])
    );
}

#[test]
fn bootstrap_override_comes_after_the_extra_environment() {
    let extra = env(&[("RUSTC_BOOTSTRAP", "0"), ("OTHER", "x")]);
    let command = cargo_command("/toolchain", "/p/Cargo.toml", None, &extra);
    assert_eq!(command.envs.last(), Some(&("RUSTC_BOOTSTRAP".to_string(), "1".to_string())));
    assert_eq!(applied(&command.envs), expected(&[("OTHER", "x"), ("RUSTC_BOOTSTRAP", "1")]));
}

#[test]
fn compiler_command_has_no_bootstrap_override() {
    let command = rustc_command("/toolchain", None, &env(&[("RUSTC_BOOTSTRAP", "0")]));
    assert_eq!(command.envs, vec![("RUSTC_BOOTSTRAP".to_string(), "0".to_string())]);
}

#[test]
fn many_extra_variables_are_each_listed_once() {
    let mut extra = FxHashMap::default();
    for i in 0..200 {
        extra.insert(format!("NAME_{i}"), format!("value {i}"));
    }
    let command = rustc_command("/toolchain", None, &extra);
    assert_eq!(command.envs.len(), 200);
    let map = applied(&command.envs);
    assert_eq!(map.len(), 200);
    for i in 0..200 {
        assert_eq!(map.get(&format!("NAME_{i}")), Some(&format!("value {i}")));
    }
}

#[test]
fn settings_list_the_map() {
    assert!(env_settings(&env(&[])).is_empty());
    assert_eq!(env_settings(&env(&[("ONLY", "one")])), vec![("ONLY".to_string(), "one".to_string())]);
    let mut settings = env_settings(&env(&[("B", "2"), ("A", "1"), ("C", "")]));
    settings.sort();
    assert_eq!(
        settings,
        vec![
            ("A".to_string(), "1".to_string()),
            ("B".to_string(), "2".to_string()),
            ("C".to_string(), String::new())
        ]
    );
}
