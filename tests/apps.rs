use gosh_runner::apps::{append_path, prepend_path, remove_path, set_module_env_vars, EnvVars, ModuleDirs, PathOp};

#[test]
fn prepend_moves_entry_to_front() {
    let line = prepend_path("PATH", "/usr/bin", Some("/bin:/usr/bin"));
    assert_eq!(line, "export PATH='/usr/bin:/bin'");
}

#[test]
fn append_trims_and_moves_entry_to_end() {
    let line = append_path("PATH", "  /usr/bin ", Some("/usr/bin:/bin"));
    assert_eq!(line, "export PATH='/bin:/usr/bin'");
}

#[test]
fn remove_drops_every_copy() {
    let line = remove_path("PATH", "/usr/bin", Some("/usr/bin:/bin:/usr/bin"));
    assert_eq!(line, "export PATH=/bin");
}

#[test]
fn remove_compares_paths_not_strings() {
    let line = remove_path("PATH", "/usr/bin/", Some("/usr/bin:/bin"));
    assert_eq!(line, "export PATH=/bin");
}

#[test]
fn unset_variable_takes_the_value_alone() {
    assert_eq!(prepend_path("LD_RUN_PATH", "/opt/lib", None), "export LD_RUN_PATH=/opt/lib");
    assert_eq!(remove_path("LD_RUN_PATH", "/opt/lib", None), "export LD_RUN_PATH=/opt/lib");
}

#[test]
fn value_with_colon_is_kept_alone() {
    assert_eq!(append_path("P", "a:b", Some("c")), "export P='a:b'");
}

#[test]
fn empty_entries_are_kept() {
    assert_eq!(prepend_path("P", "/x", Some("")), "export P='/x:'");
}

#[test]
fn quotes_are_escaped() {
    assert_eq!(prepend_path("K", "it's", None), "export K='it'\\''s'");
    assert_eq!(prepend_path("K", "", None), "export K=''");
}

#[test]
fn path_op_apply_values() {
    let value = PathOp::Append.apply("/usr/bin", Some("/bin:/sbin"));
    assert!(value.ends_with("/usr/bin"));
    assert_eq!(value, "/bin:/sbin:/usr/bin");
    let value = PathOp::Prepend.apply("/usr/bin", Some("/bin"));
    assert!(value.starts_with("/usr/bin"));
    let value = PathOp::Remove.apply("/usr/bin", Some("/usr/bin:/bin"));
    assert!(!value.split(':').any(|p| p == "/usr/bin"));
    assert_eq!(PathOp::Remove.apply_trimmed(" /bin", Some("/bin")), "/bin");
}

#[test]
fn module_with_bin_and_envrc() {
    let mut env = EnvVars::new();
    env.set("PATH".to_string(), "/usr/bin".to_string());
    let dirs = ModuleDirs { has_bin: true, has_lib: false, has_envrc: true };
    let script = set_module_env_vars("/share/apps", "mpich3", false, dirs, &env);
    assert_eq!(
        script,
        "export PATH='/share/apps/mpich3/bin:/usr/bin';pushd /share/apps/mpich3;source .envrc;popd;"
    );
}

#[test]
fn module_lib_sets_four_variables() {
    let env = EnvVars::new();
    let dirs = ModuleDirs { has_bin: false, has_lib: true, has_envrc: false };
    let script = set_module_env_vars("/share/apps/", "m", false, dirs, &env);
    assert_eq!(
        script,
        "export CPATH=/share/apps/m/lib;export LIBRARY_PATH=/share/apps/m/lib;\
export LD_LIBRARY_PATH=/share/apps/m/lib;export LD_RUN_PATH=/share/apps/m/lib;"
    );
}

#[test]
fn module_unload_removes_bin() {
    let mut env = EnvVars::new();
    env.set("PATH".to_string(), "/old".to_string());
    env.set("PATH".to_string(), "/share/apps/m/bin:/bin".to_string());
    let dirs = ModuleDirs { has_bin: true, has_lib: false, has_envrc: false };
    let script = set_module_env_vars("/share/apps", "m", true, dirs, &env);
    assert_eq!(script, "export PATH=/bin;");
    assert_eq!(env.get("PATH"), Some("/share/apps/m/bin:/bin"));
    assert_eq!(env.get("HOME"), None);
}

#[test]
fn module_with_nothing_gives_empty_script() {
    let env = EnvVars::new();
    let dirs = ModuleDirs { has_bin: false, has_lib: false, has_envrc: false };
    assert_eq!(set_module_env_vars("/a", "b", false, dirs, &env), "");
}
