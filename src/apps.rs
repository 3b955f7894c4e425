//! Shell lines that load or unload a software module: edits of `:`-separated
//! path variables such as `PATH`, escaped for bash.
use gchemol_gut::fs::ShellEscapeExt;
use vstd::prelude::*;

use crate::text::{
    contains_seq, contains_str, join_path, join_path_spec, path_equal, same_path, split_on, split_scan_on, views,
};

verus! {

/// Characters with the Unicode property White_Space, as `char::is_whitespace`
/// has it.
pub open spec fn is_white_space(c: char) -> bool {
    ('\u{9}' <= c && c <= '\u{d}') || c == ' ' || c == '\u{85}' || c == '\u{a0}' || c == '\u{1680}'
        || ('\u{2000}' <= c && c <= '\u{200a}') || c == '\u{2028}' || c == '\u{2029}' || c
        == '\u{202f}' || c == '\u{205f}' || c == '\u{3000}'
}

pub open spec fn trim_start(s: Seq<char>) -> Seq<char>
    decreases s.len(),
{
    if s.len() > 0 && is_white_space(s[0]) {
        trim_start(s.drop_first())
    } else {
        s
    }
}

pub open spec fn trim_end(s: Seq<char>) -> Seq<char>
    decreases s.len(),
{
    if s.len() > 0 && is_white_space(s.last()) {
        trim_end(s.drop_last())
    } else {
        s
    }
}

/// `s` without its leading and trailing white space.
pub open spec fn trimmed(s: Seq<char>) -> Seq<char> {
    trim_end(trim_start(s))
}

/// Relies on `str::trim`: leading and trailing characters with the Unicode
/// property White_Space removed.
#[verifier::external_body]
fn trim(s: &str) -> (r: String)
    ensures
        r@ == trimmed(s@),
{
    s.trim().to_string()
}

/// Characters that the unix shell escaping leaves as they are.
pub open spec fn shell_safe(c: char) -> bool {
    ('a' <= c && c <= 'z') || ('A' <= c && c <= 'Z') || ('0' <= c && c <= '9') || c == '-' || c
        == '_' || c == '=' || c == '/' || c == ',' || c == '.' || c == '+'
}

/// The inside of a single-quoted word: `'` and `!` close the quotes, are
/// escaped with a backslash, and reopen them.
pub open spec fn quote_body(s: Seq<char>) -> Seq<char>
    decreases s.len(),
{
    if s.len() == 0 {
        Seq::empty()
    } else {
        let c = s.last();
        quote_body(s.drop_last()) + if c == '\'' || c == '!' {
            seq!['\'', '\\', c, '\'']
        } else {
            seq![c]
        }
    }
}

/// A word that bash reads back as `s`: `s` itself when it is not empty and
/// holds safe characters only, else `s` single-quoted.
pub open spec fn shell_quoted(s: Seq<char>) -> Seq<char> {
    if s.len() > 0 && forall|i: int| 0 <= i < s.len() ==> shell_safe(#[trigger] s[i]) {
        s
    } else {
        seq!['\''] + quote_body(s) + seq!['\'']
    }
}

/// Relies on gut's `ShellEscapeExt::shell_escape` for `&str`, which calls
/// `shell_escape::escape`, the unix variant on this platform: the string is
/// kept when non-empty and made of `[a-zA-Z0-9-_=/,.+]`, else it is put in
/// single quotes with each `'` and `!` written as `'\c'`.
#[verifier::external_body]
fn shell_escape(s: &str) -> (r: String)
    ensures
        r@ == shell_quoted(s@),
{
    s.shell_escape().into_owned()
}

/// The entries joined with `:`.
pub open spec fn join_list(ps: Seq<Seq<char>>) -> Seq<char>
    decreases ps.len(),
{
    if ps.len() == 0 {
        Seq::empty()
    } else if ps.len() == 1 {
        ps[0]
    } else {
        join_list(ps.drop_last()) + seq![':'] + ps.last()
    }
}

/// The entries that do not name the path `v`, in their order.
pub open spec fn without(ps: Seq<Seq<char>>, v: Seq<char>) -> Seq<Seq<char>>
    decreases ps.len(),
{
    if ps.len() == 0 {
        Seq::empty()
    } else if path_equal(ps.last(), v) {
        without(ps.drop_last(), v)
    } else {
        without(ps.drop_last(), v).push(ps.last())
    }
}

pub open spec fn opt_view(o: Option<&str>) -> Option<Seq<char>> {
    match o {
        Some(s) => Some(s@),
        None => None,
    }
}

/// An edit of a `:`-separated path variable.
#[derive(Debug, Clone, Copy, PartialEq, Eq, Structural)]
pub enum PathOp {
    Append,
    Prepend,
    Remove,
}

/// The new value of a path variable whose value is `current` (`None`: not
/// set) after `op` with the entry `v`. Entries naming `v` are dropped first;
/// a `v` holding `:` cannot be joined, and then `v` alone is the value.
pub open spec fn path_op_spec(op: PathOp, current: Option<Seq<char>>, v: Seq<char>) -> Seq<char> {
    match current {
        None => v,
        Some(c) => {
            let kept = without(split_on(c, ':'), v);
            match op {
                PathOp::Remove => join_list(kept),
                PathOp::Append => if contains_seq(v, seq![':']) {
                    v
                } else {
                    join_list(kept.push(v))
                },
                PathOp::Prepend => if contains_seq(v, seq![':']) {
                    v
                } else {
                    join_list(seq![v] + kept)
                },
            }
        },
    }
}

/// `export key=value`, with the value escaped for bash.
pub open spec fn export_line(key: Seq<char>, value: Seq<char>) -> Seq<char> {
    "export "@ + key + "="@ + shell_quoted(value)
}

/// Splits `s` at each `:`.
fn split_colons(s: &str) -> (r: Vec<String>)
    ensures
        views(r@) == split_on(s@, ':'),
{
    let n = s.unicode_len();
    let mut parts: Vec<String> = Vec::new();
    let mut start: usize = 0;
    let mut i: usize = 0;
    while i < n
        invariant
            n == s@.len(),
            start <= i <= n,
            views(parts@) == split_scan_on(s@.subrange(0, i as int), ':').0,
            s@.subrange(start as int, i as int) == split_scan_on(s@.subrange(0, i as int), ':').1,
        decreases n - i,
    {
        let c = s.get_char(i);
        proof {
            assert(s@.subrange(0, i + 1).drop_last() =~= s@.subrange(0, i as int));
            assert(s@.subrange(0, i + 1).last() == c);
        }
        if c == ':' {
            let part = s.substring_char(start, i).to_owned();
            let ghost before = parts@;
            parts.push(part);
            proof {
                assert(views(parts@) =~= views(before).push(part@));
            }
            start = i + 1;
            proof {
                assert(s@.subrange(start as int, i + 1) =~= Seq::<char>::empty());
            }
        } else {
            proof {
                assert(s@.subrange(start as int, i + 1) =~= s@.subrange(start as int, i as int).push(c));
            }
        }
        i = i + 1;
    }
    let last = s.substring_char(start, n).to_owned();
    let ghost before = parts@;
    parts.push(last);
    proof {
        assert(s@.subrange(0, n as int) =~= s@);
        assert(views(parts@) =~= views(before).push(last@));
    }
    parts
}

/// Joins `ps` with `:`.
fn join_colons(ps: &Vec<String>) -> (r: String)
    ensures
        r@ == join_list(views(ps@)),
{
    let mut r = String::new();
    let mut i: usize = 0;
    while i < ps.len()
        invariant
            i <= ps@.len(),
            r@ == join_list(views(ps@).subrange(0, i as int)),
        decreases ps@.len() - i,
    {
        proof {
            reveal_strlit(":");
            assert(views(ps@).subrange(0, i + 1).drop_last() =~= views(ps@).subrange(0, i as int));
        }
        if i > 0 {
            r.append(":");
        }
        r.append(ps[i].as_str());
        proof {
            if i == 0 {
                assert(r@ =~= views(ps@).subrange(0, 1)[0]);
            } else {
                assert(r@ =~= join_list(views(ps@).subrange(0, i as int)) + seq![':'] + ps@[i as int]@);
            }
        }
        i = i + 1;
    }
    proof {
        assert(views(ps@).subrange(0, ps@.len() as int) =~= views(ps@));
    }
    r
}

/// Drops the entries that name the path `v`.
fn drop_path(ps: Vec<String>, v: &str) -> (r: Vec<String>)
    ensures
        views(r@) == without(views(ps@), v@),
{
    let mut kept: Vec<String> = Vec::new();
    let mut i: usize = 0;
    while i < ps.len()
        invariant
            i <= ps@.len(),
            views(kept@) == without(views(ps@).subrange(0, i as int), v@),
        decreases ps@.len() - i,
    {
        proof {
            assert(views(ps@).subrange(0, i + 1).drop_last() =~= views(ps@).subrange(0, i as int));
        }
        if !same_path(ps[i].as_str(), v) {
            let ghost before = kept@;
            kept.push(ps[i].clone());
            proof {
                assert(views(kept@) =~= views(before).push(ps@[i as int]@));
            }
        }
        i = i + 1;
    }
    proof {
        assert(views(ps@).subrange(0, ps@.len() as int) =~= views(ps@));
    }
    kept
}

impl PathOp {
    /// The new value of a path variable whose current value is `current`,
    /// with `path_value` taken as it is.
    pub fn apply_trimmed(&self, path_value: &str, current: Option<&str>) -> (r: String)
        ensures
            r@ == path_op_spec(*self, opt_view(current), path_value@),
    {
        match current {
            None => path_value.to_owned(),
            Some(c) => {
                let kept = drop_path(split_colons(c), path_value);
                let has_colon = contains_str(path_value, ":");
                proof {
                    reveal_strlit(":");
                    assert(":"@ =~= seq![':']);
                }
                match self {
                    PathOp::Remove => join_colons(&kept),
                    PathOp::Append => {
                        if has_colon {
                            path_value.to_owned()
                        } else {
                            let mut all = kept;
                            let ghost before = all@;
                            all.push(path_value.to_owned());
                            proof {
                                assert(views(all@) =~= views(before).push(path_value@));
                            }
                            join_colons(&all)
                        }
                    },
                    PathOp::Prepend => {
                        if has_colon {
                            path_value.to_owned()
                        } else {
                            let mut all = kept;
                            let ghost before = all@;
                            all.insert(0, path_value.to_owned());
                            proof {
                                assert(views(all@) =~= seq![path_value@] + views(before));
                            }
                            join_colons(&all)
                        }
                    },
                }
            },
        }
    }

    /// The new value of a path variable whose current value is `current`
    /// (`None`: not set), with surrounding whitespace of `path_value` dropped.
    pub fn apply(&self, path_value: &str, current: Option<&str>) -> (r: String)
        ensures
            r@ == path_op_spec(*self, opt_view(current), trimmed(path_value@)),
    {
        let v = trim(path_value);
        self.apply_trimmed(v.as_str(), current)
    }
}

/// `export path_key=<new value>` for `op`.
fn export_path(op: PathOp, path_key: &str, new_path: &str, current: Option<&str>) -> (r: String)
    ensures
        r@ == export_line(path_key@, path_op_spec(op, opt_view(current), trimmed(new_path@))),
{
    let value = op.apply(new_path, current);
    let escaped = shell_escape(value.as_str());
    let mut r = String::from_str("export ");
    r.append(path_key);
    r.append("=");
    r.append(escaped.as_str());
    proof {
        assert(r@ =~= export_line(path_key@, value@));
    }
    r
}

/// The bash line that puts `new_path` in front of the variable `path_key`,
/// whose current value is `current` (`None`: not set).
pub fn prepend_path(path_key: &str, new_path: &str, current: Option<&str>) -> (r: String)
    ensures
        r@ == export_line(path_key@, path_op_spec(PathOp::Prepend, opt_view(current), trimmed(new_path@))),
{
    export_path(PathOp::Prepend, path_key, new_path, current)
}

/// The bash line that puts `new_path` at the end of the variable `path_key`.
pub fn append_path(path_key: &str, new_path: &str, current: Option<&str>) -> (r: String)
    ensures
        r@ == export_line(path_key@, path_op_spec(PathOp::Append, opt_view(current), trimmed(new_path@))),
{
    export_path(PathOp::Append, path_key, new_path, current)
}

/// The bash line that drops `new_path` from the variable `path_key`.
pub fn remove_path(path_key: &str, new_path: &str, current: Option<&str>) -> (r: String)
    ensures
        r@ == export_line(path_key@, path_op_spec(PathOp::Remove, opt_view(current), trimmed(new_path@))),
{
    export_path(PathOp::Remove, path_key, new_path, current)
}

/// What a module's directory holds, as found on disk: `bin/`, `lib/`, and a
/// `.envrc` file.
#[derive(Debug, Clone, Copy, PartialEq, Eq, Structural)]
pub struct ModuleDirs {
    pub has_bin: bool,
    pub has_lib: bool,
    pub has_envrc: bool,
}

/// A snapshot of environment variables. For a name given twice the later
/// entry counts.
pub struct EnvVars {
    pub vars: Vec<(String, String)>,
}

/// The value of `key` in `vars`: its last entry.
pub open spec fn env_lookup(vars: Seq<(String, String)>, key: Seq<char>) -> Option<Seq<char>>
    decreases vars.len(),
{
    if vars.len() == 0 {
        None
    } else if vars.last().0@ == key {
        Some(vars.last().1@)
    } else {
        env_lookup(vars.drop_last(), key)
    }
}

impl EnvVars {
    /// An empty snapshot.
    pub fn new() -> (r: EnvVars)
        ensures
            r.vars@.len() == 0,
    {
        EnvVars { vars: Vec::new() }
    }

    /// Records `key=value`, overriding an earlier value of `key`.
    pub fn set(&mut self, key: String, value: String)
        ensures
            final(self).vars@ == old(self).vars@.push((key, value)),
            env_lookup(final(self).vars@, key@) == Some(value@),
    {
        self.vars.push((key, value));
        proof {
            assert(self.vars@.drop_last() =~= old(self).vars@);
        }
    }

    /// The value of `key`, if set.
    pub fn get(&self, key: &str) -> (r: Option<&str>)
        ensures
            opt_view(r) == env_lookup(self.vars@, key@),
    {
        let k = key.to_owned();
        let mut found: Option<usize> = None;
        let mut i: usize = 0;
        while i < self.vars.len()
            invariant
                i <= self.vars@.len(),
                k@ == key@,
                match found {
                    Some(j) => j < i && env_lookup(self.vars@.subrange(0, i as int), key@) == Some(
                        self.vars@[j as int].1@,
                    ),
                    None => env_lookup(self.vars@.subrange(0, i as int), key@) == None::<Seq<char>>,
                },
            decreases self.vars@.len() - i,
        {
            proof {
                assert(self.vars@.subrange(0, i + 1).drop_last() =~= self.vars@.subrange(0, i as int));
            }
            if self.vars[i].0 == k {
                found = Some(i);
            }
            i = i + 1;
        }
        proof {
            assert(self.vars@.subrange(0, self.vars@.len() as int) =~= self.vars@);
        }
        match found {
            Some(j) => Some(self.vars[j].1.as_str()),
            None => None,
        }
    }
}

/// The line, ended by `;`, that puts `dir` in front of the variable `key` or
/// takes it out.
#[verifier::opaque]
pub open spec fn env_line(remove: bool, key: Seq<char>, dir: Seq<char>, env: Seq<(String, String)>) -> Seq<char> {
    let op = if remove {
        PathOp::Remove
    } else {
        PathOp::Prepend
    };
    export_line(key, path_op_spec(op, env_lookup(env, key), trimmed(dir))) + ";"@
}

/// The bash text that loads (or, with `remove`, unloads) the module
/// `module` under `root`: its `bin/` on `PATH`, its `lib/` on the four
/// library variables, and its `.envrc` sourced from the module's directory.
pub open spec fn module_script(
    root: Seq<char>,
    module: Seq<char>,
    remove: bool,
    dirs: ModuleDirs,
    env: Seq<(String, String)>,
) -> Seq<char> {
    let m = join_path_spec(root, module);
    let lib = join_path_spec(m, "lib"@);
    let bin_part = if dirs.has_bin {
        env_line(remove, "PATH"@, join_path_spec(m, "bin"@), env)
    } else {
        Seq::empty()
    };
    let lib_part = if dirs.has_lib {
        env_line(remove, "CPATH"@, lib, env) + env_line(remove, "LIBRARY_PATH"@, lib, env) + env_line(
            remove,
            "LD_LIBRARY_PATH"@,
            lib,
            env,
        ) + env_line(remove, "LD_RUN_PATH"@, lib, env)
    } else {
        Seq::empty()
    };
    let rc_part = if dirs.has_envrc {
        "pushd "@ + shell_quoted(m) + ";"@ + "source .envrc;"@ + "popd;"@
    } else {
        Seq::empty()
    };
    bin_part + lib_part + rc_part
}

/// Appends the line for `key` to `lines`.
fn push_env_line(lines: &mut String, remove: bool, key: &str, dir: &str, env: &EnvVars)
    ensures
        final(lines)@ == old(lines)@ + env_line(remove, key@, dir@, env.vars@),
{
    reveal(env_line);
    let current = env.get(key);
    let line = if remove {
        remove_path(key, dir, current)
    } else {
        prepend_path(key, dir, current)
    };
    lines.append(line.as_str());
    lines.append(";");
}

/// The module's root directory, `root/module`.
pub fn module_root(apps_root_dir: &str, module_name: &str) -> (r: String)
    ensures
        r@ == join_path_spec(apps_root_dir@, module_name@),
{
    join_path(apps_root_dir, module_name)
}

/// The bash text that loads the module `module_name` found under
/// `apps_root_dir` (or unloads it, with `remove`), given what its directory
/// holds and the current environment.
pub fn set_module_env_vars(
    apps_root_dir: &str,
    module_name: &str,
    remove: bool,
    dirs: ModuleDirs,
    env: &EnvVars,
) -> (r: String)
    ensures
        r@ == module_script(apps_root_dir@, module_name@, remove, dirs, env.vars@),
{
    let mod_root = module_root(apps_root_dir, module_name);
    let mut lines = String::new();
    let ghost start = lines@;
    if dirs.has_bin {
        let mod_bin = join_path(mod_root.as_str(), "bin");
        push_env_line(&mut lines, remove, "PATH", mod_bin.as_str(), env);
    }
    let ghost after_bin = lines@;
    if dirs.has_lib {
        let mod_lib = join_path(mod_root.as_str(), "lib");
        push_env_line(&mut lines, remove, "CPATH", mod_lib.as_str(), env);
        push_env_line(&mut lines, remove, "LIBRARY_PATH", mod_lib.as_str(), env);
        push_env_line(&mut lines, remove, "LD_LIBRARY_PATH", mod_lib.as_str(), env);
        push_env_line(&mut lines, remove, "LD_RUN_PATH", mod_lib.as_str(), env);
    }
    let ghost after_lib = lines@;
    if dirs.has_envrc {
        let dir = shell_escape(mod_root.as_str());
        lines.append("pushd ");
        lines.append(dir.as_str());
        lines.append(";");
        lines.append("source .envrc;");
        lines.append("popd;");
    }
    proof {
        let m = join_path_spec(apps_root_dir@, module_name@);
        let lib = join_path_spec(m, "lib"@);
        if dirs.has_lib {
            assert(after_lib =~= after_bin + (env_line(remove, "CPATH"@, lib, env.vars@) + env_line(
                remove,
                "LIBRARY_PATH"@,
                lib,
                env.vars@,
            ) + env_line(remove, "LD_LIBRARY_PATH"@, lib, env.vars@) + env_line(
                remove,
                "LD_RUN_PATH"@,
                lib,
                env.vars@,
            )));
        }
        if dirs.has_envrc {
            assert(lines@ =~= after_lib + ("pushd "@ + shell_quoted(m) + ";"@ + "source .envrc;"@
                + "popd;"@));
        }
        assert(lines@ =~= module_script(apps_root_dir@, module_name@, remove, dirs, env.vars@));
    }
    lines
}

} // verus!
