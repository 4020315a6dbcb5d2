//! Shell variants and their rc-file resolution rules, shell detection, the
//! `PATH` membership check, and the rc-file content mutators.
//!
//! Every function here decides over an explicit [`Environment`] snapshot and
//! plain values; observing the live environment, spawning shell binaries and
//! reading or writing files are the caller's concern.

use vstd::prelude::*;

use crate::dirs::{config_base, file_name, join_parts, join_path, file_name_of};
use crate::dirs::{get_config_base, get_home_dir};
use crate::error::ShellError;
use crate::text::{has_match, remove_first_match, contains_substring, remove_first_occurrence};
use crate::text::{find_first, matches_at, lemma_find_from_is_first, lemma_find_first_none};

verus! {

/// A snapshot of the ambient state the resolution rules depend on: the
/// relevant environment variables and what invoking the `zsh` binary
/// observed.  Resolution reads nothing else, so callers (and tests) control
/// every input explicitly.
#[derive(Clone, Debug)]
pub struct Environment {
    /// Whether the host is POSIX-like; detection refuses other platforms.
    pub posix_platform: bool,
    /// The `SHELL` environment variable, if set.
    pub shell: Option<String>,
    /// The `HOME` environment variable, if set.
    pub home: Option<String>,
    /// The `XDG_CONFIG_HOME` environment variable, if set.
    pub xdg_config_home: Option<String>,
    /// The effective `ZDOTDIR` as echoed by the `zsh` binary itself; `None`
    /// when the binary could not be run or its output could not be decoded.
    pub zdotdir: Option<String>,
    /// The `PATH` environment variable, if set.
    pub path: Option<String>,
}

/// Represents the Unix shells supported by this library: a closed set of
/// variants, each carrying its own rc-file resolution rule.
#[derive(Clone, Copy, Debug, PartialEq, Eq, Structural)]
pub enum Shell {
    POSIX(POSIX),
    Zsh(Zsh),
    Bash(Bash),
    Fish(Fish),
}

/// The default POSIX-compliant shell (like `sh`).
#[derive(Clone, Copy, Debug, PartialEq, Eq, Structural)]
pub struct POSIX;

/// The Z shell.
#[derive(Clone, Copy, Debug, PartialEq, Eq, Structural)]
pub struct Zsh;

/// The Bourne Again Shell.
#[derive(Clone, Copy, Debug, PartialEq, Eq, Structural)]
pub struct Bash;

/// The Friendly Interactive Shell.
#[derive(Clone, Copy, Debug, PartialEq, Eq, Structural)]
pub struct Fish;

/// The `SHELL` variable is set and mentions `name`.
pub open spec fn shell_var_mentions(env: Environment, name: Seq<char>) -> bool {
    env.shell matches Some(shell) && has_match(shell@, name)
}

/// The shell the `SHELL` value `shell_var` names, checking `zsh`, then
/// `bash`, then `fish`, in that fixed order; anything else is taken for a
/// POSIX-compliant shell.
pub open spec fn detected_kind(shell_var: Seq<char>) -> Shell {
    if has_match(shell_var, "zsh"@) {
        Shell::Zsh(Zsh)
    } else if has_match(shell_var, "bash"@) {
        Shell::Bash(Bash)
    } else if has_match(shell_var, "fish"@) {
        Shell::Fish(Fish)
    } else {
        Shell::POSIX(POSIX)
    }
}

/// What detection returns on `env`: `UnsupportedPlatform` off POSIX-like
/// hosts, `NoShellVar` when `SHELL` is unset, and otherwise the variant the
/// `SHELL` value names.
pub open spec fn detection(env: Environment, r: Result<Shell, ShellError>) -> bool {
    if !env.posix_platform {
        r matches Err(e) && e is UnsupportedPlatform
    } else {
        match env.shell {
            None => r matches Err(e) && e is NoShellVar,
            Some(shell) => r matches Ok(kind) && kind == detected_kind(shell@),
        }
    }
}

/// What POSIX resolution returns on `env`: `<home>/.profile`, or
/// `NoHomeDir` when no home directory resolves.
pub open spec fn posix_resolution(env: Environment, r: Result<Vec<String>, ShellError>) -> bool {
    match env.home {
        None => r matches Err(e) && e is NoHomeDir,
        Some(home) => r matches Ok(files) && files@.len() == 1 && files@[0]@ == join_parts(
            home@,
            ".profile"@,
        ),
    }
}

/// What Bash resolution returns on `env`: the three candidates
/// `<home>/.bash_profile`, `<home>/.bash_login`, `<home>/.bashrc` in that
/// order, or `NoHomeDir` when no home directory resolves.  Whether the
/// candidates exist on disk is not checked.
pub open spec fn bash_resolution(env: Environment, r: Result<Vec<String>, ShellError>) -> bool {
    match env.home {
        None => r matches Err(e) && e is NoHomeDir,
        Some(home) => r matches Ok(files) && files@.len() == 3 && files@[0]@ == join_parts(
            home@,
            ".bash_profile"@,
        ) && files@[1]@ == join_parts(home@, ".bash_login"@) && files@[2]@ == join_parts(
            home@,
            ".bashrc"@,
        ),
    }
}

/// The `zsh` binary echoed a non-empty effective `ZDOTDIR`.
pub open spec fn zdotdir_resolved(env: Environment) -> bool {
    env.zdotdir matches Some(zdotdir) && zdotdir@.len() > 0
}

/// The effective `ZDOTDIR` value recorded in the snapshot.
pub open spec fn zdotdir_value(env: Environment) -> Seq<char> {
    match env.zdotdir {
        Some(zdotdir) => zdotdir@,
        None => Seq::empty(),
    }
}

/// What Zsh resolution returns on `env`.  Two tiers contribute candidates
/// independently: `<ZDOTDIR>/.zshenv` when the `zsh` binary echoed a
/// non-empty effective `ZDOTDIR`, then `<home>/.zshenv` when `HOME` is set.
/// When neither tier resolves the result is the distinct
/// `EmptyHomeAndZdotdir` error.  The two candidates are deliberately not
/// deduplicated even when they coincide.
pub open spec fn zsh_resolution(env: Environment, r: Result<Vec<String>, ShellError>) -> bool {
    if zdotdir_resolved(env) {
        match env.home {
            Some(home) => r matches Ok(files) && files@.len() == 2 && files@[0]@ == join_parts(
                zdotdir_value(env),
                ".zshenv"@,
            ) && files@[1]@ == join_parts(home@, ".zshenv"@),
            None => r matches Ok(files) && files@.len() == 1 && files@[0]@ == join_parts(
                zdotdir_value(env),
                ".zshenv"@,
            ),
        }
    } else {
        match env.home {
            Some(home) => r matches Ok(files) && files@.len() == 1 && files@[0]@ == join_parts(
                home@,
                ".zshenv"@,
            ),
            None => r matches Err(e) && e is EmptyHomeAndZdotdir,
        }
    }
}

/// What Fish resolution returns on `env`: always `Ok`, holding the single
/// directory `<config base>/.config/fish/conf.d` when a configuration base
/// resolves, and nothing at all otherwise.
pub open spec fn fish_resolution(env: Environment, r: Result<Vec<String>, ShellError>) -> bool {
    match config_base(env) {
        None => r matches Ok(files) && files@.len() == 0,
        Some(base) => r matches Ok(files) && files@.len() == 1 && files@[0]@ == join_parts(
            base,
            ".config/fish/conf.d"@,
        ),
    }
}

impl Shell {
    /// Detects the current shell from the `SHELL` value in the snapshot.
    ///
    /// Non-POSIX platforms fail with `UnsupportedPlatform` and an unset
    /// `SHELL` with `NoShellVar`; otherwise the value is matched against
    /// `zsh`, `bash` and `fish` in that fixed order, first match wins, and
    /// anything unrecognized falls back to the POSIX variant.
    pub fn detect_by_shell_var(env: &Environment) -> (r: Result<Shell, ShellError>)
        ensures
            detection(*env, r),
    {
        if !env.posix_platform {
            return Err(ShellError::UnsupportedPlatform);
        }
        match &env.shell {
            None => Err(ShellError::NoShellVar),
            Some(shell) => {
                if contains_substring(shell.as_str(), "zsh") {
                    Ok(Shell::Zsh(Zsh))
                } else if contains_substring(shell.as_str(), "bash") {
                    Ok(Shell::Bash(Bash))
                } else if contains_substring(shell.as_str(), "fish") {
                    Ok(Shell::Fish(Fish))
                } else {
                    Ok(Shell::POSIX(POSIX))
                }
            },
        }
    }

    /// Resolves the rc-file candidates of this shell, by its own rule.
    pub fn get_rcfiles(&self, env: &Environment) -> (r: Result<Vec<String>, ShellError>)
        ensures
            self is POSIX ==> posix_resolution(*env, r),
            self is Zsh ==> zsh_resolution(*env, r),
            self is Bash ==> bash_resolution(*env, r),
            self is Fish ==> fish_resolution(*env, r),
    {
        match self {
            Shell::Fish(fish) => fish.get_rcfiles(env),
            Shell::Zsh(zsh) => zsh.get_rcfiles(env),
            Shell::Bash(bash) => bash.get_rcfiles(env),
            Shell::POSIX(posix) => posix.get_rcfiles(env),
        }
    }
}

impl POSIX {
    /// The POSIX fallback stands for any shell, so it always exists.
    pub fn does_exist(&self) -> (r: bool)
        ensures
            r,
    {
        true
    }

    /// Resolves `<home>/.profile`; fails with `NoHomeDir` when no home
    /// directory resolves.
    pub fn get_rcfiles(&self, env: &Environment) -> (r: Result<Vec<String>, ShellError>)
        ensures
            posix_resolution(*env, r),
    {
        match get_home_dir(env) {
            None => Err(ShellError::NoHomeDir),
            Some(dir) => {
                let mut files: Vec<String> = Vec::new();
                files.push(join_path(dir.as_str(), ".profile"));
                Ok(files)
            },
        }
    }

    /// The POSIX candidate under an explicit base directory instead of the
    /// environment: `<base_dir>/.profile`.
    pub fn get_rcfiles_from_base(base_dir: &str) -> (r: Vec<String>)
        ensures
            r@.len() == 1,
            r@[0]@ == join_parts(base_dir@, ".profile"@),
    {
        let mut files: Vec<String> = Vec::new();
        files.push(join_path(base_dir, ".profile"));
        files
    }
}

impl Zsh {
    /// Whether Zsh looks present: `SHELL` mentions `zsh`, or the `zsh`
    /// binary was observed to run (`binary_runs`).
    pub fn does_exist(&self, env: &Environment, binary_runs: bool) -> (r: bool)
        ensures
            r == (shell_var_mentions(*env, "zsh"@) || binary_runs),
    {
        match &env.shell {
            Some(shell) => contains_substring(shell.as_str(), "zsh") || binary_runs,
            None => binary_runs,
        }
    }

    /// Resolves the Zsh candidates in two independent tiers: the effective
    /// `ZDOTDIR` the `zsh` binary echoed, then the inherited `HOME`; both
    /// contribute `<dir>/.zshenv` when they resolve, without deduplication.
    /// When neither does, fails with the distinct `EmptyHomeAndZdotdir`.
    pub fn get_rcfiles(&self, env: &Environment) -> (r: Result<Vec<String>, ShellError>)
        ensures
            zsh_resolution(*env, r),
    {
        let mut rc_files: Vec<String> = Vec::new();

        match &env.zdotdir {
            Some(zdotdir) => {
                if !zdotdir.as_str().is_empty() {
                    rc_files.push(join_path(zdotdir.as_str(), ".zshenv"));
                }
            },
            None => {},
        }

        match &env.home {
            Some(home) => {
                rc_files.push(join_path(home.as_str(), ".zshenv"));
            },
            None => {},
        }

        if rc_files.len() == 0 {
            Err(ShellError::EmptyHomeAndZdotdir)
        } else {
            Ok(rc_files)
        }
    }

    /// The Zsh candidate under an explicit base directory instead of the
    /// environment: `<base_dir>/.zshenv`.
    pub fn get_rcfiles_from_base(base_dir: &str) -> (r: Vec<String>)
        ensures
            r@.len() == 1,
            r@[0]@ == join_parts(base_dir@, ".zshenv"@),
    {
        let mut files: Vec<String> = Vec::new();
        files.push(join_path(base_dir, ".zshenv"));
        files
    }
}

impl Bash {
    /// Whether Bash looks present: `SHELL` mentions `bash`, or the `bash`
    /// binary was observed to run (`binary_runs`).
    pub fn does_exist(&self, env: &Environment, binary_runs: bool) -> (r: bool)
        ensures
            r == (shell_var_mentions(*env, "bash"@) || binary_runs),
    {
        match &env.shell {
            Some(shell) => contains_substring(shell.as_str(), "bash") || binary_runs,
            None => binary_runs,
        }
    }

    /// Resolves the three Bash candidates `<home>/.bash_profile`,
    /// `<home>/.bash_login` and `<home>/.bashrc`, in that order, without
    /// checking whether they exist on disk; fails with `NoHomeDir` when no
    /// home directory resolves.
    pub fn get_rcfiles(&self, env: &Environment) -> (r: Result<Vec<String>, ShellError>)
        ensures
            bash_resolution(*env, r),
    {
        match get_home_dir(env) {
            None => Err(ShellError::NoHomeDir),
            Some(dir) => Ok(Self::get_rcfiles_from_base(dir.as_str())),
        }
    }

    /// The Bash candidates under an explicit base directory instead of the
    /// environment: `.bash_profile`, `.bash_login`, `.bashrc` under
    /// `base_dir`, in that order.
    pub fn get_rcfiles_from_base(base_dir: &str) -> (r: Vec<String>)
        ensures
            r@.len() == 3,
            r@[0]@ == join_parts(base_dir@, ".bash_profile"@),
            r@[1]@ == join_parts(base_dir@, ".bash_login"@),
            r@[2]@ == join_parts(base_dir@, ".bashrc"@),
    {
        let mut files: Vec<String> = Vec::new();
        files.push(join_path(base_dir, ".bash_profile"));
        files.push(join_path(base_dir, ".bash_login"));
        files.push(join_path(base_dir, ".bashrc"));
        files
    }
}

impl Fish {
    /// Whether Fish looks present: `SHELL` mentions `fish`, or the `fish`
    /// binary was observed to run (`binary_runs`).
    pub fn does_exist(&self, env: &Environment, binary_runs: bool) -> (r: bool)
        ensures
            r == (shell_var_mentions(*env, "fish"@) || binary_runs),
    {
        match &env.shell {
            Some(shell) => contains_substring(shell.as_str(), "fish") || binary_runs,
            None => binary_runs,
        }
    }

    /// Resolves the single directory `<config base>/.config/fish/conf.d`
    /// (a directory Fish scans, not a file).  Never fails: when no
    /// configuration base resolves the list is simply empty, which callers
    /// must treat as "no usable rc location".
    pub fn get_rcfiles(&self, env: &Environment) -> (r: Result<Vec<String>, ShellError>)
        ensures
            fish_resolution(*env, r),
    {
        let mut paths: Vec<String> = Vec::new();

        match get_config_base(env) {
            Some(base) => {
                paths.push(join_path(base.as_str(), ".config/fish/conf.d"));
            },
            None => {},
        }

        Ok(paths)
    }

    /// The Fish candidate under an explicit base directory instead of the
    /// environment: `<base_dir>/.config/fish/conf.d`.
    pub fn get_rcfiles_from_base(base_dir: &str) -> (r: Vec<String>)
        ensures
            r@.len() == 1,
            r@[0]@ == join_parts(base_dir@, ".config/fish/conf.d"@),
    {
        let mut files: Vec<String> = Vec::new();
        files.push(join_path(base_dir, ".config/fish/conf.d"));
        files
    }
}

/// Whether the directory `path` already appears in the `PATH` value of the
/// snapshot: a plain substring check, false whenever `PATH` is unset.
pub fn exists_in_path(env: &Environment, path: &str) -> (r: bool)
    ensures
        r == (env.path matches Some(entries) && has_match(entries@, path@)),
{
    match &env.path {
        Some(entries) => contains_substring(entries.as_str(), path),
        None => false,
    }
}

/// The content of an rc file after appending `line`: the line followed by a
/// newline, at the end.
pub open spec fn appended_content(content: Seq<char>, line: Seq<char>) -> Seq<char> {
    content + line + "\n"@
}

/// The new content of the rc file at `rcfile` after appending `line`.
///
/// This is a mutation, never a creation: when the file does not exist
/// (`exists` is false) it fails with `RCFileNotFound` and no new content is
/// produced.  No deduplication happens — appending twice inserts the line
/// twice.
pub fn append_to_rcfile(rcfile: &str, exists: bool, content: &str, line: &str) -> (r: Result<
    String,
    ShellError,
>)
    ensures
        !exists ==> (r matches Err(e) && e matches ShellError::RCFileNotFound(name) && name@
            == file_name(rcfile@)),
        exists ==> (r matches Ok(new_content) && new_content@ == appended_content(
            content@,
            line@,
        )),
{
    if !exists {
        return Err(ShellError::RCFileNotFound(file_name_of(rcfile)));
    }
    let mut new_content = content.to_owned();
    new_content.append(line);
    new_content.append("\n");
    Ok(new_content)
}

/// The new content of the rc file at `rcfile` after removing `line`: the
/// first occurrence of exactly the bytes of `line` is spliced out, wherever
/// it stands; when `line` does not occur the content is returned unchanged
/// (removal is idempotent, not an error).  When the file does not exist
/// (`exists` is false) it fails with `RCFileNotFound`.
pub fn remove_from_rcfile(rcfile: &str, exists: bool, content: &str, line: &str) -> (r: Result<
    String,
    ShellError,
>)
    ensures
        !exists ==> (r matches Err(e) && e matches ShellError::RCFileNotFound(name) && name@
            == file_name(rcfile@)),
        exists ==> (r matches Ok(new_content) && new_content@ == remove_first_match(
            content@,
            line@,
        )),
{
    if !exists {
        return Err(ShellError::RCFileNotFound(file_name_of(rcfile)));
    }
    Ok(remove_first_occurrence(content, line))
}

/// Removal is idempotent: once the first occurrence of `line` is out and no
/// occurrence remains, removing `line` again changes nothing.  (When another
/// occurrence remains — or the splice itself forms a new one — the second
/// call removes that occurrence instead.)
pub proof fn lemma_remove_idempotent(content: Seq<char>, line: Seq<char>)
    requires
        !has_match(remove_first_match(content, line), line),
    ensures
        remove_first_match(remove_first_match(content, line), line) == remove_first_match(
            content,
            line,
        ),
{
    crate::text::lemma_remove_when_absent(remove_first_match(content, line), line);
}

/// Round trip: appending `line` and then removing what the append wrote (the
/// line together with its terminating newline) restores the content exactly,
/// provided the line holds no newline of its own and did not already occur.
pub proof fn lemma_append_remove_round_trip(content: Seq<char>, line: Seq<char>)
    requires
        !line.contains('\n'),
        !has_match(content, line + "\n"@),
    ensures
        remove_first_match(appended_content(content, line), line + "\n"@) == content,
{
    reveal_strlit("\n");
    let newline = "\n"@;
    let needle = line + newline;
    let full = appended_content(content, line);
    let n = content.len() as int;
    let m = needle.len() as int;
    assert(full =~= content + needle);
    assert(full.subrange(n, n + m) =~= needle);
    assert(matches_at(full, needle, n));
    assert forall|i: int| 0 <= i < n implies !matches_at(full, needle, i) by {
        if matches_at(full, needle, i) {
            if i + m <= n {
                assert(content.subrange(i, i + m) =~= full.subrange(i, i + m));
                assert(matches_at(content, needle, i));
                assert(false);
            } else {
                let p = i + m - 1;
                assert(full.subrange(i, i + m)[m - 1] == full[p]);
                assert(full[p] == needle[m - 1]);
                assert(needle[m - 1] == '\n');
                assert(full[p] == needle[p - n]);
                assert(needle[p - n] == line[p - n]);
                assert(line.contains('\n'));
                assert(false);
            }
        }
    }
    lemma_find_from_is_first(full, needle, 0);
    lemma_find_first_none(full, needle);
    match find_first(full, needle) {
        Some(first) => {
            assert(first == n);
            assert(remove_first_match(full, needle) =~= content);
        },
        None => {
            assert(has_match(full, needle));
            assert(false);
        },
    }
}

} // verus!

