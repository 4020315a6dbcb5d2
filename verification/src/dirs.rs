//! Path text helpers: joining a directory with an entry name, taking the file
//! name of a path, and resolving the home and configuration base directories
//! out of an environment snapshot.

use vstd::prelude::*;

use crate::shell::Environment;

verus! {

/// The path naming `name` inside the directory `base`.
pub open spec fn join_parts(base: Seq<char>, name: Seq<char>) -> Seq<char> {
    base + "/"@ + name
}

/// Joins a directory path with an entry name, separated by `/`.
pub fn join_path(base: &str, name: &str) -> (r: String)
    ensures
        r@ == join_parts(base@, name@),
{
    let mut joined = base.to_owned();
    joined.append("/");
    joined.append(name);
    joined
}

/// The part of `path` after its last `/`: the whole of `path` when it holds
/// no `/`, and empty when it ends with one.
pub open spec fn file_name(path: Seq<char>) -> Seq<char>
    decreases path.len(),
{
    if path.len() == 0 {
        path
    } else if path.last() == '/' {
        Seq::empty()
    } else {
        file_name(path.drop_last()).push(path.last())
    }
}

/// A suffix of `path` that starts right after a `/` (or at the start) and
/// holds no further `/` is exactly `file_name(path)`.
proof fn lemma_file_name_suffix(path: Seq<char>, cut: int)
    requires
        0 <= cut <= path.len(),
        forall|m: int| cut <= m < path.len() ==> path[m] != '/',
        cut == 0 || path[cut - 1] == '/',
    ensures
        file_name(path) == path.subrange(cut, path.len() as int),
    decreases path.len(),
{
    if cut == path.len() {
        if path.len() == 0 {
            assert(file_name(path) =~= path.subrange(cut, path.len() as int));
        } else {
            assert(path.last() == '/');
            assert(file_name(path) =~= path.subrange(cut, path.len() as int));
        }
    } else {
        assert(path.last() != '/');
        let shorter = path.drop_last();
        lemma_file_name_suffix(shorter, cut);
        assert(shorter.subrange(cut, shorter.len() as int) =~= path.subrange(
            cut,
            path.len() - 1,
        ));
        assert(file_name(path) =~= path.subrange(cut, path.len() as int));
    }
}

/// The file name of `path`: everything after its last `/`.
pub fn file_name_of(path: &str) -> (r: String)
    ensures
        r@ == file_name(path@),
{
    let len = path.unicode_len();
    let mut cut: usize = 0;
    let mut i: usize = 0;
    while i < len
        invariant
            len == path@.len(),
            i <= len,
            cut <= i,
            forall|m: int| cut <= m < i ==> path@[m] != '/',
            cut == 0 || path@[cut - 1] == '/',
        decreases len - i,
    {
        if path.get_char(i) == '/' {
            cut = i + 1;
        }
        i = i + 1;
    }
    proof {
        lemma_file_name_suffix(path@, cut as int);
    }
    path.substring_char(cut, len).to_owned()
}

/// The home directory recorded in the snapshot, from the `HOME` variable.
pub(crate) fn get_home_dir(env: &Environment) -> (r: Option<String>)
    ensures
        match env.home {
            Some(home) => r matches Some(dir) && dir@ == home@,
            None => r is None,
        },
{
    match &env.home {
        Some(home) => Some(home.clone()),
        None => None,
    }
}

/// The base directory under which per-user configuration lives:
/// `XDG_CONFIG_HOME` when set, the home directory otherwise.
pub open spec fn config_base(env: Environment) -> Option<Seq<char>> {
    match env.xdg_config_home {
        Some(xdg) => Some(xdg@),
        None => match env.home {
            Some(home) => Some(home@),
            None => None,
        },
    }
}

/// Resolves the configuration base directory out of the snapshot.
pub(crate) fn get_config_base(env: &Environment) -> (r: Option<String>)
    ensures
        match config_base(*env) {
            Some(base) => r matches Some(dir) && dir@ == base,
            None => r is None,
        },
{
    match &env.xdg_config_home {
        Some(xdg) => Some(xdg.clone()),
        None => match &env.home {
            Some(home) => Some(home.clone()),
            None => None,
        },
    }
}

} // verus!
