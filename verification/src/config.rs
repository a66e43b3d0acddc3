//! Where the address of the directory is looked for.
//!
//! The files themselves are read by the caller. This module says which files
//! to try, in which order, and which of those that could be read counts.

use vstd::prelude::*;

verus! {

/// The configuration file of the whole system.
pub const SYSTEM_CONFIG: &'static str = "/etc/kanidm/config";

/// Where the configuration file of a user lies below the home directory.
pub const USER_CONFIG: &'static str = "/.config/kanidm";

/// The views of a list of texts.
pub open spec fn texts(list: Seq<String>) -> Seq<Seq<char>> {
    list.map_values(|t: String| t@)
}

/// The files to try where none was named: the file of the system, then the
/// file of the user, if the home directory is known.
pub open spec fn default_paths(home: Option<Seq<char>>) -> Seq<Seq<char>> {
    match home {
        Some(dir) => seq![SYSTEM_CONFIG@, dir + USER_CONFIG@],
        None => seq![SYSTEM_CONFIG@],
    }
}

/// The files to try: the one that was named, and no other; or, where none was
/// named, the default ones.
pub open spec fn candidate_paths<P>(named: Option<P>, defaults: Seq<P>) -> Seq<P> {
    match named {
        Some(path) => seq![path],
        None => defaults,
    }
}

/// The files to try where none was named, given the home directory of the
/// user, if there is one.
pub fn config_paths(home: Option<&str>) -> (paths: Vec<String>)
    ensures
        texts(paths@) == default_paths(
            match home {
                Some(dir) => Some(dir@),
                None => None,
            },
        ),
{
    let mut paths: Vec<String> = Vec::new();
    paths.push(SYSTEM_CONFIG.to_string());
    if let Some(dir) = home {
        let mut path = dir.to_string();
        path.append(USER_CONFIG);
        paths.push(path);
    }
    assert(texts(paths@) =~= default_paths(
        match home {
            Some(dir) => Some(dir@),
            None => None,
        },
    ));
    paths
}

/// The files to try, given the file that was named, if one was, and the
/// default ones. A path is whatever the caller reads files by.
pub fn config_candidates<P>(named: Option<P>, defaults: Vec<P>) -> (paths: Vec<P>)
    ensures
        paths@ == candidate_paths(named, defaults@),
{
    match named {
        Some(path) => {
            let mut paths: Vec<P> = Vec::new();
            paths.push(path);
            assert(paths@ =~= seq![path]);
            paths
        },
        None => defaults,
    }
}

/// Whether file number `i`, among the files that were tried in order, is the
/// last one that could be read.
pub open spec fn is_last_read(contents: Seq<Option<String>>, i: int) -> bool {
    &&& 0 <= i < contents.len()
    &&& contents[i] is Some
    &&& forall|j: int| i < j < contents.len() ==> contents[j] is None
}

/// Picks the configuration to use. `contents` holds, for each file that was
/// tried and in that order, what was read from it, or `None` where it could
/// not be read. The last file that could be read counts; if none could,
/// there is no configuration.
pub fn select_config(contents: Vec<Option<String>>) -> (chosen: Option<String>)
    ensures
        match chosen {
            Some(text) => exists|i: int|
                #[trigger] is_last_read(contents@, i) && contents@[i] == Some(text),
            None => forall|i: int| 0 <= i < contents.len() ==> contents@[i] is None,
        },
{
    let mut rest = contents;
    loop
        invariant
            rest@.len() <= contents@.len(),
            rest@ == contents@.take(rest@.len() as int),
            forall|j: int| rest@.len() <= j < contents@.len() ==> contents@[j] is None,
        decreases rest@.len(),
    {
        let ghost before = rest@;
        match rest.pop() {
            None => {
                return None;
            },
            Some(Some(text)) => {
                assert(is_last_read(contents@, before.len() - 1));
                return Some(text);
            },
            Some(None) => {},
        }
    }
}

} // verus!
