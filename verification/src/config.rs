//! Where the settings of the companion service are looked for, and what
//! they say of the directory that the document goes to.

use vstd::prelude::*;

verus! {

/// The flag that names the settings file on the command line.
pub open spec fn env_flag() -> Seq<char> {
    seq!['-', '-', 't', 'o', 's', 'u', '-', 'e', 'n', 'v']
}

/// The key under which the settings file names the directory.
pub open spec fn folder_key() -> Seq<char> {
    seq![
        'S',
        'T',
        'A',
        'T',
        'I',
        'C',
        '_',
        'F',
        'O',
        'L',
        'D',
        'E',
        'R',
        '_',
        'P',
        'A',
        'T',
        'H',
    ]
}

/// The argument behind the first flag among `args`; none where there is no
/// flag, and none where the first flag is the last argument.
pub open spec fn flag_value(args: Seq<String>) -> Option<Seq<char>>
    decreases args.len(),
{
    if args.len() == 0 {
        None
    } else if args[0]@ == env_flag() {
        if args.len() >= 2 {
            Some(args[1]@)
        } else {
            None
        }
    } else {
        flag_value(args.drop_first())
    }
}

/// The settings file that is used: the one named on the command line, else
/// the one named by the environment, else the one in the working directory,
/// else the one in its parent, where it exists.
pub open spec fn chosen_env(
    args: Seq<String>,
    from_env: Option<String>,
    here: bool,
    above: bool,
) -> Option<Seq<char>> {
    if flag_value(args) is Some {
        flag_value(args)
    } else {
        match from_env {
            Some(p) => Some(p@),
            None => if here {
                Some(seq!['.', '/', 't', 'o', 's', 'u', '.', 'e', 'n', 'v'])
            } else if above {
                Some(seq!['.', '.', '/', 't', 'o', 's', 'u', '.', 'e', 'n', 'v'])
            } else {
                None
            },
        }
    }
}

/// The value of the first pair whose key is that of the directory.
pub open spec fn folder_value(pairs: Seq<(String, String)>) -> Option<Seq<char>>
    decreases pairs.len(),
{
    if pairs.len() == 0 {
        None
    } else if pairs[0].0@ == folder_key() {
        Some(pairs[0].1@)
    } else {
        folder_value(pairs.drop_first())
    }
}

/// Where the document goes.
#[derive(Clone, Debug)]
pub enum StaticRoot {
    /// The directory that the settings name, as it stands.
    Given(String),
    /// The directory that the settings name, below the directory of the
    /// settings file.
    BesideEnv { env_path: String, folder: String },
    /// The directory `overlay` below the working directory.
    Fallback,
}

/// The argument behind the first flag among `args`.
pub fn env_path_from_args(args: &Vec<String>) -> (path: Option<String>)
    ensures
        match path {
            Some(p) => flag_value(args@) == Some(p@),
            None => flag_value(args@) is None,
        },
{
    proof {
        reveal_strlit("--tosu-env");
        assert("--tosu-env"@ =~= env_flag());
        assert(args@.skip(0) =~= args@);
    }
    let flag = String::from_str("--tosu-env");
    let mut i: usize = 0;
    while i < args.len()
        invariant
            i <= args.len(),
            flag@ == env_flag(),
            flag_value(args@) == flag_value(args@.skip(i as int)),
        decreases args.len() - i,
    {
        let ghost rest = args@.skip(i as int);
        assert(rest[0] == args@[i as int]);
        if args[i] == flag {
            if i + 1 < args.len() {
                assert(rest[1] == args@[i + 1]);
                return Some(args[i + 1].clone());
            } else {
                return None;
            }
        }
        assert(rest.drop_first() =~= args@.skip(i + 1));
        i += 1;
    }
    None
}

/// The settings file that is used.
pub fn find_tosu_env(args: &Vec<String>, from_env: Option<String>, here: bool, above: bool) -> (path:
    Option<String>)
    ensures
        match path {
            Some(p) => chosen_env(args@, from_env, here, above) == Some(p@),
            None => chosen_env(args@, from_env, here, above) is None,
        },
{
    if let Some(p) = env_path_from_args(args) {
        return Some(p);
    }
    if let Some(p) = from_env {
        return Some(p);
    }
    proof {
        reveal_strlit("./tosu.env");
        reveal_strlit("../tosu.env");
        assert("./tosu.env"@ =~= seq!['.', '/', 't', 'o', 's', 'u', '.', 'e', 'n', 'v']);
        assert("../tosu.env"@ =~= seq!['.', '.', '/', 't', 'o', 's', 'u', '.', 'e', 'n', 'v']);
    }
    if here {
        Some(String::from_str("./tosu.env"))
    } else if above {
        Some(String::from_str("../tosu.env"))
    } else {
        None
    }
}

/// The directory that the pairs of a settings file name: the value of the
/// first pair under the key of the directory.
pub fn static_folder_in(pairs: &Vec<(String, String)>) -> (folder: Option<String>)
    ensures
        match folder {
            Some(f) => folder_value(pairs@) == Some(f@),
            None => folder_value(pairs@) is None,
        },
{
    proof {
        reveal_strlit("STATIC_FOLDER_PATH");
        assert("STATIC_FOLDER_PATH"@ =~= folder_key());
        assert(pairs@.skip(0) =~= pairs@);
    }
    let key = String::from_str("STATIC_FOLDER_PATH");
    let mut i: usize = 0;
    while i < pairs.len()
        invariant
            i <= pairs.len(),
            key@ == folder_key(),
            folder_value(pairs@) == folder_value(pairs@.skip(i as int)),
        decreases pairs.len() - i,
    {
        let ghost rest = pairs@.skip(i as int);
        assert(rest[0] == pairs@[i as int]);
        if pairs[i].0 == key {
            return Some(pairs[i].1.clone());
        }
        assert(rest.drop_first() =~= pairs@.skip(i + 1));
        i += 1;
    }
    None
}

/// Where the document goes, given the settings file that is used, the
/// directory that the settings name and whether that directory is given
/// from the root of the file system. Without a settings file, or without a
/// directory named, it is the fallback.
pub fn resolve_static_root(env_path: Option<String>, folder: Option<String>, absolute: bool) -> (root:
    StaticRoot)
    ensures
        match root {
            StaticRoot::Given(g) => env_path is Some && folder is Some && absolute && g@
                == folder->0@,
            StaticRoot::BesideEnv { env_path: p, folder: g } => env_path is Some && folder is Some
                && !absolute && p@ == env_path->0@ && g@ == folder->0@,
            StaticRoot::Fallback => env_path is None || folder is None,
        },
{
    match (env_path, folder) {
        (Some(e), Some(f)) => if absolute {
            StaticRoot::Given(f)
        } else {
            StaticRoot::BesideEnv { env_path: e, folder: f }
        },
        _ => StaticRoot::Fallback,
    }
}

} // verus!
