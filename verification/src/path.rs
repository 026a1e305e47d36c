//! Paths below the home directory, as text with `/` between components.

use vstd::prelude::*;
use vstd::string::*;

verus! {

/// Where the configuration file lies, below the home directory.
pub const SCILLA_CONFIG_RELATIVE_PATH: &'static str = ".config/scilla.toml";

/// The directory that holds the configuration file, below the home directory.
pub const SCILLA_CONFIG_RELATIVE_DIR: &'static str = ".config";

/// Where the default keypair lies, below the home directory.
pub const DEFAULT_KEYPAIR_RELATIVE_PATH: &'static str = ".config/solana/id.json";

/// `relative` below `base`: the two are set side by side, with one `/` between
/// them unless `base` is empty or ends in `/` already.
pub open spec fn joined(base: Seq<char>, relative: Seq<char>) -> Seq<char> {
    if base.len() == 0 || base.last() == '/' {
        base + relative
    } else {
        base + seq!['/'] + relative
    }
}

/// The path of the configuration file for a home directory.
pub open spec fn config_path(home: Seq<char>) -> Seq<char> {
    joined(home, SCILLA_CONFIG_RELATIVE_PATH@)
}

/// The directory of the configuration file for a home directory.
pub open spec fn config_dir(home: Seq<char>) -> Seq<char> {
    joined(home, SCILLA_CONFIG_RELATIVE_DIR@)
}

/// The default keypair path for a home directory.
pub open spec fn default_keypair_path(home: Seq<char>) -> Seq<char> {
    joined(home, DEFAULT_KEYPAIR_RELATIVE_PATH@)
}

/// Puts `relative` below `base`.
pub fn join(base: &str, relative: &str) -> (path: String)
    ensures
        path@ == joined(base@, relative@),
{
    let n: usize = base.unicode_len();
    let mut path = String::from_str(base);
    if n > 0 && base.get_char(n - 1) != '/' {
        proof {
            reveal_strlit("/");
            assert("/"@ =~= seq!['/']);
        }
        path.append("/");
    }
    path.append(relative);
    path
}

/// The path of the configuration file: `.config/scilla.toml` below `home`.
pub fn scilla_config_path(home: &str) -> (path: String)
    ensures
        path@ == config_path(home@),
{
    join(home, SCILLA_CONFIG_RELATIVE_PATH)
}

/// The directory that must exist before the configuration file is written.
pub fn scilla_config_dir(home: &str) -> (dir: String)
    ensures
        dir@ == config_dir(home@),
{
    join(home, SCILLA_CONFIG_RELATIVE_DIR)
}

/// The configuration file lies directly in the configuration directory, under
/// the name `scilla.toml`, and the path is never empty.
pub proof fn lemma_config_path_in_dir(home: Seq<char>)
    ensures
        config_path(home) == config_dir(home) + "/scilla.toml"@,
        config_path(home).len() > 0,
{
    reveal_strlit(".config/scilla.toml");
    reveal_strlit(".config");
    reveal_strlit("/scilla.toml");
    assert(".config/scilla.toml"@ =~= ".config"@ + "/scilla.toml"@);
    assert(config_path(home) =~= config_dir(home) + "/scilla.toml"@);
}

} // verus!
