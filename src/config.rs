use vstd::prelude::*;
use vstd::string::StringExecFns;

verus! {

/// Directory that holds the game's configuration and resources.
pub const MAIN_DIR: &'static str = "./game_directory";

/// `path` under the game directory: `MAIN_DIR` followed by `path`.
pub fn get_dir_path(path: &str) -> (r: String)
    ensures
        r@ == MAIN_DIR@ + path@,
{
    MAIN_DIR.to_owned().concat(path)
}

} // verus!
