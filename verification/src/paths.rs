//! Where the persisted files live, below the user's home directory.

use vstd::prelude::*;
use vstd::string::*;

verus! {

/// The directory of the records, below `home`.
pub open spec fn config_dir_of(home: Seq<char>) -> Seq<char> {
    home + "/.config/proxswap"@
}

/// The directory of the chain files, below the directory of the records.
pub open spec fn redsocks_dir_of(config_dir: Seq<char>) -> Seq<char> {
    config_dir + "/redsocks"@
}

/// The record of the configuration called `name`.
pub open spec fn record_path_of(config_dir: Seq<char>, name: Seq<char>) -> Seq<char> {
    config_dir + "/"@ + name + ".json"@
}

/// The chain file of the configuration called `name`.
pub open spec fn chain_path_of(redsocks_dir: Seq<char>, name: Seq<char>) -> Seq<char> {
    redsocks_dir + "/"@ + name + ".conf"@
}

/// The directory that holds one record per configuration.
pub fn config_dir(home: &str) -> (r: String)
    ensures
        r@ == config_dir_of(home@),
{
    String::from_str(home).concat("/.config/proxswap")
}

/// The directory that holds one chain file per configuration.
pub fn redsocks_dir(config_dir: &str) -> (r: String)
    ensures
        r@ == redsocks_dir_of(config_dir@),
{
    String::from_str(config_dir).concat("/redsocks")
}

/// The path of the record of the configuration called `name`.
pub fn record_path(config_dir: &str, name: &str) -> (r: String)
    ensures
        r@ == record_path_of(config_dir@, name@),
{
    String::from_str(config_dir).concat("/").concat(name).concat(".json")
}

/// The path of the chain file of the configuration called `name`.
pub fn chain_path(redsocks_dir: &str, name: &str) -> (r: String)
    ensures
        r@ == chain_path_of(redsocks_dir@, name@),
{
    String::from_str(redsocks_dir).concat("/").concat(name).concat(".conf")
}

} // verus!
