//! Defaults and locations of the daemon's configuration.
use vstd::prelude::*;
use vstd::string::StringExecFns;

verus! {

/// Maximum concurrent positions when the configuration file does not say.
pub fn default_max_trades() -> (r: usize)
    ensures
        r == 2,
{
    2
}

/// Where the configuration file is looked for, in order of preference.
pub open spec fn config_paths() -> Seq<Seq<char>> {
    seq!["config.json"@, "../config.json"@, "/home/meo/quant-trading-bot/config.json"@]
}

/// The configuration file locations, in the order they are tried; the
/// first that exists is used.
pub fn config_candidates() -> (r: Vec<String>)
    ensures
        r.deep_view() == config_paths(),
{
    let mut r: Vec<String> = Vec::new();
    r.push(String::from_str("config.json"));
    r.push(String::from_str("../config.json"));
    r.push(String::from_str("/home/meo/quant-trading-bot/config.json"));
    assert(r.deep_view() =~= config_paths());
    r
}

} // verus!
