//! Where the configuration, the cache and the downloads live, relative to
//! the user's home directory.
use vstd::prelude::*;

verus! {

/// The home directory: `HOME` where it is set, else `USERPROFILE`, else
/// the current directory.
pub open spec fn home_spec(home: Option<Seq<char>>, userprofile: Option<Seq<char>>) -> Seq<char> {
    match home {
        Some(h) => h,
        None => match userprofile {
            Some(u) => u,
            None => "."@,
        },
    }
}

pub open spec fn config_dir_spec(home: Seq<char>) -> Seq<char> {
    home + "/.config/dxc"@
}

pub open spec fn config_file_spec(home: Seq<char>) -> Seq<char> {
    config_dir_spec(home) + "/config.toml"@
}

pub open spec fn database_spec(home: Seq<char>) -> Seq<char> {
    config_dir_spec(home) + "/database.db"@
}

pub open spec fn cache_spec(home: Seq<char>) -> Seq<char> {
    home + "/.cache/dxc"@
}

pub open spec fn downloads_spec(home: Seq<char>) -> Seq<char> {
    home + "/Downloads/DXC"@
}

/// Picks the home directory from the values of the `HOME` and
/// `USERPROFILE` variables (`None` where a variable is unset).
pub fn home(home_var: Option<String>, userprofile_var: Option<String>) -> (r: String)
    ensures
        r@ == home_spec(
            match home_var {
                Some(h) => Some(h@),
                None => None,
            },
            match userprofile_var {
                Some(u) => Some(u@),
                None => None,
            },
        ),
{
    match home_var {
        Some(h) => h,
        None => match userprofile_var {
            Some(u) => u,
            None => String::from_str("."),
        },
    }
}

/// The configuration directory, `<home>/.config/dxc`.
pub fn config_dir(home: &str) -> (r: String)
    ensures
        r@ == config_dir_spec(home@),
{
    String::from_str(home).concat("/.config/dxc")
}

/// The configuration file, `<home>/.config/dxc/config.toml`.
pub fn config_file(home: &str) -> (r: String)
    ensures
        r@ == config_file_spec(home@),
{
    config_dir(home).concat("/config.toml")
}

/// The history database, `<home>/.config/dxc/database.db`.
pub fn database(home: &str) -> (r: String)
    ensures
        r@ == database_spec(home@),
{
    config_dir(home).concat("/database.db")
}

/// The cache directory, `<home>/.cache/dxc`.
pub fn cache(home: &str) -> (r: String)
    ensures
        r@ == cache_spec(home@),
{
    String::from_str(home).concat("/.cache/dxc")
}

/// The download directory, `<home>/Downloads/DXC`.
pub fn downloads(home: &str) -> (r: String)
    ensures
        r@ == downloads_spec(home@),
{
    String::from_str(home).concat("/Downloads/DXC")
}

} // verus!
