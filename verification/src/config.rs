//! The user's settings and the rules for reading and changing them by key.
use vstd::prelude::*;
use crate::dirs::{cache, cache_spec, database, database_spec, downloads, downloads_spec};
use crate::text::{
    chars_of, decimal, decimal_string, lemma_parse_decimal, parse_u32_chars, parse_u32_spec,
    parse_unsigned, str_eq,
};

verus! {

/// The settings, as stored in the configuration file.
#[derive(Debug, Clone)]
pub struct DxcConfig {
    pub download_path: String,
    pub cache_path: String,
    pub db_path: String,
    pub max_concurrent_downloads: u32,
}

/// The settings as values.
pub struct ConfigView {
    pub download_path: Seq<char>,
    pub cache_path: Seq<char>,
    pub db_path: Seq<char>,
    pub max_concurrent_downloads: u32,
}

impl View for DxcConfig {
    type V = ConfigView;

    open spec fn view(&self) -> ConfigView {
        ConfigView {
            download_path: self.download_path@,
            cache_path: self.cache_path@,
            db_path: self.db_path@,
            max_concurrent_downloads: self.max_concurrent_downloads,
        }
    }
}

/// The key of the download directory.
pub open spec fn key_download_path() -> Seq<char> {
    "download_path"@
}

/// The key of the cache directory.
pub open spec fn key_cache_path() -> Seq<char> {
    "cache_path"@
}

/// The key of the history database.
pub open spec fn key_db_path() -> Seq<char> {
    "db_path"@
}

/// The key of the number of downloads that may run at once.
pub open spec fn key_max_concurrent() -> Seq<char> {
    "max_concurrent_downloads"@
}

/// `key` names a setting.
pub open spec fn is_config_key(key: Seq<char>) -> bool {
    key == key_download_path() || key == key_cache_path() || key == key_db_path() || key
        == key_max_concurrent()
}

/// The settings that a fresh installation uses for the home directory
/// `home`.
pub open spec fn default_config(home: Seq<char>) -> ConfigView {
    ConfigView {
        download_path: downloads_spec(home),
        cache_path: cache_spec(home),
        db_path: database_spec(home),
        max_concurrent_downloads: 3,
    }
}

/// The value of the setting `key` as text, or `None` for an unknown key.
pub open spec fn get_spec(c: ConfigView, key: Seq<char>) -> Option<Seq<char>> {
    if key == key_download_path() {
        Some(c.download_path)
    } else if key == key_cache_path() {
        Some(c.cache_path)
    } else if key == key_db_path() {
        Some(c.db_path)
    } else if key == key_max_concurrent() {
        Some(decimal(c.max_concurrent_downloads as nat))
    } else {
        None
    }
}

/// The settings after setting `key` to `value`, or the message of the
/// error: the number of downloads must parse as a `u32`, and the key must
/// be known.
pub open spec fn set_spec(c: ConfigView, key: Seq<char>, value: Seq<char>) -> Result<
    ConfigView,
    Seq<char>,
> {
    if key == key_download_path() {
        Ok(ConfigView { download_path: value, ..c })
    } else if key == key_cache_path() {
        Ok(ConfigView { cache_path: value, ..c })
    } else if key == key_db_path() {
        Ok(ConfigView { db_path: value, ..c })
    } else if key == key_max_concurrent() {
        match parse_u32_spec(value) {
            Some(n) => Ok(ConfigView { max_concurrent_downloads: n, ..c }),
            None => Err("Invalid number"@),
        }
    } else {
        Err("Unknown config key: "@ + key)
    }
}

impl DxcConfig {
    /// The settings of a fresh installation for the home directory `home`:
    /// downloads under `<home>/Downloads/DXC`, the cache under
    /// `<home>/.cache/dxc`, the database under `<home>/.config/dxc`, and
    /// three downloads at once.
    pub fn default_for_home(home: &str) -> (c: DxcConfig)
        ensures
            c@ == default_config(home@),
    {
        DxcConfig {
            download_path: downloads(home),
            cache_path: cache(home),
            db_path: database(home),
            max_concurrent_downloads: 3,
        }
    }

    /// Sets the setting `key` to `value`. Persisting the settings is the
    /// caller's part.
    pub fn set(&mut self, key: &str, value: &str) -> (r: Result<(), String>)
        ensures
            match set_spec(old(self)@, key@, value@) {
                Ok(c) => r is Ok && final(self)@ == c,
                Err(m) => r matches Err(e) && e@ == m && final(self)@ == old(self)@,
            },
    {
        if str_eq(key, "download_path") {
            self.download_path = String::from_str(value);
            Ok(())
        } else if str_eq(key, "cache_path") {
            self.cache_path = String::from_str(value);
            Ok(())
        } else if str_eq(key, "db_path") {
            self.db_path = String::from_str(value);
            Ok(())
        } else if str_eq(key, "max_concurrent_downloads") {
            let v = chars_of(value);
            match parse_u32_chars(&v) {
                Some(n) => {
                    self.max_concurrent_downloads = n;
                    Ok(())
                },
                None => Err(String::from_str("Invalid number")),
            }
        } else {
            Err(String::from_str("Unknown config key: ").concat(key))
        }
    }

    /// The value of the setting `key` as text, or `None` for an unknown
    /// key.
    pub fn get(&self, key: &str) -> (r: Option<String>)
        ensures
            match get_spec(self@, key@) {
                Some(v) => r matches Some(s) && s@ == v,
                None => r is None,
            },
    {
        if str_eq(key, "download_path") {
            Some(self.download_path.clone())
        } else if str_eq(key, "cache_path") {
            Some(self.cache_path.clone())
        } else if str_eq(key, "db_path") {
            Some(self.db_path.clone())
        } else if str_eq(key, "max_concurrent_downloads") {
            Some(decimal_string(self.max_concurrent_downloads as u64))
        } else {
            None
        }
    }
}

// ---------------------------------------------------------------------------
// Laws
// ---------------------------------------------------------------------------

/// The four keys are different from each other.
proof fn lemma_keys_distinct()
    ensures
        key_download_path() != key_cache_path(),
        key_download_path() != key_db_path(),
        key_download_path() != key_max_concurrent(),
        key_cache_path() != key_db_path(),
        key_cache_path() != key_max_concurrent(),
        key_db_path() != key_max_concurrent(),
{
    reveal_strlit("download_path");
    reveal_strlit("cache_path");
    reveal_strlit("db_path");
    reveal_strlit("max_concurrent_downloads");
    assert(key_download_path().len() != key_cache_path().len());
    assert(key_download_path().len() != key_db_path().len());
    assert(key_download_path().len() != key_max_concurrent().len());
    assert(key_cache_path().len() != key_db_path().len());
    assert(key_cache_path().len() != key_max_concurrent().len());
    assert(key_db_path().len() != key_max_concurrent().len());
}

/// Setting succeeds exactly for the known keys, and for the number of
/// downloads only with a value that parses as a `u32`; what fails changes
/// nothing.
pub proof fn law_set_succeeds(c: ConfigView, key: Seq<char>, value: Seq<char>)
    ensures
        set_spec(c, key, value) is Ok <==> (is_config_key(key) && (key == key_max_concurrent()
            ==> parse_u32_spec(value) is Some)),
{
    lemma_keys_distinct();
}

/// After a setting is set, reading it gives the value that was set (for the
/// number of downloads, the number the value parses to, in decimal), and
/// every other setting reads as before.
pub proof fn law_get_after_set(c: ConfigView, key: Seq<char>, value: Seq<char>, other: Seq<char>)
    requires
        set_spec(c, key, value) is Ok,
        other != key,
    ensures
        key != key_max_concurrent() ==> get_spec(set_spec(c, key, value)->Ok_0, key) == Some(
            value,
        ),
        key == key_max_concurrent() ==> get_spec(set_spec(c, key, value)->Ok_0, key) == Some(
            decimal(parse_u32_spec(value)->Some_0 as nat),
        ),
        get_spec(set_spec(c, key, value)->Ok_0, other) == get_spec(c, other),
{
    lemma_keys_distinct();
}

/// Every setting can be written back as it reads: setting a key to what
/// `get` gives for it changes nothing.
pub proof fn law_set_what_get_gives(c: ConfigView, key: Seq<char>)
    requires
        is_config_key(key),
    ensures
        get_spec(c, key) is Some,
        set_spec(c, key, get_spec(c, key)->Some_0) == Ok::<ConfigView, Seq<char>>(c),
{
    lemma_keys_distinct();
    lemma_parse_decimal(c.max_concurrent_downloads as nat);
    if key == key_max_concurrent() {
        assert(parse_unsigned(decimal(c.max_concurrent_downloads as nat)) == Some(
            c.max_concurrent_downloads as nat,
        ));
        assert(parse_u32_spec(get_spec(c, key)->Some_0) == Some(c.max_concurrent_downloads));
    }
}

/// The keys are the field names `download_path`, `cache_path`, `db_path`
/// and `max_concurrent_downloads`, and a fresh installation allows three
/// downloads at once.
pub proof fn law_config_keys(home: Seq<char>)
    ensures
        key_download_path() =~= seq![
            'd', 'o', 'w', 'n', 'l', 'o', 'a', 'd', '_', 'p', 'a', 't', 'h',
        ],
        key_cache_path() =~= seq!['c', 'a', 'c', 'h', 'e', '_', 'p', 'a', 't', 'h'],
        key_db_path() =~= seq!['d', 'b', '_', 'p', 'a', 't', 'h'],
        key_max_concurrent() =~= seq![
            'm', 'a', 'x', '_', 'c', 'o', 'n', 'c', 'u', 'r', 'r', 'e', 'n', 't', '_', 'd', 'o',
            'w', 'n', 'l', 'o', 'a', 'd', 's',
        ],
        default_config(home).max_concurrent_downloads == 3,
{
    reveal_strlit("download_path");
    reveal_strlit("cache_path");
    reveal_strlit("db_path");
    reveal_strlit("max_concurrent_downloads");
}

} // verus!
