//! Configuration model: per-platform base paths and filename / time
//! templates, with JSON-sourced construction and partial-override merging.

use vstd::prelude::*;
use crate::error::CacheError;
use crate::CacheResult;

verus! {

/// Platform-specific path configuration.
#[derive(Debug)]
pub struct CachePathConfig {
    pub windows: String,
    pub linux: String,
}

/// File naming format configuration: the filename template (with `{name}`,
/// `{id}` and `{time}` placeholders) and the strftime-style time pattern.
#[derive(Debug)]
pub struct CacheFormatConfig {
    pub filename: String,
    pub time: String,
}

/// Main configuration structure for cache behavior.
#[derive(Debug)]
pub struct CacheConfig {
    pub path: CachePathConfig,
    pub format: CacheFormatConfig,
}

/// Cache lifecycle policy.
///
/// The expiration feature this enum once governed has been retired: nothing
/// reads it any more, and `CacheObject::is_expired` always reports that an
/// object has not expired.  The enum is kept so that configurations and
/// callers mentioning it keep compiling; `CacheObject::delete` is the way
/// to remove a cache file.
#[derive(Debug, Clone, Copy)]
pub enum LifecyclePolicy {
    /// Cache persists until program termination
    ProgramTerminated,
    /// Cache persists until it goes out of scope
    Scope,
    /// Cache never expires (default)
    Never,
}

/// The mathematical content of a `CachePathConfig`.
pub struct PathConfigView {
    pub windows: Seq<char>,
    pub linux: Seq<char>,
}

/// The mathematical content of a `CacheFormatConfig`.
pub struct FormatConfigView {
    pub filename: Seq<char>,
    pub time: Seq<char>,
}

/// The mathematical content of a `CacheConfig`.
pub struct ConfigView {
    pub path: PathConfigView,
    pub format: FormatConfigView,
}

impl View for CachePathConfig {
    type V = PathConfigView;

    open spec fn view(&self) -> PathConfigView {
        PathConfigView { windows: self.windows@, linux: self.linux@ }
    }
}

impl View for CacheFormatConfig {
    type V = FormatConfigView;

    open spec fn view(&self) -> FormatConfigView {
        FormatConfigView { filename: self.filename@, time: self.time@ }
    }
}

impl View for CacheConfig {
    type V = ConfigView;

    open spec fn view(&self) -> ConfigView {
        ConfigView { path: self.path@, format: self.format@ }
    }
}

impl Clone for CachePathConfig {
    fn clone(&self) -> (r: Self)
        ensures
            r@ == self@,
    {
        CachePathConfig { windows: self.windows.clone(), linux: self.linux.clone() }
    }
}

impl Clone for CacheFormatConfig {
    fn clone(&self) -> (r: Self)
        ensures
            r@ == self@,
    {
        CacheFormatConfig { filename: self.filename.clone(), time: self.time.clone() }
    }
}

impl Clone for CacheConfig {
    fn clone(&self) -> (r: Self)
        ensures
            r@ == self@,
    {
        CacheConfig { path: self.path.clone(), format: self.format.clone() }
    }
}

/// The default configuration: a temporary directory on either platform, a
/// filename embedding the name and creation time, and a `+`-separated time
/// pattern.
pub open spec fn spec_default_config() -> ConfigView {
    ConfigView {
        path: PathConfigView { windows: "%temp%/Rust/Cache"@, linux: "/tmp/Rust/Cache"@ },
        format: FormatConfigView {
            filename: "r{name}.{time}.cache"@,
            time: "%Y+%m+%d-%H+%M+%S"@,
        },
    }
}

/// The four string fields `path.windows`, `path.linux`, `format.filename`
/// and `format.time` of a JSON configuration document, or nothing when the
/// document does not parse or one of the fields is missing or not a string.
pub uninterp spec fn spec_parsed_config(s: Seq<char>) -> Option<
    (Seq<char>, Seq<char>, Seq<char>, Seq<char>),
>;

/// Parses a JSON configuration document into its four template fields.
///
/// Relies on `serde_json::from_str` to parse the text into a
/// `serde_json::Value`, and on `Value::get` / `Value::as_str` to pull out
/// `path.windows`, `path.linux`, `format.filename` and `format.time`.  The
/// outcome is a function of the text alone, so it is only given a name
/// here: the call succeeds on exactly the documents for which
/// `spec_parsed_config` is `Some`, and then returns its four fields.
#[verifier::external_body]
fn parse_config_fields(s: &str) -> (r: Option<(String, String, String, String)>)
    ensures
        match r {
            Option::Some(t) => spec_parsed_config(s@) == Option::Some(
                (t.0@, t.1@, t.2@, t.3@),
            ),
            Option::None => spec_parsed_config(s@) is None,
        },
{
    let v: serde_json::Value = serde_json::from_str(s).ok()?;
    let w = v.get("path")?.get("windows")?.as_str()?.to_string();
    let l = v.get("path")?.get("linux")?.as_str()?.to_string();
    let f = v.get("format")?.get("filename")?.as_str()?.to_string();
    let t = v.get("format")?.get("time")?.as_str()?.to_string();
    Some((w, l, f, t))
}

/// The merge of a base configuration with a partial override: each of the
/// four leaf fields is taken from the override only when the override's
/// value is non-empty; an empty override field means "not specified" and
/// keeps the base value.
pub open spec fn spec_merged(base: ConfigView, ov: ConfigView) -> ConfigView {
    ConfigView {
        path: PathConfigView {
            windows: if ov.path.windows.len() > 0 {
                ov.path.windows
            } else {
                base.path.windows
            },
            linux: if ov.path.linux.len() > 0 {
                ov.path.linux
            } else {
                base.path.linux
            },
        },
        format: FormatConfigView {
            filename: if ov.format.filename.len() > 0 {
                ov.format.filename
            } else {
                base.format.filename
            },
            time: if ov.format.time.len() > 0 {
                ov.format.time
            } else {
                base.format.time
            },
        },
    }
}

impl CacheConfig {
    /// Creates a `CacheConfig` from a JSON document of the shape
    /// `{"path": {"windows": ..., "linux": ...},
    ///   "format": {"filename": ..., "time": ...}}`.
    /// Returns a `ConfigParse` error exactly when the document does not
    /// parse or one of the four fields is missing or not a string.
    pub fn new(json_config: &str) -> (r: CacheResult<CacheConfig>)
        ensures
            match r {
                Ok(c) => spec_parsed_config(json_config@) == Option::Some(
                    (c@.path.windows, c@.path.linux, c@.format.filename, c@.format.time),
                ),
                Err(e) => spec_parsed_config(json_config@) is None && e
                    matches CacheError::ConfigParse(_),
            },
    {
        match parse_config_fields(json_config) {
            Some(t) => {
                let (windows, linux, filename, time) = t;
                Ok(
                    CacheConfig {
                        path: CachePathConfig { windows, linux },
                        format: CacheFormatConfig { filename, time },
                    },
                )
            },
            None => Err(
                CacheError::ConfigParse(String::from_str("Failed to parse config")),
            ),
        }
    }

    /// Creates a `CacheConfig` from a JSON document, falling back to the
    /// default configuration when the document cannot be parsed.
    pub fn new_or_default(json_config: &str) -> (r: CacheConfig)
        ensures
            match spec_parsed_config(json_config@) {
                Option::Some(t) => r@.path.windows == t.0 && r@.path.linux == t.1
                    && r@.format.filename == t.2 && r@.format.time == t.3,
                Option::None => r@ == spec_default_config(),
            },
    {
        match Self::new(json_config) {
            Ok(c) => c,
            Err(_) => Self::default(),
        }
    }

    /// Creates a `CacheConfig` with the default values.
    pub fn default() -> (r: Self)
        ensures
            r@ == spec_default_config(),
    {
        CacheConfig {
            path: CachePathConfig {
                windows: String::from_str("%temp%/Rust/Cache"),
                linux: String::from_str("/tmp/Rust/Cache"),
            },
            format: CacheFormatConfig {
                filename: String::from_str("r{name}.{time}.cache"),
                time: String::from_str("%Y+%m+%d-%H+%M+%S"),
            },
        }
    }

    /// Merges a partial override onto this configuration: an override field
    /// replaces the corresponding base field only when it is non-empty.
    pub fn merge_override(&self, ov: &CacheConfig) -> (r: CacheConfig)
        ensures
            r@ == spec_merged(self@, ov@),
    {
        let windows = if !ov.path.windows.as_str().is_empty() {
            ov.path.windows.clone()
        } else {
            self.path.windows.clone()
        };
        let linux = if !ov.path.linux.as_str().is_empty() {
            ov.path.linux.clone()
        } else {
            self.path.linux.clone()
        };
        let filename = if !ov.format.filename.as_str().is_empty() {
            ov.format.filename.clone()
        } else {
            self.format.filename.clone()
        };
        let time = if !ov.format.time.as_str().is_empty() {
            ov.format.time.clone()
        } else {
            self.format.time.clone()
        };
        CacheConfig {
            path: CachePathConfig { windows, linux },
            format: CacheFormatConfig { filename, time },
        }
    }
}

} // verus!
