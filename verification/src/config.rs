//! User-facing configuration values and where the configuration lives.

use vstd::prelude::*;
use vstd::string::*;
use crate::text::{lowercase, str_eq, to_lowercase, chars_of};

verus! {

/// Appearance mode.
#[derive(Debug, Clone, Copy, PartialEq, Eq, Structural)]
pub enum ThemeMode {
    Auto,
    Dark,
    Light,
}

/// What the history graph shows.
#[derive(Debug, Clone, Copy, PartialEq, Eq, Structural)]
pub enum GraphMetric {
    Power,
    Battery,
}

impl Default for ThemeMode {
    fn default() -> (m: ThemeMode)
        ensures
            m == ThemeMode::Auto,
    {
        ThemeMode::Auto
    }
}

impl Default for GraphMetric {
    fn default() -> (m: GraphMetric)
        ensures
            m == GraphMetric::Power,
    {
        GraphMetric::Power
    }
}

/// The mode a configuration word names, in any letter case; anything else is `Auto`.
pub open spec fn theme_mode_from_spec(s: Seq<char>) -> ThemeMode {
    if lowercase(s) == "dark"@ {
        ThemeMode::Dark
    } else if lowercase(s) == "light"@ {
        ThemeMode::Light
    } else {
        ThemeMode::Auto
    }
}

/// Display label of a mode.
pub open spec fn theme_mode_label(m: ThemeMode) -> Seq<char> {
    match m {
        ThemeMode::Auto => "Auto"@,
        ThemeMode::Dark => "Dark"@,
        ThemeMode::Light => "Light"@,
    }
}

/// The mode after `m` in the cycle Auto, Dark, Light.
pub open spec fn theme_mode_next(m: ThemeMode) -> ThemeMode {
    match m {
        ThemeMode::Auto => ThemeMode::Dark,
        ThemeMode::Dark => ThemeMode::Light,
        ThemeMode::Light => ThemeMode::Auto,
    }
}

impl ThemeMode {
    /// Reads `dark` or `light` in any case; anything else means `Auto`.
    pub fn from_str(s: &str) -> (m: ThemeMode)
        ensures
            m == theme_mode_from_spec(s@),
    {
        let lower = to_lowercase(s);
        if str_eq(lower.as_str(), "dark") {
            ThemeMode::Dark
        } else if str_eq(lower.as_str(), "light") {
            ThemeMode::Light
        } else {
            ThemeMode::Auto
        }
    }

    /// "Auto", "Dark" or "Light".
    pub fn label(&self) -> (s: &'static str)
        ensures
            s@ == theme_mode_label(*self),
    {
        match self {
            ThemeMode::Auto => "Auto",
            ThemeMode::Dark => "Dark",
            ThemeMode::Light => "Light",
        }
    }

    /// The next mode in the cycle Auto, Dark, Light.
    pub fn next(&self) -> (m: ThemeMode)
        ensures
            m == theme_mode_next(*self),
    {
        match self {
            ThemeMode::Auto => ThemeMode::Dark,
            ThemeMode::Dark => ThemeMode::Light,
            ThemeMode::Light => ThemeMode::Auto,
        }
    }
}

/// Cycling the mode three times comes back to where it started, and every mode is
/// reached within the cycle.
pub proof fn lemma_theme_mode_cycle(m: ThemeMode)
    ensures
        theme_mode_next(theme_mode_next(theme_mode_next(m))) == m,
        theme_mode_next(m) != m,
        theme_mode_next(theme_mode_next(m)) != m,
{
}

/// Whether a mode shows the dark colors, given whether the system is in dark mode.
pub open spec fn is_dark_spec(m: ThemeMode, system_is_dark: bool) -> bool {
    match m {
        ThemeMode::Auto => system_is_dark,
        ThemeMode::Dark => true,
        ThemeMode::Light => false,
    }
}

/// Whether a mode shows the dark colors; `Auto` follows the system.
pub fn mode_is_dark(m: ThemeMode, system_is_dark: bool) -> (b: bool)
    ensures
        b == is_dark_spec(m, system_is_dark),
{
    match m {
        ThemeMode::Auto => system_is_dark,
        ThemeMode::Dark => true,
        ThemeMode::Light => false,
    }
}

/// The configuration values that command-line options can override.
#[derive(Debug, Clone, Copy, PartialEq, Eq, Structural)]
pub struct ConfigOverrides {
    pub theme: ThemeMode,
    pub refresh_ms: u64,
    pub low_power_mode: bool,
}

/// The configuration after the command-line options are applied.
pub open spec fn merge_args_spec(
    c: ConfigOverrides,
    theme: Option<Seq<char>>,
    refresh_ms: Option<u64>,
    low_power: bool,
) -> ConfigOverrides {
    ConfigOverrides {
        theme: match theme {
            Some(t) => theme_mode_from_spec(t),
            None => c.theme,
        },
        refresh_ms: match refresh_ms {
            Some(ms) => ms,
            None => c.refresh_ms,
        },
        low_power_mode: c.low_power_mode || low_power,
    }
}

impl ConfigOverrides {
    /// Applies the command-line options: a theme word replaces the mode, a refresh
    /// interval replaces the interval, and `low_power` switches low-power mode on (never
    /// off). Returns whether the interval came from the command line.
    pub fn merge_with_args(&mut self, theme: Option<&str>, refresh_ms: Option<u64>, low_power: bool) -> (from_cli: bool)
        ensures
            *final(self) == merge_args_spec(*old(self), crate::iterm2::opt_view(theme), refresh_ms, low_power),
            from_cli == (refresh_ms is Some),
    {
        if let Some(t) = theme {
            self.theme = ThemeMode::from_str(t);
        }
        let refresh_from_cli = refresh_ms.is_some();
        if let Some(ms) = refresh_ms {
            self.refresh_ms = ms;
        }
        if low_power {
            self.low_power_mode = true;
        }
        refresh_from_cli
    }
}

/// The process names never shown: `launchd` first, then the user's own list.
pub fn effective_excluded_processes(excluded: &Vec<String>) -> (v: Vec<String>)
    ensures
        v@.len() == excluded@.len() + 1,
        v@[0]@ == "launchd"@,
        forall|i: int| 0 <= i < excluded@.len() ==> v@[i + 1]@ == excluded@[i]@,
{
    let mut v: Vec<String> = Vec::new();
    v.push("launchd".to_string());
    let mut i: usize = 0;
    while i < excluded.len()
        invariant
            i <= excluded@.len(),
            v@.len() == i + 1,
            v@[0]@ == "launchd"@,
            forall|j: int| 0 <= j < i ==> v@[j + 1]@ == excluded@[j]@,
        decreases excluded@.len() - i,
    {
        let s = excluded[i].as_str().to_string();
        v.push(s);
        i = i + 1;
    }
    v
}

/// `part` appended to the path `base` as one more component.
pub open spec fn path_join_spec(base: Seq<char>, part: Seq<char>) -> Seq<char> {
    if base.len() == 0 {
        part
    } else if base.last() == '/' {
        base + part
    } else {
        base + "/"@ + part
    }
}

/// Appends a relative component to a path.
fn path_join(base: &str, part: &str) -> (s: String)
    ensures
        s@ == path_join_spec(base@, part@),
{
    let v = chars_of(base);
    let mut s = base.to_string();
    if v.len() == 0 {
        return part.to_string();
    }
    if v[v.len() - 1] != '/' {
        s.append("/");
    }
    s.append(part);
    s
}

/// The configuration directory for a base directory (none: `~/.config`).
pub open spec fn config_dir_spec(base: Option<Seq<char>>) -> Seq<char> {
    path_join_spec(
        match base {
            Some(b) => b,
            None => "~/.config"@,
        },
        "jolt"@,
    )
}

/// The configuration file for a base directory.
pub open spec fn config_path_spec(base: Option<Seq<char>>) -> Seq<char> {
    path_join_spec(config_dir_spec(base), "config.toml"@)
}

/// The cache directory for a base directory (none: `~/.cache`).
pub open spec fn cache_dir_spec(base: Option<Seq<char>>) -> Seq<char> {
    path_join_spec(
        match base {
            Some(b) => b,
            None => "~/.cache"@,
        },
        "jolt"@,
    )
}

/// `dirs::config_dir`, as text; the answer depends on the environment, so nothing is
/// stated of it.
#[verifier::external_body]
fn user_config_base() -> (r: Option<String>) {
    dirs::config_dir().map(|p| p.to_string_lossy().into_owned())
}

/// `dirs::cache_dir`, as text; the answer depends on the environment, so nothing is
/// stated of it.
#[verifier::external_body]
fn user_cache_base() -> (r: Option<String>) {
    dirs::cache_dir().map(|p| p.to_string_lossy().into_owned())
}

/// The configuration directory under a given base directory.
pub fn config_dir_from(base: Option<&str>) -> (s: String)
    ensures
        s@ == config_dir_spec(crate::iterm2::opt_view(base)),
{
    let b: &str = match base {
        Some(b) => b,
        None => "~/.config",
    };
    path_join(b, "jolt")
}

/// The configuration directory of this user.
pub fn config_dir() -> (s: String)
    ensures
        exists|b: Option<Seq<char>>| s@ == config_dir_spec(b),
{
    let base = user_config_base();
    let s = match &base {
        Some(b) => config_dir_from(Some(b.as_str())),
        None => config_dir_from(None),
    };
    s
}

/// The cache directory under a given base directory.
pub fn cache_dir_from(base: Option<&str>) -> (s: String)
    ensures
        s@ == cache_dir_spec(crate::iterm2::opt_view(base)),
{
    let b: &str = match base {
        Some(b) => b,
        None => "~/.cache",
    };
    path_join(b, "jolt")
}

/// The cache directory of this user.
pub fn cache_dir() -> (s: String)
    ensures
        exists|b: Option<Seq<char>>| s@ == cache_dir_spec(b),
{
    let base = user_cache_base();
    match &base {
        Some(b) => cache_dir_from(Some(b.as_str())),
        None => cache_dir_from(None),
    }
}

/// The configuration file of this user.
pub fn config_path() -> (s: String)
    ensures
        exists|b: Option<Seq<char>>| s@ == config_path_spec(b),
{
    let base = user_config_base();
    let ghost b: Option<Seq<char>> = match &base {
        Some(x) => Some(x@),
        None => None,
    };
    let dir = match &base {
        Some(x) => config_dir_from(Some(x.as_str())),
        None => config_dir_from(None),
    };
    let s = path_join(dir.as_str(), "config.toml");
    assert(s@ == config_path_spec(b));
    s
}

} // verus!
