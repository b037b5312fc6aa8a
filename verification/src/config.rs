//! Startup preferences and the location of the configuration file.

use vstd::prelude::*;
use vstd::string::*;
use crate::text::{join_path, joined_path, slice_text_of, text_of, trim, trimmed, words};

verus! {

/// Which terminal multiplexer a new session should run in.
#[derive(Debug, Clone, PartialEq, Eq)]
pub enum MultiplexerMode {
    /// No multiplexer: the session runs the plain shell.
    Disabled,
    Tmux,
    Zellij,
}

impl Default for MultiplexerMode {
    fn default() -> (r: Self)
        ensures
            r == MultiplexerMode::Zellij,
    {
        MultiplexerMode::Zellij
    }
}

/// The colour theme of the terminal.
#[derive(Debug, Clone, PartialEq, Eq)]
pub enum ThemeMode {
    System,
    Dark,
    Light,
}

impl Default for ThemeMode {
    fn default() -> (r: Self)
        ensures
            r == ThemeMode::System,
    {
        ThemeMode::System
    }
}

/// What to launch when a session starts.
#[derive(Debug, Clone, PartialEq, Eq)]
pub struct StartupConfig {
    pub multiplexer: MultiplexerMode,
    pub shell: Option<String>,
    pub shell_args: Vec<String>,
    pub zellij_command: String,
    pub tmux_command: String,
}

/// The mathematical content of a `StartupConfig`.
pub ghost struct StartupConfigView {
    pub multiplexer: MultiplexerMode,
    pub shell: Option<Seq<char>>,
    pub shell_args: Seq<Seq<char>>,
    pub zellij_command: Seq<char>,
    pub tmux_command: Seq<char>,
}

impl View for StartupConfig {
    type V = StartupConfigView;

    open spec fn view(&self) -> StartupConfigView {
        StartupConfigView {
            multiplexer: self.multiplexer,
            shell: text_of(self.shell),
            shell_args: words(self.shell_args@),
            zellij_command: self.zellij_command@,
            tmux_command: self.tmux_command@,
        }
    }
}

/// The preferences used when the configuration names none.
pub open spec fn default_startup() -> StartupConfigView {
    StartupConfigView {
        multiplexer: MultiplexerMode::Zellij,
        shell: None,
        shell_args: Seq::empty(),
        zellij_command: "zellij attach -c d3term"@,
        tmux_command: "tmux new-session -A -s main"@,
    }
}

impl Default for StartupConfig {
    fn default() -> (r: Self)
        ensures
            r@ == default_startup(),
    {
        let r = StartupConfig {
            multiplexer: MultiplexerMode::Zellij,
            shell: None,
            shell_args: Vec::new(),
            zellij_command: String::from_str("zellij attach -c d3term"),
            tmux_command: String::from_str("tmux new-session -A -s main"),
        };
        assert(r@.shell_args =~= Seq::empty());
        r
    }
}

/// Whether an environment value names a directory: it is set and not blank.
pub open spec fn names_directory(value: Option<Seq<char>>) -> bool {
    value is Some && trimmed(value.unwrap()).len() > 0
}

/// The configuration file's path for the given values of the XDG
/// configuration directory and the home directory.
pub open spec fn config_path(xdg: Option<Seq<char>>, home: Option<Seq<char>>) -> Seq<char> {
    if names_directory(xdg) {
        joined_path(joined_path(trimmed(xdg.unwrap()), "d3term"@), "config.toml"@)
    } else if names_directory(home) {
        joined_path(
            joined_path(joined_path(trimmed(home.unwrap()), ".config"@), "d3term"@),
            "config.toml"@,
        )
    } else {
        joined_path(joined_path(".config"@, "d3term"@), "config.toml"@)
    }
}

/// Locates the configuration file: under the XDG configuration directory if
/// one is named, else under `.config` in the home directory if one is named,
/// else under `.config` relative to the working directory.
pub fn resolve_config_path_with_env(xdg: Option<&str>, home: Option<&str>) -> (r: String)
    ensures
        r@ == config_path(slice_text_of(xdg), slice_text_of(home)),
{
    if let Some(xdg_home) = xdg {
        let xdg_home = trim(xdg_home);
        if !xdg_home.is_empty() {
            let base = String::from_str(xdg_home);
            return join_path(join_path(base, "d3term"), "config.toml");
        }
    }
    if let Some(home_dir) = home {
        let home_dir = trim(home_dir);
        if !home_dir.is_empty() {
            let base = String::from_str(home_dir);
            return join_path(join_path(join_path(base, ".config"), "d3term"), "config.toml");
        }
    }
    join_path(join_path(String::from_str(".config"), "d3term"), "config.toml")
}

} // verus!
