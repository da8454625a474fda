//! What can be configured.

use vstd::prelude::*;
use crate::classifier::{default_suffix_list, default_suffixes, suffix_bytes};

verus! {

/// How a file is encrypted.
#[derive(Clone, Copy, Debug, PartialEq, Eq, Structural)]
pub enum EncryptMode {
    /// The tool encrypts the file in place; it is trusted to leave the file
    /// untouched when it fails.
    InPlace,
    /// The content is encrypted at a staging path, which replaces the file
    /// by a rename only after the tool has succeeded.
    Staged,
}

/// The settings of a dispatcher.
#[derive(Debug, PartialEq, Eq)]
pub struct Config {
    /// The directory whose tree is watched.
    pub watch_root: String,
    /// File names that end with one of these are managed.
    pub suffixes: Vec<String>,
    pub encrypt_mode: EncryptMode,
    /// After so many milliseconds a run of the tool is stopped and counts
    /// as failed. `None`: no limit.
    pub tool_timeout_ms: Option<u64>,
}

/// A `Config` as plain values, as far as the decisions depend on it.
pub struct ConfigView {
    pub suffixes: Seq<Seq<u8>>,
    pub encrypt_mode: EncryptMode,
}

impl View for Config {
    type V = ConfigView;

    open spec fn view(&self) -> ConfigView {
        ConfigView { suffixes: suffix_bytes(self.suffixes@), encrypt_mode: self.encrypt_mode }
    }
}

impl Default for Config {
    /// The working directory as the root, the default suffixes, encryption
    /// in place, no timeout.
    fn default() -> (config: Config)
        ensures
            config.watch_root@ == "."@,
            config@.suffixes == default_suffixes(),
            config.encrypt_mode == EncryptMode::InPlace,
            config.tool_timeout_ms is None,
    {
        Config {
            watch_root: ".".to_owned(),
            suffixes: default_suffix_list(),
            encrypt_mode: EncryptMode::InPlace,
            tool_timeout_ms: None,
        }
    }
}

} // verus!
