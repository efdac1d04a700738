//! The settings of the application itself.

use crate::sdk::{CompilerArgs, CompilerArgsView};
use vstd::prelude::*;

verus! {

/// Where the settings are kept.
pub const CONFIG_FILE_PATH: &'static str = "~/.sm-pkg/config.yaml";

/// The settings of the application.
#[derive(Debug)]
pub struct Config {
    pub compiler_args: CompilerArgs,
}

impl Config {
    /// The settings read from the settings file, or, where there is no such
    /// file, the default compiler options.
    pub fn open_or_default(stored: Option<Config>) -> (r: Self)
        ensures
            match stored {
                Some(config) => r == config,
                None => r.compiler_args.deep_view() == CompilerArgsView::defaults(),
            },
    {
        match stored {
            Some(config) => config,
            None => Config { compiler_args: CompilerArgs::default() },
        }
    }
}

} // verus!
