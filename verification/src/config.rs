//! The settings that the program keeps between runs.

use vstd::prelude::*;
use crate::renderer::BACKEND_VULKAN;

verus! {

/// The persisted settings.
#[derive(Clone, Copy, Debug, PartialEq, Eq, Structural)]
pub struct Config {
    /// Selector of the rendering backend.
    pub renderer: u8,
}

impl Default for Config {
    /// The settings of a first run: the Vulkan backend.
    fn default() -> (res: Config)
        ensures
            res.renderer == BACKEND_VULKAN,
    {
        Config { renderer: BACKEND_VULKAN }
    }
}

impl Config {
    /// The settings to run with, given what was found stored: what was
    /// stored, or else those of a first run, which are then to be stored.
    /// The flag tells whether to store them.
    pub fn or_default(stored: Option<Config>) -> (res: (Config, bool))
        ensures
            match stored {
                Some(config) => res == (config, false),
                None => res == (Config { renderer: BACKEND_VULKAN }, true),
            },
    {
        match stored {
            Some(config) => (config, false),
            None => (Config::default(), true),
        }
    }
}

} // verus!
