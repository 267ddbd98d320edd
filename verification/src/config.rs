//! The generator's settings, kept in a file beside the data.

use vstd::prelude::*;

verus! {

/// The generator's settings.
pub struct Config {
    /// Whether subaction pages use the old renderer.
    pub legacy_renderer: bool,
    /// The mods to generate pages for; all when empty.
    pub mods: Vec<String>,
    /// The address under which the website is served.
    pub web_root: String,
}

impl Config {
    /// The settings written when there are none yet: the current renderer, every mod, and
    /// the website served from `/`.
    pub fn default_config() -> (config: Config)
        ensures
            !config.legacy_renderer,
            config.mods@.len() == 0,
            config.web_root@ == "/"@,
    {
        Config { legacy_renderer: false, mods: Vec::new(), web_root: String::from_str("/") }
    }
}

} // verus!
