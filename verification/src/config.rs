//! The shell's configuration.

use vstd::prelude::*;

verus! {

/// What the shell is started with.
pub struct RshConfig {
    /// The text shown before each line being composed.
    pub prompt: String,
    /// The directory in which programs are looked for.
    pub bin_path: String,
}

impl RshConfig {
    /// A configuration with the given prompt and program directory.
    pub fn new(prompt: String, bin_path: String) -> (config: Self)
        ensures
            config.prompt == prompt,
            config.bin_path == bin_path,
    {
        Self { prompt, bin_path }
    }
}

} // verus!
