//! Display configuration: application name, version and author. It only
//! affects what is shown, never what runs; loading and saving it are file
//! work that lives outside the library.

use vstd::prelude::*;

verus! {

/// The persisted display metadata.
#[derive(Debug)]
pub struct Config {
    pub app_name: String,
    pub version: String,
    pub author: String,
}

impl Config {
    /// The built-in configuration used when none is persisted.
    pub fn default() -> (c: Config)
        ensures
            c.app_name@ == "System Update Manager"@,
            c.version@ == "0.1.0"@,
            c.author@ == "z3r0dr34d"@,
    {
        Config {
            app_name: "System Update Manager".to_owned(),
            version: "0.1.0".to_owned(),
            author: "z3r0dr34d".to_owned(),
        }
    }
}

} // verus!
