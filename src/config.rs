use vstd::prelude::*;

verus! {

/// Settings of the application.
#[derive(Debug)]
pub struct Config {
    /// Where the store's file lives.
    pub sqlite_path: String,
}

impl Default for Config {
    fn default() -> (r: Self)
        ensures
            r.sqlite_path@ == "./sqlite.db"@,
    {
        Config { sqlite_path: String::from_str("./sqlite.db") }
    }
}

} // verus!
