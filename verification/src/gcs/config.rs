//! Which settings file the ground station reads.
use vstd::prelude::*;

verus! {

/// Settings of a mission store kept in local files.
#[derive(Debug, Clone, PartialEq, Eq)]
pub struct LocalStoreSettings {
    pub file_path: String,
}

/// The settings file to read, by name.
#[derive(Debug, Clone, PartialEq, Eq)]
pub struct ConfFile(pub String);

/// The configured location named neither `local` nor `remote`.
#[derive(Debug, Clone, PartialEq, Eq)]
pub struct UnknownLocation(pub String);

impl ConfFile {
    /// `local` reads `local.toml`, `remote` reads `remote.toml`; any other name is refused.
    pub fn from_location(value: String) -> (r: Result<ConfFile, UnknownLocation>)
        ensures
            value@ == "local"@ ==> (r matches Ok(f) && f.0@ == "local.toml"@),
            value@ == "remote"@ ==> (r matches Ok(f) && f.0@ == "remote.toml"@),
            value@ != "local"@ && value@ != "remote"@ ==> (r matches Err(e) && e.0@ == value@),
    {
        proof {
            reveal_strlit("local");
            reveal_strlit("remote");
            assert("local"@[0] != "remote"@[0]);
        }
        let local = "local".to_owned();
        let remote = "remote".to_owned();
        if value == local {
            Ok(ConfFile("local.toml".to_owned()))
        } else if value == remote {
            Ok(ConfFile("remote.toml".to_owned()))
        } else {
            Err(UnknownLocation(value))
        }
    }
}

} // verus!
