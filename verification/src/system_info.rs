//! The `get_system_info` command endpoint: assembles the running platform,
//! the CPU architecture and the two build constants into a four-key record.
//! The surrounding program supplies the four values (they are compile-time
//! constants of the build) and serializes the record for the UI.

use vstd::prelude::*;
use vstd::string::StringExecFns;

verus! {

/// The system-information record: four fixed keys, values fixed per
/// compiled binary.
#[derive(Clone, Debug)]
pub struct SystemInfo {
    pub platform: String,
    pub arch: String,
    pub version: String,
    pub app_name: String,
}

/// Assembles the record from the build's four constants. Deterministic: the
/// result is fully fixed by the arguments, so repeated calls on the same
/// build yield identical records.
pub fn get_system_info(platform: &str, arch: &str, version: &str, app_name: &str) -> (info:
    SystemInfo)
    ensures
        info.platform@ == platform@,
        info.arch@ == arch@,
        info.version@ == version@,
        info.app_name@ == app_name@,
{
    SystemInfo {
        platform: String::from_str(platform),
        arch: String::from_str(arch),
        version: String::from_str(version),
        app_name: String::from_str(app_name),
    }
}

impl SystemInfo {
    /// The record as key/value pairs, in a fixed order: exactly the four
    /// keys `platform`, `arch`, `version`, `app_name`, each mapped to the
    /// record's value, and no other key.
    pub fn to_pairs(&self) -> (pairs: Vec<(String, String)>)
        ensures
            pairs@.len() == 4,
            pairs@[0].0@ == "platform"@ && pairs@[0].1@ == self.platform@,
            pairs@[1].0@ == "arch"@ && pairs@[1].1@ == self.arch@,
            pairs@[2].0@ == "version"@ && pairs@[2].1@ == self.version@,
            pairs@[3].0@ == "app_name"@ && pairs@[3].1@ == self.app_name@,
            forall|i: int|
                0 <= i < pairs@.len() ==> (pairs@[i].0@ == "platform"@ || pairs@[i].0@ == "arch"@
                    || pairs@[i].0@ == "version"@ || pairs@[i].0@ == "app_name"@),
    {
        let mut pairs: Vec<(String, String)> = Vec::new();
        pairs.push((String::from_str("platform"), self.platform.clone()));
        pairs.push((String::from_str("arch"), self.arch.clone()));
        pairs.push((String::from_str("version"), self.version.clone()));
        pairs.push((String::from_str("app_name"), self.app_name.clone()));
        pairs
    }
}

} // verus!
