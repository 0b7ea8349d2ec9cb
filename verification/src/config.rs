//! Application metadata configuration.

use vstd::prelude::*;

verus! {

/// Metadata describing one application.
#[derive(Debug)]
pub struct Config {
    pub name: Vec<u8>,
    pub version: Vec<u8>,
    pub description: Vec<u8>,
}

impl Config {
    pub fn new(name: Vec<u8>, version: Vec<u8>, description: Vec<u8>) -> (r: Config)
        ensures
            r.name@ == name@,
            r.version@ == version@,
            r.description@ == description@,
    {
        Config { name, version, description }
    }
}

} // verus!
