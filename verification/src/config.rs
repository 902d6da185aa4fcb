//! The settings read from the configuration file.
use vstd::prelude::*;

verus! {

/// Server settings: the port to bind and the server's name. Reading them
/// from the settings file and the command line, and their defaults (taken
/// from the command line), belong to the program around the library.
#[derive(Debug)]
pub struct Opt {
    pub port: u32,
    pub name: String,
}

} // verus!
