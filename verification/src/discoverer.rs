//! The decisions of the `.echo` file discovery: which files mark a service
//! directory, and which of them register a service.
use vstd::prelude::*;
use crate::config::{ConfigError, EchoConfig};
use crate::text::str_eq;

verus! {

/// A file named exactly `.echo` marks a service directory.
pub fn is_echo_file_name(name: &str) -> (r: bool)
    ensures
        r == (name@ == ".echo"@),
{
    str_eq(name, ".echo")
}

/// The port whose use is checked next for the `.echo` file that was read as
/// `echo`: the file's port when it was read and enables its service. A file
/// that could not be read, or that disables its service, is skipped.
pub fn port_to_probe(echo: &Result<EchoConfig, ConfigError>) -> (r: Option<u16>)
    ensures
        r == match echo {
            Ok(e) => if e.enable {
                Some(e.port)
            } else {
                None
            },
            Err(_) => None,
        },
{
    match echo {
        Ok(e) => if e.enable {
            Some(e.port)
        } else {
            None
        },
        Err(_) => None,
    }
}

} // verus!
